//! The value sources that a sensor can be bound to, and what each of them
//! reports for an observation of the host.
use vstd::prelude::*;
use vstd::string::*;

use crate::config::PostProcess;
use crate::decimal::{
    decimal, decimal_string, integer_of, parse_integer, signed_decimal, signed_decimal_string,
};
use crate::docker_stats::{container_reading, stats_wanted, ContainerStats, StatsCache};
use crate::numeral::{is_numeral, is_numeral_text};
use crate::sensor::clone_strings;
use crate::text::{
    chars_of, keep_numeric, lowercase, numerals, string_of_all, trim, trimmed, uppercase,
};
use crate::unraid_stats::{
    array_status_of, cpu_temp_of, disk_usage_of, parse_array_status, parse_cpu_temp,
    parse_disk_usage,
};

verus! {

/// Which figure of the host a system reporter reads.
#[derive(Debug, Clone, Copy, PartialEq, Eq, Structural)]
pub enum SystemSensorReporterStat {
    MemoryUsage,
    MemoryUsed,
    MemoryTotal,
    CpuUsage,
    Uptime,
}

/// Reports one figure of a snapshot of the host.
#[derive(Debug, Clone, Copy, PartialEq, Eq, Structural)]
pub struct SystemSensorReporter {
    pub name: SystemSensorReporterStat,
}

/// Which figure of the container engine an engine reporter derives.
#[derive(Debug, Clone, Copy, PartialEq, Eq, Structural)]
pub enum DockerSensorReporterStat {
    ImagesCount,
    ImagesSize,
    VolumesCount,
    RunningCount,
    UnhealthyCount,
}

/// Reports a count or a sum over a listing of the container engine.
#[derive(Debug, Clone, Copy, PartialEq, Eq, Structural)]
pub struct DockerSensorReporter {
    pub stat: DockerSensorReporterStat,
}

/// Which figure of one container a container reporter reads.
#[derive(Debug, Clone, Copy, PartialEq, Eq, Structural)]
pub enum DockerContainerSensorReporterStat {
    CpuUsage,
    MemoryUsage,
    Status,
}

/// What the engine's listing says of one container, as far as sensors read it.
#[derive(Debug, Default, Clone)]
pub struct ContainerInfo {
    pub id: Option<String>,
    pub names: Option<Vec<String>>,
    pub status: Option<String>,
}

/// The mathematical value of a [`ContainerInfo`].
pub struct ContainerInfoView {
    pub id: Option<Seq<char>>,
    pub names: Option<Seq<Seq<char>>>,
    pub status: Option<Seq<char>>,
}

impl View for ContainerInfo {
    type V = ContainerInfoView;

    open spec fn view(&self) -> ContainerInfoView {
        ContainerInfoView {
            id: self.id.deep_view(),
            names: self.names.deep_view(),
            status: self.status.deep_view(),
        }
    }
}

/// Reports one figure of one container. The reporters of one container
/// share the cell `group` of the cycle's sample cache.
#[derive(Debug, Clone)]
pub struct DockerContainerSensorReporter {
    pub container: ContainerInfo,
    pub group: usize,
    pub stat: DockerContainerSensorReporterStat,
}

/// The mathematical value of a [`DockerContainerSensorReporter`].
pub struct ContainerReporterView {
    pub container: ContainerInfoView,
    pub group: usize,
    pub stat: DockerContainerSensorReporterStat,
}

impl View for DockerContainerSensorReporter {
    type V = ContainerReporterView;

    open spec fn view(&self) -> ContainerReporterView {
        ContainerReporterView { container: self.container@, group: self.group, stat: self.stat }
    }
}

/// What is made of the trimmed output of a command.
#[derive(Debug, Clone, Copy, PartialEq, Eq, Structural)]
pub enum Transform {
    /// The output as it is.
    PassThrough,
    /// What the user's configuration asks for.
    Process(PostProcess),
    /// The use percentage of a file-system usage table.
    DiskUsage,
    /// The size column of a file-system usage table.
    DiskTotal,
    /// The available column of a file-system usage table.
    DiskAvailable,
    /// The package temperature of a hardware-sensor listing.
    CpuTemperature,
    /// The state of a storage-array status listing.
    ArrayStatus,
}

/// Reports what a command prints.
#[derive(Debug, Clone)]
pub struct CommandSensorReporter {
    pub command: String,
    pub args: Option<Vec<String>>,
    pub transform: Option<Transform>,
}

/// The mathematical value of a [`CommandSensorReporter`].
pub struct CommandReporterView {
    pub command: Seq<char>,
    pub args: Option<Seq<Seq<char>>>,
    pub transform: Option<Transform>,
}

impl View for CommandSensorReporter {
    type V = CommandReporterView;

    open spec fn view(&self) -> CommandReporterView {
        CommandReporterView {
            command: self.command@,
            args: self.args.deep_view(),
            transform: self.transform,
        }
    }
}

/// The value source of a sensor.
#[derive(Debug, Clone)]
pub enum SensorReporterType {
    System(SystemSensorReporter),
    Command(CommandSensorReporter),
    DockerContainer(DockerContainerSensorReporter),
    Docker(DockerSensorReporter),
}

/// The mathematical value of a [`SensorReporterType`].
pub enum ReporterView {
    System(SystemSensorReporter),
    Command(CommandReporterView),
    DockerContainer(ContainerReporterView),
    Docker(DockerSensorReporter),
}

impl View for SensorReporterType {
    type V = ReporterView;

    open spec fn view(&self) -> ReporterView {
        match self {
            SensorReporterType::System(r) => ReporterView::System(*r),
            SensorReporterType::Command(r) => ReporterView::Command(r@),
            SensorReporterType::DockerContainer(r) => ReporterView::DockerContainer(r@),
            SensorReporterType::Docker(r) => ReporterView::Docker(*r),
        }
    }
}

/// How a number is written once it has been worked out.
#[derive(Debug, Clone, Copy, PartialEq, Eq, Structural)]
pub enum Notation {
    /// With as few digits as tell it from every other number.
    Shortest,
    /// With one digit after the point.
    OneDecimal,
}

/// What a reporter reports. A number that takes arithmetic on fractions to
/// work out is reported as what it is made of, with the notation in which
/// it is to be written.
#[derive(Debug, Clone)]
pub enum Reading {
    /// The value, as it is published.
    Text(String),
    /// The number that a numeral stands for.
    Number { numeral: String, notation: Notation },
    /// `part` over `whole`, times `times`, as a percentage. `whole` is
    /// not zero.
    Percent { part: u64, whole: u64, times: u32, notation: Notation },
}

/// The mathematical value of a [`Reading`].
pub enum ReadingView {
    Text(Seq<char>),
    Number { numeral: Seq<char>, notation: Notation },
    Percent { part: u64, whole: u64, times: u32, notation: Notation },
}

impl View for Reading {
    type V = ReadingView;

    open spec fn view(&self) -> ReadingView {
        match self {
            Reading::Text(t) => ReadingView::Text(t@),
            Reading::Number { numeral, notation } => ReadingView::Number {
                numeral: numeral@,
                notation: *notation,
            },
            Reading::Percent { part, whole, times, notation } => ReadingView::Percent {
                part: *part,
                whole: *whole,
                times: *times,
                notation: *notation,
            },
        }
    }
}

impl ReadingView {
    /// Whether the reading can be written down: its numeral is one, and it
    /// divides by no zero.
    pub open spec fn wf(self) -> bool {
        match self {
            ReadingView::Text(_) => true,
            ReadingView::Number { numeral, .. } => is_numeral(numeral),
            ReadingView::Percent { whole, .. } => whole > 0,
        }
    }
}

/// The mathematical value of an optional reading.
pub open spec fn reading_view(r: Option<Reading>) -> Option<ReadingView> {
    match r {
        Some(v) => Some(v@),
        None => None,
    }
}

/// A point-in-time reading of the host's figures.
#[derive(Debug, Default, Clone)]
pub struct SystemSnapshot {
    /// The memory of the host, in bytes.
    pub total_memory: u64,
    /// The memory in use, in bytes.
    pub used_memory: u64,
    /// The utilisation of all processors in percent, as it is published.
    pub cpu_usage: String,
    /// The seconds since the host started.
    pub uptime: u64,
}

/// The mathematical value of a [`SystemSnapshot`].
pub struct SnapshotView {
    pub total_memory: u64,
    pub used_memory: u64,
    pub cpu_usage: Seq<char>,
    pub uptime: u64,
}

impl View for SystemSnapshot {
    type V = SnapshotView;

    open spec fn view(&self) -> SnapshotView {
        SnapshotView {
            total_memory: self.total_memory,
            used_memory: self.used_memory,
            cpu_usage: self.cpu_usage@,
            uptime: self.uptime,
        }
    }
}

/// What a system reporter reports of a snapshot. The share of memory in
/// use is a percentage with one decimal, and zero for a host without
/// memory; the other figures are taken as they are.
pub open spec fn system_reading(stat: SystemSensorReporterStat, snapshot: SnapshotView) -> ReadingView {
    match stat {
        SystemSensorReporterStat::MemoryUsage => if snapshot.total_memory == 0 {
            ReadingView::Text("0.0"@)
        } else {
            ReadingView::Percent {
                part: snapshot.used_memory,
                whole: snapshot.total_memory,
                times: 1,
                notation: Notation::OneDecimal,
            }
        },
        SystemSensorReporterStat::MemoryUsed => ReadingView::Text(
            decimal(snapshot.used_memory as nat),
        ),
        SystemSensorReporterStat::MemoryTotal => ReadingView::Text(
            decimal(snapshot.total_memory as nat),
        ),
        SystemSensorReporterStat::CpuUsage => ReadingView::Text(snapshot.cpu_usage),
        SystemSensorReporterStat::Uptime => ReadingView::Text(decimal(snapshot.uptime as nat)),
    }
}

impl SystemSensorReporter {
    /// The reporter's figure of the snapshot. There always is one.
    pub fn get_value(&self, snapshot: &SystemSnapshot) -> (r: Option<Reading>)
        ensures
            reading_view(r) == Some(system_reading(self.name, snapshot@)),
            system_reading(self.name, snapshot@).wf(),
    {
        Some(
            match self.name {
                SystemSensorReporterStat::MemoryUsage => {
                    if snapshot.total_memory == 0 {
                        Reading::Text(String::from_str("0.0"))
                    } else {
                        Reading::Percent {
                            part: snapshot.used_memory,
                            whole: snapshot.total_memory,
                            times: 1,
                            notation: Notation::OneDecimal,
                        }
                    }
                },
                SystemSensorReporterStat::MemoryUsed => Reading::Text(
                    decimal_string(snapshot.used_memory as u128),
                ),
                SystemSensorReporterStat::MemoryTotal => Reading::Text(
                    decimal_string(snapshot.total_memory as u128),
                ),
                SystemSensorReporterStat::CpuUsage => Reading::Text(snapshot.cpu_usage.clone()),
                SystemSensorReporterStat::Uptime => Reading::Text(
                    decimal_string(snapshot.uptime as u128),
                ),
            },
        )
    }
}

/// By what the containers of a listing are chosen.
#[derive(Debug, Clone, Copy, PartialEq, Eq, Structural)]
pub enum ContainerFilter {
    /// Those whose status is `running`.
    Running,
    /// Those whose health is `unhealthy`.
    Unhealthy,
}

impl ContainerFilter {
    /// The name of the filter, as the engine knows it.
    pub open spec fn key_text(self) -> Seq<char> {
        match self {
            ContainerFilter::Running => "status"@,
            ContainerFilter::Unhealthy => "health"@,
        }
    }

    /// The value that the filter asks for.
    pub open spec fn value_text(self) -> Seq<char> {
        match self {
            ContainerFilter::Running => "running"@,
            ContainerFilter::Unhealthy => "unhealthy"@,
        }
    }

    /// The name of the filter, as the engine knows it.
    pub fn key(&self) -> (s: &'static str)
        ensures
            s@ == self.key_text(),
    {
        match self {
            ContainerFilter::Running => "status",
            ContainerFilter::Unhealthy => "health",
        }
    }

    /// The value that the filter asks for.
    pub fn value(&self) -> (s: &'static str)
        ensures
            s@ == self.value_text(),
    {
        match self {
            ContainerFilter::Running => "running",
            ContainerFilter::Unhealthy => "unhealthy",
        }
    }
}

/// What an engine reporter asks the container engine to list.
#[derive(Debug, Clone, Copy, PartialEq, Eq, Structural)]
pub enum DockerQuery {
    /// The images.
    Images,
    /// The volumes.
    Volumes,
    /// All containers, stopped ones too, that pass the filter.
    Containers(ContainerFilter),
}

/// What the container engine answered to a query.
#[derive(Debug, Clone)]
pub enum DockerReply {
    /// The query failed.
    Failed,
    /// The size of each image, in bytes.
    Images(Vec<i64>),
    /// The number of volumes, where the answer held a list of them.
    Volumes(Option<usize>),
    /// The number of containers.
    Containers(usize),
}

/// The mathematical value of a [`DockerReply`].
pub enum DockerReplyView {
    Failed,
    Images(Seq<i64>),
    Volumes(Option<usize>),
    Containers(usize),
}

impl View for DockerReply {
    type V = DockerReplyView;

    open spec fn view(&self) -> DockerReplyView {
        match self {
            DockerReply::Failed => DockerReplyView::Failed,
            DockerReply::Images(sizes) => DockerReplyView::Images(sizes@),
            DockerReply::Volumes(n) => DockerReplyView::Volumes(*n),
            DockerReply::Containers(n) => DockerReplyView::Containers(*n),
        }
    }
}

/// The sum of the sizes.
pub open spec fn total_size(sizes: Seq<i64>) -> int
    decreases sizes.len(),
{
    if sizes.len() == 0 {
        0
    } else {
        total_size(sizes.drop_last()) + sizes.last()
    }
}

/// What an engine reporter asks the engine.
pub open spec fn docker_query(stat: DockerSensorReporterStat) -> DockerQuery {
    match stat {
        DockerSensorReporterStat::ImagesCount => DockerQuery::Images,
        DockerSensorReporterStat::ImagesSize => DockerQuery::Images,
        DockerSensorReporterStat::VolumesCount => DockerQuery::Volumes,
        DockerSensorReporterStat::RunningCount => DockerQuery::Containers(ContainerFilter::Running),
        DockerSensorReporterStat::UnhealthyCount => DockerQuery::Containers(
            ContainerFilter::Unhealthy,
        ),
    }
}

/// What an engine reporter reports of the engine's answer: the number of
/// images, the sum of their sizes, the number of volumes, none where the
/// answer held no list, or the number of containers, each in decimal
/// notation. A failed query, or an answer to another query, gives nothing.
pub open spec fn docker_value(stat: DockerSensorReporterStat, reply: DockerReplyView) -> Option<
    Seq<char>,
> {
    match (docker_query(stat), reply) {
        (DockerQuery::Images, DockerReplyView::Images(sizes)) => if stat
            == DockerSensorReporterStat::ImagesSize {
            Some(signed_decimal(total_size(sizes)))
        } else {
            Some(decimal(sizes.len()))
        },
        (DockerQuery::Volumes, DockerReplyView::Volumes(Some(n))) => Some(decimal(n as nat)),
        (DockerQuery::Volumes, DockerReplyView::Volumes(None)) => Some(decimal(0)),
        (DockerQuery::Containers(_), DockerReplyView::Containers(n)) => Some(decimal(n as nat)),
        _ => None,
    }
}

/// The sum of the sizes.
pub fn sum_sizes(sizes: &Vec<i64>) -> (sum: i128)
    ensures
        sum == total_size(sizes@),
{
    let mut sum: i128 = 0;
    let mut i: usize = 0;
    while i < sizes.len()
        invariant
            i <= sizes.len(),
            sum == total_size(sizes@.take(i as int)),
            -(i as int) * 0x8000_0000_0000_0000 <= sum <= (i as int) * 0x8000_0000_0000_0000,
        decreases sizes.len() - i,
    {
        assert(sizes@.take(i + 1).drop_last() =~= sizes@.take(i as int));
        sum = sum + sizes[i] as i128;
        i += 1;
    }
    assert(sizes@.take(i as int) =~= sizes@);
    sum
}

impl DockerSensorReporter {
    /// What the reporter asks the container engine.
    pub fn query(&self) -> (q: DockerQuery)
        ensures
            q == docker_query(self.stat),
    {
        match self.stat {
            DockerSensorReporterStat::ImagesCount => DockerQuery::Images,
            DockerSensorReporterStat::ImagesSize => DockerQuery::Images,
            DockerSensorReporterStat::VolumesCount => DockerQuery::Volumes,
            DockerSensorReporterStat::RunningCount => DockerQuery::Containers(
                ContainerFilter::Running,
            ),
            DockerSensorReporterStat::UnhealthyCount => DockerQuery::Containers(
                ContainerFilter::Unhealthy,
            ),
        }
    }

    /// The reporter's figure of the engine's answer.
    pub fn get_value(&self, reply: &DockerReply) -> (r: Option<String>)
        ensures
            r.deep_view() == docker_value(self.stat, reply@),
    {
        match (self.query(), reply) {
            (DockerQuery::Images, DockerReply::Images(sizes)) => {
                if self.stat == DockerSensorReporterStat::ImagesSize {
                    Some(signed_decimal_string(sum_sizes(sizes)))
                } else {
                    Some(decimal_string(sizes.len() as u128))
                }
            },
            (DockerQuery::Volumes, DockerReply::Volumes(Some(n))) => Some(
                decimal_string(*n as u128),
            ),
            (DockerQuery::Volumes, DockerReply::Volumes(None)) => Some(decimal_string(0)),
            (DockerQuery::Containers(_), DockerReply::Containers(n)) => Some(
                decimal_string(*n as u128),
            ),
            _ => None,
        }
    }
}

/// What a transform makes of a text.
pub open spec fn transformed(transform: Transform, text: Seq<char>) -> Option<ReadingView> {
    match transform {
        Transform::PassThrough => Some(ReadingView::Text(text)),
        Transform::Process(PostProcess::TrimWhitespace) => Some(ReadingView::Text(trimmed(text))),
        Transform::Process(PostProcess::ParseFloat) => if is_numeral(text) {
            Some(ReadingView::Number { numeral: text, notation: Notation::Shortest })
        } else {
            None
        },
        Transform::Process(PostProcess::ParseInteger) => match integer_of(text) {
            Some(i) => Some(ReadingView::Text(signed_decimal(i))),
            None => None,
        },
        Transform::Process(PostProcess::ExtractNumber) => if is_numeral(numerals(text)) {
            Some(ReadingView::Number { numeral: numerals(text), notation: Notation::Shortest })
        } else {
            None
        },
        Transform::Process(PostProcess::ToUpperCase) => Some(ReadingView::Text(uppercase(text))),
        Transform::Process(PostProcess::ToLowerCase) => Some(ReadingView::Text(lowercase(text))),
        Transform::DiskUsage => match disk_usage_of(text) {
            Some(info) => Some(
                ReadingView::Number { numeral: info.usage_percent, notation: Notation::Shortest },
            ),
            None => None,
        },
        Transform::DiskTotal => match disk_usage_of(text) {
            Some(info) => Some(ReadingView::Text(info.total)),
            None => None,
        },
        Transform::DiskAvailable => match disk_usage_of(text) {
            Some(info) => Some(ReadingView::Text(info.available)),
            None => None,
        },
        Transform::CpuTemperature => match cpu_temp_of(text) {
            Some(t) => Some(ReadingView::Number { numeral: t, notation: Notation::OneDecimal }),
            None => None,
        },
        Transform::ArrayStatus => match array_status_of(text) {
            Some(status) => Some(ReadingView::Text(status)),
            None => None,
        },
    }
}

/// Every reading that a transform gives can be written down.
pub proof fn lemma_transformed_wf(transform: Transform, text: Seq<char>)
    ensures
        transformed(transform, text) matches Some(r) ==> r.wf(),
{
}

impl Transform {
    /// What the transform makes of `text`, or nothing where the text is not
    /// of the form that the transform reads.
    pub fn apply(&self, text: &str) -> (r: Option<Reading>)
        ensures
            reading_view(r) == transformed(*self, text@),
    {
        match self {
            Transform::PassThrough => Some(Reading::Text(String::from_str(text))),
            Transform::Process(PostProcess::TrimWhitespace) => Some(Reading::Text(trim(text))),
            Transform::Process(PostProcess::ParseFloat) => {
                let v = chars_of(text);
                if is_numeral_text(&v) {
                    Some(
                        Reading::Number {
                            numeral: String::from_str(text),
                            notation: Notation::Shortest,
                        },
                    )
                } else {
                    None
                }
            },
            Transform::Process(PostProcess::ParseInteger) => {
                let v = chars_of(text);
                match parse_integer(&v) {
                    Some(i) => Some(Reading::Text(signed_decimal_string(i as i128))),
                    None => None,
                }
            },
            Transform::Process(PostProcess::ExtractNumber) => {
                let v = chars_of(text);
                let kept = keep_numeric(&v);
                if is_numeral_text(&kept) {
                    Some(
                        Reading::Number {
                            numeral: string_of_all(&kept),
                            notation: Notation::Shortest,
                        },
                    )
                } else {
                    None
                }
            },
            Transform::Process(PostProcess::ToUpperCase) => Some(
                Reading::Text(text.to_uppercase()),
            ),
            Transform::Process(PostProcess::ToLowerCase) => Some(
                Reading::Text(text.to_lowercase()),
            ),
            Transform::DiskUsage => match parse_disk_usage(text) {
                Some(info) => Some(
                    Reading::Number { numeral: info.usage_percent, notation: Notation::Shortest },
                ),
                None => None,
            },
            Transform::DiskTotal => match parse_disk_usage(text) {
                Some(info) => Some(Reading::Text(info.total)),
                None => None,
            },
            Transform::DiskAvailable => match parse_disk_usage(text) {
                Some(info) => Some(Reading::Text(info.available)),
                None => None,
            },
            Transform::CpuTemperature => match parse_cpu_temp(text) {
                Some(t) => Some(Reading::Number { numeral: t, notation: Notation::OneDecimal }),
                None => None,
            },
            Transform::ArrayStatus => match parse_array_status(text) {
                Some(status) => Some(Reading::Text(status)),
                None => None,
            },
        }
    }
}

/// What a command reporter reports of what its command printed: the
/// transform of the output without the white space around it, or the
/// trimmed output itself where the reporter has no transform. A command
/// that could not be run gives nothing.
pub open spec fn command_reading(transform: Option<Transform>, output: Option<Seq<char>>) -> Option<
    ReadingView,
> {
    match output {
        None => None,
        Some(text) => match transform {
            Some(t) => transformed(t, trimmed(text)),
            None => Some(ReadingView::Text(trimmed(text))),
        },
    }
}

impl CommandSensorReporter {
    /// The reporter's value for what its command printed on its standard
    /// output; `None` stands for a command that could not be run.
    pub fn get_value(&self, output: Option<&str>) -> (r: Option<Reading>)
        ensures
            reading_view(r) == command_reading(
                self.transform,
                match output {
                    Some(text) => Some(text@),
                    None => None,
                },
            ),
    {
        match output {
            None => None,
            Some(text) => {
                let result = trim(text);
                match &self.transform {
                    Some(t) => t.apply(result.as_str()),
                    None => Some(Reading::Text(result)),
                }
            },
        }
    }
}

/// What has to be observed before a reporter can report.
#[derive(Debug, Clone)]
pub enum Request {
    /// Nothing: the reporter reports of what is known already.
    Nothing,
    /// A snapshot of the host's figures.
    Snapshot,
    /// What a command prints when it is run with the arguments.
    Run { command: String, args: Vec<String> },
    /// A listing of the container engine.
    List(DockerQuery),
    /// One sample of the figures of a container, for the cell `group`.
    Sample { container: String, group: usize },
}

/// The mathematical value of a [`Request`].
pub enum RequestView {
    Nothing,
    Snapshot,
    Run { command: Seq<char>, args: Seq<Seq<char>> },
    List(DockerQuery),
    Sample { container: Seq<char>, group: usize },
}

impl View for Request {
    type V = RequestView;

    open spec fn view(&self) -> RequestView {
        match self {
            Request::Nothing => RequestView::Nothing,
            Request::Snapshot => RequestView::Snapshot,
            Request::Run { command, args } => RequestView::Run {
                command: command@,
                args: args.deep_view(),
            },
            Request::List(q) => RequestView::List(*q),
            Request::Sample { container, group } => RequestView::Sample {
                container: container@,
                group: *group,
            },
        }
    }
}

/// What was observed for a reporter.
#[derive(Debug, Clone)]
pub enum Observation {
    /// Nothing.
    Nothing,
    /// A snapshot of the host's figures.
    Snapshot(SystemSnapshot),
    /// What the command printed, or `None` where it could not be run.
    Output(Option<String>),
    /// What the container engine answered.
    Listing(DockerReply),
}

/// The mathematical value of an [`Observation`].
pub enum ObservationView {
    Nothing,
    Snapshot(SnapshotView),
    Output(Option<Seq<char>>),
    Listing(DockerReplyView),
}

impl View for Observation {
    type V = ObservationView;

    open spec fn view(&self) -> ObservationView {
        match self {
            Observation::Nothing => ObservationView::Nothing,
            Observation::Snapshot(s) => ObservationView::Snapshot(s@),
            Observation::Output(o) => ObservationView::Output(o.deep_view()),
            Observation::Listing(l) => ObservationView::Listing(l@),
        }
    }
}

/// What a reporter asks to be observed, given the sample that the cache
/// holds for its group, if it has one. A command without arguments is run
/// with none; a container reporter asks for a sample only as long as
/// there is none.
pub open spec fn request_of(reporter: ReporterView, cached: Option<ContainerStats>) -> RequestView {
    match reporter {
        ReporterView::System(_) => RequestView::Snapshot,
        ReporterView::Command(r) => RequestView::Run {
            command: r.command,
            args: match r.args {
                Some(args) => args,
                None => Seq::empty(),
            },
        },
        ReporterView::Docker(r) => RequestView::List(docker_query(r.stat)),
        ReporterView::DockerContainer(r) => match stats_wanted(r, cached) {
            Some(id) => RequestView::Sample { container: id, group: r.group },
            None => RequestView::Nothing,
        },
    }
}

/// What a reporter reports of an observation, given the sample that the
/// cache holds for its group. An observation of another kind than the
/// reporter asked for gives nothing; a container reporter reports of the
/// cache alone.
pub open spec fn value_of(
    reporter: ReporterView,
    observation: ObservationView,
    cached: Option<ContainerStats>,
) -> Option<ReadingView> {
    match reporter {
        ReporterView::System(r) => match observation {
            ObservationView::Snapshot(snapshot) => Some(system_reading(r.name, snapshot)),
            _ => None,
        },
        ReporterView::Command(r) => match observation {
            ObservationView::Output(output) => command_reading(r.transform, output),
            _ => None,
        },
        ReporterView::Docker(r) => match observation {
            ObservationView::Listing(reply) => match docker_value(r.stat, reply) {
                Some(text) => Some(ReadingView::Text(text)),
                None => None,
            },
            _ => None,
        },
        ReporterView::DockerContainer(r) => container_reading(r, cached),
    }
}

/// The group of the sample cache that a reporter reads, if it reads one.
pub open spec fn group_of(reporter: ReporterView) -> usize {
    match reporter {
        ReporterView::DockerContainer(r) => r.group,
        _ => 0,
    }
}

/// Every reading that a reporter gives can be written down.
pub proof fn lemma_value_wf(
    reporter: ReporterView,
    observation: ObservationView,
    cached: Option<ContainerStats>,
)
    ensures
        value_of(reporter, observation, cached) matches Some(v) ==> v.wf(),
{
}

impl SensorReporterType {
    /// What has to be observed before the reporter can report.
    pub fn request(&self, cache: &StatsCache) -> (request: Request)
        ensures
            request@ == request_of(self@, cache.sample(group_of(self@))),
    {
        match self {
            SensorReporterType::System(_) => Request::Snapshot,
            SensorReporterType::Command(r) => Request::Run {
                command: r.command.clone(),
                args: match &r.args {
                    Some(args) => clone_strings(args),
                    None => {
                        let none: Vec<String> = Vec::new();
                        assert(none.deep_view() =~= Seq::<Seq<char>>::empty());
                        none
                    },
                },
            },
            SensorReporterType::Docker(r) => Request::List(r.query()),
            SensorReporterType::DockerContainer(r) => match r.stats_request(cache) {
                Some(id) => Request::Sample { container: id, group: r.group },
                None => Request::Nothing,
            },
        }
    }

    /// The reporter's value for what was observed.
    pub fn get_value(&self, observation: &Observation, cache: &StatsCache) -> (r: Option<Reading>)
        ensures
            reading_view(r) == value_of(self@, observation@, cache.sample(group_of(self@))),
    {
        match self {
            SensorReporterType::System(reporter) => match observation {
                Observation::Snapshot(snapshot) => reporter.get_value(snapshot),
                _ => None,
            },
            SensorReporterType::Command(reporter) => match observation {
                Observation::Output(Some(text)) => reporter.get_value(Some(text.as_str())),
                Observation::Output(None) => reporter.get_value(None),
                _ => None,
            },
            SensorReporterType::Docker(reporter) => match observation {
                Observation::Listing(reply) => match reporter.get_value(reply) {
                    Some(text) => Some(Reading::Text(text)),
                    None => None,
                },
                _ => None,
            },
            SensorReporterType::DockerContainer(reporter) => reporter.get_value(cache),
        }
    }
}

} // verus!
