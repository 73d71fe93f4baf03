//! The sensors of the container engine and of its running containers, and
//! what a container's reporters make of a sample of its figures.
use vstd::prelude::*;
use vstd::string::*;

use crate::decimal::{decimal, decimal_string};
use crate::device_class::DeviceClass;
use crate::reporter::{
    reading_view, ContainerFilter, ContainerInfo, ContainerInfoView, ContainerReporterView,
    DockerContainerSensorReporter, DockerContainerSensorReporterStat, DockerQuery,
    DockerSensorReporter, DockerSensorReporterStat, Notation, Reading, ReadingView, ReporterView,
    SensorReporterType,
};
use crate::sensor::{clone_opt_strings, described, opt_text, Sensor, SensorView};
use crate::text::{chars_of, run_end, string_of, strip_start, CharClass};
use crate::overrides::sensor_views;

verus! {

/// The processor time that a container has used.
#[derive(Debug, Default, Clone, Copy)]
pub struct CpuUsage {
    pub total_usage: Option<u64>,
}

/// The processor figures of one sample.
#[derive(Debug, Default, Clone, Copy)]
pub struct CpuStats {
    pub cpu_usage: Option<CpuUsage>,
    pub system_cpu_usage: Option<u64>,
    pub online_cpus: Option<u32>,
}

/// The memory figures of one sample.
#[derive(Debug, Default, Clone, Copy)]
pub struct MemoryStats {
    pub usage: Option<u64>,
}

/// One sample of a container's figures: the processor counters as they
/// are and as they were at the sample before, and the memory in use.
#[derive(Debug, Default, Clone, Copy)]
pub struct ContainerStats {
    pub cpu_stats: Option<CpuStats>,
    pub precpu_stats: Option<CpuStats>,
    pub memory_stats: Option<MemoryStats>,
}

/// The processor time used, zero where the sample does not say.
pub open spec fn total_usage_of(stats: Option<CpuStats>) -> u64 {
    match stats {
        Some(CpuStats { cpu_usage: Some(CpuUsage { total_usage: Some(t) }), .. }) => t,
        _ => 0,
    }
}

/// The processor time of the whole host, zero where the sample does not
/// say.
pub open spec fn system_usage_of(stats: Option<CpuStats>) -> u64 {
    match stats {
        Some(CpuStats { system_cpu_usage: Some(t), .. }) => t,
        _ => 0,
    }
}

/// The number of processors, zero where the sample does not say.
pub open spec fn online_cpus_of(stats: Option<CpuStats>) -> u32 {
    match stats {
        Some(CpuStats { online_cpus: Some(n), .. }) => n,
        _ => 0,
    }
}

/// The memory in use, zero where the sample does not say.
pub open spec fn memory_usage_of(stats: ContainerStats) -> u64 {
    match stats.memory_stats {
        Some(MemoryStats { usage: Some(u) }) => u,
        _ => 0,
    }
}

/// By how much the container's processor time grew between the two
/// samples.
pub open spec fn cpu_delta(stats: ContainerStats) -> int {
    total_usage_of(stats.cpu_stats) - total_usage_of(stats.precpu_stats)
}

/// By how much the host's processor time grew between the two samples.
pub open spec fn system_delta(stats: ContainerStats) -> int {
    system_usage_of(stats.cpu_stats) - system_usage_of(stats.precpu_stats)
}

/// The share of the host's processor time that a container used, in
/// percent of one processor.
#[derive(Debug, Clone, Copy, PartialEq, Eq)]
pub enum CpuPercent {
    /// Exactly zero.
    Zero,
    /// `cpu_delta` over `system_delta`, times `online_cpus`, times one
    /// hundred. Both deltas are positive.
    Ratio { cpu_delta: u64, system_delta: u64, online_cpus: u32 },
}

/// The processor share that a sample shows. It is zero unless both
/// counters grew.
pub open spec fn cpu_percent(stats: ContainerStats) -> CpuPercent {
    if system_delta(stats) > 0 && cpu_delta(stats) > 0 {
        CpuPercent::Ratio {
            cpu_delta: cpu_delta(stats) as u64,
            system_delta: system_delta(stats) as u64,
            online_cpus: online_cpus_of(stats.cpu_stats),
        }
    } else {
        CpuPercent::Zero
    }
}

/// A counter that stood still or fell gives a share of exactly zero.
pub proof fn lemma_cpu_percent_zero(stats: ContainerStats)
    requires
        cpu_delta(stats) <= 0 || system_delta(stats) <= 0,
    ensures
        cpu_percent(stats) == CpuPercent::Zero,
{
}

/// Where both counters grew, the share is the ratio of what they grew by,
/// times the number of processors.
pub proof fn lemma_cpu_percent_ratio(stats: ContainerStats)
    requires
        cpu_delta(stats) > 0,
        system_delta(stats) > 0,
    ensures
        cpu_percent(stats) matches CpuPercent::Ratio { cpu_delta: c, system_delta: s, online_cpus: n }
            && c == cpu_delta(stats) && s == system_delta(stats) && n == online_cpus_of(
            stats.cpu_stats,
        ),
{
}

fn total_usage(stats: &Option<CpuStats>) -> (t: u64)
    ensures
        t == total_usage_of(*stats),
{
    match stats {
        Some(CpuStats { cpu_usage: Some(CpuUsage { total_usage: Some(t) }), .. }) => *t,
        _ => 0,
    }
}

fn system_usage(stats: &Option<CpuStats>) -> (t: u64)
    ensures
        t == system_usage_of(*stats),
{
    match stats {
        Some(CpuStats { system_cpu_usage: Some(t), .. }) => *t,
        _ => 0,
    }
}

fn online_cpus(stats: &Option<CpuStats>) -> (n: u32)
    ensures
        n == online_cpus_of(*stats),
{
    match stats {
        Some(CpuStats { online_cpus: Some(n), .. }) => *n,
        _ => 0,
    }
}

/// The processor share that a sample shows.
pub fn calculate_cpu_percent(stats: &ContainerStats) -> (r: CpuPercent)
    ensures
        r == cpu_percent(*stats),
{
    let now = total_usage(&stats.cpu_stats);
    let before = total_usage(&stats.precpu_stats);
    let system_now = system_usage(&stats.cpu_stats);
    let system_before = system_usage(&stats.precpu_stats);
    if system_now > system_before && now > before {
        CpuPercent::Ratio {
            cpu_delta: now - before,
            system_delta: system_now - system_before,
            online_cpus: online_cpus(&stats.cpu_stats),
        }
    } else {
        CpuPercent::Zero
    }
}

/// The sample that a list of cells holds for a group: that of the last
/// cell of the group, if there is one.
pub open spec fn sample_in(cells: Seq<(usize, ContainerStats)>, group: usize) -> Option<
    ContainerStats,
>
    decreases cells.len(),
{
    if cells.len() == 0 {
        None
    } else if cells.last().0 == group {
        Some(cells.last().1)
    } else {
        sample_in(cells.drop_last(), group)
    }
}

/// The samples of one cycle, one cell for each group of reporters that
/// was sampled. A cell is filled once and then stays as it is.
#[derive(Debug, Default, Clone)]
pub struct StatsCache {
    pub cells: Vec<(usize, ContainerStats)>,
}

impl StatsCache {
    /// The sample that the cache holds for a group.
    pub open spec fn sample(&self, group: usize) -> Option<ContainerStats> {
        sample_in(self.cells@, group)
    }

    /// The cache of a cycle that has just begun: it holds no sample.
    pub fn new() -> (cache: StatsCache)
        ensures
            forall|g: usize| cache.sample(g) is None,
    {
        StatsCache { cells: Vec::new() }
    }

    /// The sample that the cache holds for a group.
    pub fn get(&self, group: usize) -> (r: Option<ContainerStats>)
        ensures
            r == self.sample(group),
    {
        let mut r: Option<ContainerStats> = None;
        let mut i: usize = 0;
        assert(self.cells@.take(0) =~= Seq::<(usize, ContainerStats)>::empty());
        while i < self.cells.len()
            invariant
                i <= self.cells.len(),
                r == sample_in(self.cells@.take(i as int), group),
            decreases self.cells.len() - i,
        {
            assert(self.cells@.take(i + 1).drop_last() =~= self.cells@.take(i as int));
            if self.cells[i].0 == group {
                r = Some(self.cells[i].1);
            }
            i += 1;
        }
        assert(self.cells@.take(i as int) =~= self.cells@);
        r
    }

    /// Takes a sample into the cell of a group, if the cell is empty. A
    /// cell that holds a sample keeps it, and so does every other cell.
    pub fn store(&mut self, group: usize, sample: Option<ContainerStats>)
        ensures
            forall|g: usize|
                #![trigger final(self).sample(g)]
                final(self).sample(g) == if g == group && old(self).sample(group) is None {
                    sample
                } else {
                    old(self).sample(g)
                },
    {
        if self.get(group).is_some() {
            return ;
        }
        if let Some(stats) = sample {
            self.cells.push((group, stats));
            assert(self.cells@.drop_last() =~= old(self).cells@);
        }
    }
}

/// The container whose figures must be sampled before the reporter can
/// report: its own, as long as the cell of its group is empty and the
/// listing told its id.
pub open spec fn stats_wanted(r: ContainerReporterView, cached: Option<ContainerStats>) -> Option<
    Seq<char>,
> {
    if cached is None {
        r.container.id
    } else {
        None
    }
}

/// What a container reporter reports of the sample of its group: the
/// processor share, the memory in use in decimal notation, or the status
/// that the listing told. Without a sample it reports nothing, whatever
/// its figure; without a status it reports no status.
pub open spec fn container_reading(r: ContainerReporterView, cached: Option<ContainerStats>) -> Option<
    ReadingView,
> {
    match cached {
        None => None,
        Some(stats) => match r.stat {
            DockerContainerSensorReporterStat::CpuUsage => match cpu_percent(stats) {
                CpuPercent::Zero => Some(ReadingView::Text("0"@)),
                CpuPercent::Ratio { cpu_delta, system_delta, online_cpus } => Some(
                    ReadingView::Percent {
                        part: cpu_delta,
                        whole: system_delta,
                        times: online_cpus,
                        notation: Notation::Shortest,
                    },
                ),
            },
            DockerContainerSensorReporterStat::MemoryUsage => Some(
                ReadingView::Text(decimal(memory_usage_of(stats) as nat)),
            ),
            DockerContainerSensorReporterStat::Status => match r.container.status {
                Some(status) => Some(ReadingView::Text(status)),
                None => None,
            },
        },
    }
}

/// Every reading of a container reporter can be written down.
pub proof fn lemma_container_reading_wf(r: ContainerReporterView, cached: Option<ContainerStats>)
    ensures
        container_reading(r, cached) matches Some(v) ==> v.wf(),
{
}

/// Once the cell of a group holds a sample, no reporter of the group wants
/// another: a cycle samples each container at most once.
pub proof fn lemma_one_sample_per_group(
    r: DockerContainerSensorReporter,
    before: StatsCache,
    after: StatsCache,
    sample: ContainerStats,
)
    requires
        forall|g: usize|
            #![trigger after.sample(g)]
            after.sample(g) == if g == r.group && before.sample(r.group) is None {
                Some(sample)
            } else {
                before.sample(g)
            },
    ensures
        stats_wanted(r@, after.sample(r.group)) is None,
{
}

impl DockerContainerSensorReporter {
    /// The id of the container that must be sampled before the reporter can
    /// report, if there is one.
    pub fn stats_request(&self, cache: &StatsCache) -> (id: Option<String>)
        ensures
            id.deep_view() == stats_wanted(self@, cache.sample(self.group)),
    {
        if cache.get(self.group).is_none() {
            self.container.id.clone()
        } else {
            None
        }
    }

    /// The reporter's figure of the sample that the cache holds for its
    /// group.
    pub fn get_value(&self, cache: &StatsCache) -> (r: Option<Reading>)
        ensures
            reading_view(r) == container_reading(self@, cache.sample(self.group)),
    {
        match cache.get(self.group) {
            None => None,
            Some(stats) => match self.stat {
                DockerContainerSensorReporterStat::CpuUsage => match calculate_cpu_percent(&stats) {
                    CpuPercent::Zero => Some(Reading::Text(String::from_str("0"))),
                    CpuPercent::Ratio { cpu_delta, system_delta, online_cpus } => Some(
                        Reading::Percent {
                            part: cpu_delta,
                            whole: system_delta,
                            times: online_cpus,
                            notation: Notation::Shortest,
                        },
                    ),
                },
                DockerContainerSensorReporterStat::MemoryUsage => {
                    let usage: u64 = match stats.memory_stats {
                        Some(MemoryStats { usage: Some(u) }) => u,
                        _ => 0,
                    };
                    Some(Reading::Text(decimal_string(usage as u128)))
                },
                DockerContainerSensorReporterStat::Status => match &self.container.status {
                    Some(status) => Some(Reading::Text(status.clone())),
                    None => None,
                },
            },
        }
    }
}

/// The name by which a container's sensors are called: the first of its
/// names, without the slashes before it, or `unknown` where the listing
/// told no name.
pub open spec fn container_name_of(container: ContainerInfoView) -> Seq<char> {
    match container.names {
        Some(names) => if names.len() > 0 {
            strip_start(names[0], CharClass::Is('/'))
        } else {
            "unknown"@
        },
        None => "unknown"@,
    }
}

/// The name by which a container's sensors are called.
pub fn container_name(container: &ContainerInfo) -> (name: String)
    ensures
        name@ == container_name_of(container@),
{
    match &container.names {
        Some(names) => {
            if names.len() > 0 {
                let v = chars_of(names[0].as_str());
                let start = run_end(&v, 0, v.len(), CharClass::Is('/'));
                assert(v@.subrange(0, v.len() as int) =~= v@);
                string_of(&v, start, v.len())
            } else {
                String::from_str("unknown")
            }
        },
        None => String::from_str("unknown"),
    }
}

/// The query that lists the containers whose figures are sensed: all that
/// are running.
pub fn containers() -> (q: DockerQuery)
    ensures
        q == DockerQuery::Containers(ContainerFilter::Running),
{
    DockerQuery::Containers(ContainerFilter::Running)
}

/// The sensor of one figure of the container engine.
pub open spec fn engine_sensor(
    id: Seq<char>,
    name: Seq<char>,
    unit: Option<Seq<char>>,
    device_class: Option<DeviceClass>,
    icon: Seq<char>,
    stat: DockerSensorReporterStat,
) -> SensorView {
    described(id, name, unit, device_class, Some(icon), ReporterView::Docker(DockerSensorReporter { stat }))
}

/// The sensors of the container engine: the numbers of running and of
/// unhealthy containers, the number and the size of the images, and the
/// number of volumes.
pub open spec fn engine_catalog() -> Seq<SensorView> {
    seq![
        engine_sensor(
            "docker_containers_running"@,
            "Docker Containers Running"@,
            None,
            None,
            "docker"@,
            DockerSensorReporterStat::RunningCount,
        ),
        engine_sensor(
            "docker_containers_unhealthy"@,
            "Docker Containers Unhealthy"@,
            None,
            None,
            "docker"@,
            DockerSensorReporterStat::UnhealthyCount,
        ),
        engine_sensor(
            "docker_images_count"@,
            "Docker Images"@,
            None,
            None,
            "docker"@,
            DockerSensorReporterStat::ImagesCount,
        ),
        engine_sensor(
            "docker_images_size"@,
            "Docker Images Size"@,
            Some("B"@),
            Some(DeviceClass::DataSize),
            "data_size"@,
            DockerSensorReporterStat::ImagesSize,
        ),
        engine_sensor(
            "docker_volumes_count"@,
            "Docker Volumes"@,
            None,
            None,
            "docker"@,
            DockerSensorReporterStat::VolumesCount,
        ),
    ]
}

fn engine(
    id: &str,
    name: &str,
    unit: Option<&str>,
    device_class: Option<DeviceClass>,
    icon: &str,
    stat: DockerSensorReporterStat,
) -> (s: Sensor)
    ensures
        s@ == engine_sensor(id@, name@, opt_text(unit), device_class, icon@, stat),
{
    Sensor::describe(
        String::from_str(id),
        String::from_str(name),
        unit,
        device_class,
        Some(icon),
        SensorReporterType::Docker(DockerSensorReporter { stat }),
    )
}

/// The sensors of the container engine.
pub fn sensor_list() -> (sensors: Vec<Sensor>)
    ensures
        sensor_views(sensors@) == engine_catalog(),
{
    let mut sensors: Vec<Sensor> = Vec::new();
    sensors.push(
        engine(
            "docker_containers_running",
            "Docker Containers Running",
            None,
            None,
            "docker",
            DockerSensorReporterStat::RunningCount,
        ),
    );
    sensors.push(
        engine(
            "docker_containers_unhealthy",
            "Docker Containers Unhealthy",
            None,
            None,
            "docker",
            DockerSensorReporterStat::UnhealthyCount,
        ),
    );
    sensors.push(
        engine(
            "docker_images_count",
            "Docker Images",
            None,
            None,
            "docker",
            DockerSensorReporterStat::ImagesCount,
        ),
    );
    sensors.push(
        engine(
            "docker_images_size",
            "Docker Images Size",
            Some("B"),
            Some(DeviceClass::DataSize),
            "data_size",
            DockerSensorReporterStat::ImagesSize,
        ),
    );
    sensors.push(
        engine(
            "docker_volumes_count",
            "Docker Volumes",
            None,
            None,
            "docker",
            DockerSensorReporterStat::VolumesCount,
        ),
    );
    sensors
}

/// The sensor of one figure of a container: its id is `dockercontainer_`,
/// the container's name, an underscore and the figure's `key`; its name is
/// the device's name, `Docker`, the container's name and the figure's
/// `label`.
pub open spec fn container_sensor(
    device_name: Seq<char>,
    container: ContainerInfoView,
    group: usize,
    key: Seq<char>,
    label: Seq<char>,
    unit: Option<Seq<char>>,
    device_class: Option<DeviceClass>,
    icon: Seq<char>,
    stat: DockerContainerSensorReporterStat,
) -> SensorView {
    described(
        "dockercontainer_"@ + container_name_of(container) + "_"@ + key,
        device_name + " Docker "@ + container_name_of(container) + " "@ + label,
        unit,
        device_class,
        Some(icon),
        ReporterView::DockerContainer(ContainerReporterView { container, group, stat }),
    )
}

/// The three sensors of one container: its processor share, its memory in
/// use and its status. They share the cell `group` of the sample cache.
pub open spec fn container_catalog(
    device_name: Seq<char>,
    container: ContainerInfoView,
    group: usize,
) -> Seq<SensorView> {
    seq![
        container_sensor(
            device_name,
            container,
            group,
            "cpu"@,
            "CPU"@,
            Some("%"@),
            None,
            "mdi:cpu-64-bit"@,
            DockerContainerSensorReporterStat::CpuUsage,
        ),
        container_sensor(
            device_name,
            container,
            group,
            "memory"@,
            "Memory"@,
            Some("B"@),
            Some(DeviceClass::DataSize),
            "mdi:memory"@,
            DockerContainerSensorReporterStat::MemoryUsage,
        ),
        container_sensor(
            device_name,
            container,
            group,
            "uptime"@,
            "Uptime"@,
            None,
            None,
            "mdi:docker"@,
            DockerContainerSensorReporterStat::Status,
        ),
    ]
}

impl ContainerInfo {
    /// A copy of what the listing says of the container.
    pub fn duplicate(&self) -> (r: ContainerInfo)
        ensures
            r@ == self@,
    {
        ContainerInfo {
            id: self.id.clone(),
            names: clone_opt_strings(&self.names),
            status: self.status.clone(),
        }
    }
}

fn one_container_sensor(
    device_name: &str,
    container: &ContainerInfo,
    container_name: &str,
    group: usize,
    key: &str,
    label: &str,
    unit: Option<&str>,
    device_class: Option<DeviceClass>,
    icon: &str,
    stat: DockerContainerSensorReporterStat,
) -> (s: Sensor)
    requires
        container_name@ == container_name_of(container@),
    ensures
        s@ == container_sensor(
            device_name@,
            container@,
            group,
            key@,
            label@,
            opt_text(unit),
            device_class,
            icon@,
            stat,
        ),
{
    let mut id = String::from_str("dockercontainer_");
    id.append(container_name);
    id.append("_");
    id.append(key);
    let mut name = String::from_str(device_name);
    name.append(" Docker ");
    name.append(container_name);
    name.append(" ");
    name.append(label);
    Sensor::describe(
        id,
        name,
        unit,
        device_class,
        Some(icon),
        SensorReporterType::DockerContainer(
            DockerContainerSensorReporter { container: container.duplicate(), group, stat },
        ),
    )
}

/// The three sensors of one container.
pub fn container_sensors(device_name: &str, container: &ContainerInfo, group: usize) -> (sensors: Vec<
    Sensor,
>)
    ensures
        sensor_views(sensors@) == container_catalog(device_name@, container@, group),
{
    let name = container_name(container);
    let mut sensors: Vec<Sensor> = Vec::new();
    sensors.push(
        one_container_sensor(
            device_name,
            container,
            name.as_str(),
            group,
            "cpu",
            "CPU",
            Some("%"),
            None,
            "mdi:cpu-64-bit",
            DockerContainerSensorReporterStat::CpuUsage,
        ),
    );
    sensors.push(
        one_container_sensor(
            device_name,
            container,
            name.as_str(),
            group,
            "memory",
            "Memory",
            Some("B"),
            Some(DeviceClass::DataSize),
            "mdi:memory",
            DockerContainerSensorReporterStat::MemoryUsage,
        ),
    );
    sensors.push(
        one_container_sensor(
            device_name,
            container,
            name.as_str(),
            group,
            "uptime",
            "Uptime",
            None,
            None,
            "mdi:docker",
            DockerContainerSensorReporterStat::Status,
        ),
    );
    sensors
}

/// The mathematical value of a list of containers.
pub open spec fn container_views(containers: Seq<ContainerInfo>) -> Seq<ContainerInfoView> {
    containers.map_values(|c: ContainerInfo| c@)
}

/// The sensors of a list of containers: the three of the first, then the
/// three of the second, and so on. The sensors of the container at
/// position `i` share the cell `i`.
pub open spec fn containers_catalog(device_name: Seq<char>, containers: Seq<ContainerInfoView>) -> Seq<
    SensorView,
>
    decreases containers.len(),
{
    if containers.len() == 0 {
        Seq::empty()
    } else {
        containers_catalog(device_name, containers.drop_last()) + container_catalog(
            device_name,
            containers.last(),
            (containers.len() - 1) as usize,
        )
    }
}

/// There are three sensors for each container.
pub proof fn lemma_containers_catalog_len(device_name: Seq<char>, containers: Seq<ContainerInfoView>)
    ensures
        containers_catalog(device_name, containers).len() == 3 * containers.len(),
    decreases containers.len(),
{
    if containers.len() > 0 {
        lemma_containers_catalog_len(device_name, containers.drop_last());
    }
}

/// The sensors of the containers of a listing.
pub fn container_sensor_list(device_name: &str, containers: &Vec<ContainerInfo>) -> (sensors: Vec<
    Sensor,
>)
    ensures
        sensor_views(sensors@) == containers_catalog(device_name@, container_views(containers@)),
{
    let mut sensors: Vec<Sensor> = Vec::new();
    let mut i: usize = 0;
    let ghost all = container_views(containers@);
    while i < containers.len()
        invariant
            i <= containers.len(),
            all == container_views(containers@),
            sensor_views(sensors@) == containers_catalog(device_name@, all.take(i as int)),
        decreases containers.len() - i,
    {
        let mut three = container_sensors(device_name, &containers[i], i);
        sensors.append(&mut three);
        proof {
            assert(all.take(i + 1).drop_last() =~= all.take(i as int));
        }
        i += 1;
    }
    assert(all.take(i as int) =~= all);
    sensors
}

/// Whether no two containers of the list are called by one name.
pub open spec fn names_distinct(containers: Seq<ContainerInfoView>) -> bool {
    forall|i: int, j: int|
        0 <= i < j < containers.len() ==> container_name_of(#[trigger] containers[i])
            != container_name_of(#[trigger] containers[j])
}

/// Whether an id has the shape of a container sensor's: it is longer than
/// six characters, and its seventh is the `c` of `dockercontainer_`.
pub open spec fn container_shaped(id: Seq<char>) -> bool {
    id.len() > 6 && id[6] == 'c'
}

/// The sensors of the container at position `i` stand at the positions
/// `3 * i` to `3 * i + 2` of the list's catalog.
pub proof fn lemma_containers_catalog_at(
    device_name: Seq<char>,
    containers: Seq<ContainerInfoView>,
    i: int,
    k: int,
)
    requires
        0 <= i < containers.len(),
        0 <= k < 3,
    ensures
        containers_catalog(device_name, containers).len() == 3 * containers.len(),
        containers_catalog(device_name, containers)[3 * i + k] == container_catalog(
            device_name,
            containers[i],
            i as usize,
        )[k],
    decreases containers.len(),
{
    lemma_containers_catalog_len(device_name, containers.drop_last());
    if i < containers.len() - 1 {
        lemma_containers_catalog_at(device_name, containers.drop_last(), i, k);
    }
}

/// The ids of a container's three sensors differ from each other and from
/// those of a container of another name, and have the shape of a container
/// sensor's id.
proof fn lemma_container_ids(
    device_name: Seq<char>,
    a: ContainerInfoView,
    b: ContainerInfoView,
    group_a: usize,
    group_b: usize,
    k: int,
    l: int,
)
    requires
        0 <= k < 3,
        0 <= l < 3,
    ensures
        container_shaped(container_catalog(device_name, a, group_a)[k].id),
        k != l ==> container_catalog(device_name, a, group_a)[k].id != container_catalog(
            device_name,
            b,
            group_b,
        )[l].id,
        container_name_of(a) != container_name_of(b) ==> container_catalog(
            device_name,
            a,
            group_a,
        )[k].id != container_catalog(device_name, b, group_b)[l].id,
{
    reveal_strlit("dockercontainer_");
    reveal_strlit("_");
    reveal_strlit("cpu");
    reveal_strlit("memory");
    reveal_strlit("uptime");
    let name_a = container_name_of(a);
    let name_b = container_name_of(b);
    let id_a = container_catalog(device_name, a, group_a)[k].id;
    let id_b = container_catalog(device_name, b, group_b)[l].id;
    let key_a = if k == 0 {
        "cpu"@
    } else if k == 1 {
        "memory"@
    } else {
        "uptime"@
    };
    let key_b = if l == 0 {
        "cpu"@
    } else if l == 1 {
        "memory"@
    } else {
        "uptime"@
    };
    // The ids end as their keys do, and the keys end in three different letters.
    assert(id_a.last() == key_a.last());
    assert(id_b.last() == key_b.last());
    if k == l && name_a != name_b && id_a == id_b {
        // Equal ids hold equal names between the same head and the same key.
        assert forall|j: int| 0 <= j < name_a.len() implies name_a[j] == name_b[j] by {
            assert(id_a[16 + j] == name_a[j]);
            assert(id_b[16 + j] == name_b[j]);
        }
        assert(name_a =~= name_b);
    }
}

/// The sensors of containers that are called by different names have ids
/// that differ, each of the shape of a container sensor's id.
pub proof fn lemma_container_sensor_ids_distinct(
    device_name: Seq<char>,
    containers: Seq<ContainerInfoView>,
)
    requires
        names_distinct(containers),
    ensures
        forall|x: int, y: int|
            0 <= x < y < containers_catalog(device_name, containers).len() ==> (
            #[trigger] containers_catalog(device_name, containers)[x]).id != (
            #[trigger] containers_catalog(device_name, containers)[y]).id,
        forall|x: int|
            0 <= x < containers_catalog(device_name, containers).len() ==> container_shaped(
                (#[trigger] containers_catalog(device_name, containers)[x]).id,
            ),
{
    let all = containers_catalog(device_name, containers);
    lemma_containers_catalog_len(device_name, containers);
    assert forall|x: int| 0 <= x < all.len() implies container_shaped((#[trigger] all[x]).id) by {
        let i = x / 3;
        let k = x % 3;
        lemma_containers_catalog_at(device_name, containers, i, k);
        lemma_container_ids(device_name, containers[i], containers[i], i as usize, i as usize, k, k);
    }
    assert forall|x: int, y: int| 0 <= x < y < all.len() implies (#[trigger] all[x]).id != (
    #[trigger] all[y]).id by {
        let i = x / 3;
        let k = x % 3;
        let j = y / 3;
        let l = y % 3;
        lemma_containers_catalog_at(device_name, containers, i, k);
        lemma_containers_catalog_at(device_name, containers, j, l);
        lemma_container_ids(device_name, containers[i], containers[j], i as usize, j as usize, k, l);
    }
}

} // verus!
