//! The cycle: what is read from the built-in commands, which sensors
//! there are, and what is published of them.
use vstd::prelude::*;
use vstd::string::*;

use crate::catalog::{catalog, host_sensors, lemma_catalog_ids_distinct};
use crate::cli::Args;
use crate::config::{dumped, keys_distinct, Config, ConfigDump, EntryView};
use crate::docker_stats::{
    container_sensor_list, container_views, names_distinct, sensor_list, ContainerStats,
    StatsCache,
};
use crate::numeral::{is_numeral, is_numeral_text};
use crate::overrides::{
    final_sensors, ids_distinct, lemma_final_ids_distinct, produce_final_sensor_list,
    sensor_views,
};
use crate::reporter::{
    group_of, request_of, value_of, ContainerFilter, ContainerInfo, ContainerInfoView,
    DockerQuery, Observation, ObservationView, Reading, ReadingView, Request, RequestView,
};
use crate::sensor::{
    config_topic, discovery_document, opt_text, state_topic, DeviceInfo, DeviceInfoView,
    DiscoveryConfig, DiscoveryConfigView, Sensor, SensorView,
};
use crate::split::{
    find_marked, lines, position_marked, rows, skip_prefixes, skip_suffixes, split_lines,
    split_words, strip_prefixes, strip_suffixes, words, Mark,
};
use crate::text::{
    chars_of, run_end, run_start, slice_of, string_of, string_of_all, strip_both, strip_bounds,
    strip_end, strip_start, CharClass,
};

verus! {

/// What one row of a file-system usage table says.
#[derive(Debug, Clone)]
pub struct DiskInfo {
    /// The size column.
    pub total: String,
    /// The available column.
    pub available: String,
    /// The use percentage, a numeral, without its percent sign.
    pub usage_percent: String,
}

/// The mathematical value of a [`DiskInfo`].
pub struct DiskInfoView {
    pub total: Seq<char>,
    pub available: Seq<char>,
    pub usage_percent: Seq<char>,
}

impl View for DiskInfo {
    type V = DiskInfoView;

    open spec fn view(&self) -> DiskInfoView {
        DiskInfoView {
            total: self.total@,
            available: self.available@,
            usage_percent: self.usage_percent@,
        }
    }
}

/// What a file-system usage table says of its first file system. The table
/// has a heading line; the line after it holds, as words, the file system,
/// its size, what is used, what is available and the use percentage. A table
/// without a second line, a second line of fewer than five words, or a
/// percentage that is no numeral gives nothing.
pub open spec fn disk_usage_of(table: Seq<char>) -> Option<DiskInfoView> {
    if lines(table).len() < 2 {
        None
    } else if words(lines(table)[1]).len() < 5 {
        None
    } else if !is_numeral(strip_end(words(lines(table)[1])[4], CharClass::Is('%'))) {
        None
    } else {
        Some(
            DiskInfoView {
                total: words(lines(table)[1])[1],
                available: words(lines(table)[1])[3],
                usage_percent: strip_end(words(lines(table)[1])[4], CharClass::Is('%')),
            },
        )
    }
}

/// Reads the first file system's row of a file-system usage table.
pub fn parse_disk_usage(df_output: &str) -> (r: Option<DiskInfo>)
    ensures
        match r {
            Some(info) => disk_usage_of(df_output@) == Some(info@),
            None => disk_usage_of(df_output@) is None,
        },
{
    let text = chars_of(df_output);
    let all = split_lines(&text);
    if all.len() < 2 {
        return None;
    }
    let parts = split_words(&all[1]);
    if parts.len() < 5 {
        return None;
    }
    let usage = &parts[4];
    let end = run_start(usage, 0, usage.len(), CharClass::Is('%'));
    assert(usage@.subrange(0, usage.len() as int) =~= usage@);
    let numeral = slice_of(usage, 0, end);
    if !is_numeral_text(&numeral) {
        return None;
    }
    let total = &parts[1];
    let available = &parts[3];
    Some(
        DiskInfo {
            total: string_of_all(total),
            available: string_of_all(available),
            usage_percent: string_of_all(&numeral),
        },
    )
}

/// The temperature that a word of a hardware-sensor listing holds: the
/// word without the plus signs before it and the unit after it.
pub open spec fn temperature_in(word: Seq<char>) -> Seq<char> {
    strip_suffixes(strip_start(word, CharClass::Is('+')), "°C"@)
}

/// The package temperature of a hardware-sensor listing: in the first line
/// that holds `Package id 0`, the first word that holds the unit `°C`,
/// without the plus signs before it and the unit after it. A listing
/// without such a line, a line without such a word, or a word that holds no
/// numeral gives nothing.
pub open spec fn cpu_temp_of(listing: Seq<char>) -> Option<Seq<char>> {
    match find_marked(lines(listing), "Package id 0"@, Mark::Infix) {
        None => None,
        Some(line) => match find_marked(words(line), "°C"@, Mark::Infix) {
            None => None,
            Some(word) => if is_numeral(temperature_in(word)) {
                Some(temperature_in(word))
            } else {
                None
            },
        },
    }
}

/// Reads the package temperature from a hardware-sensor listing, as the
/// numeral that the listing holds.
pub fn parse_cpu_temp(sensors_output: &str) -> (r: Option<String>)
    ensures
        match r {
            Some(t) => cpu_temp_of(sensors_output@) == Some(t@),
            None => cpu_temp_of(sensors_output@) is None,
        },
{
    let text = chars_of(sensors_output);
    let all = split_lines(&text);
    let package = chars_of("Package id 0");
    let at = position_marked(&all, &package, Mark::Infix);
    if at >= all.len() {
        return None;
    }
    let parts = split_words(&all[at]);
    let unit = chars_of("°C");
    let which = position_marked(&parts, &unit, Mark::Infix);
    if which >= parts.len() {
        return None;
    }
    let word = &parts[which];
    let start = run_end(word, 0, word.len(), CharClass::Is('+'));
    assert(word@.subrange(0, word.len() as int) =~= word@);
    let unsigned = slice_of(word, start, word.len());
    let end = skip_suffixes(&unsigned, &unit);
    let numeral = slice_of(&unsigned, 0, end);
    if !is_numeral_text(&numeral) {
        return None;
    }
    Some(string_of_all(&numeral))
}

/// The state of a storage array: what follows `mdState=` in the first line
/// of a status listing that begins with it. A listing without such a line
/// gives nothing.
pub open spec fn array_status_of(listing: Seq<char>) -> Option<Seq<char>> {
    match find_marked(lines(listing), "mdState="@, Mark::Prefix) {
        Some(line) => Some(strip_prefixes(line, "mdState="@)),
        None => None,
    }
}

/// Reads the state of the storage array from a status listing.
pub fn parse_array_status(status_output: &str) -> (r: Option<String>)
    ensures
        match r {
            Some(status) => array_status_of(status_output@) == Some(status@),
            None => array_status_of(status_output@) is None,
        },
{
    let text = chars_of(status_output);
    let all = split_lines(&text);
    let key = chars_of("mdState=");
    let at = position_marked(&all, &key, Mark::Prefix);
    if at >= all.len() {
        return None;
    }
    let line = &all[at];
    let start = skip_prefixes(line, &key);
    Some(string_of(line, start, line.len()))
}

/// The version that a version file names: in its first line that begins
/// with `version=`, what follows, without the quotation marks around it.
/// A file without such a line names the version `Unknown`.
pub open spec fn version_of(content: Seq<char>) -> Seq<char> {
    match find_marked(lines(content), "version="@, Mark::Prefix) {
        Some(line) => strip_both(strip_prefixes(line, "version="@), CharClass::Is('"')),
        None => "Unknown"@,
    }
}

/// Reads the system's version from the content of its version file. A
/// file that could not be read is handed in as `None` and gives `Unknown`.
pub fn parse_unraid_version(content: Option<&str>) -> (version: String)
    ensures
        version@ == match content {
            Some(c) => version_of(c@),
            None => "Unknown"@,
        },
{
    let content = match content {
        Some(c) => c,
        None => {
            return String::from_str("Unknown");
        },
    };
    let text = chars_of(content);
    let all = split_lines(&text);
    let key = chars_of("version=");
    let at = position_marked(&all, &key, Mark::Prefix);
    if at >= all.len() {
        return String::from_str("Unknown");
    }
    let line = &all[at];
    let start = skip_prefixes(line, &key);
    let quoted = slice_of(line, start, line.len());
    let (a, b) = strip_bounds(&quoted, CharClass::Is('"'));
    string_of(&quoted, a, b)
}

/// The sensors of a cycle have ids that differ from each other, where no
/// two containers are called by one name and the configuration is a map.
pub proof fn lemma_cycle_ids_distinct(stats: UnraidStatsView, containers: Seq<ContainerInfoView>)
    requires
        names_distinct(containers),
        stats.sensor_config matches Some(entries) ==> keys_distinct(entries),
    ensures
        ids_distinct(cycle_sensors(stats, containers)),
{
    lemma_catalog_ids_distinct(stats.device_name, containers);
    match stats.sensor_config {
        Some(entries) => {
            lemma_final_ids_distinct(catalog(stats.device_name, containers), entries);
        },
        None => {},
    }
}

/// The device's description: it is identified by `unraid_` and its name,
/// called `Unraid` and its name, and runs the version that the version
/// file names.
pub open spec fn device_of(device_name: Seq<char>, version_file: Option<Seq<char>>) -> DeviceInfoView {
    DeviceInfoView {
        identifiers: seq!["unraid_"@ + device_name],
        name: "Unraid "@ + device_name,
        model: "Unraid Server"@,
        manufacturer: "Lime Technology"@,
        sw_version: match version_file {
            Some(content) => version_of(content),
            None => "Unknown"@,
        },
    }
}

/// A message that announces a sensor.
#[derive(Debug, Clone)]
pub struct DiscoveryMessage {
    pub topic: String,
    pub config: DiscoveryConfig,
    /// Whether the broker keeps the message for later subscribers.
    pub retain: bool,
}

/// The mathematical value of a [`DiscoveryMessage`].
pub struct DiscoveryMessageView {
    pub topic: Seq<char>,
    pub config: DiscoveryConfigView,
    pub retain: bool,
}

impl View for DiscoveryMessage {
    type V = DiscoveryMessageView;

    open spec fn view(&self) -> DiscoveryMessageView {
        DiscoveryMessageView { topic: self.topic@, config: self.config@, retain: self.retain }
    }
}

/// A message that tells a sensor's value.
#[derive(Debug, Clone)]
pub struct StateMessage {
    pub topic: String,
    pub value: Reading,
    /// Whether the broker keeps the message for later subscribers.
    pub retain: bool,
}

/// The mathematical value of a [`StateMessage`].
pub struct StateMessageView {
    pub topic: Seq<char>,
    pub value: ReadingView,
    pub retain: bool,
}

impl View for StateMessage {
    type V = StateMessageView;

    open spec fn view(&self) -> StateMessageView {
        StateMessageView { topic: self.topic@, value: self.value@, retain: self.retain }
    }
}

/// Where a message goes.
#[derive(Debug, Clone, Copy, PartialEq, Eq, Structural)]
pub enum Sink {
    /// It is printed, as a document with its topic and its payload.
    Print,
    /// It is handed to the broker's client.
    Publish,
    /// It goes nowhere.
    Drop,
}

/// One cycle's settings.
#[derive(Debug, Clone)]
pub struct UnraidStats {
    pub sensor_config: Option<Config>,
    pub json_output: bool,
    pub discovery_prefix: String,
    pub device_name: String,
    pub skip_discovery: bool,
}

/// The mathematical value of an [`UnraidStats`].
pub struct UnraidStatsView {
    pub sensor_config: Option<Seq<EntryView>>,
    pub json_output: bool,
    pub discovery_prefix: Seq<char>,
    pub device_name: Seq<char>,
    pub skip_discovery: bool,
}

impl View for UnraidStats {
    type V = UnraidStatsView;

    open spec fn view(&self) -> UnraidStatsView {
        UnraidStatsView {
            sensor_config: match self.sensor_config {
                Some(c) => Some(c@),
                None => None,
            },
            json_output: self.json_output,
            discovery_prefix: self.discovery_prefix@,
            device_name: self.device_name@,
            skip_discovery: self.skip_discovery,
        }
    }
}

/// The node under which a device's sensors are published: `unraid_` and
/// the device's name.
pub open spec fn node_of(device_name: Seq<char>) -> Seq<char> {
    "unraid_"@ + device_name
}

/// The sensors of a cycle: the catalog with the configuration laid over
/// it, or the catalog as it is where there is no configuration.
pub open spec fn cycle_sensors(stats: UnraidStatsView, containers: Seq<ContainerInfoView>) -> Seq<
    SensorView,
> {
    match stats.sensor_config {
        Some(entries) => final_sensors(catalog(stats.device_name, containers), entries),
        None => catalog(stats.device_name, containers),
    }
}

/// The message that announces one sensor.
pub open spec fn announcement(stats: UnraidStatsView, s: SensorView, device: DeviceInfoView) -> DiscoveryMessageView {
    DiscoveryMessageView {
        topic: config_topic(s.id, stats.discovery_prefix, node_of(stats.device_name)),
        config: discovery_document(s, stats.device_name, node_of(stats.device_name), device),
        retain: true,
    }
}

/// The messages that announce the sensors of a list: one for each sensor
/// that is not disabled, in the order of the list.
pub open spec fn announcements(stats: UnraidStatsView, sensors: Seq<SensorView>, device: DeviceInfoView) -> Seq<
    DiscoveryMessageView,
>
    decreases sensors.len(),
{
    if sensors.len() == 0 {
        Seq::empty()
    } else if sensors.last().disabled {
        announcements(stats, sensors.drop_last(), device)
    } else {
        announcements(stats, sensors.drop_last(), device).push(
            announcement(stats, sensors.last(), device),
        )
    }
}

/// What is announced in a cycle: nothing where announcements are skipped.
pub open spec fn discovery_of(stats: UnraidStatsView, sensors: Seq<SensorView>, device: DeviceInfoView) -> Seq<
    DiscoveryMessageView,
> {
    if stats.skip_discovery {
        Seq::empty()
    } else {
        announcements(stats, sensors, device)
    }
}

/// What a sensor asks to be observed: what its reporter asks, and nothing
/// where the sensor is disabled or has no reporter.
pub open spec fn sensor_request(s: SensorView, cached: Option<ContainerStats>) -> RequestView {
    match s.reporter {
        Some(reporter) => if s.disabled {
            RequestView::Nothing
        } else {
            request_of(reporter, cached)
        },
        None => RequestView::Nothing,
    }
}

/// The message that tells a sensor's value for what was observed: none
/// where the sensor is disabled, has no reporter, or its reporter reports
/// nothing. The message is not retained.
pub open spec fn state_of(
    stats: UnraidStatsView,
    s: SensorView,
    observation: ObservationView,
    cached: Option<ContainerStats>,
) -> Option<StateMessageView> {
    if s.disabled {
        None
    } else {
        match s.reporter {
            None => None,
            Some(reporter) => match value_of(reporter, observation, cached) {
                None => None,
                Some(value) => Some(
                    StateMessageView {
                        topic: state_topic(s.id, node_of(stats.device_name)),
                        value,
                        retain: false,
                    },
                ),
            },
        }
    }
}

/// The cell of the sample cache that a sensor's reporter reads.
pub open spec fn sensor_group(s: SensorView) -> usize {
    match s.reporter {
        Some(reporter) => group_of(reporter),
        None => 0,
    }
}

/// Where the messages of a cycle go: they are printed where that is asked
/// for, else they are published where there is a client, else dropped.
pub open spec fn sink_of(json_output: bool, has_client: bool) -> Sink {
    if json_output {
        Sink::Print
    } else if has_client {
        Sink::Publish
    } else {
        Sink::Drop
    }
}

/// There are no more announcements than sensors, and one for each sensor
/// where none is disabled.
pub proof fn lemma_announcements_len(
    stats: UnraidStatsView,
    sensors: Seq<SensorView>,
    device: DeviceInfoView,
)
    ensures
        announcements(stats, sensors, device).len() <= sensors.len(),
        (forall|i: int| 0 <= i < sensors.len() ==> !(#[trigger] sensors[i]).disabled)
            ==> announcements(stats, sensors, device).len() == sensors.len(),
    decreases sensors.len(),
{
    if sensors.len() > 0 {
        let front = sensors.drop_last();
        lemma_announcements_len(stats, front, device);
        if forall|i: int| 0 <= i < sensors.len() ==> !(#[trigger] sensors[i]).disabled {
            assert forall|i: int| 0 <= i < front.len() implies !(#[trigger] front[i]).disabled by {
                assert(front[i] == sensors[i]);
            }
            assert(!sensors[sensors.len() - 1].disabled);
        }
    }
}

/// A disabled sensor is never announced and never tells a value.
pub proof fn lemma_disabled_sensor_is_silent(
    stats: UnraidStatsView,
    s: SensorView,
    device: DeviceInfoView,
    observation: ObservationView,
    cached: Option<ContainerStats>,
)
    requires
        s.disabled,
    ensures
        announcements(stats, seq![s], device).len() == 0,
        state_of(stats, s, observation, cached) is None,
        sensor_request(s, cached) == RequestView::Nothing,
{
    reveal_with_fuel(announcements, 2);
}

impl UnraidStats {
    /// The settings of a cycle, as the arguments say, with the
    /// configuration that was loaded, if one was.
    pub fn new(args: &Args, sensor_config: Option<Config>) -> (stats: UnraidStats)
        ensures
            stats.sensor_config == sensor_config,
            stats.json_output == args.json_output,
            stats.discovery_prefix@ == args.discovery_prefix@,
            stats.device_name@ == args.device_name@,
            stats.skip_discovery == args.skip_discovery,
    {
        UnraidStats {
            sensor_config,
            json_output: args.json_output,
            discovery_prefix: args.discovery_prefix.clone(),
            device_name: args.device_name.clone(),
            skip_discovery: args.skip_discovery,
        }
    }

    /// The node under which the sensors are published.
    pub fn node_id(&self) -> (node: String)
        ensures
            node@ == node_of(self@.device_name),
    {
        let mut node = String::from_str("unraid_");
        node.append(self.device_name.as_str());
        node
    }

    /// The query that lists the containers whose figures are sensed.
    pub fn containers(&self) -> (q: DockerQuery)
        ensures
            q == DockerQuery::Containers(ContainerFilter::Running),
    {
        crate::docker_stats::containers()
    }

    /// The device's description. `version_file` is the content of the
    /// system's version file, or `None` where it could not be read.
    pub fn get_device_info(&self, version_file: Option<&str>) -> (device: DeviceInfo)
        ensures
            device@ == device_of(self@.device_name, opt_text(version_file)),
    {
        let mut identifiers: Vec<String> = Vec::new();
        identifiers.push(self.node_id());
        let mut name = String::from_str("Unraid ");
        name.append(self.device_name.as_str());
        assert(identifiers.deep_view() =~= seq!["unraid_"@ + self@.device_name]);
        DeviceInfo {
            identifiers,
            name,
            model: String::from_str("Unraid Server"),
            manufacturer: String::from_str("Lime Technology"),
            sw_version: parse_unraid_version(version_file),
        }
    }

    /// The sensors of the cycle, for the containers that the engine lists
    /// as running.
    pub fn sensors(&self, containers: &Vec<ContainerInfo>) -> (sensors: Vec<Sensor>)
        ensures
            sensor_views(sensors@) == cycle_sensors(self@, container_views(containers@)),
    {
        let mut sensors = host_sensors();
        let ghost hosts = sensor_views(sensors@);
        let mut engine = sensor_list();
        let ghost engines = sensor_views(engine@);
        sensors.append(&mut engine);
        let mut of_containers = container_sensor_list(self.device_name.as_str(), containers);
        let ghost contained = sensor_views(of_containers@);
        sensors.append(&mut of_containers);
        assert(sensor_views(sensors@) =~= hosts + engines + contained);
        match &self.sensor_config {
            Some(config) => produce_final_sensor_list(sensors, config),
            None => sensors,
        }
    }

    /// The messages that announce the sensors of a list.
    pub fn publish_discovery(&self, sensors: &Vec<Sensor>, version_file: Option<&str>) -> (messages: Vec<
        DiscoveryMessage,
    >)
        ensures
            messages@.map_values(|m: DiscoveryMessage| m@) == discovery_of(
                self@,
                sensor_views(sensors@),
                device_of(self@.device_name, opt_text(version_file)),
            ),
    {
        let mut messages: Vec<DiscoveryMessage> = Vec::new();
        if self.skip_discovery {
            assert(messages@.map_values(|m: DiscoveryMessage| m@) =~= Seq::<
                DiscoveryMessageView,
            >::empty());
            return messages;
        }
        let device_info = self.get_device_info(version_file);
        let node_id = self.node_id();
        let ghost all = sensor_views(sensors@);
        let ghost device = device_info@;
        let mut i: usize = 0;
        assert(messages@.map_values(|m: DiscoveryMessage| m@) =~= Seq::<
            DiscoveryMessageView,
        >::empty());
        while i < sensors.len()
            invariant
                i <= sensors.len(),
                all == sensor_views(sensors@),
                device == device_info@,
                node_id@ == node_of(self@.device_name),
                messages@.map_values(|m: DiscoveryMessage| m@) == announcements(
                    self@,
                    all.take(i as int),
                    device,
                ),
            decreases sensors.len() - i,
        {
            let sensor = &sensors[i];
            let ghost before = messages@.map_values(|m: DiscoveryMessage| m@);
            proof {
                assert(all.take(i + 1).drop_last() =~= all.take(i as int));
            }
            if !sensor.disabled {
                let message = DiscoveryMessage {
                    topic: sensor.discovery_topic(self.discovery_prefix.as_str(), node_id.as_str()),
                    config: sensor.disovery_config(
                        self.device_name.as_str(),
                        node_id.as_str(),
                        &device_info,
                    ),
                    retain: true,
                };
                messages.push(message);
            }
            i += 1;
        }
        assert(all.take(i as int) =~= all);
        messages
    }

    /// What has to be observed before a sensor's value can be told.
    pub fn request(&self, sensor: &Sensor, cache: &StatsCache) -> (request: Request)
        ensures
            request@ == sensor_request(sensor@, cache.sample(sensor_group(sensor@))),
    {
        if sensor.disabled {
            return Request::Nothing;
        }
        match &sensor.reporter {
            Some(reporter) => reporter.request(cache),
            None => Request::Nothing,
        }
    }

    /// The message that tells a sensor's value for what was observed, if
    /// there is a value to tell.
    pub fn publish_stats(&self, sensor: &Sensor, observation: &Observation, cache: &StatsCache) -> (message:
        Option<StateMessage>)
        ensures
            match message {
                Some(m) => state_of(
                    self@,
                    sensor@,
                    observation@,
                    cache.sample(sensor_group(sensor@)),
                ) == Some(m@),
                None => state_of(
                    self@,
                    sensor@,
                    observation@,
                    cache.sample(sensor_group(sensor@)),
                ) is None,
            },
    {
        if sensor.disabled {
            return None;
        }
        let node_id = self.node_id();
        let sensor_topic = sensor.sensor_topic(node_id.as_str());
        match &sensor.reporter {
            Some(source) => match source.get_value(observation, cache) {
                Some(value) => Some(StateMessage { topic: sensor_topic, value, retain: false }),
                None => None,
            },
            None => None,
        }
    }

    /// The dump of a list of sensors: what is written to a file so that
    /// it can be edited and read again as a configuration.
    pub fn dump_sensors_toml(&self, sensors: Vec<Sensor>) -> (dump: ConfigDump)
        ensures
            dump@ == dumped(sensor_views(sensors@)),
    {
        let mut dump = ConfigDump::new();
        let ghost all = sensor_views(sensors@);
        for sensor in it: sensors
            invariant
                all == sensor_views(it.seq()),
                dump@ == dumped(all.take(it.index() as int)),
        {
            proof {
                let done = it.index() as int;
                assert(all.take(done + 1).drop_last() =~= all.take(done));
            }
            dump.insert(sensor);
        }
        assert(all.take(all.len() as int) =~= all);
        dump
    }

    /// Where the messages of the cycle go.
    pub fn sink(&self, has_client: bool) -> (sink: Sink)
        ensures
            sink == sink_of(self.json_output, has_client),
    {
        if self.json_output {
            Sink::Print
        } else if has_client {
            Sink::Publish
        } else {
            Sink::Drop
        }
    }
}

} // verus!
