//! What the reporters ask for and what they report.
use unraid_mqtt_stats::cli::Args;
use unraid_mqtt_stats::config::{
    CommandSensorReporter, DockerContainerSensorReporter, DockerContainerSensorReporterStat,
    DockerSensorReporter, DockerSensorReporterStat, PostProcess, Sensor, SensorReporterType,
    SystemSensorReporter, SystemSensorReporterStat,
};
use unraid_mqtt_stats::docker_stats::{
    ContainerStats, CpuStats, CpuUsage, MemoryStats, StatsCache,
};
use unraid_mqtt_stats::reporter::{
    ContainerFilter, ContainerInfo, DockerQuery, DockerReply, Notation, Observation, Reading,
    Request, SystemSnapshot, Transform,
};
use unraid_mqtt_stats::sensor::DeviceInfo;
use unraid_mqtt_stats::unraid_stats::{Sink, UnraidStats};

/// The value as it would be published: numbers are worked out in floating
/// point and written in their notation.
fn written(reading: Option<Reading>) -> Option<String> {
    match reading? {
        Reading::Text(t) => Some(t),
        Reading::Number { numeral, notation } => {
            let v: f64 = numeral.parse().ok()?;
            Some(match notation {
                Notation::Shortest => format!("{}", v),
                Notation::OneDecimal => format!("{:.1}", v),
            })
        }
        Reading::Percent { part, whole, times, notation } => {
            let v = (part as f64 / whole as f64) * times as f64 * 100.0;
            Some(match notation {
                Notation::Shortest => format!("{}", v),
                Notation::OneDecimal => format!("{:.1}", v),
            })
        }
    }
}

fn snapshot() -> SystemSnapshot {
    SystemSnapshot {
        total_memory: 16_000_000_000,
        used_memory: 4_000_000_000,
        cpu_usage: "12.5".to_string(),
        uptime: 86_400,
    }
}

fn system(name: SystemSensorReporterStat) -> SystemSensorReporter {
    SystemSensorReporter { name }
}

#[test]
fn the_system_reporter_reads_the_snapshot() {
    let s = snapshot();
    assert_eq!(
        written(system(SystemSensorReporterStat::MemoryUsage).get_value(&s)).as_deref(),
        Some("25.0")
    );
    assert_eq!(
        written(system(SystemSensorReporterStat::MemoryUsed).get_value(&s)).as_deref(),
        Some("4000000000")
    );
    assert_eq!(
        written(system(SystemSensorReporterStat::MemoryTotal).get_value(&s)).as_deref(),
        Some("16000000000")
    );
    assert_eq!(
        written(system(SystemSensorReporterStat::CpuUsage).get_value(&s)).as_deref(),
        Some("12.5")
    );
    assert_eq!(
        written(system(SystemSensorReporterStat::Uptime).get_value(&s)).as_deref(),
        Some("86400")
    );
}

#[test]
fn the_memory_share_is_a_percentage_with_one_decimal() {
    let s = SystemSnapshot { total_memory: 3, used_memory: 1, ..snapshot() };
    match system(SystemSensorReporterStat::MemoryUsage).get_value(&s) {
        Some(Reading::Percent { part, whole, times, notation }) => {
            assert_eq!((part, whole, times, notation), (1, 3, 1, Notation::OneDecimal));
        }
        other => panic!("expected a percentage, not {:?}", other),
    }
    assert_eq!(
        written(system(SystemSensorReporterStat::MemoryUsage).get_value(&s)).as_deref(),
        Some("33.3")
    );
}

#[test]
fn a_host_without_memory_uses_none_of_it() {
    let s = SystemSnapshot { total_memory: 0, used_memory: 0, ..snapshot() };
    match system(SystemSensorReporterStat::MemoryUsage).get_value(&s) {
        Some(Reading::Text(t)) => assert_eq!(t, "0.0"),
        other => panic!("expected a text, not {:?}", other),
    }
    let s = SystemSnapshot { total_memory: 0, used_memory: 7, ..snapshot() };
    assert_eq!(
        written(system(SystemSensorReporterStat::MemoryUsage).get_value(&s)).as_deref(),
        Some("0.0")
    );
}

fn engine(stat: DockerSensorReporterStat) -> DockerSensorReporter {
    DockerSensorReporter { stat }
}

#[test]
fn the_engine_reporter_asks_for_its_listing() {
    assert_eq!(engine(DockerSensorReporterStat::ImagesCount).query(), DockerQuery::Images);
    assert_eq!(engine(DockerSensorReporterStat::ImagesSize).query(), DockerQuery::Images);
    assert_eq!(engine(DockerSensorReporterStat::VolumesCount).query(), DockerQuery::Volumes);
    assert_eq!(
        engine(DockerSensorReporterStat::RunningCount).query(),
        DockerQuery::Containers(ContainerFilter::Running)
    );
    assert_eq!(
        engine(DockerSensorReporterStat::UnhealthyCount).query(),
        DockerQuery::Containers(ContainerFilter::Unhealthy)
    );
    assert_eq!((ContainerFilter::Running.key(), ContainerFilter::Running.value()), ("status", "running"));
    assert_eq!(
        (ContainerFilter::Unhealthy.key(), ContainerFilter::Unhealthy.value()),
        ("health", "unhealthy")
    );
}

#[test]
fn the_engine_reporter_counts_and_sums() {
    let images = DockerReply::Images(vec![100, 250, 50]);
    assert_eq!(
        engine(DockerSensorReporterStat::ImagesCount).get_value(&images).as_deref(),
        Some("3")
    );
    assert_eq!(
        engine(DockerSensorReporterStat::ImagesSize).get_value(&images).as_deref(),
        Some("400")
    );
    let none = DockerReply::Images(Vec::new());
    assert_eq!(engine(DockerSensorReporterStat::ImagesCount).get_value(&none).as_deref(), Some("0"));
    assert_eq!(engine(DockerSensorReporterStat::ImagesSize).get_value(&none).as_deref(), Some("0"));
    assert_eq!(
        engine(DockerSensorReporterStat::VolumesCount)
            .get_value(&DockerReply::Volumes(Some(7)))
            .as_deref(),
        Some("7")
    );
    assert_eq!(
        engine(DockerSensorReporterStat::VolumesCount)
            .get_value(&DockerReply::Volumes(None))
            .as_deref(),
        Some("0")
    );
    assert_eq!(
        engine(DockerSensorReporterStat::RunningCount)
            .get_value(&DockerReply::Containers(12))
            .as_deref(),
        Some("12")
    );
    assert_eq!(
        engine(DockerSensorReporterStat::UnhealthyCount)
            .get_value(&DockerReply::Containers(0))
            .as_deref(),
        Some("0")
    );
}

#[test]
fn the_engine_reporter_sums_beyond_sixty_four_bits() {
    let sizes = DockerReply::Images(vec![i64::MAX, i64::MAX, 2]);
    assert_eq!(
        engine(DockerSensorReporterStat::ImagesSize).get_value(&sizes).as_deref(),
        Some("18446744073709551616")
    );
    let negative = DockerReply::Images(vec![-5, 2]);
    assert_eq!(
        engine(DockerSensorReporterStat::ImagesSize).get_value(&negative).as_deref(),
        Some("-3")
    );
}

#[test]
fn a_failed_or_foreign_listing_gives_nothing() {
    for stat in [
        DockerSensorReporterStat::ImagesCount,
        DockerSensorReporterStat::ImagesSize,
        DockerSensorReporterStat::VolumesCount,
        DockerSensorReporterStat::RunningCount,
        DockerSensorReporterStat::UnhealthyCount,
    ] {
        assert_eq!(engine(stat).get_value(&DockerReply::Failed), None);
    }
    assert_eq!(
        engine(DockerSensorReporterStat::ImagesCount).get_value(&DockerReply::Containers(3)),
        None
    );
    assert_eq!(
        engine(DockerSensorReporterStat::RunningCount).get_value(&DockerReply::Volumes(Some(3))),
        None
    );
    assert_eq!(
        engine(DockerSensorReporterStat::VolumesCount).get_value(&DockerReply::Images(vec![1])),
        None
    );
}

fn apply(p: PostProcess, text: &str) -> Option<String> {
    written(Transform::Process(p).apply(text))
}

#[test]
fn post_processing_agrees_with_the_standard_library() {
    for s in ["", "  42 ", "42", "4.50", "+7", "-0", "1e3", "abc", "Mixed Case ß", "a1b2", "12.5", "inf", "٣"] {
        assert_eq!(apply(PostProcess::TrimWhitespace, s), Some(s.trim().to_string()), "{:?}", s);
        assert_eq!(
            apply(PostProcess::ParseFloat, s),
            s.parse::<f64>().ok().map(|v| v.to_string()),
            "{:?}",
            s
        );
        assert_eq!(
            apply(PostProcess::ParseInteger, s),
            s.parse::<i64>().ok().map(|v| v.to_string()),
            "{:?}",
            s
        );
        assert_eq!(
            apply(PostProcess::ExtractNumber, s),
            s.chars()
                .filter(|c| c.is_numeric())
                .collect::<String>()
                .parse::<f64>()
                .ok()
                .map(|v| v.to_string()),
            "{:?}",
            s
        );
        assert_eq!(apply(PostProcess::ToUpperCase, s), Some(s.to_uppercase()), "{:?}", s);
        assert_eq!(apply(PostProcess::ToLowerCase, s), Some(s.to_lowercase()), "{:?}", s);
    }
}

#[test]
fn post_processing_gives_the_expected_values() {
    assert_eq!(apply(PostProcess::TrimWhitespace, " up \n").as_deref(), Some("up"));
    assert_eq!(apply(PostProcess::ParseFloat, "4.50").as_deref(), Some("4.5"));
    assert_eq!(apply(PostProcess::ParseFloat, "four"), None);
    assert_eq!(apply(PostProcess::ParseInteger, "007").as_deref(), Some("7"));
    assert_eq!(apply(PostProcess::ParseInteger, "7.0"), None);
    assert_eq!(apply(PostProcess::ExtractNumber, "temp: 45 C").as_deref(), Some("45"));
    assert_eq!(apply(PostProcess::ExtractNumber, "12.5").as_deref(), Some("125"));
    assert_eq!(apply(PostProcess::ExtractNumber, "none"), None);
    assert_eq!(apply(PostProcess::ToUpperCase, "started").as_deref(), Some("STARTED"));
    assert_eq!(apply(PostProcess::ToLowerCase, "STARTED").as_deref(), Some("started"));
    assert_eq!(written(Transform::PassThrough.apply(" as is ")).as_deref(), Some(" as is "));
}

const DF: &str = "Filesystem 1M-blocks Used Available Use% Mounted on\n/dev/sda1 100M 40M 60M 40% /mnt/user";

#[test]
fn the_built_in_transforms_read_their_listings() {
    assert_eq!(written(Transform::DiskUsage.apply(DF)).as_deref(), Some("40"));
    assert_eq!(written(Transform::DiskTotal.apply(DF)).as_deref(), Some("100M"));
    assert_eq!(written(Transform::DiskAvailable.apply(DF)).as_deref(), Some("60M"));
    assert_eq!(
        written(Transform::CpuTemperature.apply("Package id 0:  +45.25°C  (high = +80.0°C)"))
            .as_deref(),
        Some("45.2")
    );
    assert_eq!(
        written(Transform::ArrayStatus.apply("mdState=STARTED\nmdNumDisks=4")).as_deref(),
        Some("STARTED")
    );
    for t in [
        Transform::DiskUsage,
        Transform::DiskTotal,
        Transform::DiskAvailable,
        Transform::CpuTemperature,
        Transform::ArrayStatus,
    ] {
        assert!(t.apply("nothing of the kind").is_none());
        assert!(t.apply("").is_none());
    }
}

fn command(transform: Option<Transform>) -> CommandSensorReporter {
    CommandSensorReporter { command: "df".to_string(), args: None, transform }
}

#[test]
fn the_command_reporter_trims_and_then_transforms() {
    let upper = command(Some(Transform::Process(PostProcess::ToUpperCase)));
    assert_eq!(written(upper.get_value(Some("  started\n"))).as_deref(), Some("STARTED"));
    let plain = command(None);
    assert_eq!(written(plain.get_value(Some("  started\n"))).as_deref(), Some("started"));
    let through = command(Some(Transform::PassThrough));
    assert_eq!(written(through.get_value(Some("\n a b \n"))).as_deref(), Some("a b"));
    let integer = command(Some(Transform::Process(PostProcess::ParseInteger)));
    assert_eq!(written(integer.get_value(Some(" 12\n"))).as_deref(), Some("12"));
    assert_eq!(written(integer.get_value(Some(" twelve\n"))), None);
}

#[test]
fn a_command_that_could_not_be_run_gives_nothing() {
    assert!(command(None).get_value(None).is_none());
    assert!(command(Some(Transform::PassThrough)).get_value(None).is_none());
    assert!(command(Some(Transform::DiskTotal)).get_value(None).is_none());
}

fn container_reporter(stat: DockerContainerSensorReporterStat) -> DockerContainerSensorReporter {
    DockerContainerSensorReporter {
        container: ContainerInfo {
            id: Some("abc123".to_string()),
            names: Some(vec!["/web".to_string()]),
            status: Some("Up 3 hours".to_string()),
        },
        group: 2,
        stat,
    }
}

fn sample(memory: u64) -> ContainerStats {
    ContainerStats {
        cpu_stats: None,
        precpu_stats: None,
        memory_stats: Some(MemoryStats { usage: Some(memory) }),
    }
}

#[test]
fn reporters_ask_for_what_they_report_of() {
    let cache = StatsCache::new();
    assert!(matches!(
        SensorReporterType::System(system(SystemSensorReporterStat::Uptime)).request(&cache),
        Request::Snapshot
    ));
    assert!(matches!(
        SensorReporterType::Docker(engine(DockerSensorReporterStat::VolumesCount)).request(&cache),
        Request::List(DockerQuery::Volumes)
    ));
    let run = SensorReporterType::Command(CommandSensorReporter {
        command: "df".to_string(),
        args: Some(vec!["-BM".to_string(), "/mnt/user".to_string()]),
        transform: None,
    });
    match run.request(&cache) {
        Request::Run { command, args } => {
            assert_eq!(command, "df");
            assert_eq!(args, vec!["-BM".to_string(), "/mnt/user".to_string()]);
        }
        other => panic!("expected a command to run, not {:?}", other),
    }
    match SensorReporterType::Command(command(None)).request(&cache) {
        Request::Run { command, args } => {
            assert_eq!(command, "df");
            assert!(args.is_empty());
        }
        other => panic!("expected a command to run, not {:?}", other),
    }
}

#[test]
fn a_container_is_sampled_once_for_all_its_reporters() {
    let mut cache = StatsCache::new();
    let cpu = SensorReporterType::DockerContainer(container_reporter(
        DockerContainerSensorReporterStat::CpuUsage,
    ));
    let memory = SensorReporterType::DockerContainer(container_reporter(
        DockerContainerSensorReporterStat::MemoryUsage,
    ));
    match cpu.request(&cache) {
        Request::Sample { container, group } => {
            assert_eq!(container, "abc123");
            assert_eq!(group, 2);
        }
        other => panic!("expected a sample, not {:?}", other),
    }
    cache.store(2, Some(sample(1024)));
    assert!(matches!(cpu.request(&cache), Request::Nothing));
    assert!(matches!(memory.request(&cache), Request::Nothing));
    assert_eq!(written(memory.get_value(&Observation::Nothing, &cache)).as_deref(), Some("1024"));
    cache.store(2, Some(sample(2048)));
    assert_eq!(written(memory.get_value(&Observation::Nothing, &cache)).as_deref(), Some("1024"));
}

#[test]
fn a_failed_sample_leaves_the_cell_empty() {
    let mut cache = StatsCache::new();
    let memory = container_reporter(DockerContainerSensorReporterStat::MemoryUsage);
    cache.store(2, None);
    assert!(cache.get(2).is_none());
    assert_eq!(memory.stats_request(&cache).as_deref(), Some("abc123"));
    assert!(memory.get_value(&cache).is_none());
    cache.store(2, Some(sample(5)));
    assert!(cache.get(0).is_none());
    assert!(cache.get(1).is_none());
    assert!(cache.get(3).is_none());
    assert_eq!(written(memory.get_value(&cache)).as_deref(), Some("5"));
}

#[test]
fn a_container_without_id_is_never_sampled() {
    let cache = StatsCache::new();
    let mut reporter = container_reporter(DockerContainerSensorReporterStat::Status);
    reporter.container.id = None;
    assert_eq!(reporter.stats_request(&cache), None);
    assert!(reporter.get_value(&cache).is_none());
}

#[test]
fn the_status_is_told_once_there_is_a_sample() {
    let mut cache = StatsCache::new();
    let status = container_reporter(DockerContainerSensorReporterStat::Status);
    assert!(status.get_value(&cache).is_none());
    cache.store(2, Some(ContainerStats::default()));
    assert_eq!(written(status.get_value(&cache)).as_deref(), Some("Up 3 hours"));
    let mut silent = container_reporter(DockerContainerSensorReporterStat::Status);
    silent.container.status = None;
    assert!(silent.get_value(&cache).is_none());
}

#[test]
fn a_sample_without_figures_reads_as_zero() {
    let mut cache = StatsCache::new();
    cache.store(2, Some(ContainerStats::default()));
    let memory = container_reporter(DockerContainerSensorReporterStat::MemoryUsage);
    assert_eq!(written(memory.get_value(&cache)).as_deref(), Some("0"));
    let cpu = container_reporter(DockerContainerSensorReporterStat::CpuUsage);
    assert_eq!(written(cpu.get_value(&cache)).as_deref(), Some("0"));
}

#[test]
fn the_processor_share_of_a_container_is_written_shortest() {
    let mut cache = StatsCache::new();
    let counters = |total: u64, system: u64| {
        Some(CpuStats {
            cpu_usage: Some(CpuUsage { total_usage: Some(total) }),
            system_cpu_usage: Some(system),
            online_cpus: Some(4),
        })
    };
    cache.store(
        2,
        Some(ContainerStats {
            cpu_stats: counters(150, 1100),
            precpu_stats: counters(100, 1000),
            memory_stats: None,
        }),
    );
    let cpu = container_reporter(DockerContainerSensorReporterStat::CpuUsage);
    match cpu.get_value(&cache) {
        Some(Reading::Percent { part, whole, times, notation }) => {
            assert_eq!((part, whole, times, notation), (50, 100, 4, Notation::Shortest));
        }
        other => panic!("expected a percentage, not {:?}", other),
    }
    assert_eq!(written(cpu.get_value(&cache)).as_deref(), Some("200"));
}

#[test]
fn reporters_report_of_the_observation_they_asked_for() {
    let cache = StatsCache::new();
    let uptime = SensorReporterType::System(system(SystemSensorReporterStat::Uptime));
    assert_eq!(
        written(uptime.get_value(&Observation::Snapshot(snapshot()), &cache)).as_deref(),
        Some("86400")
    );
    assert!(uptime.get_value(&Observation::Nothing, &cache).is_none());
    assert!(uptime.get_value(&Observation::Output(Some("1".to_string())), &cache).is_none());
    let volumes = SensorReporterType::Docker(engine(DockerSensorReporterStat::VolumesCount));
    assert_eq!(
        written(volumes.get_value(&Observation::Listing(DockerReply::Volumes(Some(2))), &cache))
            .as_deref(),
        Some("2")
    );
    assert!(volumes.get_value(&Observation::Snapshot(snapshot()), &cache).is_none());
    let run = SensorReporterType::Command(command(Some(Transform::ArrayStatus)));
    assert_eq!(
        written(run.get_value(&Observation::Output(Some("mdState=STARTED\n".to_string())), &cache))
            .as_deref(),
        Some("STARTED")
    );
    assert!(run.get_value(&Observation::Output(None), &cache).is_none());
    assert!(run.get_value(&Observation::Listing(DockerReply::Failed), &cache).is_none());
}

fn args() -> Args {
    Args {
        host: None,
        port: 1883,
        client_id: None,
        username: None,
        password: None,
        config_file: None,
        sensor_dump: None,
        json_output: false,
        discovery_prefix: "homeassistant".to_string(),
        device_name: "tower".to_string(),
        skip_discovery: false,
    }
}

fn uptime_sensor(disabled: bool) -> Sensor {
    Sensor {
        id: "uptime".to_string(),
        name: "Uptime".to_string(),
        icon: Some("duration".to_string()),
        disabled,
        reporter: Some(SensorReporterType::System(system(SystemSensorReporterStat::Uptime))),
        ..Sensor::default()
    }
}

#[test]
fn the_cycle_follows_the_arguments() {
    let stats = UnraidStats::new(
        &Args { json_output: true, skip_discovery: true, device_name: "nas".to_string(), ..args() },
        None,
    );
    assert!(stats.json_output);
    assert!(stats.skip_discovery);
    assert!(stats.sensor_config.is_none());
    assert_eq!(stats.device_name, "nas");
    assert_eq!(stats.discovery_prefix, "homeassistant");
    assert_eq!(stats.node_id(), "unraid_nas");
    assert_eq!(stats.containers(), DockerQuery::Containers(ContainerFilter::Running));
}

#[test]
fn the_device_is_described_by_name_and_version() {
    let stats = UnraidStats::new(&args(), None);
    let device: DeviceInfo = stats.get_device_info(Some("version=\"6.12.4\"\n"));
    assert_eq!(device.identifiers, vec!["unraid_tower".to_string()]);
    assert_eq!(device.name, "Unraid tower");
    assert_eq!(device.model, "Unraid Server");
    assert_eq!(device.manufacturer, "Lime Technology");
    assert_eq!(device.sw_version, "6.12.4");
    assert_eq!(stats.get_device_info(None).sw_version, "Unknown");
}

#[test]
fn enabled_sensors_are_announced_and_retained() {
    let stats = UnraidStats::new(&args(), None);
    let sensors = vec![uptime_sensor(false), uptime_sensor(true), uptime_sensor(false)];
    let messages = stats.publish_discovery(&sensors, Some("version=7.0\n"));
    assert_eq!(messages.len(), 2);
    for m in &messages {
        assert_eq!(m.topic, "homeassistant/sensor/unraid_tower/uptime/config");
        assert!(m.retain);
        assert_eq!(m.config.name, "tower Uptime");
        assert_eq!(m.config.state_topic, "unraid_tower/sensor/uptime/state");
        assert_eq!(m.config.unique_id, "unraid_tower_uptime");
        assert_eq!(m.config.icon.as_deref(), Some("mdi:duration"));
        assert_eq!(m.config.device.sw_version, "7.0");
    }
}

#[test]
fn nothing_is_announced_where_announcements_are_skipped() {
    let stats = UnraidStats::new(&Args { skip_discovery: true, ..args() }, None);
    assert!(stats.publish_discovery(&vec![uptime_sensor(false)], None).is_empty());
    let stats = UnraidStats::new(&args(), None);
    assert!(stats.publish_discovery(&vec![uptime_sensor(true)], None).is_empty());
    assert!(stats.publish_discovery(&Vec::new(), None).is_empty());
}

#[test]
fn an_enabled_sensor_tells_its_value_unretained() {
    let stats = UnraidStats::new(&args(), None);
    let cache = StatsCache::new();
    let sensor = uptime_sensor(false);
    assert!(matches!(stats.request(&sensor, &cache), Request::Snapshot));
    let message = stats
        .publish_stats(&sensor, &Observation::Snapshot(snapshot()), &cache)
        .expect("a message");
    assert_eq!(message.topic, "unraid_tower/sensor/uptime/state");
    assert!(!message.retain);
    assert_eq!(written(Some(message.value)).as_deref(), Some("86400"));
}

#[test]
fn a_sensor_without_value_tells_nothing() {
    let stats = UnraidStats::new(&args(), None);
    let cache = StatsCache::new();
    let disabled = uptime_sensor(true);
    assert!(matches!(stats.request(&disabled, &cache), Request::Nothing));
    assert!(stats.publish_stats(&disabled, &Observation::Snapshot(snapshot()), &cache).is_none());
    let unbound = Sensor { id: "x".to_string(), ..Sensor::default() };
    assert!(matches!(stats.request(&unbound, &cache), Request::Nothing));
    assert!(stats.publish_stats(&unbound, &Observation::Snapshot(snapshot()), &cache).is_none());
    let enabled = uptime_sensor(false);
    assert!(stats.publish_stats(&enabled, &Observation::Nothing, &cache).is_none());
}

#[test]
fn messages_are_printed_published_or_dropped() {
    let printing = UnraidStats::new(&Args { json_output: true, ..args() }, None);
    assert_eq!(printing.sink(true), Sink::Print);
    assert_eq!(printing.sink(false), Sink::Print);
    let publishing = UnraidStats::new(&args(), None);
    assert_eq!(publishing.sink(true), Sink::Publish);
    assert_eq!(publishing.sink(false), Sink::Drop);
}
