//! A sensor's merge, topics and discovery document.
use unraid_mqtt_stats::config::{
    CommandSensor, DeviceClass, PostProcess, Sensor, SensorConfig, SensorReporterType,
    SystemSensorReporter, SystemSensorReporterStat,
};
use unraid_mqtt_stats::reporter::Transform;
use unraid_mqtt_stats::sensor::DeviceInfo;

fn memory_sensor() -> Sensor {
    Sensor {
        id: "memory_total".to_string(),
        name: "Memory Total".to_string(),
        unit: Some("B".to_string()),
        device_class: Some(DeviceClass::DataSize),
        icon: Some("memory".to_string()),
        disabled: false,
        reporter: Some(SensorReporterType::System(SystemSensorReporter {
            name: SystemSensorReporterStat::MemoryTotal,
        })),
    }
}

fn is_memory_total(reporter: &Option<SensorReporterType>) -> bool {
    matches!(
        reporter,
        Some(SensorReporterType::System(SystemSensorReporter {
            name: SystemSensorReporterStat::MemoryTotal
        }))
    )
}

fn fields(s: &Sensor) -> (String, String, Option<String>, Option<DeviceClass>, Option<String>, bool) {
    (s.id.clone(), s.name.clone(), s.unit.clone(), s.device_class, s.icon.clone(), s.disabled)
}

#[test]
fn merge_takes_the_fields_that_the_patch_holds() {
    let mut s = memory_sensor();
    s.merge(&SensorConfig {
        id: "memory_total".to_string(),
        name: Some("RAM".to_string()),
        unit: Some("GiB".to_string()),
        device_class: Some(DeviceClass::DataRate),
        icon: Some("chip".to_string()),
        disabled: true,
    });
    assert_eq!(s.id, "memory_total");
    assert_eq!(s.name, "RAM");
    assert_eq!(s.unit.as_deref(), Some("GiB"));
    assert_eq!(s.device_class, Some(DeviceClass::DataRate));
    assert_eq!(s.icon.as_deref(), Some("chip"));
    assert!(s.disabled);
    assert!(is_memory_total(&s.reporter));
}

#[test]
fn merge_leaves_the_fields_that_the_patch_lacks() {
    let mut s = memory_sensor();
    s.merge(&SensorConfig { id: "memory_total".to_string(), ..SensorConfig::default() });
    assert_eq!(fields(&s), fields(&memory_sensor()));
    assert!(is_memory_total(&s.reporter));

    let mut s = memory_sensor();
    s.merge(&SensorConfig {
        id: "memory_total".to_string(),
        icon: Some("chip".to_string()),
        ..SensorConfig::default()
    });
    assert_eq!(s.name, "Memory Total");
    assert_eq!(s.unit.as_deref(), Some("B"));
    assert_eq!(s.device_class, Some(DeviceClass::DataSize));
    assert_eq!(s.icon.as_deref(), Some("chip"));
    assert!(!s.disabled);
}

#[test]
fn merge_of_a_foreign_patch_changes_nothing() {
    let mut s = memory_sensor();
    s.merge(&SensorConfig {
        id: "memory_used".to_string(),
        name: Some("RAM".to_string()),
        unit: Some("GiB".to_string()),
        device_class: Some(DeviceClass::DataRate),
        icon: Some("chip".to_string()),
        disabled: true,
    });
    assert_eq!(fields(&s), fields(&memory_sensor()));
    assert!(is_memory_total(&s.reporter));
}

#[test]
fn merge_of_a_wildcard_patch_applies_whatever_its_id() {
    let mut s = memory_sensor();
    s.merge(&SensorConfig {
        id: "dockercontainer_*_cpu".to_string(),
        name: Some("RAM".to_string()),
        disabled: true,
        ..SensorConfig::default()
    });
    assert_eq!(s.id, "memory_total");
    assert_eq!(s.name, "RAM");
    assert!(s.disabled);
    assert_eq!(s.unit.as_deref(), Some("B"));
}

#[test]
fn merge_never_enables_a_disabled_sensor() {
    let mut s = memory_sensor();
    s.disabled = true;
    s.merge(&SensorConfig {
        id: "memory_total".to_string(),
        disabled: false,
        ..SensorConfig::default()
    });
    assert!(s.disabled);
}

#[test]
fn merging_a_patch_twice_is_merging_it_once() {
    let patch = SensorConfig {
        id: "memory_total".to_string(),
        name: Some("RAM".to_string()),
        unit: None,
        device_class: None,
        icon: Some("chip".to_string()),
        disabled: true,
    };
    let mut once = memory_sensor();
    once.merge(&patch);
    let mut twice = memory_sensor();
    twice.merge(&patch);
    twice.merge(&patch);
    assert_eq!(fields(&once), fields(&twice));
}

#[test]
fn topics_are_made_of_node_and_id() {
    let s = memory_sensor();
    assert_eq!(s.sensor_topic("unraid_tower"), "unraid_tower/sensor/memory_total/state");
    assert_eq!(
        s.discovery_topic("homeassistant", "unraid_tower"),
        "homeassistant/sensor/unraid_tower/memory_total/config"
    );
    assert_eq!(s.sensor_topic(""), "/sensor/memory_total/state");
    assert_eq!(s.discovery_topic("", ""), "/sensor//memory_total/config");
}

#[test]
fn topics_depend_on_the_id_alone() {
    let a = memory_sensor();
    let b = Sensor { id: "memory_total".to_string(), ..Sensor::default() };
    assert_eq!(a.sensor_topic("n"), b.sensor_topic("n"));
    assert_eq!(a.discovery_topic("p", "n"), b.discovery_topic("p", "n"));
    assert_eq!(a.sensor_topic("n"), a.sensor_topic("n"));
}

fn device() -> DeviceInfo {
    DeviceInfo {
        identifiers: vec!["unraid_tower".to_string()],
        name: "Unraid tower".to_string(),
        model: "Unraid Server".to_string(),
        manufacturer: "Lime Technology".to_string(),
        sw_version: "6.12.4".to_string(),
    }
}

#[test]
fn the_discovery_document_holds_every_field() {
    let config = memory_sensor().disovery_config("tower", "unraid_tower", &device());
    assert_eq!(config.name, "tower Memory Total");
    assert_eq!(config.state_topic, "unraid_tower/sensor/memory_total/state");
    assert_eq!(config.unique_id, "unraid_tower_memory_total");
    assert_eq!(config.unit_of_measurement.as_deref(), Some("B"));
    assert_eq!(config.device_class.as_deref(), Some("data_size"));
    assert_eq!(config.icon.as_deref(), Some("mdi:memory"));
    assert_eq!(config.device.identifiers, vec!["unraid_tower".to_string()]);
    assert_eq!(config.device.name, "Unraid tower");
    assert_eq!(config.device.model, "Unraid Server");
    assert_eq!(config.device.manufacturer, "Lime Technology");
    assert_eq!(config.device.sw_version, "6.12.4");
}

#[test]
fn the_discovery_document_leaves_absent_fields_out() {
    let s = Sensor { id: "uptime".to_string(), name: "Uptime".to_string(), ..Sensor::default() };
    let config = s.disovery_config("tower", "unraid_tower", &device());
    assert_eq!(config.name, "tower Uptime");
    assert_eq!(config.unique_id, "unraid_tower_uptime");
    assert_eq!(config.unit_of_measurement, None);
    assert_eq!(config.device_class, None);
    assert_eq!(config.icon, None);
}

#[test]
fn a_command_sensor_becomes_a_sensor_that_runs_the_command() {
    let definition = CommandSensor {
        id: "load".to_string(),
        name: "Load".to_string(),
        unit: Some("%".to_string()),
        device_class: Some(DeviceClass::PowerFactor),
        icon: Some("gauge".to_string()),
        command: "uptime".to_string(),
        args: Some(vec!["-p".to_string()]),
        post_process: Some(PostProcess::ParseFloat),
        disabled: true,
    };
    let s = Sensor::from(&definition);
    assert_eq!(
        fields(&s),
        (
            "load".to_string(),
            "Load".to_string(),
            Some("%".to_string()),
            Some(DeviceClass::PowerFactor),
            Some("gauge".to_string()),
            true
        )
    );
    match s.reporter {
        Some(SensorReporterType::Command(r)) => {
            assert_eq!(r.command, "uptime");
            assert_eq!(r.args, Some(vec!["-p".to_string()]));
            assert_eq!(r.transform, Some(Transform::Process(PostProcess::ParseFloat)));
        }
        _ => panic!("expected a command reporter"),
    }
}

#[test]
fn a_command_sensor_without_post_process_passes_the_output_through() {
    let definition = CommandSensor {
        id: "host".to_string(),
        name: "Host".to_string(),
        command: "hostname".to_string(),
        ..CommandSensor::default()
    };
    match Sensor::from(&definition).reporter {
        Some(SensorReporterType::Command(r)) => {
            assert_eq!(r.args, None);
            assert_eq!(r.transform, Some(Transform::PassThrough));
        }
        _ => panic!("expected a command reporter"),
    }
}
