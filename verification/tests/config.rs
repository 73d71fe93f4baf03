//! The configuration as a map, and its form as a TOML document.
use toml::{Table, Value};
use unraid_mqtt_stats::config::{
    CommandSensor, Config, ConfigDump, DeviceClass, PostProcess, Sensor, SensorConfig, Sensors,
    SensorsDump,
};

fn example_toml() -> &'static str {
    r#"
[sensors.temp_sensor]
type = "override"
name = "Temperature"
unit = "°C"
device_class = "temperature"
icon = "mdi:thermometer"
disabled = false

[sensors.disk_sensor]
type = "override"
name = "Disk Usage"
unit = "%"
icon = "mdi:harddisk"
disabled = false

[sensors.disk_command]
type = "command"
name = "Disk Usage"
unit = "%"
command = "df" 
args = ["-h", "/mnt/user/appdata"]
icon = "mdi:harddisk"
disabled = false
"#
}

fn text_of(entry: &Table, key: &str) -> Option<String> {
    entry.get(key).map(|v| v.as_str().expect("a string").to_string())
}

fn class_of(entry: &Table) -> Option<DeviceClass> {
    text_of(entry, "device_class").map(|n| DeviceClass::from_name(&n).expect("a device class"))
}

fn post_process_of(entry: &Table) -> Option<PostProcess> {
    text_of(entry, "post_process").map(|n| match n.as_str() {
        "TrimWhitespace" => PostProcess::TrimWhitespace,
        "ParseFloat" => PostProcess::ParseFloat,
        "ParseInteger" => PostProcess::ParseInteger,
        "ExtractNumber" => PostProcess::ExtractNumber,
        "ToUpperCase" => PostProcess::ToUpperCase,
        "ToLowerCase" => PostProcess::ToLowerCase,
        other => panic!("no post process {}", other),
    })
}

fn entry_of(entry: &Table) -> Sensors {
    let disabled = entry.get("disabled").expect("disabled").as_bool().expect("a flag");
    match entry.get("type").and_then(Value::as_str) {
        Some("override") => Sensors::SensorOverride(SensorConfig {
            id: String::new(),
            name: text_of(entry, "name"),
            unit: text_of(entry, "unit"),
            device_class: class_of(entry),
            icon: text_of(entry, "icon"),
            disabled,
        }),
        Some("command") => Sensors::Command(CommandSensor {
            id: String::new(),
            name: text_of(entry, "name").expect("name"),
            unit: text_of(entry, "unit"),
            device_class: class_of(entry),
            icon: text_of(entry, "icon"),
            command: text_of(entry, "command").expect("command"),
            args: entry.get("args").map(|a| {
                a.as_array()
                    .expect("a list")
                    .iter()
                    .map(|v| v.as_str().expect("a string").to_string())
                    .collect()
            }),
            post_process: post_process_of(entry),
            disabled,
        }),
        _ => panic!("an entry without a known type"),
    }
}

fn config_from_toml(text: &str) -> Result<Config, toml::de::Error> {
    let document: Table = toml::from_str(text)?;
    let mut config = Config::new();
    if let Some(sensors) = document.get("sensors").and_then(Value::as_table) {
        for (key, entry) in sensors {
            config.insert(key.clone(), entry_of(entry.as_table().expect("a table")));
        }
    }
    Ok(config)
}

fn dump_from_toml(text: &str) -> Result<ConfigDump, toml::de::Error> {
    let config = config_from_toml(text)?;
    let mut dump = ConfigDump::new();
    for entry in config.sensors {
        match entry {
            Sensors::SensorOverride(patch) => dump.insert(Sensor {
                id: patch.id,
                name: patch.name.expect("name"),
                unit: patch.unit,
                device_class: patch.device_class,
                icon: patch.icon,
                disabled: patch.disabled,
                reporter: None,
            }),
            Sensors::Command(_) => panic!("a dump holds overrides only"),
        }
    }
    Ok(dump)
}

fn dump_to_toml(dump: &ConfigDump) -> Result<String, toml::ser::Error> {
    let mut sensors = Table::new();
    for entry in &dump.to_config().sensors {
        let Sensors::SensorOverride(patch) = entry else {
            panic!("a dump holds overrides only");
        };
        let mut record = Table::new();
        record.insert("type".to_string(), Value::String("override".to_string()));
        if let Some(name) = &patch.name {
            record.insert("name".to_string(), Value::String(name.clone()));
        }
        if let Some(unit) = &patch.unit {
            record.insert("unit".to_string(), Value::String(unit.clone()));
        }
        if let Some(class) = &patch.device_class {
            record.insert("device_class".to_string(), Value::String(class.as_str().to_string()));
        }
        if let Some(icon) = &patch.icon {
            record.insert("icon".to_string(), Value::String(icon.clone()));
        }
        record.insert("disabled".to_string(), Value::Boolean(patch.disabled));
        sensors.insert(patch.id.clone(), Value::Table(record));
    }
    let mut document = Table::new();
    document.insert("sensors".to_string(), Value::Table(sensors));
    toml::to_string(&document)
}

#[test]
fn test_parse_config() {
    let toml_str = example_toml();
    let config: Config = config_from_toml(toml_str).expect("Failed to parse config TOML");
    assert_eq!(config.sensors.len(), 3);

    match config.get("temp_sensor").expect("temp_sensor") {
        Sensors::SensorOverride(sc) => {
            assert_eq!(sc.name.as_deref(), Some("Temperature"));
            assert_eq!(sc.unit.as_deref(), Some("°C"));
            assert_eq!(
                sc.device_class.as_ref().map(|d| format!("{:?}", d)),
                Some("Temperature".to_string())
            );
            assert_eq!(sc.icon.as_deref(), Some("mdi:thermometer"));
            assert!(!sc.disabled);
        }
        _ => panic!("Expected SensorOverride"),
    }
}

#[test]
fn test_generate_config_dump() {
    let mut config_dump = ConfigDump::new();
    config_dump.insert(Sensor {
        id: "temp_sensor".to_string(),
        name: "Temperature".to_string(),
        unit: Some("°C".to_string()),
        device_class: Some(DeviceClass::Temperature),
        icon: Some("mdi:thermometer".to_string()),
        disabled: false,
        reporter: None,
    });
    let toml_str = dump_to_toml(&config_dump).expect("Failed to serialize ConfigDump");
    assert!(toml_str.contains("temp_sensor"));
    assert!(toml_str.contains("Temperature"));
}

#[test]
fn test_round_trip_config_dump() {
    let toml_str = r#"
[sensors.temp_sensor]
type = "override"
name = "Temperature"
unit = "°C"
device_class = "temperature"
icon = "mdi:thermometer"
disabled = false
"#;
    let config_dump: ConfigDump = dump_from_toml(toml_str).expect("Failed to parse ConfigDump TOML");
    let toml_out = dump_to_toml(&config_dump).expect("Failed to serialize ConfigDump");
    assert!(toml_out.contains("temp_sensor"));
    assert!(toml_out.contains("Temperature"));
}

#[test]
fn parsed_entries_take_their_key_as_id() {
    let config = config_from_toml(example_toml()).expect("a configuration");
    for key in ["temp_sensor", "disk_sensor", "disk_command"] {
        assert_eq!(config.get(key).expect("an entry").id(), key);
    }
    match config.get("disk_command").expect("disk_command") {
        Sensors::Command(c) => {
            assert_eq!(c.name, "Disk Usage");
            assert_eq!(c.command, "df");
            assert_eq!(c.args, Some(vec!["-h".to_string(), "/mnt/user/appdata".to_string()]));
            assert!(c.post_process.is_none());
        }
        _ => panic!("Expected Command"),
    }
}

fn patch(name: &str) -> Sensors {
    Sensors::SensorOverride(SensorConfig {
        id: "whatever".to_string(),
        name: Some(name.to_string()),
        ..SensorConfig::default()
    })
}

fn name_under(config: &Config, key: &str) -> Option<String> {
    match config.get(key) {
        Some(Sensors::SensorOverride(p)) => p.name.clone(),
        _ => None,
    }
}

#[test]
fn empty_config_has_no_entries() {
    let config = Config::new();
    assert_eq!(config.len(), 0);
    assert!(config.get("cpu_usage").is_none());
    assert!(config.get("").is_none());
}

#[test]
fn insert_puts_the_entry_under_its_key() {
    let mut config = Config::new();
    config.insert("a".to_string(), patch("first"));
    config.insert("b".to_string(), patch("second"));
    assert_eq!(config.len(), 2);
    assert_eq!(config.get("a").expect("a").id(), "a");
    assert_eq!(name_under(&config, "a").as_deref(), Some("first"));
    assert_eq!(name_under(&config, "b").as_deref(), Some("second"));
    assert!(config.get("c").is_none());
    assert!(config.get("whatever").is_none());
}

#[test]
fn insert_replaces_the_entry_that_stood_under_the_key() {
    let mut config = Config::new();
    config.insert("a".to_string(), patch("first"));
    config.insert("b".to_string(), patch("second"));
    config.insert("a".to_string(), patch("third"));
    assert_eq!(config.len(), 2);
    assert_eq!(name_under(&config, "a").as_deref(), Some("third"));
    assert_eq!(config.sensors[0].id(), "a");
    assert_eq!(config.sensors[1].id(), "b");
}

#[test]
fn get_finds_the_first_entry_where_a_key_stands_twice() {
    let twice = |name: &str| {
        Sensors::SensorOverride(SensorConfig {
            id: "a".to_string(),
            name: Some(name.to_string()),
            ..SensorConfig::default()
        })
    };
    let config = Config { sensors: vec![twice("first"), twice("second")] };
    assert_eq!(name_under(&config, "a").as_deref(), Some("first"));
}

fn sensor(id: &str, name: &str) -> Sensor {
    Sensor { id: id.to_string(), name: name.to_string(), ..Sensor::default() }
}

#[test]
fn a_dump_keeps_the_last_sensor_of_an_id() {
    let mut dump = ConfigDump::new();
    dump.insert(sensor("a", "first"));
    dump.insert(sensor("b", "second"));
    dump.insert(sensor("a", "third"));
    assert_eq!(dump.sensors.len(), 2);
    let SensorsDump::SensorOverride(first) = &dump.sensors[0];
    assert_eq!(first.id, "a");
    assert_eq!(first.name, "third");
}

#[test]
fn a_dump_is_read_as_overrides_that_hold_every_field() {
    let mut dump = ConfigDump::new();
    dump.insert(Sensor {
        id: "memory_total".to_string(),
        name: "Memory Total".to_string(),
        unit: Some("B".to_string()),
        device_class: Some(DeviceClass::DataSize),
        icon: None,
        disabled: true,
        reporter: None,
    });
    let config = dump.to_config();
    assert_eq!(config.len(), 1);
    match config.get("memory_total").expect("memory_total") {
        Sensors::SensorOverride(p) => {
            assert_eq!(p.id, "memory_total");
            assert_eq!(p.name.as_deref(), Some("Memory Total"));
            assert_eq!(p.unit.as_deref(), Some("B"));
            assert_eq!(p.device_class, Some(DeviceClass::DataSize));
            assert_eq!(p.icon, None);
            assert!(p.disabled);
        }
        _ => panic!("Expected SensorOverride"),
    }
}

#[test]
fn device_class_names_are_lower_case_words() {
    assert_eq!(DeviceClass::Temperature.as_str(), "temperature");
    assert_eq!(DeviceClass::DataSize.as_str(), "data_size");
    assert_eq!(DeviceClass::Pm25.as_str(), "pm25");
    assert_eq!(DeviceClass::Pm10.as_str(), "pm10");
    assert_eq!(DeviceClass::Ph.as_str(), "ph");
    assert_eq!(DeviceClass::Aqi.as_str(), "aqi");
    assert_eq!(
        DeviceClass::VolatileOrganicCompoundsParts.as_str(),
        "volatile_organic_compounds_parts"
    );
    assert_eq!(DeviceClass::BloodGlucoseConcentration.as_str(), "blood_glucose_concentration");
}

#[test]
fn device_class_names_are_read_back() {
    let all = [
        DeviceClass::Date,
        DeviceClass::Enum,
        DeviceClass::Timestamp,
        DeviceClass::ApparentPower,
        DeviceClass::Aqi,
        DeviceClass::Area,
        DeviceClass::AtmosphericPressure,
        DeviceClass::Battery,
        DeviceClass::BloodGlucoseConcentration,
        DeviceClass::CarbonMonoxide,
        DeviceClass::CarbonDioxide,
        DeviceClass::Conductivity,
        DeviceClass::Current,
        DeviceClass::DataRate,
        DeviceClass::DataSize,
        DeviceClass::Distance,
        DeviceClass::Duration,
        DeviceClass::Energy,
        DeviceClass::EnergyDistance,
        DeviceClass::EnergyStorage,
        DeviceClass::Frequency,
        DeviceClass::Gas,
        DeviceClass::Humidity,
        DeviceClass::Illuminance,
        DeviceClass::Irradiance,
        DeviceClass::Moisture,
        DeviceClass::Monetary,
        DeviceClass::NitrogenDioxide,
        DeviceClass::NitrogenMonoxide,
        DeviceClass::NitrousOxide,
        DeviceClass::Ozone,
        DeviceClass::Ph,
        DeviceClass::Pm1,
        DeviceClass::Pm10,
        DeviceClass::Pm25,
        DeviceClass::PowerFactor,
        DeviceClass::Power,
        DeviceClass::Precipitation,
        DeviceClass::PrecipitationIntensity,
        DeviceClass::Pressure,
        DeviceClass::ReactiveEnergy,
        DeviceClass::ReactivePower,
        DeviceClass::SignalStrength,
        DeviceClass::SoundPressure,
        DeviceClass::Speed,
        DeviceClass::SulphurDioxide,
        DeviceClass::Temperature,
        DeviceClass::VolatileOrganicCompounds,
        DeviceClass::VolatileOrganicCompoundsParts,
        DeviceClass::Voltage,
        DeviceClass::Volume,
        DeviceClass::VolumeStorage,
        DeviceClass::VolumeFlowRate,
        DeviceClass::Water,
        DeviceClass::Weight,
        DeviceClass::WindDirection,
        DeviceClass::WindSpeed,
    ];
    assert_eq!(all.len(), 57);
    for class in all {
        assert_eq!(DeviceClass::from_name(class.as_str()), Some(class));
    }
    assert_eq!(DeviceClass::from_name("Temperature"), None);
    assert_eq!(DeviceClass::from_name(""), None);
    assert_eq!(DeviceClass::from_name("data size"), None);
}
