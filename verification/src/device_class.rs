//! The classes of measurement that a sensor can announce.
use vstd::prelude::*;

use crate::text::same_text;

verus! {

/// What kind of quantity a sensor measures, as home-automation hubs name it.
#[derive(Debug, Clone, Copy, PartialEq, Eq, Structural)]
pub enum DeviceClass {
    Date,
    Enum,
    Timestamp,
    ApparentPower,
    Aqi,
    Area,
    AtmosphericPressure,
    Battery,
    BloodGlucoseConcentration,
    CarbonMonoxide,
    CarbonDioxide,
    Conductivity,
    Current,
    DataRate,
    DataSize,
    Distance,
    Duration,
    Energy,
    EnergyDistance,
    EnergyStorage,
    Frequency,
    Gas,
    Humidity,
    Illuminance,
    Irradiance,
    Moisture,
    Monetary,
    NitrogenDioxide,
    NitrogenMonoxide,
    NitrousOxide,
    Ozone,
    Ph,
    Pm1,
    Pm10,
    Pm25,
    PowerFactor,
    Power,
    Precipitation,
    PrecipitationIntensity,
    Pressure,
    ReactiveEnergy,
    ReactivePower,
    SignalStrength,
    SoundPressure,
    Speed,
    SulphurDioxide,
    Temperature,
    VolatileOrganicCompounds,
    VolatileOrganicCompoundsParts,
    Voltage,
    Volume,
    VolumeStorage,
    VolumeFlowRate,
    Water,
    Weight,
    WindDirection,
    WindSpeed,
}

impl DeviceClass {
    /// The name under which the class is published: the variant's name in
    /// lower case, its words joined by underscores.
    pub open spec fn name(self) -> Seq<char> {
        match self {
            DeviceClass::Date => "date"@,
            DeviceClass::Enum => "enum"@,
            DeviceClass::Timestamp => "timestamp"@,
            DeviceClass::ApparentPower => "apparent_power"@,
            DeviceClass::Aqi => "aqi"@,
            DeviceClass::Area => "area"@,
            DeviceClass::AtmosphericPressure => "atmospheric_pressure"@,
            DeviceClass::Battery => "battery"@,
            DeviceClass::BloodGlucoseConcentration => "blood_glucose_concentration"@,
            DeviceClass::CarbonMonoxide => "carbon_monoxide"@,
            DeviceClass::CarbonDioxide => "carbon_dioxide"@,
            DeviceClass::Conductivity => "conductivity"@,
            DeviceClass::Current => "current"@,
            DeviceClass::DataRate => "data_rate"@,
            DeviceClass::DataSize => "data_size"@,
            DeviceClass::Distance => "distance"@,
            DeviceClass::Duration => "duration"@,
            DeviceClass::Energy => "energy"@,
            DeviceClass::EnergyDistance => "energy_distance"@,
            DeviceClass::EnergyStorage => "energy_storage"@,
            DeviceClass::Frequency => "frequency"@,
            DeviceClass::Gas => "gas"@,
            DeviceClass::Humidity => "humidity"@,
            DeviceClass::Illuminance => "illuminance"@,
            DeviceClass::Irradiance => "irradiance"@,
            DeviceClass::Moisture => "moisture"@,
            DeviceClass::Monetary => "monetary"@,
            DeviceClass::NitrogenDioxide => "nitrogen_dioxide"@,
            DeviceClass::NitrogenMonoxide => "nitrogen_monoxide"@,
            DeviceClass::NitrousOxide => "nitrous_oxide"@,
            DeviceClass::Ozone => "ozone"@,
            DeviceClass::Ph => "ph"@,
            DeviceClass::Pm1 => "pm1"@,
            DeviceClass::Pm10 => "pm10"@,
            DeviceClass::Pm25 => "pm25"@,
            DeviceClass::PowerFactor => "power_factor"@,
            DeviceClass::Power => "power"@,
            DeviceClass::Precipitation => "precipitation"@,
            DeviceClass::PrecipitationIntensity => "precipitation_intensity"@,
            DeviceClass::Pressure => "pressure"@,
            DeviceClass::ReactiveEnergy => "reactive_energy"@,
            DeviceClass::ReactivePower => "reactive_power"@,
            DeviceClass::SignalStrength => "signal_strength"@,
            DeviceClass::SoundPressure => "sound_pressure"@,
            DeviceClass::Speed => "speed"@,
            DeviceClass::SulphurDioxide => "sulphur_dioxide"@,
            DeviceClass::Temperature => "temperature"@,
            DeviceClass::VolatileOrganicCompounds => "volatile_organic_compounds"@,
            DeviceClass::VolatileOrganicCompoundsParts => "volatile_organic_compounds_parts"@,
            DeviceClass::Voltage => "voltage"@,
            DeviceClass::Volume => "volume"@,
            DeviceClass::VolumeStorage => "volume_storage"@,
            DeviceClass::VolumeFlowRate => "volume_flow_rate"@,
            DeviceClass::Water => "water"@,
            DeviceClass::Weight => "weight"@,
            DeviceClass::WindDirection => "wind_direction"@,
            DeviceClass::WindSpeed => "wind_speed"@,
        }
    }

    /// The name under which the class is published.
    pub fn as_str(&self) -> (s: &'static str)
        ensures
            s@ == self.name(),
    {
        match self {
            DeviceClass::Date => "date",
            DeviceClass::Enum => "enum",
            DeviceClass::Timestamp => "timestamp",
            DeviceClass::ApparentPower => "apparent_power",
            DeviceClass::Aqi => "aqi",
            DeviceClass::Area => "area",
            DeviceClass::AtmosphericPressure => "atmospheric_pressure",
            DeviceClass::Battery => "battery",
            DeviceClass::BloodGlucoseConcentration => "blood_glucose_concentration",
            DeviceClass::CarbonMonoxide => "carbon_monoxide",
            DeviceClass::CarbonDioxide => "carbon_dioxide",
            DeviceClass::Conductivity => "conductivity",
            DeviceClass::Current => "current",
            DeviceClass::DataRate => "data_rate",
            DeviceClass::DataSize => "data_size",
            DeviceClass::Distance => "distance",
            DeviceClass::Duration => "duration",
            DeviceClass::Energy => "energy",
            DeviceClass::EnergyDistance => "energy_distance",
            DeviceClass::EnergyStorage => "energy_storage",
            DeviceClass::Frequency => "frequency",
            DeviceClass::Gas => "gas",
            DeviceClass::Humidity => "humidity",
            DeviceClass::Illuminance => "illuminance",
            DeviceClass::Irradiance => "irradiance",
            DeviceClass::Moisture => "moisture",
            DeviceClass::Monetary => "monetary",
            DeviceClass::NitrogenDioxide => "nitrogen_dioxide",
            DeviceClass::NitrogenMonoxide => "nitrogen_monoxide",
            DeviceClass::NitrousOxide => "nitrous_oxide",
            DeviceClass::Ozone => "ozone",
            DeviceClass::Ph => "ph",
            DeviceClass::Pm1 => "pm1",
            DeviceClass::Pm10 => "pm10",
            DeviceClass::Pm25 => "pm25",
            DeviceClass::PowerFactor => "power_factor",
            DeviceClass::Power => "power",
            DeviceClass::Precipitation => "precipitation",
            DeviceClass::PrecipitationIntensity => "precipitation_intensity",
            DeviceClass::Pressure => "pressure",
            DeviceClass::ReactiveEnergy => "reactive_energy",
            DeviceClass::ReactivePower => "reactive_power",
            DeviceClass::SignalStrength => "signal_strength",
            DeviceClass::SoundPressure => "sound_pressure",
            DeviceClass::Speed => "speed",
            DeviceClass::SulphurDioxide => "sulphur_dioxide",
            DeviceClass::Temperature => "temperature",
            DeviceClass::VolatileOrganicCompounds => "volatile_organic_compounds",
            DeviceClass::VolatileOrganicCompoundsParts => "volatile_organic_compounds_parts",
            DeviceClass::Voltage => "voltage",
            DeviceClass::Volume => "volume",
            DeviceClass::VolumeStorage => "volume_storage",
            DeviceClass::VolumeFlowRate => "volume_flow_rate",
            DeviceClass::Water => "water",
            DeviceClass::Weight => "weight",
            DeviceClass::WindDirection => "wind_direction",
            DeviceClass::WindSpeed => "wind_speed",
        }
    }

    /// The class that is published under `name`, if there is one.
    pub fn from_name(name: &str) -> (r: Option<DeviceClass>)
        ensures
            match r {
                Some(class) => class.name() == name@,
                None => forall|class: DeviceClass| class.name() != name@,
            },
    {
        if same_text(name, "date") {
            Some(DeviceClass::Date)
        } else if same_text(name, "enum") {
            Some(DeviceClass::Enum)
        } else if same_text(name, "timestamp") {
            Some(DeviceClass::Timestamp)
        } else if same_text(name, "apparent_power") {
            Some(DeviceClass::ApparentPower)
        } else if same_text(name, "aqi") {
            Some(DeviceClass::Aqi)
        } else if same_text(name, "area") {
            Some(DeviceClass::Area)
        } else if same_text(name, "atmospheric_pressure") {
            Some(DeviceClass::AtmosphericPressure)
        } else if same_text(name, "battery") {
            Some(DeviceClass::Battery)
        } else if same_text(name, "blood_glucose_concentration") {
            Some(DeviceClass::BloodGlucoseConcentration)
        } else if same_text(name, "carbon_monoxide") {
            Some(DeviceClass::CarbonMonoxide)
        } else if same_text(name, "carbon_dioxide") {
            Some(DeviceClass::CarbonDioxide)
        } else if same_text(name, "conductivity") {
            Some(DeviceClass::Conductivity)
        } else if same_text(name, "current") {
            Some(DeviceClass::Current)
        } else if same_text(name, "data_rate") {
            Some(DeviceClass::DataRate)
        } else if same_text(name, "data_size") {
            Some(DeviceClass::DataSize)
        } else if same_text(name, "distance") {
            Some(DeviceClass::Distance)
        } else if same_text(name, "duration") {
            Some(DeviceClass::Duration)
        } else if same_text(name, "energy") {
            Some(DeviceClass::Energy)
        } else if same_text(name, "energy_distance") {
            Some(DeviceClass::EnergyDistance)
        } else if same_text(name, "energy_storage") {
            Some(DeviceClass::EnergyStorage)
        } else if same_text(name, "frequency") {
            Some(DeviceClass::Frequency)
        } else if same_text(name, "gas") {
            Some(DeviceClass::Gas)
        } else if same_text(name, "humidity") {
            Some(DeviceClass::Humidity)
        } else if same_text(name, "illuminance") {
            Some(DeviceClass::Illuminance)
        } else if same_text(name, "irradiance") {
            Some(DeviceClass::Irradiance)
        } else if same_text(name, "moisture") {
            Some(DeviceClass::Moisture)
        } else if same_text(name, "monetary") {
            Some(DeviceClass::Monetary)
        } else if same_text(name, "nitrogen_dioxide") {
            Some(DeviceClass::NitrogenDioxide)
        } else if same_text(name, "nitrogen_monoxide") {
            Some(DeviceClass::NitrogenMonoxide)
        } else if same_text(name, "nitrous_oxide") {
            Some(DeviceClass::NitrousOxide)
        } else if same_text(name, "ozone") {
            Some(DeviceClass::Ozone)
        } else if same_text(name, "ph") {
            Some(DeviceClass::Ph)
        } else if same_text(name, "pm1") {
            Some(DeviceClass::Pm1)
        } else if same_text(name, "pm10") {
            Some(DeviceClass::Pm10)
        } else if same_text(name, "pm25") {
            Some(DeviceClass::Pm25)
        } else if same_text(name, "power_factor") {
            Some(DeviceClass::PowerFactor)
        } else if same_text(name, "power") {
            Some(DeviceClass::Power)
        } else if same_text(name, "precipitation") {
            Some(DeviceClass::Precipitation)
        } else if same_text(name, "precipitation_intensity") {
            Some(DeviceClass::PrecipitationIntensity)
        } else if same_text(name, "pressure") {
            Some(DeviceClass::Pressure)
        } else if same_text(name, "reactive_energy") {
            Some(DeviceClass::ReactiveEnergy)
        } else if same_text(name, "reactive_power") {
            Some(DeviceClass::ReactivePower)
        } else if same_text(name, "signal_strength") {
            Some(DeviceClass::SignalStrength)
        } else if same_text(name, "sound_pressure") {
            Some(DeviceClass::SoundPressure)
        } else if same_text(name, "speed") {
            Some(DeviceClass::Speed)
        } else if same_text(name, "sulphur_dioxide") {
            Some(DeviceClass::SulphurDioxide)
        } else if same_text(name, "temperature") {
            Some(DeviceClass::Temperature)
        } else if same_text(name, "volatile_organic_compounds") {
            Some(DeviceClass::VolatileOrganicCompounds)
        } else if same_text(name, "volatile_organic_compounds_parts") {
            Some(DeviceClass::VolatileOrganicCompoundsParts)
        } else if same_text(name, "voltage") {
            Some(DeviceClass::Voltage)
        } else if same_text(name, "volume") {
            Some(DeviceClass::Volume)
        } else if same_text(name, "volume_storage") {
            Some(DeviceClass::VolumeStorage)
        } else if same_text(name, "volume_flow_rate") {
            Some(DeviceClass::VolumeFlowRate)
        } else if same_text(name, "water") {
            Some(DeviceClass::Water)
        } else if same_text(name, "weight") {
            Some(DeviceClass::Weight)
        } else if same_text(name, "wind_direction") {
            Some(DeviceClass::WindDirection)
        } else if same_text(name, "wind_speed") {
            Some(DeviceClass::WindSpeed)
        } else {
            None
        }
    }
}

/// The place of a class in the list of classes.
spec fn ordinal(class: DeviceClass) -> int {
    match class {
        DeviceClass::Date => 0,
        DeviceClass::Enum => 1,
        DeviceClass::Timestamp => 2,
        DeviceClass::ApparentPower => 3,
        DeviceClass::Aqi => 4,
        DeviceClass::Area => 5,
        DeviceClass::AtmosphericPressure => 6,
        DeviceClass::Battery => 7,
        DeviceClass::BloodGlucoseConcentration => 8,
        DeviceClass::CarbonMonoxide => 9,
        DeviceClass::CarbonDioxide => 10,
        DeviceClass::Conductivity => 11,
        DeviceClass::Current => 12,
        DeviceClass::DataRate => 13,
        DeviceClass::DataSize => 14,
        DeviceClass::Distance => 15,
        DeviceClass::Duration => 16,
        DeviceClass::Energy => 17,
        DeviceClass::EnergyDistance => 18,
        DeviceClass::EnergyStorage => 19,
        DeviceClass::Frequency => 20,
        DeviceClass::Gas => 21,
        DeviceClass::Humidity => 22,
        DeviceClass::Illuminance => 23,
        DeviceClass::Irradiance => 24,
        DeviceClass::Moisture => 25,
        DeviceClass::Monetary => 26,
        DeviceClass::NitrogenDioxide => 27,
        DeviceClass::NitrogenMonoxide => 28,
        DeviceClass::NitrousOxide => 29,
        DeviceClass::Ozone => 30,
        DeviceClass::Ph => 31,
        DeviceClass::Pm1 => 32,
        DeviceClass::Pm10 => 33,
        DeviceClass::Pm25 => 34,
        DeviceClass::PowerFactor => 35,
        DeviceClass::Power => 36,
        DeviceClass::Precipitation => 37,
        DeviceClass::PrecipitationIntensity => 38,
        DeviceClass::Pressure => 39,
        DeviceClass::ReactiveEnergy => 40,
        DeviceClass::ReactivePower => 41,
        DeviceClass::SignalStrength => 42,
        DeviceClass::SoundPressure => 43,
        DeviceClass::Speed => 44,
        DeviceClass::SulphurDioxide => 45,
        DeviceClass::Temperature => 46,
        DeviceClass::VolatileOrganicCompounds => 47,
        DeviceClass::VolatileOrganicCompoundsParts => 48,
        DeviceClass::Voltage => 49,
        DeviceClass::Volume => 50,
        DeviceClass::VolumeStorage => 51,
        DeviceClass::VolumeFlowRate => 52,
        DeviceClass::Water => 53,
        DeviceClass::Weight => 54,
        DeviceClass::WindDirection => 55,
        DeviceClass::WindSpeed => 56,
    }
}

/// What tells one name from another: its length and three of its
/// characters.
spec fn fingerprint(name: Seq<char>) -> (nat, char, char, char) {
    (name.len(), name[0], name[2], name[5])
}

/// The fingerprint of the name of the class at a place of the list.
spec fn fingerprint_at(place: int) -> (nat, char, char, char) {
    if place == 0 {
        fingerprint("date"@)
    } else if place == 1 {
        fingerprint("enum"@)
    } else if place == 2 {
        fingerprint("timestamp"@)
    } else if place == 3 {
        fingerprint("apparent_power"@)
    } else if place == 4 {
        fingerprint("aqi"@)
    } else if place == 5 {
        fingerprint("area"@)
    } else if place == 6 {
        fingerprint("atmospheric_pressure"@)
    } else if place == 7 {
        fingerprint("battery"@)
    } else if place == 8 {
        fingerprint("blood_glucose_concentration"@)
    } else if place == 9 {
        fingerprint("carbon_monoxide"@)
    } else if place == 10 {
        fingerprint("carbon_dioxide"@)
    } else if place == 11 {
        fingerprint("conductivity"@)
    } else if place == 12 {
        fingerprint("current"@)
    } else if place == 13 {
        fingerprint("data_rate"@)
    } else if place == 14 {
        fingerprint("data_size"@)
    } else if place == 15 {
        fingerprint("distance"@)
    } else if place == 16 {
        fingerprint("duration"@)
    } else if place == 17 {
        fingerprint("energy"@)
    } else if place == 18 {
        fingerprint("energy_distance"@)
    } else if place == 19 {
        fingerprint("energy_storage"@)
    } else if place == 20 {
        fingerprint("frequency"@)
    } else if place == 21 {
        fingerprint("gas"@)
    } else if place == 22 {
        fingerprint("humidity"@)
    } else if place == 23 {
        fingerprint("illuminance"@)
    } else if place == 24 {
        fingerprint("irradiance"@)
    } else if place == 25 {
        fingerprint("moisture"@)
    } else if place == 26 {
        fingerprint("monetary"@)
    } else if place == 27 {
        fingerprint("nitrogen_dioxide"@)
    } else if place == 28 {
        fingerprint("nitrogen_monoxide"@)
    } else if place == 29 {
        fingerprint("nitrous_oxide"@)
    } else if place == 30 {
        fingerprint("ozone"@)
    } else if place == 31 {
        fingerprint("ph"@)
    } else if place == 32 {
        fingerprint("pm1"@)
    } else if place == 33 {
        fingerprint("pm10"@)
    } else if place == 34 {
        fingerprint("pm25"@)
    } else if place == 35 {
        fingerprint("power_factor"@)
    } else if place == 36 {
        fingerprint("power"@)
    } else if place == 37 {
        fingerprint("precipitation"@)
    } else if place == 38 {
        fingerprint("precipitation_intensity"@)
    } else if place == 39 {
        fingerprint("pressure"@)
    } else if place == 40 {
        fingerprint("reactive_energy"@)
    } else if place == 41 {
        fingerprint("reactive_power"@)
    } else if place == 42 {
        fingerprint("signal_strength"@)
    } else if place == 43 {
        fingerprint("sound_pressure"@)
    } else if place == 44 {
        fingerprint("speed"@)
    } else if place == 45 {
        fingerprint("sulphur_dioxide"@)
    } else if place == 46 {
        fingerprint("temperature"@)
    } else if place == 47 {
        fingerprint("volatile_organic_compounds"@)
    } else if place == 48 {
        fingerprint("volatile_organic_compounds_parts"@)
    } else if place == 49 {
        fingerprint("voltage"@)
    } else if place == 50 {
        fingerprint("volume"@)
    } else if place == 51 {
        fingerprint("volume_storage"@)
    } else if place == 52 {
        fingerprint("volume_flow_rate"@)
    } else if place == 53 {
        fingerprint("water"@)
    } else if place == 54 {
        fingerprint("weight"@)
    } else if place == 55 {
        fingerprint("wind_direction"@)
    } else if place == 56 {
        fingerprint("wind_speed"@)
    } else {
        fingerprint(Seq::empty())
    }
}

/// The fingerprints of two places differ.
proof fn lemma_fingerprints_distinct(x: int, y: int)
    requires
        0 <= x < y < 57,
    ensures
        fingerprint_at(x) != fingerprint_at(y),
{
    reveal_strlit("date");
    reveal_strlit("enum");
    reveal_strlit("timestamp");
    reveal_strlit("apparent_power");
    reveal_strlit("aqi");
    reveal_strlit("area");
    reveal_strlit("atmospheric_pressure");
    reveal_strlit("battery");
    reveal_strlit("blood_glucose_concentration");
    reveal_strlit("carbon_monoxide");
    reveal_strlit("carbon_dioxide");
    reveal_strlit("conductivity");
    reveal_strlit("current");
    reveal_strlit("data_rate");
    reveal_strlit("data_size");
    reveal_strlit("distance");
    reveal_strlit("duration");
    reveal_strlit("energy");
    reveal_strlit("energy_distance");
    reveal_strlit("energy_storage");
    reveal_strlit("frequency");
    reveal_strlit("gas");
    reveal_strlit("humidity");
    reveal_strlit("illuminance");
    reveal_strlit("irradiance");
    reveal_strlit("moisture");
    reveal_strlit("monetary");
    reveal_strlit("nitrogen_dioxide");
    reveal_strlit("nitrogen_monoxide");
    reveal_strlit("nitrous_oxide");
    reveal_strlit("ozone");
    reveal_strlit("ph");
    reveal_strlit("pm1");
    reveal_strlit("pm10");
    reveal_strlit("pm25");
    reveal_strlit("power_factor");
    reveal_strlit("power");
    reveal_strlit("precipitation");
    reveal_strlit("precipitation_intensity");
    reveal_strlit("pressure");
    reveal_strlit("reactive_energy");
    reveal_strlit("reactive_power");
    reveal_strlit("signal_strength");
    reveal_strlit("sound_pressure");
    reveal_strlit("speed");
    reveal_strlit("sulphur_dioxide");
    reveal_strlit("temperature");
    reveal_strlit("volatile_organic_compounds");
    reveal_strlit("volatile_organic_compounds_parts");
    reveal_strlit("voltage");
    reveal_strlit("volume");
    reveal_strlit("volume_storage");
    reveal_strlit("volume_flow_rate");
    reveal_strlit("water");
    reveal_strlit("weight");
    reveal_strlit("wind_direction");
    reveal_strlit("wind_speed");
}

/// No two classes are published under one name.
pub proof fn lemma_names_distinct(a: DeviceClass, b: DeviceClass)
    requires
        a != b,
    ensures
        a.name() != b.name(),
{
    if ordinal(a) < ordinal(b) {
        lemma_fingerprints_distinct(ordinal(a), ordinal(b));
    } else {
        lemma_fingerprints_distinct(ordinal(b), ordinal(a));
    }
}

} // verus!
