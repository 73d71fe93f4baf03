//! The sensor: its identity, its metadata, how a patch is merged into it, and
//! the topics under which it is published.
use vstd::prelude::*;
use vstd::string::*;

use crate::config::{CommandSensor, CommandSensorView, PatchView, PostProcess, SensorConfig};
use crate::device_class::DeviceClass;
use crate::reporter::{
    CommandReporterView, CommandSensorReporter, ReporterView, SensorReporterType, Transform,
};
use crate::text::{chars_of, contains, has_infix};

verus! {

/// One named metric with its value source.
#[derive(Debug, Default, Clone)]
pub struct Sensor {
    pub id: String,
    pub name: String,
    pub unit: Option<String>,
    pub device_class: Option<DeviceClass>,
    pub icon: Option<String>,
    pub disabled: bool,
    pub reporter: Option<SensorReporterType>,
}

/// The mathematical value of a [`Sensor`].
pub struct SensorView {
    pub id: Seq<char>,
    pub name: Seq<char>,
    pub unit: Option<Seq<char>>,
    pub device_class: Option<DeviceClass>,
    pub icon: Option<Seq<char>>,
    pub disabled: bool,
    pub reporter: Option<ReporterView>,
}

impl View for Sensor {
    type V = SensorView;

    open spec fn view(&self) -> SensorView {
        SensorView {
            id: self.id@,
            name: self.name@,
            unit: self.unit.deep_view(),
            device_class: self.device_class,
            icon: self.icon.deep_view(),
            disabled: self.disabled,
            reporter: match self.reporter {
                Some(r) => Some(r@),
                None => None,
            },
        }
    }
}

/// Whether `id` is the key of a wildcard override: one that holds `_*_`.
pub open spec fn is_wildcard(id: Seq<char>) -> bool {
    has_infix(id, "_*_"@)
}

/// Whether a patch is taken into a sensor at all: it is the sensor's own, or
/// a wildcard that the caller has matched.
pub open spec fn patch_applies(s: SensorView, p: PatchView) -> bool {
    s.id == p.id || is_wildcard(p.id)
}

/// `present` where the patch holds a value, else `current`.
pub open spec fn patched<T>(current: Option<T>, present: Option<T>) -> Option<T> {
    if present is Some {
        present
    } else {
        current
    }
}

/// The sensor `s` after the patch `p` was merged into it.
pub open spec fn merged(s: SensorView, p: PatchView) -> SensorView {
    if patch_applies(s, p) {
        SensorView {
            id: s.id,
            name: match p.name {
                Some(n) => n,
                None => s.name,
            },
            unit: patched(s.unit, p.unit),
            device_class: patched(s.device_class, p.device_class),
            icon: patched(s.icon, p.icon),
            disabled: s.disabled || p.disabled,
            reporter: s.reporter,
        }
    } else {
        s
    }
}

/// The topic under which the value of the sensor `id` is published.
pub open spec fn state_topic(id: Seq<char>, node_id: Seq<char>) -> Seq<char> {
    node_id + "/sensor/"@ + id + "/state"@
}

/// The topic under which the sensor `id` is announced.
pub open spec fn config_topic(id: Seq<char>, discovery_prefix: Seq<char>, node_id: Seq<char>) -> Seq<
    char,
> {
    discovery_prefix + "/sensor/"@ + node_id + "/"@ + id + "/config"@
}

/// What is told of the device that a sensor belongs to.
#[derive(Debug, Default, Clone)]
pub struct DeviceInfo {
    pub identifiers: Vec<String>,
    pub name: String,
    pub model: String,
    pub manufacturer: String,
    pub sw_version: String,
}

/// The mathematical value of a [`DeviceInfo`].
pub struct DeviceInfoView {
    pub identifiers: Seq<Seq<char>>,
    pub name: Seq<char>,
    pub model: Seq<char>,
    pub manufacturer: Seq<char>,
    pub sw_version: Seq<char>,
}

impl View for DeviceInfo {
    type V = DeviceInfoView;

    open spec fn view(&self) -> DeviceInfoView {
        DeviceInfoView {
            identifiers: self.identifiers.deep_view(),
            name: self.name@,
            model: self.model@,
            manufacturer: self.manufacturer@,
            sw_version: self.sw_version@,
        }
    }
}

impl DeviceInfo {
    /// A copy of the device's description.
    pub fn duplicate(&self) -> (r: DeviceInfo)
        ensures
            r@ == self@,
    {
        DeviceInfo {
            identifiers: clone_strings(&self.identifiers),
            name: self.name.clone(),
            model: self.model.clone(),
            manufacturer: self.manufacturer.clone(),
            sw_version: self.sw_version.clone(),
        }
    }
}

/// The document that announces a sensor. A field that is `None` is left
/// out of the document, but for `unit_of_measurement`, which is then
/// null.
#[derive(Debug, Default, Clone)]
pub struct DiscoveryConfig {
    pub name: String,
    pub state_topic: String,
    pub unique_id: String,
    pub device: DeviceInfo,
    pub unit_of_measurement: Option<String>,
    pub device_class: Option<String>,
    pub icon: Option<String>,
}

/// The mathematical value of a [`DiscoveryConfig`].
pub struct DiscoveryConfigView {
    pub name: Seq<char>,
    pub state_topic: Seq<char>,
    pub unique_id: Seq<char>,
    pub device: DeviceInfoView,
    pub unit_of_measurement: Option<Seq<char>>,
    pub device_class: Option<Seq<char>>,
    pub icon: Option<Seq<char>>,
}

impl View for DiscoveryConfig {
    type V = DiscoveryConfigView;

    open spec fn view(&self) -> DiscoveryConfigView {
        DiscoveryConfigView {
            name: self.name@,
            state_topic: self.state_topic@,
            unique_id: self.unique_id@,
            device: self.device@,
            unit_of_measurement: self.unit_of_measurement.deep_view(),
            device_class: self.device_class.deep_view(),
            icon: self.icon.deep_view(),
        }
    }
}

/// The document that announces the sensor `s` of the device `device`: the
/// device's name before the sensor's, the topic of its value, an id made of
/// the node's and the sensor's, the device, the unit, the name of the
/// device class, and the icon in the namespace `mdi:`.
pub open spec fn discovery_document(
    s: SensorView,
    device_name: Seq<char>,
    node_id: Seq<char>,
    device: DeviceInfoView,
) -> DiscoveryConfigView {
    DiscoveryConfigView {
        name: device_name + " "@ + s.name,
        state_topic: state_topic(s.id, node_id),
        unique_id: node_id + "_"@ + s.id,
        device,
        unit_of_measurement: s.unit,
        device_class: match s.device_class {
            Some(class) => Some(class.name()),
            None => None,
        },
        icon: match s.icon {
            Some(icon) => Some("mdi:"@ + icon),
            None => None,
        },
    }
}

/// The transform that a command sensor's reporter applies.
pub open spec fn transform_of(post_process: Option<PostProcess>) -> Transform {
    match post_process {
        Some(p) => Transform::Process(p),
        None => Transform::PassThrough,
    }
}

/// The sensor that a command sensor's definition stands for.
pub open spec fn sensor_of_command(c: CommandSensorView) -> SensorView {
    SensorView {
        id: c.id,
        name: c.name,
        unit: c.unit,
        device_class: c.device_class,
        icon: c.icon,
        disabled: c.disabled,
        reporter: Some(
            ReporterView::Command(
                CommandReporterView {
                    command: c.command,
                    args: c.args,
                    transform: Some(transform_of(c.post_process)),
                },
            ),
        ),
    }
}

/// The text that an optional string slice holds.
pub open spec fn opt_text(o: Option<&str>) -> Option<Seq<char>> {
    match o {
        Some(s) => Some(s@),
        None => None,
    }
}

/// An enabled sensor with the given metadata and reporter.
pub open spec fn described(
    id: Seq<char>,
    name: Seq<char>,
    unit: Option<Seq<char>>,
    device_class: Option<DeviceClass>,
    icon: Option<Seq<char>>,
    reporter: ReporterView,
) -> SensorView {
    SensorView { id, name, unit, device_class, icon, disabled: false, reporter: Some(reporter) }
}

/// An owned copy of an optional string slice.
pub fn owned(o: Option<&str>) -> (r: Option<String>)
    ensures
        r.deep_view() == opt_text(o),
{
    match o {
        Some(s) => Some(String::from_str(s)),
        None => None,
    }
}

/// A copy of a list of strings.
pub fn clone_strings(v: &Vec<String>) -> (r: Vec<String>)
    ensures
        r.deep_view() == v.deep_view(),
{
    let mut r: Vec<String> = Vec::new();
    let mut i: usize = 0;
    while i < v.len()
        invariant
            i <= v.len(),
            r.len() == i,
            forall|j: int| 0 <= j < i ==> r@[j]@ == v@[j]@,
        decreases v.len() - i,
    {
        r.push(v[i].clone());
        i += 1;
    }
    r
}

/// A copy of an optional list of strings.
pub fn clone_opt_strings(v: &Option<Vec<String>>) -> (r: Option<Vec<String>>)
    ensures
        r.deep_view() == v.deep_view(),
{
    match v {
        Some(w) => Some(clone_strings(w)),
        None => None,
    }
}

impl Sensor {
    /// An enabled sensor with the given metadata and reporter.
    pub fn describe(
        id: String,
        name: String,
        unit: Option<&str>,
        device_class: Option<DeviceClass>,
        icon: Option<&str>,
        reporter: SensorReporterType,
    ) -> (s: Sensor)
        ensures
            s@ == described(id@, name@, opt_text(unit), device_class, opt_text(icon), reporter@),
    {
        Sensor {
            id,
            name,
            unit: owned(unit),
            device_class,
            icon: owned(icon),
            disabled: false,
            reporter: Some(reporter),
        }
    }

    /// The sensor that a command sensor's definition stands for: the same
    /// metadata, and a reporter that runs the command.
    pub fn from(command_sensor: &CommandSensor) -> (s: Sensor)
        ensures
            s@ == sensor_of_command(command_sensor@),
    {
        let transform = match command_sensor.post_process {
            Some(p) => Transform::Process(p),
            None => Transform::PassThrough,
        };
        Sensor {
            id: command_sensor.id.clone(),
            name: command_sensor.name.clone(),
            unit: command_sensor.unit.clone(),
            device_class: command_sensor.device_class,
            icon: command_sensor.icon.clone(),
            disabled: command_sensor.disabled,
            reporter: Some(
                SensorReporterType::Command(
                    CommandSensorReporter {
                        command: command_sensor.command.clone(),
                        args: clone_opt_strings(&command_sensor.args),
                        transform: Some(transform),
                    },
                ),
            ),
        }
    }

    /// Merges a patch into the sensor. A patch that is neither the sensor's
    /// own nor a wildcard changes nothing. Each field that the patch holds
    /// replaces the sensor's; `disabled` is only ever set, never cleared. The
    /// id and the reporter stay.
    pub fn merge(&mut self, other: &SensorConfig)
        ensures
            final(self)@ == merged(old(self)@, other@),
    {
        if !(self.id == other.id) {
            let id = chars_of(other.id.as_str());
            let star = chars_of("_*_");
            if !contains(&id, &star) {
                return ;
            }
        }
        if let Some(name) = &other.name {
            self.name = name.clone();
        }
        if other.unit.is_some() {
            self.unit = other.unit.clone();
        }
        if other.device_class.is_some() {
            self.device_class = other.device_class;
        }
        if other.icon.is_some() {
            self.icon = other.icon.clone();
        }
        if other.disabled {
            self.disabled = true;
        }
    }

    /// The document that announces the sensor.
    pub fn disovery_config(&self, device_name: &str, node_id: &str, device_info: &DeviceInfo) -> (config:
        DiscoveryConfig)
        ensures
            config@ == discovery_document(self@, device_name@, node_id@, device_info@),
    {
        let mut name = String::from_str(device_name);
        name.append(" ");
        name.append(self.name.as_str());
        let mut unique_id = String::from_str(node_id);
        unique_id.append("_");
        unique_id.append(self.id.as_str());
        let device_class = match &self.device_class {
            Some(class) => Some(String::from_str(class.as_str())),
            None => None,
        };
        let icon = match &self.icon {
            Some(icon_str) => {
                let mut icon = String::from_str("mdi:");
                icon.append(icon_str.as_str());
                Some(icon)
            },
            None => None,
        };
        DiscoveryConfig {
            name,
            state_topic: self.sensor_topic(node_id),
            unique_id,
            device: device_info.duplicate(),
            unit_of_measurement: self.unit.clone(),
            device_class,
            icon,
        }
    }

    /// The topic under which the sensor's value is published:
    /// `{node_id}/sensor/{id}/state`.
    pub fn sensor_topic(&self, node_id: &str) -> (topic: String)
        ensures
            topic@ == state_topic(self@.id, node_id@),
    {
        let mut topic = String::from_str(node_id);
        topic.append("/sensor/");
        topic.append(self.id.as_str());
        topic.append("/state");
        topic
    }

    /// The topic under which the sensor is announced:
    /// `{discovery_prefix}/sensor/{node_id}/{id}/config`.
    pub fn discovery_topic(&self, discovery_prefix: &str, node_id: &str) -> (topic: String)
        ensures
            topic@ == config_topic(self@.id, discovery_prefix@, node_id@),
    {
        let mut topic = String::from_str(discovery_prefix);
        topic.append("/sensor/");
        topic.append(node_id);
        topic.append("/");
        topic.append(self.id.as_str());
        topic.append("/config");
        topic
    }
}

/// The patch that writes down all of a sensor's metadata.
pub open spec fn patch_of(s: SensorView) -> PatchView {
    PatchView {
        id: s.id,
        name: Some(s.name),
        unit: s.unit,
        device_class: s.device_class,
        icon: s.icon,
        disabled: s.disabled,
    }
}

/// A merge never changes a sensor's id or its reporter, whatever the patch.
pub proof fn lemma_merge_keeps_identity(s: Sensor, p: SensorConfig)
    ensures
        merged(s@, p@).id == s@.id,
        merged(s@, p@).reporter == s@.reporter,
{
}

/// Merging a sensor's own patch leaves every field unchanged that the patch
/// does not hold; `disabled` counts as held only where it is `true`.
pub proof fn lemma_merge_keeps_absent_fields(s: Sensor, p: SensorConfig)
    requires
        p@.id == s@.id,
    ensures
        p@.name is None ==> merged(s@, p@).name == s@.name,
        p@.unit is None ==> merged(s@, p@).unit == s@.unit,
        p@.device_class is None ==> merged(s@, p@).device_class == s@.device_class,
        p@.icon is None ==> merged(s@, p@).icon == s@.icon,
        !p@.disabled ==> merged(s@, p@).disabled == s@.disabled,
{
}

/// Merging a sensor's own patch gives every field that the patch holds the
/// patch's value.
pub proof fn lemma_merge_takes_present_fields(s: Sensor, p: SensorConfig)
    requires
        p@.id == s@.id,
    ensures
        p@.name is Some ==> merged(s@, p@).name == p@.name->0,
        p@.unit is Some ==> merged(s@, p@).unit == p@.unit,
        p@.device_class is Some ==> merged(s@, p@).device_class == p@.device_class,
        p@.icon is Some ==> merged(s@, p@).icon == p@.icon,
        p@.disabled ==> merged(s@, p@).disabled,
{
}

/// A patch for another sensor that is no wildcard changes nothing.
pub proof fn lemma_merge_of_foreign_patch(s: Sensor, p: SensorConfig)
    requires
        p@.id != s@.id,
        !is_wildcard(p@.id),
    ensures
        merged(s@, p@) == s@,
{
}

/// A merge never enables a sensor: one that was disabled stays so, even
/// under a patch whose `disabled` is `false`.
pub proof fn lemma_merge_never_enables(s: Sensor, p: SensorConfig)
    requires
        s@.disabled,
    ensures
        merged(s@, p@).disabled,
{
}

/// Merging the same patch a second time changes nothing more.
pub proof fn lemma_merge_idempotent(s: Sensor, p: SensorConfig)
    ensures
        merged(merged(s@, p@), p@) == merged(s@, p@),
{
}

/// Merging into a sensor the patch that writes down its own metadata leaves
/// the sensor as it is.
pub proof fn lemma_merge_of_own_dump(s: Sensor)
    ensures
        merged(s@, patch_of(s@)) == s@,
{
}

/// The topics of a sensor depend on its id and on the names handed in,
/// and on nothing else of the sensor.
pub proof fn lemma_topics_follow_id(a: Sensor, b: Sensor, discovery_prefix: Seq<char>, node_id: Seq<char>)
    requires
        a@.id == b@.id,
    ensures
        state_topic(a@.id, node_id) == state_topic(b@.id, node_id),
        config_topic(a@.id, discovery_prefix, node_id) == config_topic(
            b@.id,
            discovery_prefix,
            node_id,
        ),
{
}

} // verus!
