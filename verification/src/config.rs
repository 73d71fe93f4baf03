//! What a user may configure: sparse overrides of catalog sensors, and
//! command sensors defined whole.
use vstd::prelude::*;

pub use crate::device_class::DeviceClass;
pub use crate::docker_stats::calculate_cpu_percent;
pub use crate::reporter::{
    CommandSensorReporter, DockerContainerSensorReporter, DockerContainerSensorReporterStat,
    DockerSensorReporter, DockerSensorReporterStat, SensorReporterType, SystemSensorReporter,
    SystemSensorReporterStat,
};
pub use crate::sensor::Sensor;
use crate::sensor::{patch_of, SensorView};
use crate::text::same_text;

verus! {

/// How the output of a command sensor is turned into its value.
#[derive(Debug, Clone, Copy, PartialEq, Eq, Structural)]
pub enum PostProcess {
    TrimWhitespace,
    ParseFloat,
    ParseInteger,
    ExtractNumber,
    ToUpperCase,
    ToLowerCase,
}

/// A sparse patch of a sensor's metadata. An absent field leaves the
/// sensor's value as it is; `disabled` acts only when it is `true`.
#[derive(Debug, Default, Clone)]
pub struct SensorConfig {
    pub id: String,
    pub name: Option<String>,
    pub unit: Option<String>,
    pub device_class: Option<DeviceClass>,
    pub icon: Option<String>,
    pub disabled: bool,
}

/// The mathematical value of a [`SensorConfig`].
pub struct PatchView {
    pub id: Seq<char>,
    pub name: Option<Seq<char>>,
    pub unit: Option<Seq<char>>,
    pub device_class: Option<DeviceClass>,
    pub icon: Option<Seq<char>>,
    pub disabled: bool,
}

impl View for SensorConfig {
    type V = PatchView;

    open spec fn view(&self) -> PatchView {
        PatchView {
            id: self.id@,
            name: self.name.deep_view(),
            unit: self.unit.deep_view(),
            device_class: self.device_class,
            icon: self.icon.deep_view(),
            disabled: self.disabled,
        }
    }
}

/// The full definition of a sensor whose value is the output of a command.
#[derive(Debug, Default, Clone)]
pub struct CommandSensor {
    pub id: String,
    pub name: String,
    pub unit: Option<String>,
    pub device_class: Option<DeviceClass>,
    pub icon: Option<String>,
    pub command: String,
    pub args: Option<Vec<String>>,
    pub post_process: Option<PostProcess>,
    pub disabled: bool,
}

/// The mathematical value of a [`CommandSensor`].
pub struct CommandSensorView {
    pub id: Seq<char>,
    pub name: Seq<char>,
    pub unit: Option<Seq<char>>,
    pub device_class: Option<DeviceClass>,
    pub icon: Option<Seq<char>>,
    pub command: Seq<char>,
    pub args: Option<Seq<Seq<char>>>,
    pub post_process: Option<PostProcess>,
    pub disabled: bool,
}

impl View for CommandSensor {
    type V = CommandSensorView;

    open spec fn view(&self) -> CommandSensorView {
        CommandSensorView {
            id: self.id@,
            name: self.name@,
            unit: self.unit.deep_view(),
            device_class: self.device_class,
            icon: self.icon.deep_view(),
            command: self.command@,
            args: self.args.deep_view(),
            post_process: self.post_process,
            disabled: self.disabled,
        }
    }
}

/// One entry of a configuration.
#[derive(Debug, Clone)]
pub enum Sensors {
    SensorOverride(SensorConfig),
    Command(CommandSensor),
}

/// The mathematical value of a [`Sensors`] entry.
pub enum EntryView {
    SensorOverride(PatchView),
    Command(CommandSensorView),
}

impl EntryView {
    /// The key under which the entry stands in its configuration.
    pub open spec fn id(self) -> Seq<char> {
        match self {
            EntryView::SensorOverride(p) => p.id,
            EntryView::Command(c) => c.id,
        }
    }
}

impl View for Sensors {
    type V = EntryView;

    open spec fn view(&self) -> EntryView {
        match self {
            Sensors::SensorOverride(p) => EntryView::SensorOverride(p@),
            Sensors::Command(c) => EntryView::Command(c@),
        }
    }
}

impl Sensors {
    /// The key under which the entry stands in its configuration.
    pub fn id(&self) -> (id: &String)
        ensures
            id@ == self@.id(),
    {
        match self {
            Sensors::SensorOverride(p) => &p.id,
            Sensors::Command(c) => &c.id,
        }
    }
}

} // verus!

verus! {

/// A user's configuration: entries, each under its own key. The entries
/// stand in the order in which they were inserted.
#[derive(Debug, Default, Clone)]
pub struct Config {
    pub sensors: Vec<Sensors>,
}

impl View for Config {
    type V = Seq<EntryView>;

    open spec fn view(&self) -> Seq<EntryView> {
        self.sensors@.map_values(|e: Sensors| e@)
    }
}

/// The position of the first entry under `key`, or the number of entries
/// where there is none.
pub open spec fn position(entries: Seq<EntryView>, key: Seq<char>) -> nat
    decreases entries.len(),
{
    if entries.len() > 0 && entries[0].id() != key {
        1 + position(entries.drop_first(), key)
    } else {
        0
    }
}

/// The entry under `key`, if there is one.
pub open spec fn lookup(entries: Seq<EntryView>, key: Seq<char>) -> Option<EntryView> {
    if position(entries, key) < entries.len() {
        Some(entries[position(entries, key) as int])
    } else {
        None
    }
}

/// Whether no two entries stand under one key.
pub open spec fn keys_distinct(entries: Seq<EntryView>) -> bool {
    forall|i: int, j: int|
        0 <= i < j < entries.len() ==> (#[trigger] entries[i]).id() != (#[trigger] entries[j]).id()
}

/// The entry `e` with `key` as its id.
pub open spec fn keyed(e: EntryView, key: Seq<char>) -> EntryView {
    match e {
        EntryView::SensorOverride(p) => EntryView::SensorOverride(PatchView { id: key, ..p }),
        EntryView::Command(c) => EntryView::Command(CommandSensorView { id: key, ..c }),
    }
}

/// The entries after `e` was put under `key`: in the place of the entry that
/// stood there, or at the end.
pub open spec fn inserted(entries: Seq<EntryView>, key: Seq<char>, e: EntryView) -> Seq<EntryView> {
    if position(entries, key) < entries.len() {
        entries.update(position(entries, key) as int, keyed(e, key))
    } else {
        entries.push(keyed(e, key))
    }
}

/// The first `n` entries stand under other keys, and entry `n`, if there is
/// one, stands under `key`: then `n` is the position of `key`.
pub proof fn lemma_position_is(entries: Seq<EntryView>, key: Seq<char>, n: int)
    requires
        0 <= n <= entries.len(),
        forall|j: int| 0 <= j < n ==> (#[trigger] entries[j]).id() != key,
        n < entries.len() ==> entries[n].id() == key,
    ensures
        position(entries, key) == n,
    decreases n,
{
    if n > 0 {
        let t = entries.drop_first();
        lemma_position_is(t, key, n - 1);
    }
}

/// The position of `key` lies within the entries or at their end; no entry
/// before it stands under `key`, and the entry at it does.
pub proof fn lemma_position_bounds(entries: Seq<EntryView>, key: Seq<char>)
    ensures
        position(entries, key) <= entries.len(),
        forall|j: int| 0 <= j < position(entries, key) ==> (#[trigger] entries[j]).id() != key,
        position(entries, key) < entries.len() ==> entries[position(entries, key) as int].id()
            == key,
    decreases entries.len(),
{
    if entries.len() > 0 && entries[0].id() != key {
        let t = entries.drop_first();
        lemma_position_bounds(t, key);
        assert forall|j: int| 0 <= j < position(entries, key) implies (#[trigger] entries[j]).id()
            != key by {
            if j > 0 {
                assert(entries[j] == t[j - 1]);
            }
        }
    }
}

impl Config {
    /// Whether the configuration is a map: no key stands twice.
    pub open spec fn wf(&self) -> bool {
        keys_distinct(self@)
    }

    /// The configuration without entries.
    pub fn new() -> (c: Config)
        ensures
            c@ == Seq::<EntryView>::empty(),
            c.wf(),
    {
        Config { sensors: Vec::new() }
    }

    /// The number of entries.
    pub fn len(&self) -> (n: usize)
        ensures
            n == self@.len(),
    {
        self.sensors.len()
    }

    /// The index of the first entry under `key`, or the number of entries.
    fn find(&self, key: &str) -> (i: usize)
        ensures
            i == position(self@, key@),
            i <= self.sensors.len(),
    {
        let mut i: usize = 0;
        while i < self.sensors.len()
            invariant
                i <= self.sensors.len(),
                forall|j: int| 0 <= j < i ==> (#[trigger] self@[j]).id() != key@,
            decreases self.sensors.len() - i,
        {
            if same_text(self.sensors[i].id().as_str(), key) {
                proof {
                    lemma_position_is(self@, key@, i as int);
                }
                return i;
            }
            i += 1;
        }
        proof {
            lemma_position_is(self@, key@, i as int);
        }
        i
    }

    /// The entry under `key`, if there is one.
    pub fn get(&self, key: &str) -> (r: Option<&Sensors>)
        ensures
            match r {
                Some(e) => lookup(self@, key@) == Some(e@),
                None => lookup(self@, key@) is None,
            },
    {
        let i = self.find(key);
        if i < self.sensors.len() {
            Some(&self.sensors[i])
        } else {
            None
        }
    }

    /// Puts `entry` under `key`, as its id says from then on. An entry that
    /// stood under `key` is replaced where it stood; otherwise the new entry
    /// comes last. A map stays a map.
    pub fn insert(&mut self, key: String, entry: Sensors)
        ensures
            final(self)@ == inserted(old(self)@, key@, entry@),
            old(self).wf() ==> final(self).wf(),
    {
        let i = self.find(key.as_str());
        let entry = match entry {
            Sensors::SensorOverride(p) => Sensors::SensorOverride(
                SensorConfig {
                    id: key,
                    name: p.name,
                    unit: p.unit,
                    device_class: p.device_class,
                    icon: p.icon,
                    disabled: p.disabled,
                },
            ),
            Sensors::Command(c) => Sensors::Command(
                CommandSensor {
                    id: key,
                    name: c.name,
                    unit: c.unit,
                    device_class: c.device_class,
                    icon: c.icon,
                    command: c.command,
                    args: c.args,
                    post_process: c.post_process,
                    disabled: c.disabled,
                },
            ),
        };
        proof {
            lemma_position_bounds(old(self)@, key@);
        }
        if i < self.sensors.len() {
            self.sensors.set(i, entry);
        } else {
            self.sensors.push(entry);
        }
        assert(self@ =~= inserted(old(self)@, key@, entry@));
    }
}

/// After an entry was put under a key, it is what is found there, under
/// that key as its id; what is found under every other key is what was
/// found there before.
pub proof fn lemma_lookup_inserted(entries: Seq<EntryView>, key: Seq<char>, e: EntryView, other: Seq<char>)
    ensures
        lookup(inserted(entries, key, e), key) == Some(keyed(e, key)),
        other != key ==> lookup(inserted(entries, key, e), other) == lookup(entries, other),
{
    let after = inserted(entries, key, e);
    lemma_position_bounds(entries, key);
    lemma_position_bounds(entries, other);
    let at = position(entries, key) as int;
    lemma_position_is(after, key, at);
    if other != key {
        let there = position(entries, other) as int;
        if there < entries.len() {
            lemma_position_is(after, other, there);
        } else {
            lemma_position_is(after, other, after.len() as int);
        }
    }
}

/// One entry of a dump: a sensor whose metadata are written down.
#[derive(Debug, Clone)]
pub enum SensorsDump {
    SensorOverride(Sensor),
}

impl View for SensorsDump {
    type V = EntryView;

    /// What is written down of the sensor: the override that holds all of
    /// its metadata.
    open spec fn view(&self) -> EntryView {
        match self {
            SensorsDump::SensorOverride(s) => EntryView::SensorOverride(patch_of(s@)),
        }
    }
}

/// The metadata of a list of sensors, each under its sensor's id, in a form
/// that can be read again as a configuration.
#[derive(Debug, Default, Clone)]
pub struct ConfigDump {
    pub sensors: Vec<SensorsDump>,
}

impl View for ConfigDump {
    type V = Seq<EntryView>;

    open spec fn view(&self) -> Seq<EntryView> {
        self.sensors@.map_values(|e: SensorsDump| e@)
    }
}

/// The dump of a list of sensors: each sensor's metadata under its id,
/// where a later sensor takes the place of an earlier one with the same id.
pub open spec fn dumped(sensors: Seq<SensorView>) -> Seq<EntryView>
    decreases sensors.len(),
{
    if sensors.len() == 0 {
        Seq::empty()
    } else {
        inserted(
            dumped(sensors.drop_last()),
            sensors.last().id,
            EntryView::SensorOverride(patch_of(sensors.last())),
        )
    }
}

/// Putting an entry under a key into a map gives a map.
pub proof fn lemma_inserted_keys_distinct(entries: Seq<EntryView>, key: Seq<char>, e: EntryView)
    requires
        keys_distinct(entries),
    ensures
        keys_distinct(inserted(entries, key, e)),
{
    lemma_position_bounds(entries, key);
}

/// A dump is a map, whatever the list of sensors.
pub proof fn lemma_dumped_keys_distinct(sensors: Seq<SensorView>)
    ensures
        keys_distinct(dumped(sensors)),
    decreases sensors.len(),
{
    if sensors.len() > 0 {
        lemma_dumped_keys_distinct(sensors.drop_last());
        lemma_inserted_keys_distinct(
            dumped(sensors.drop_last()),
            sensors.last().id,
            EntryView::SensorOverride(patch_of(sensors.last())),
        );
    }
}

impl ConfigDump {
    /// The dump without entries.
    pub fn new() -> (d: ConfigDump)
        ensures
            d@ == Seq::<EntryView>::empty(),
    {
        ConfigDump { sensors: Vec::new() }
    }

    /// The index of the first sensor written down under `id`, or the number
    /// of entries.
    fn find(&self, id: &str) -> (i: usize)
        ensures
            i == position(self@, id@),
            i <= self.sensors.len(),
    {
        let mut i: usize = 0;
        while i < self.sensors.len()
            invariant
                i <= self.sensors.len(),
                forall|j: int| 0 <= j < i ==> (#[trigger] self@[j]).id() != id@,
            decreases self.sensors.len() - i,
        {
            let found = match &self.sensors[i] {
                SensorsDump::SensorOverride(s) => same_text(s.id.as_str(), id),
            };
            if found {
                proof {
                    lemma_position_is(self@, id@, i as int);
                }
                return i;
            }
            i += 1;
        }
        proof {
            lemma_position_is(self@, id@, i as int);
        }
        i
    }

    /// Writes a sensor down under its id: in the place of the sensor that
    /// stood there, or at the end.
    pub fn insert(&mut self, sensor: Sensor)
        ensures
            final(self)@ == inserted(
                old(self)@,
                sensor@.id,
                EntryView::SensorOverride(patch_of(sensor@)),
            ),
    {
        let i = self.find(sensor.id.as_str());
        if i < self.sensors.len() {
            self.sensors.set(i, SensorsDump::SensorOverride(sensor));
        } else {
            self.sensors.push(SensorsDump::SensorOverride(sensor));
        }
        assert(self@ =~= inserted(
            old(self)@,
            sensor@.id,
            EntryView::SensorOverride(patch_of(sensor@)),
        ));
    }

    /// The configuration that the dump is read as: the same entries, each
    /// an override.
    pub fn to_config(&self) -> (config: Config)
        ensures
            config@ == self@,
    {
        let mut entries: Vec<Sensors> = Vec::new();
        let mut i: usize = 0;
        while i < self.sensors.len()
            invariant
                i <= self.sensors.len(),
                entries.len() == i,
                forall|j: int| 0 <= j < i ==> (#[trigger] entries@[j])@ == self.sensors@[j]@,
            decreases self.sensors.len() - i,
        {
            match &self.sensors[i] {
                SensorsDump::SensorOverride(s) => {
                    entries.push(
                        Sensors::SensorOverride(
                            SensorConfig {
                                id: s.id.clone(),
                                name: Some(s.name.clone()),
                                unit: s.unit.clone(),
                                device_class: s.device_class,
                                icon: s.icon.clone(),
                                disabled: s.disabled,
                            },
                        ),
                    );
                },
            }
            i += 1;
        }
        Config { sensors: entries }
    }
}

} // verus!
