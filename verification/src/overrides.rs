//! The configuration laid over a list of sensors: wildcard keys, the two
//! overrides of a sensor, and the sensors that command entries add.
use vstd::prelude::*;
use vstd::string::*;

use crate::config::{
    keys_distinct, lemma_position_bounds, lookup, CommandSensorView, Config, EntryView, PatchView,
    Sensors,
};
use crate::sensor::{is_wildcard, merged, sensor_of_command, Sensor, SensorView};
use crate::text::{
    chars_of, lemma_prefix_len_is, lemma_suffix_len_is, occurs_at, prefix_len, run_end, run_start,
    same_text, string_of, suffix_len, CharClass,
};

verus! {

/// The part of an id before its first underscore; the whole id where it has
/// none.
pub open spec fn first_segment(id: Seq<char>) -> Seq<char> {
    id.take(prefix_len(id, CharClass::Not('_')) as int)
}

/// The part of an id after its last underscore; the whole id where it has
/// none.
pub open spec fn last_segment(id: Seq<char>) -> Seq<char> {
    id.skip(id.len() - suffix_len(id, CharClass::Not('_')))
}

/// The wildcard key of an id: its first segment, `_*_` in place of
/// everything between, and its last segment. An id of one segment has that
/// segment on both sides.
pub open spec fn wildcard_id(id: Seq<char>) -> Seq<char> {
    first_segment(id) + "_*_"@ + last_segment(id)
}

/// The wildcard key under which an override for the whole family of `id` is
/// looked up.
pub fn wildcard(id: &str) -> (key: String)
    ensures
        key@ == wildcard_id(id@),
{
    let v = chars_of(id);
    let a = run_end(&v, 0, v.len(), CharClass::Not('_'));
    let b = run_start(&v, 0, v.len(), CharClass::Not('_'));
    assert(v@.subrange(0, v.len() as int) =~= v@);
    let mut key = string_of(&v, 0, a);
    let last = string_of(&v, b, v.len());
    key.append("_*_");
    key.append(last.as_str());
    key
}

/// The override that stands under `key`, if the entry there is one.
pub open spec fn override_of(entries: Seq<EntryView>, key: Seq<char>) -> Option<PatchView> {
    match lookup(entries, key) {
        Some(EntryView::SensorOverride(p)) => Some(p),
        _ => None,
    }
}

/// `s` after the patch was merged into it, if there is one.
pub open spec fn merged_if(s: SensorView, p: Option<PatchView>) -> SensorView {
    match p {
        Some(p) => merged(s, p),
        None => s,
    }
}

/// The sensor after the configuration's overrides were laid over it: first
/// the one under its wildcard key, then the one under its own id.
pub open spec fn overridden(s: SensorView, entries: Seq<EntryView>) -> SensorView {
    merged_if(merged_if(s, override_of(entries, wildcard_id(s.id))), override_of(entries, s.id))
}

/// Lays the configuration's overrides over one sensor.
pub fn apply_overrides(sensor: &mut Sensor, config: &Config)
    ensures
        final(sensor)@ == overridden(old(sensor)@, config@),
{
    let star_id = wildcard(sensor.id.as_str());
    if let Some(Sensors::SensorOverride(update)) = config.get(star_id.as_str()) {
        sensor.merge(update);
    }
    if let Some(Sensors::SensorOverride(update)) = config.get(sensor.id.as_str()) {
        sensor.merge(update);
    }
}

/// Whether a sensor of the list has the id `id`.
pub open spec fn represented(sensors: Seq<SensorView>, id: Seq<char>) -> bool {
    exists|i: int| 0 <= i < sensors.len() && (#[trigger] sensors[i]).id == id
}

/// The sensors that the configuration's command entries add to the list
/// `builtins`: one for each command entry whose id no sensor of the list
/// has, in the order of the entries.
pub open spec fn appended_commands(builtins: Seq<SensorView>, entries: Seq<EntryView>) -> Seq<
    SensorView,
>
    decreases entries.len(),
{
    if entries.len() == 0 {
        Seq::empty()
    } else {
        let before = appended_commands(builtins, entries.drop_last());
        match entries.last() {
            EntryView::Command(c) => if represented(builtins, c.id) {
                before
            } else {
                before.push(sensor_of_command(c))
            },
            EntryView::SensorOverride(_) => before,
        }
    }
}

/// The final list of sensors: the sensors of `builtins`, each with the
/// configuration's overrides laid over it, followed by the sensors that the
/// command entries add.
pub open spec fn final_sensors(builtins: Seq<SensorView>, entries: Seq<EntryView>) -> Seq<
    SensorView,
> {
    builtins.map_values(|s: SensorView| overridden(s, entries)) + appended_commands(
        builtins,
        entries,
    )
}

/// The mathematical value of a list of sensors.
pub open spec fn sensor_views(sensors: Seq<Sensor>) -> Seq<SensorView> {
    sensors.map_values(|s: Sensor| s@)
}

/// Whether one of the first `n` sensors has the id `id`.
fn has_id(sensors: &Vec<Sensor>, n: usize, id: &str) -> (found: bool)
    requires
        n <= sensors.len(),
    ensures
        found == represented(sensor_views(sensors@).take(n as int), id@),
{
    let ghost list = sensor_views(sensors@).take(n as int);
    let mut i: usize = 0;
    while i < n
        invariant
            i <= n <= sensors.len(),
            list == sensor_views(sensors@).take(n as int),
            forall|j: int| 0 <= j < i ==> (#[trigger] list[j]).id != id@,
        decreases n - i,
    {
        assert(list[i as int] == sensors@[i as int]@);
        if same_text(sensors[i].id.as_str(), id) {
            return true;
        }
        i += 1;
    }
    false
}

/// Lays a configuration over a list of sensors. Each sensor of the list
/// keeps its place and takes the overrides that match it; then each command
/// entry whose id is not yet in the list adds its sensor at the end.
pub fn produce_final_sensor_list(builtins: Vec<Sensor>, config: &Config) -> (sensors: Vec<Sensor>)
    ensures
        sensor_views(sensors@) == final_sensors(sensor_views(builtins@), config@),
{
    let mut sensors = builtins;
    let n = sensors.len();
    let ghost before = sensor_views(builtins@);
    let mut i: usize = 0;
    while i < n
        invariant
            i <= n,
            n == sensors.len(),
            before.len() == n,
            forall|j: int| 0 <= j < i ==> (#[trigger] sensors@[j])@ == overridden(before[j], config@),
            forall|j: int| i <= j < n ==> (#[trigger] sensors@[j])@ == before[j],
        decreases n - i,
    {
        apply_overrides(&mut sensors[i], config);
        i += 1;
    }
    let ghost merged_list = sensor_views(sensors@);
    let mut k: usize = 0;
    while k < config.sensors.len()
        invariant
            k <= config.sensors.len(),
            n <= sensors.len(),
            before.len() == n,
            merged_list.len() == n,
            forall|j: int| 0 <= j < n ==> (#[trigger] merged_list[j]).id == before[j].id,
            sensor_views(sensors@).take(n as int) == merged_list,
            sensor_views(sensors@) == merged_list + appended_commands(
                before,
                config@.take(k as int),
            ),
        decreases config.sensors.len() - k,
    {
        assert(config@.take(k + 1).drop_last() =~= config@.take(k as int));
        if let Sensors::Command(command) = &config.sensors[k] {
            let found = has_id(&sensors, n, command.id.as_str());
            proof {
                let id = command.id@;
                if represented(before, id) {
                    let j = choose|j: int| 0 <= j < before.len() && (#[trigger] before[j]).id == id;
                    assert(merged_list[j].id == id);
                }
            }
            if !found {
                let ghost old_views = sensor_views(sensors@);
                sensors.push(Sensor::from(command));
                assert(sensor_views(sensors@) =~= old_views.push(sensor_of_command(command@)));
            }
        }
        k += 1;
    }
    assert(config@.take(k as int) =~= config@);
    sensors
}

/// An id without an underscore is one segment, which stands on both sides
/// of its wildcard key.
pub proof fn lemma_wildcard_of_one_segment(id: Seq<char>)
    requires
        !id.contains('_'),
    ensures
        wildcard_id(id) == id + "_*_"@ + id,
{
    let k = CharClass::Not('_');
    lemma_prefix_len_is(id, k, id.len() as int);
    lemma_suffix_len_is(id, k, id.len() as int);
}

/// An id of two segments or more: `first`, an underscore, `inner`, which is
/// empty or ends in an underscore, and `last`. Its wildcard key keeps
/// `first` and `last` and has `_*_` in place of everything between.
pub proof fn lemma_wildcard_of_segments(first: Seq<char>, inner: Seq<char>, last: Seq<char>)
    requires
        !first.contains('_'),
        !last.contains('_'),
        inner.len() == 0 || inner.last() == '_',
    ensures
        wildcard_id(first + seq!['_'] + inner + last) == first + "_*_"@ + last,
{
    let id = first + seq!['_'] + inner + last;
    let k = CharClass::Not('_');
    lemma_prefix_len_is(id, k, first.len() as int);
    assert forall|j: int| id.len() - last.len() <= j < id.len() implies k.holds(#[trigger] id[j]) by {}
    lemma_suffix_len_is(id, k, last.len() as int);
}

/// Every wildcard key is a wildcard: it holds `_*_`.
pub proof fn lemma_wildcard_key_is_wildcard(id: Seq<char>)
    ensures
        is_wildcard(wildcard_id(id)),
{
    let key = wildcard_id(id);
    let star = "_*_"@;
    let at = first_segment(id).len() as int;
    assert(key.subrange(at, at + star.len()) =~= star);
    assert(occurs_at(key, star, at));
}

/// An override that is found under a key has that key as its id.
pub proof fn lemma_override_has_its_key(entries: Seq<EntryView>, key: Seq<char>)
    ensures
        override_of(entries, key) matches Some(p) ==> p.id == key,
{
    lemma_position_bounds(entries, key);
}

/// Laying overrides over a sensor never changes its id or its reporter.
pub proof fn lemma_overrides_keep_identity(s: Sensor, config: Config)
    ensures
        overridden(s@, config@).id == s@.id,
        overridden(s@, config@).reporter == s@.reporter,
{
}

/// Where a configuration holds an override under a sensor's wildcard key
/// and one under its own id, each field that the sensor's own override
/// holds has that override's value in the end, whatever the wildcard says.
pub proof fn lemma_exact_override_wins(s: Sensor, config: Config, wild: PatchView, exact: PatchView)
    requires
        override_of(config@, wildcard_id(s@.id)) == Some(wild),
        override_of(config@, s@.id) == Some(exact),
    ensures
        exact.name is Some ==> overridden(s@, config@).name == exact.name->0,
        exact.unit is Some ==> overridden(s@, config@).unit == exact.unit,
        exact.device_class is Some ==> overridden(s@, config@).device_class == exact.device_class,
        exact.icon is Some ==> overridden(s@, config@).icon == exact.icon,
        exact.disabled ==> overridden(s@, config@).disabled,
{
    lemma_override_has_its_key(config@, s@.id);
}

/// Where the sensor's own override leaves a field open, the wildcard
/// override's value stands, if it holds one; and a sensor that the wildcard
/// override disables stays disabled whatever its own override says.
pub proof fn lemma_wildcard_override_fills(s: Sensor, config: Config, wild: PatchView, exact: PatchView)
    requires
        override_of(config@, wildcard_id(s@.id)) == Some(wild),
        override_of(config@, s@.id) == Some(exact),
    ensures
        exact.name is None && wild.name is Some ==> overridden(s@, config@).name == wild.name->0,
        exact.unit is None && wild.unit is Some ==> overridden(s@, config@).unit == wild.unit,
        exact.device_class is None && wild.device_class is Some ==> overridden(
            s@,
            config@,
        ).device_class == wild.device_class,
        exact.icon is None && wild.icon is Some ==> overridden(s@, config@).icon == wild.icon,
        wild.disabled ==> overridden(s@, config@).disabled,
{
    lemma_override_has_its_key(config@, wildcard_id(s@.id));
    lemma_wildcard_key_is_wildcard(s@.id);
}

/// Laying the same configuration over a sensor a second time changes
/// nothing more.
pub proof fn lemma_overrides_idempotent(s: Sensor, config: Config)
    ensures
        overridden(overridden(s@, config@), config@) == overridden(s@, config@),
{
}

/// Whether no two sensors of the list have one id.
pub open spec fn ids_distinct(sensors: Seq<SensorView>) -> bool {
    forall|i: int, j: int|
        0 <= i < j < sensors.len() ==> (#[trigger] sensors[i]).id != (#[trigger] sensors[j]).id
}

/// Whether an entry of the configuration stands under `key`.
pub open spec fn has_key(entries: Seq<EntryView>, key: Seq<char>) -> bool {
    exists|i: int| 0 <= i < entries.len() && (#[trigger] entries[i]).id() == key
}

/// What the command entries of a map add: sensors whose ids are keys of the
/// configuration, are not in the list `builtins`, and differ from each other.
pub proof fn lemma_appended_commands_are_new(builtins: Seq<SensorView>, entries: Seq<EntryView>)
    requires
        keys_distinct(entries),
    ensures
        appended_commands(builtins, entries).len() <= entries.len(),
        forall|j: int|
            0 <= j < appended_commands(builtins, entries).len() ==> !represented(
                builtins,
                (#[trigger] appended_commands(builtins, entries)[j]).id,
            ),
        forall|j: int|
            0 <= j < appended_commands(builtins, entries).len() ==> has_key(
                entries,
                (#[trigger] appended_commands(builtins, entries)[j]).id,
            ),
        ids_distinct(appended_commands(builtins, entries)),
    decreases entries.len(),
{
    if entries.len() > 0 {
        let front = entries.drop_last();
        let before = appended_commands(builtins, front);
        let after = appended_commands(builtins, entries);
        lemma_appended_commands_are_new(builtins, front);
        assert forall|j: int| 0 <= j < before.len() implies has_key(
            entries,
            (#[trigger] before[j]).id,
        ) by {
            let i = choose|i: int| 0 <= i < front.len() && (#[trigger] front[i]).id() == before[j].id;
            assert(entries[i] == front[i]);
        }
        assert(ids_distinct(after));
    }
}

/// Every sensor of the final list has an id of its own, where the sensors
/// handed in had and the configuration is a map.
pub proof fn lemma_final_ids_distinct(builtins: Seq<SensorView>, entries: Seq<EntryView>)
    requires
        ids_distinct(builtins),
        keys_distinct(entries),
    ensures
        ids_distinct(final_sensors(builtins, entries)),
{
    let laid = builtins.map_values(|s: SensorView| overridden(s, entries));
    let all = final_sensors(builtins, entries);
    lemma_appended_commands_are_new(builtins, entries);
    assert forall|i: int, j: int| 0 <= i < j < all.len() implies (#[trigger] all[i]).id != (
    #[trigger] all[j]).id by {
        if i < laid.len() {
            assert(all[i].id == builtins[i].id);
        }
    }
}

/// The final list begins with the sensors handed in, each in its place and
/// with its id and reporter, and is at most longer by the number of entries.
pub proof fn lemma_final_list_keeps_places(builtins: Seq<SensorView>, entries: Seq<EntryView>)
    ensures
        builtins.len() <= final_sensors(builtins, entries).len(),
        forall|i: int|
            0 <= i < builtins.len() ==> (#[trigger] final_sensors(builtins, entries)[i])
                == overridden(builtins[i], entries),
        forall|i: int|
            0 <= i < builtins.len() ==> (#[trigger] final_sensors(builtins, entries)[i]).id
                == builtins[i].id,
        forall|i: int|
            0 <= i < builtins.len() ==> (#[trigger] final_sensors(builtins, entries)[i]).reporter
                == builtins[i].reporter,
{
}

/// A configuration that holds one command entry and nothing else, under an
/// id that no sensor of the list has, makes the list longer by one: by the
/// command's sensor, at the end. The sensors handed in stay as they are.
pub proof fn lemma_one_command_adds_one(builtins: Seq<SensorView>, c: CommandSensorView)
    requires
        !represented(builtins, c.id),
    ensures
        final_sensors(builtins, seq![EntryView::Command(c)]) == builtins.push(sensor_of_command(c)),
        final_sensors(builtins, seq![EntryView::Command(c)]).len() == builtins.len() + 1,
{
    let entries = seq![EntryView::Command(c)];
    assert(appended_commands(builtins, entries.drop_last()) =~= Seq::<SensorView>::empty());
    let laid = builtins.map_values(|s: SensorView| overridden(s, entries));
    assert forall|i: int| 0 <= i < builtins.len() implies laid[i] == builtins[i] by {}
}

/// No sensor of the final list has an empty id, where none of the sensors
/// handed in has one and no entry stands under the empty key.
pub proof fn lemma_final_ids_not_empty(builtins: Seq<SensorView>, entries: Seq<EntryView>)
    requires
        forall|i: int| 0 <= i < builtins.len() ==> (#[trigger] builtins[i]).id.len() > 0,
        forall|i: int| 0 <= i < entries.len() ==> (#[trigger] entries[i]).id().len() > 0,
    ensures
        forall|i: int|
            0 <= i < final_sensors(builtins, entries).len() ==> (#[trigger] final_sensors(
                builtins,
                entries,
            )[i]).id.len() > 0,
    decreases entries.len(),
{
    let all = final_sensors(builtins, entries);
    lemma_appended_commands_have_keys(builtins, entries);
    assert forall|i: int| 0 <= i < all.len() implies (#[trigger] all[i]).id.len() > 0 by {}
}

/// Each sensor that the command entries add has the key of an entry as
/// its id.
pub proof fn lemma_appended_commands_have_keys(builtins: Seq<SensorView>, entries: Seq<EntryView>)
    ensures
        forall|j: int|
            0 <= j < appended_commands(builtins, entries).len() ==> has_key(
                entries,
                (#[trigger] appended_commands(builtins, entries)[j]).id,
            ),
    decreases entries.len(),
{
    if entries.len() > 0 {
        let front = entries.drop_last();
        let before = appended_commands(builtins, front);
        let after = appended_commands(builtins, entries);
        lemma_appended_commands_have_keys(builtins, front);
        assert forall|j: int| 0 <= j < after.len() implies has_key(
            entries,
            (#[trigger] after[j]).id,
        ) by {}
    }
}

} // verus!
