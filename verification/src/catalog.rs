//! The catalog: the sensors that every host has, before any
//! configuration is laid over them.
use vstd::prelude::*;
use vstd::string::*;

use crate::device_class::DeviceClass;
use crate::docker_stats::{
    container_shaped, containers_catalog, engine_catalog, lemma_container_sensor_ids_distinct,
    lemma_containers_catalog_len, names_distinct,
};
use crate::overrides::{ids_distinct, sensor_views};
use crate::reporter::{
    CommandReporterView, CommandSensorReporter, ContainerInfoView, ReporterView,
    SensorReporterType, SystemSensorReporter, SystemSensorReporterStat, Transform,
};
use crate::sensor::{described, opt_text, Sensor, SensorView};

verus! {

/// The sensor of one figure of the host.
pub open spec fn host_sensor(
    id: Seq<char>,
    name: Seq<char>,
    unit: Option<Seq<char>>,
    device_class: Option<DeviceClass>,
    icon: Option<Seq<char>>,
    stat: SystemSensorReporterStat,
) -> SensorView {
    described(id, name, unit, device_class, icon, ReporterView::System(SystemSensorReporter { name: stat }))
}

/// The sensor of what a command prints.
pub open spec fn command_sensor(
    id: Seq<char>,
    name: Seq<char>,
    unit: Option<Seq<char>>,
    device_class: Option<DeviceClass>,
    icon: Option<Seq<char>>,
    command: Seq<char>,
    args: Option<Seq<Seq<char>>>,
    transform: Transform,
) -> SensorView {
    described(
        id,
        name,
        unit,
        device_class,
        icon,
        ReporterView::Command(CommandReporterView { command, args, transform: Some(transform) }),
    )
}

/// The sensors of the host itself, in their order: processor, memory and
/// uptime, the disk, the processor's temperature and the state of the
/// storage array.
pub open spec fn host_catalog() -> Seq<SensorView> {
    seq![
        host_sensor(
            "cpu_usage"@,
            "CPU Usage"@,
            Some("%"@),
            None,
            None,
            SystemSensorReporterStat::CpuUsage,
        ),
        host_sensor(
            "memory_usage"@,
            "Memory Usage"@,
            Some("%"@),
            None,
            None,
            SystemSensorReporterStat::MemoryUsage,
        ),
        host_sensor(
            "memory_total"@,
            "Memory Total"@,
            Some("B"@),
            Some(DeviceClass::DataSize),
            Some("memory"@),
            SystemSensorReporterStat::MemoryTotal,
        ),
        host_sensor(
            "memory_used"@,
            "Memory Used"@,
            Some("B"@),
            Some(DeviceClass::DataSize),
            Some("memory"@),
            SystemSensorReporterStat::MemoryUsed,
        ),
        host_sensor(
            "uptime"@,
            "Uptime"@,
            None,
            None,
            Some("duration"@),
            SystemSensorReporterStat::Uptime,
        ),
        command_sensor(
            "disk_usage"@,
            "Disk Usage"@,
            Some("%"@),
            None,
            None,
            "df"@,
            Some(seq!["-BM"@, "/mnt/user"@]),
            Transform::DiskUsage,
        ),
        command_sensor(
            "disk_total"@,
            "Disk Total"@,
            Some("B"@),
            Some(DeviceClass::DataSize),
            Some("data_size"@),
            "df"@,
            Some(seq!["/mnt/user"@]),
            Transform::DiskTotal,
        ),
        command_sensor(
            "disk_available"@,
            "Disk Available"@,
            Some("B"@),
            Some(DeviceClass::DataSize),
            Some("data_size"@),
            "df"@,
            Some(seq!["/mnt/user"@]),
            Transform::DiskAvailable,
        ),
        command_sensor(
            "cpu_temp"@,
            "CPU Temperature"@,
            Some("°C"@),
            Some(DeviceClass::Temperature),
            None,
            "sensor"@,
            None,
            Transform::CpuTemperature,
        ),
        command_sensor(
            "array_status"@,
            "Array Status"@,
            None,
            None,
            None,
            "mdcmd"@,
            Some(seq!["status"@]),
            Transform::ArrayStatus,
        ),
    ]
}

/// The catalog: the sensors of the host, those of the container engine,
/// and three for each container that is running.
pub open spec fn catalog(device_name: Seq<char>, containers: Seq<ContainerInfoView>) -> Seq<SensorView> {
    host_catalog() + engine_catalog() + containers_catalog(device_name, containers)
}

/// The catalog holds fifteen sensors and three more for each container.
pub proof fn lemma_catalog_len(device_name: Seq<char>, containers: Seq<ContainerInfoView>)
    ensures
        catalog(device_name, containers).len() == 15 + 3 * containers.len(),
{
    lemma_containers_catalog_len(device_name, containers);
}

/// The ids of the host's and the engine's sensors differ from each other,
/// and none has the shape of a container sensor's id.
pub proof fn lemma_fixed_ids_distinct()
    ensures
        ids_distinct(host_catalog() + engine_catalog()),
        forall|i: int|
            0 <= i < 15 ==> !container_shaped((#[trigger] (host_catalog() + engine_catalog())[i]).id),
{
    reveal_strlit("cpu_usage");
    reveal_strlit("memory_usage");
    reveal_strlit("memory_total");
    reveal_strlit("memory_used");
    reveal_strlit("uptime");
    reveal_strlit("disk_usage");
    reveal_strlit("disk_total");
    reveal_strlit("disk_available");
    reveal_strlit("cpu_temp");
    reveal_strlit("array_status");
    reveal_strlit("docker_containers_running");
    reveal_strlit("docker_containers_unhealthy");
    reveal_strlit("docker_images_count");
    reveal_strlit("docker_images_size");
    reveal_strlit("docker_volumes_count");
    let fixed = host_catalog() + engine_catalog();
    assert(fixed[0].id == "cpu_usage"@);
    assert(fixed[1].id == "memory_usage"@);
    assert(fixed[2].id == "memory_total"@);
    assert(fixed[3].id == "memory_used"@);
    assert(fixed[4].id == "uptime"@);
    assert(fixed[5].id == "disk_usage"@);
    assert(fixed[6].id == "disk_total"@);
    assert(fixed[7].id == "disk_available"@);
    assert(fixed[8].id == "cpu_temp"@);
    assert(fixed[9].id == "array_status"@);
    assert(fixed[10].id == "docker_containers_running"@);
    assert(fixed[11].id == "docker_containers_unhealthy"@);
    assert(fixed[12].id == "docker_images_count"@);
    assert(fixed[13].id == "docker_images_size"@);
    assert(fixed[14].id == "docker_volumes_count"@);
    assert forall|i: int, j: int| 0 <= i < j < 15 implies (#[trigger] fixed[i]).id != (
    #[trigger] fixed[j]).id by {
        if i == 1 && j == 2 {
            assert("memory_usage"@[7] != "memory_total"@[7]);
        }
        if i == 1 && j == 9 {
            assert("memory_usage"@[0] != "array_status"@[0]);
        }
        if i == 2 && j == 9 {
            assert("memory_total"@[0] != "array_status"@[0]);
        }
        if i == 5 && j == 6 {
            assert("disk_usage"@[5] != "disk_total"@[5]);
        }
    }
}

/// Every sensor of the catalog has an id of its own, where no two
/// containers are called by one name.
pub proof fn lemma_catalog_ids_distinct(device_name: Seq<char>, containers: Seq<ContainerInfoView>)
    requires
        names_distinct(containers),
    ensures
        ids_distinct(catalog(device_name, containers)),
{
    let fixed = host_catalog() + engine_catalog();
    let contained = containers_catalog(device_name, containers);
    let all = catalog(device_name, containers);
    lemma_fixed_ids_distinct();
    lemma_container_sensor_ids_distinct(device_name, containers);
    assert forall|x: int, y: int| 0 <= x < y < all.len() implies (#[trigger] all[x]).id != (
    #[trigger] all[y]).id by {
        if x < 15 {
            assert(all[x] == fixed[x]);
        } else {
            assert(all[x] == contained[x - 15]);
        }
        if y < 15 {
            assert(all[y] == fixed[y]);
        } else {
            assert(all[y] == contained[y - 15]);
        }
    }
}

fn system_sensor(
    id: &str,
    name: &str,
    unit: Option<&str>,
    device_class: Option<DeviceClass>,
    icon: Option<&str>,
    stat: SystemSensorReporterStat,
) -> (s: Sensor)
    ensures
        s@ == host_sensor(id@, name@, opt_text(unit), device_class, opt_text(icon), stat),
{
    Sensor::describe(
        String::from_str(id),
        String::from_str(name),
        unit,
        device_class,
        icon,
        SensorReporterType::System(SystemSensorReporter { name: stat }),
    )
}

fn shell_sensor(
    id: &str,
    name: &str,
    unit: Option<&str>,
    device_class: Option<DeviceClass>,
    icon: Option<&str>,
    command: &str,
    args: Option<Vec<String>>,
    transform: Transform,
) -> (s: Sensor)
    ensures
        s@ == command_sensor(
            id@,
            name@,
            opt_text(unit),
            device_class,
            opt_text(icon),
            command@,
            args.deep_view(),
            transform,
        ),
{
    Sensor::describe(
        String::from_str(id),
        String::from_str(name),
        unit,
        device_class,
        icon,
        SensorReporterType::Command(
            CommandSensorReporter {
                command: String::from_str(command),
                args,
                transform: Some(transform),
            },
        ),
    )
}

/// A list of one argument.
fn one_arg(a: &str) -> (args: Option<Vec<String>>)
    ensures
        args.deep_view() == Some(seq![a@]),
{
    let mut args: Vec<String> = Vec::new();
    args.push(String::from_str(a));
    Some(args)
}

/// A list of two arguments.
fn two_args(a: &str, b: &str) -> (args: Option<Vec<String>>)
    ensures
        args.deep_view() == Some(seq![a@, b@]),
{
    let mut args: Vec<String> = Vec::new();
    args.push(String::from_str(a));
    args.push(String::from_str(b));
    Some(args)
}

/// The sensors of the host itself.
pub fn host_sensors() -> (sensors: Vec<Sensor>)
    ensures
        sensor_views(sensors@) == host_catalog(),
{
    let mut sensors: Vec<Sensor> = Vec::new();
    sensors.push(
        system_sensor("cpu_usage", "CPU Usage", Some("%"), None, None, SystemSensorReporterStat::CpuUsage),
    );
    sensors.push(
        system_sensor(
            "memory_usage",
            "Memory Usage",
            Some("%"),
            None,
            None,
            SystemSensorReporterStat::MemoryUsage,
        ),
    );
    sensors.push(
        system_sensor(
            "memory_total",
            "Memory Total",
            Some("B"),
            Some(DeviceClass::DataSize),
            Some("memory"),
            SystemSensorReporterStat::MemoryTotal,
        ),
    );
    sensors.push(
        system_sensor(
            "memory_used",
            "Memory Used",
            Some("B"),
            Some(DeviceClass::DataSize),
            Some("memory"),
            SystemSensorReporterStat::MemoryUsed,
        ),
    );
    sensors.push(
        system_sensor("uptime", "Uptime", None, None, Some("duration"), SystemSensorReporterStat::Uptime),
    );
    sensors.push(
        shell_sensor(
            "disk_usage",
            "Disk Usage",
            Some("%"),
            None,
            None,
            "df",
            two_args("-BM", "/mnt/user"),
            Transform::DiskUsage,
        ),
    );
    sensors.push(
        shell_sensor(
            "disk_total",
            "Disk Total",
            Some("B"),
            Some(DeviceClass::DataSize),
            Some("data_size"),
            "df",
            one_arg("/mnt/user"),
            Transform::DiskTotal,
        ),
    );
    sensors.push(
        shell_sensor(
            "disk_available",
            "Disk Available",
            Some("B"),
            Some(DeviceClass::DataSize),
            Some("data_size"),
            "df",
            one_arg("/mnt/user"),
            Transform::DiskAvailable,
        ),
    );
    sensors.push(
        shell_sensor(
            "cpu_temp",
            "CPU Temperature",
            Some("°C"),
            Some(DeviceClass::Temperature),
            None,
            "sensor",
            None,
            Transform::CpuTemperature,
        ),
    );
    sensors.push(
        shell_sensor(
            "array_status",
            "Array Status",
            None,
            None,
            None,
            "mdcmd",
            one_arg("status"),
            Transform::ArrayStatus,
        ),
    );
    sensors
}

} // verus!
