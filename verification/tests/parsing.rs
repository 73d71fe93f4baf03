//! What is read from the output of the built-in commands.
use unraid_mqtt_stats::unraid_stats::{
    parse_array_status, parse_cpu_temp, parse_disk_usage, parse_unraid_version,
};

const DF: &str = "Filesystem     1M-blocks  Used Available Use% Mounted on\n/dev/sda1 100M 40M 60M 40% /mnt/user\n";

#[test]
fn a_disk_usage_row_is_read_by_its_columns() {
    let info = parse_disk_usage(DF).expect("a row");
    assert_eq!(info.total, "100M");
    assert_eq!(info.available, "60M");
    assert_eq!(info.usage_percent, "40");
    assert_eq!(info.usage_percent.parse::<f64>(), Ok(40.0));
    assert_eq!(format!("{}", info.usage_percent.parse::<f64>().expect("a number")), "40");
}

#[test]
fn a_disk_usage_row_of_fewer_than_five_words_gives_nothing() {
    assert!(parse_disk_usage("Filesystem Size Used Avail Use%\n/dev/sda1 100M 40M 60M\n").is_none());
    assert!(parse_disk_usage("head\n\n").is_none());
    assert!(parse_disk_usage("head\n   \n").is_none());
    assert!(parse_disk_usage("head\na b c d").is_none());
}

#[test]
fn a_disk_usage_table_without_a_second_line_gives_nothing() {
    assert!(parse_disk_usage("").is_none());
    assert!(parse_disk_usage("/dev/sda1 100M 40M 60M 40% /mnt/user").is_none());
    assert!(parse_disk_usage("/dev/sda1 100M 40M 60M 40% /mnt/user\n").is_none());
}

#[test]
fn a_disk_usage_percentage_that_is_no_number_gives_nothing() {
    assert!(parse_disk_usage("head\n/dev/sda1 100M 40M 60M - /mnt/user\n").is_none());
    assert!(parse_disk_usage("head\n/dev/sda1 100M 40M 60M % /mnt/user\n").is_none());
    assert!(parse_disk_usage("head\n/dev/sda1 100M 40M 60M 4o% /mnt/user\n").is_none());
}

#[test]
fn a_disk_usage_row_is_read_whatever_stands_around_it() {
    let info = parse_disk_usage("head\r\n  shfs\t1T 250G   750G  25.5%%  /mnt/user  extra\r\nmore\r\n")
        .expect("a row");
    assert_eq!(info.total, "1T");
    assert_eq!(info.available, "750G");
    assert_eq!(info.usage_percent, "25.5");
}

const SENSORS: &str = "coretemp-isa-0000\nAdapter: ISA adapter\nPackage id 0:  +45.0°C  (high = +80.0°C, crit = +100.0°C)\nCore 0:        +43.0°C  (high = +80.0°C, crit = +100.0°C)\n";

#[test]
fn the_package_temperature_is_read_from_its_line() {
    let t = parse_cpu_temp(SENSORS).expect("a temperature");
    assert_eq!(t, "45.0");
    assert_eq!(format!("{:.1}", t.parse::<f64>().expect("a number")), "45.0");
}

#[test]
fn a_listing_without_package_line_gives_no_temperature() {
    assert!(parse_cpu_temp("").is_none());
    assert!(parse_cpu_temp("Core 0:        +43.0°C\n").is_none());
    assert!(parse_cpu_temp("package id 0:  +45.0°C\n").is_none());
}

#[test]
fn a_package_line_without_temperature_gives_none() {
    assert!(parse_cpu_temp("Package id 0:  N/A\n").is_none());
    assert!(parse_cpu_temp("Package id 0:  hot°C\n").is_none());
    assert!(parse_cpu_temp("Package id 0:  (45.0°C)\n").is_none());
    assert!(parse_cpu_temp("Package id 0:  +°C\n").is_none());
}

#[test]
fn the_temperature_is_the_first_word_with_the_unit() {
    assert_eq!(parse_cpu_temp("x\nPackage id 0: ++7°C°C +9.0°C").as_deref(), Some("7"));
    assert_eq!(parse_cpu_temp("Package id 0: -3.5°C").as_deref(), Some("-3.5"));
    assert_eq!(
        parse_cpu_temp("Package id 0: N/A\nPackage id 0: +50.0°C").as_deref(),
        None
    );
}

#[test]
fn the_array_status_follows_its_key() {
    assert_eq!(
        parse_array_status("sbName=/boot/config/super.dat\nmdState=STARTED\nmdNumDisks=4\n").as_deref(),
        Some("STARTED")
    );
    assert_eq!(parse_array_status("mdState=STOPPED").as_deref(), Some("STOPPED"));
    assert_eq!(parse_array_status("mdState=\n").as_deref(), Some(""));
    assert_eq!(parse_array_status("mdState=mdState=X\r\n").as_deref(), Some("X"));
    assert_eq!(
        parse_array_status("mdState=STARTED\nmdState=STOPPED\n").as_deref(),
        Some("STARTED")
    );
}

#[test]
fn a_listing_without_state_line_gives_no_status() {
    assert_eq!(parse_array_status(""), None);
    assert_eq!(parse_array_status("mdNumDisks=4\n"), None);
    assert_eq!(parse_array_status(" mdState=STARTED\n"), None);
    assert_eq!(parse_array_status("mdstate=STARTED\n"), None);
}

#[test]
fn the_version_is_read_without_its_quotes() {
    assert_eq!(parse_unraid_version(Some("version=\"6.12.4\"\n")), "6.12.4");
    assert_eq!(parse_unraid_version(Some("name=unraid\nversion=6.12.4")), "6.12.4");
    assert_eq!(parse_unraid_version(Some("version=\"\"")), "");
    assert_eq!(parse_unraid_version(Some("version=\"\"a\"b\"\"")), "a\"b");
}

#[test]
fn a_version_file_without_version_names_an_unknown_one() {
    assert_eq!(parse_unraid_version(Some("")), "Unknown");
    assert_eq!(parse_unraid_version(Some("name=unraid\n")), "Unknown");
    assert_eq!(parse_unraid_version(None), "Unknown");
}
