use pow::commands::pid::PidCheck;
use pow::commands::status::server_pid_state;
use pow::host::Platform;
use pow::utils::{
    archive_file_name, is_running_command, kill_pid_command, read_pid, tasklist_shows_pid,
    write_pid,
};

fn platform(os: &str) -> Platform {
    Platform { os: os.to_string(), arch: "x86_64".to_string() }
}

#[test]
fn pid_file_round_trip() {
    for pid in [0u32, 1, 9, 10, 42, 1234, 65535, 4_000_000_000, u32::MAX] {
        assert_eq!(write_pid(pid), pid.to_string());
        assert_eq!(read_pid(&write_pid(pid)), Some(pid));
    }
}

#[test]
fn reads_pid_files_like_str_parse() {
    assert_eq!(read_pid(" 42\n"), Some(42));
    assert_eq!(read_pid("\t007 "), Some(7));
    assert_eq!(read_pid("+7"), Some(7));
    assert_eq!(read_pid("4294967295"), Some(u32::MAX));
    assert_eq!(read_pid("4294967296"), None);
    assert_eq!(read_pid("99999999999999999999"), None);
    assert_eq!(read_pid("-1"), None);
    assert_eq!(read_pid("+"), None);
    assert_eq!(read_pid(""), None);
    assert_eq!(read_pid("   "), None);
    assert_eq!(read_pid("12 34"), None);
    assert_eq!(read_pid("12a"), None);
    assert_eq!(read_pid("\u{3000}5\u{2028}"), Some(5));
}

#[test]
fn kill_commands_per_platform() {
    let k = kill_pid_command(&platform("linux"), 314);
    assert_eq!(k.program, "kill");
    assert_eq!(k.args, vec!["314".to_string()]);
    let w = kill_pid_command(&platform("windows"), 314);
    assert_eq!(w.program, "taskkill");
    assert_eq!(w.args, vec!["/PID".to_string(), "314".to_string(), "/F".to_string()]);
}

#[test]
fn liveness_probes_per_platform() {
    let k = is_running_command(&platform("macos"), 27);
    assert_eq!(k.program, "kill");
    assert_eq!(k.args, vec!["-0".to_string(), "27".to_string()]);
    let w = is_running_command(&platform("windows"), 27);
    assert_eq!(w.program, "tasklist");
    assert_eq!(w.args, vec!["/FI".to_string(), "PID eq 27".to_string()]);
    assert!(tasklist_shows_pid("php.exe   27 Console", 27));
    assert!(!tasklist_shows_pid("INFO: No tasks are running", 27));
    assert!(!tasklist_shows_pid("2", 27));
}

#[test]
fn server_pid_state_reports_only_live_processes() {
    assert_eq!(server_pid_state(Some(5), true), PidCheck::Running(5));
    assert_eq!(server_pid_state(Some(5), false), PidCheck::Stale(5));
    assert_eq!(server_pid_state(None, true), PidCheck::Absent);
    assert_eq!(server_pid_state(None, false), PidCheck::Absent);
}

#[test]
fn archive_names_come_from_the_url() {
    assert_eq!(
        archive_file_name("https://www.php.net/distributions/php-7.4.33.tar.gz"),
        "php-7.4.33.tar.gz"
    );
    assert_eq!(archive_file_name("no-slash.zip"), "no-slash.zip");
    assert_eq!(archive_file_name("https://host/dir/"), "");
}
