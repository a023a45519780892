use orbit::config::{Database, OrbitConfig, ProjectType, UiFramework};
use orbit::installers::HostProfile;
use orbit::shell::{confirms, get_os_shell, is_affirmative};

#[test]
fn affirmative_replies() {
    for reply in ["y", "yes", "s", "si", "Y", "YES", "Si", "  yes\n", "\tS "] {
        assert!(confirms(reply), "{reply:?}");
    }
}

#[test]
fn other_replies_mean_no() {
    for reply in ["", "   ", "n", "no", "yess", "y e s", "sí", "ok", "\n"] {
        assert!(!confirms(reply), "{reply:?}");
    }
}

#[test]
fn tokens_are_compared_exactly() {
    assert!(is_affirmative("si"));
    assert!(!is_affirmative("SI"));
    assert!(!is_affirmative(" y"));
}

#[test]
fn shell_per_host() {
    assert_eq!(get_os_shell(HostProfile::Windows), "powershell");
    assert_eq!(get_os_shell(HostProfile::MacOs), "sh");
    assert_eq!(get_os_shell(HostProfile::OtherUnix), "sh");
}

#[test]
fn new_config_starts_at_first_version() {
    let c = OrbitConfig::new("plant", ProjectType::Hybrid(UiFramework::Avalonia), Database::TimescaleDB);
    assert_eq!(c.project_name, "plant");
    assert_eq!(c.project_type, ProjectType::Hybrid(UiFramework::Avalonia));
    assert_eq!(c.database, Database::TimescaleDB);
    assert_eq!(c.version, "0.1.0");
}
