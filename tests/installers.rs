use orbit::installers::{
    contains, plan, CommandSpec, Event, Failure, HostProfile, Outcome, Plan, Session, Stage, Step,
    Toolchain,
};

/// What a scripted run of a session did.
struct Run {
    outcome: Outcome,
    probed: Vec<String>,
    launched: Vec<String>,
    captured: Vec<String>,
}

fn line(c: &CommandSpec) -> String {
    let mut s = c.program.clone();
    for a in &c.args {
        s.push(' ');
        s.push_str(a);
    }
    s
}

/// Drives a session: probes answer from `present`, launches take their exit
/// results from `exits` in order, and the listing command prints `listing`.
fn drive(t: Toolchain, h: HostProfile, present: &[&str], exits: &[bool], listing: Option<&str>) -> Run {
    let mut session = Session::for_toolchain(t, h);
    let mut run = Run { outcome: Outcome::Installed, probed: vec![], launched: vec![], captured: vec![] };
    let mut next_exit = 0;
    for _ in 0..20 {
        match session.current() {
            Step::Probe(p) => {
                let found = present.contains(&p.as_str());
                run.probed.push(p);
                session.feed(Event::Present(found));
            }
            Step::Launch(c) => {
                run.launched.push(line(&c));
                let ok = exits[next_exit];
                next_exit += 1;
                session.feed(Event::Exited(ok));
            }
            Step::Capture(c) => {
                run.captured.push(line(&c));
                session.feed(Event::Listed(listing.map(|s| s.to_string())));
            }
            Step::Finish(o) => {
                run.outcome = o;
                return run;
            }
        }
    }
    panic!("session did not finish");
}

#[test]
fn every_target_and_host_has_one_plan() {
    let targets = [
        Toolchain::Rust,
        Toolchain::DotNet,
        Toolchain::Wpf,
        Toolchain::AvaloniaTemplates,
        Toolchain::Docker,
    ];
    let hosts = [HostProfile::Windows, HostProfile::MacOs, HostProfile::OtherUnix];
    for t in targets {
        for h in hosts {
            let a = drive(t, h, &["apt", "brew"], &[true, true], None);
            let b = drive(t, h, &["apt", "brew"], &[true, true], None);
            assert_eq!(a.launched, b.launched);
            assert_eq!(a.probed, b.probed);
            assert_eq!(a.outcome, b.outcome);
        }
    }
}

#[test]
fn rust_on_windows_opens_the_installer_page() {
    match plan(Toolchain::Rust, HostProfile::Windows) {
        Plan::Run(c) => {
            assert_eq!(line(&c), "explorer https://rustup.rs");
            assert!(!c.interactive);
        }
        _ => panic!("expected a single command"),
    }
}

#[test]
fn rust_elsewhere_pipes_the_install_script() {
    let r = drive(Toolchain::Rust, HostProfile::MacOs, &[], &[false], None);
    assert_eq!(
        r.launched,
        vec!["sh -c curl --proto '=https' --tlsv1.2 -sSf https://sh.rustup.rs | sh".to_string()]
    );
    assert_eq!(r.outcome, Outcome::Failed(Failure::CommandFailed));
}

#[test]
fn dotnet_on_windows_uses_winget() {
    let r = drive(Toolchain::DotNet, HostProfile::Windows, &[], &[true], None);
    assert_eq!(r.launched, vec!["winget install Microsoft.DotNet.SDK.8".to_string()]);
    assert!(r.probed.is_empty());
    assert_eq!(r.outcome, Outcome::Installed);
}

#[test]
fn apt_wins_over_dnf() {
    let r = drive(Toolchain::DotNet, HostProfile::OtherUnix, &["apt", "dnf"], &[true], None);
    assert_eq!(r.probed, vec!["apt".to_string()]);
    assert_eq!(r.launched, vec!["sudo apt-get install -y dotnet-sdk-8.0".to_string()]);
    assert_eq!(r.outcome, Outcome::Installed);
}

#[test]
fn each_unix_package_manager_has_its_own_command() {
    let cases = [
        ("dnf", "sudo dnf install -y dotnet-sdk-8.0"),
        ("pacman", "sudo pacman -S --noconfirm dotnet-sdk"),
        ("apk", "sudo apk add dotnet8-sdk"),
    ];
    for (manager, expected) in cases {
        let r = drive(Toolchain::DotNet, HostProfile::OtherUnix, &[manager], &[true], None);
        assert_eq!(r.launched, vec![expected.to_string()]);
        assert_eq!(r.probed.last().unwrap(), manager);
    }
}

#[test]
fn no_unix_package_manager_fails_after_four_probes() {
    let r = drive(Toolchain::DotNet, HostProfile::OtherUnix, &["zypper"], &[], None);
    assert_eq!(r.probed, vec!["apt", "dnf", "pacman", "apk"]);
    assert!(r.launched.is_empty());
    assert_eq!(r.outcome, Outcome::Failed(Failure::PrerequisiteMissing));
    assert!(!r.outcome.is_success());
}

#[test]
fn dotnet_on_mac_without_homebrew_runs_nothing() {
    let r = drive(Toolchain::DotNet, HostProfile::MacOs, &["apt"], &[], None);
    assert_eq!(r.probed, vec!["brew".to_string()]);
    assert!(r.launched.is_empty());
    assert_eq!(r.outcome, Outcome::Failed(Failure::PrerequisiteMissing));
}

#[test]
fn dotnet_on_mac_installs_the_cask() {
    let r = drive(Toolchain::DotNet, HostProfile::MacOs, &["brew"], &[true], None);
    assert_eq!(r.launched, vec!["brew install --cask dotnet-sdk".to_string()]);
    assert_eq!(r.outcome, Outcome::Installed);
}

#[test]
fn wpf_off_windows_fails_before_any_command() {
    for h in [HostProfile::MacOs, HostProfile::OtherUnix] {
        let s = Session::for_toolchain(Toolchain::Wpf, h);
        assert_eq!(s.stage(), Stage::Done(Outcome::Failed(Failure::UnsupportedPlatform)));
        let r = drive(Toolchain::Wpf, h, &["apt", "brew", "winget"], &[], None);
        assert!(r.probed.is_empty() && r.launched.is_empty() && r.captured.is_empty());
        assert_eq!(r.outcome, Outcome::Failed(Failure::UnsupportedPlatform));
    }
}

#[test]
fn wpf_on_windows_needs_both_components() {
    let ok = drive(Toolchain::Wpf, HostProfile::Windows, &[], &[true, true], None);
    assert_eq!(
        ok.launched,
        vec![
            "winget install Microsoft.DotNet.DesktopRuntime.8 --accept-source-agreements --accept-package-agreements"
                .to_string(),
            "winget install Microsoft.DotNet.SDK.8 --force --accept-source-agreements --accept-package-agreements"
                .to_string(),
        ]
    );
    assert_eq!(ok.outcome, Outcome::Installed);
    let first_failed = drive(Toolchain::Wpf, HostProfile::Windows, &[], &[false, true], None);
    assert_eq!(first_failed.launched.len(), 2);
    assert_eq!(first_failed.outcome, Outcome::Failed(Failure::CommandFailed));
    let second_failed = drive(Toolchain::Wpf, HostProfile::Windows, &[], &[true, false], None);
    assert_eq!(second_failed.outcome, Outcome::Failed(Failure::CommandFailed));
}

#[test]
fn listed_templates_are_not_installed_again() {
    let listing = "Template Name   Short Name\nAvalonia App   avalonia.app";
    let r = drive(Toolchain::AvaloniaTemplates, HostProfile::OtherUnix, &[], &[], Some(listing));
    assert_eq!(r.captured, vec!["dotnet new list".to_string()]);
    assert!(r.launched.is_empty());
    assert_eq!(r.outcome, Outcome::AlreadyInstalled);
    assert!(r.outcome.is_success());
}

#[test]
fn missing_templates_are_installed() {
    let r = drive(Toolchain::AvaloniaTemplates, HostProfile::Windows, &[], &[true], Some("Console App  console"));
    assert_eq!(r.launched, vec!["dotnet new install Avalonia.Templates".to_string()]);
    assert_eq!(r.outcome, Outcome::Installed);
    let failed_listing = drive(Toolchain::AvaloniaTemplates, HostProfile::MacOs, &[], &[false], None);
    assert_eq!(failed_listing.launched.len(), 1);
    assert_eq!(failed_listing.outcome, Outcome::Failed(Failure::CommandFailed));
}

#[test]
fn docker_on_linux_pipes_the_convenience_script() {
    for exit in [true, false] {
        let r = drive(Toolchain::Docker, HostProfile::OtherUnix, &["pacman"], &[exit], None);
        assert!(r.probed.is_empty());
        assert_eq!(r.launched, vec!["sh -c curl -fsSL https://get.docker.com | sh".to_string()]);
        assert_eq!(r.outcome.is_success(), exit);
    }
}

#[test]
fn docker_on_mac_and_windows() {
    let mac = drive(Toolchain::Docker, HostProfile::MacOs, &["brew"], &[true], None);
    assert_eq!(mac.launched, vec!["brew install --cask docker".to_string()]);
    let no_brew = drive(Toolchain::Docker, HostProfile::MacOs, &[], &[], None);
    assert_eq!(no_brew.outcome, Outcome::Failed(Failure::PrerequisiteMissing));
    let win = drive(Toolchain::Docker, HostProfile::Windows, &[], &[true], None);
    assert_eq!(
        win.launched,
        vec!["winget install Docker.DockerDesktop --accept-source-agreements --accept-package-agreements".to_string()]
    );
}

#[test]
fn substring_search() {
    assert!(contains("dotnet avalonia templates", "avalonia"));
    assert!(contains("avalonia", "avalonia"));
    assert!(contains("anything", ""));
    assert!(!contains("Avalonia", "avalonia"));
    assert!(!contains("aval", "avalonia"));
    assert!(!contains("", "avalonia"));
}
