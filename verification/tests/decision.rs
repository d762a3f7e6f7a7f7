use server_updater::backend::BackendKind;
use server_updater::decision::needs_update;
use server_updater::marker::{parse_version, LocalVersionRecord};
use server_updater::paper;

fn installed(server_type: &str, mc_version: &str, build: u16) -> LocalVersionRecord {
    LocalVersionRecord {
        server_type: server_type.to_string(),
        mc_version: mc_version.to_string(),
        build,
    }
}

#[test]
fn same_record_needs_no_update() {
    for rec in [
        installed("Paper", "1.20.1", 100),
        installed("Purpur", "1.8", 0),
        installed("", "", 0),
        installed("Paper", "1.21", 65535),
    ] {
        assert!(!needs_update(&rec, &rec));
        assert!(!needs_update(&rec, &rec.duplicate()));
    }
}

#[test]
fn other_build_needs_update() {
    let local = installed("Paper", "1.20.1", 99);
    assert!(needs_update(&local, &installed("Paper", "1.20.1", 101)));
    assert!(needs_update(&local, &installed("Paper", "1.20.1", 98)));
}

#[test]
fn other_version_needs_update() {
    let local = installed("Paper", "1.20.1", 100);
    assert!(needs_update(&local, &installed("Paper", "1.20.2", 100)));
    assert!(needs_update(&local, &installed("Paper", "1.20", 100)));
}

#[test]
fn other_server_type_needs_update() {
    let local = installed("Paper", "1.20.1", 100);
    assert!(needs_update(&local, &installed("Purpur", "1.20.1", 100)));
    assert!(needs_update(&local, &installed("paper", "1.20.1", 100)));
}

#[test]
fn nothing_installed_needs_update() {
    let offered = paper::build_info("1.20.1", 0, "paper.jar", "00")
        .installed_record(BackendKind::Paper.server_type());
    assert!(needs_update(&LocalVersionRecord::default(), &offered));
}

#[test]
fn installed_build_is_compared_with_the_marker() {
    let local = parse_version("git-Paper-100 (MC: 1.20.1)").unwrap();
    let same = paper::build_info("1.20.1", 100, "paper-1.20.1-100.jar", "ab")
        .installed_record(BackendKind::Paper.server_type());
    let newer = paper::build_info("1.20.1", 101, "paper-1.20.1-101.jar", "cd")
        .installed_record(BackendKind::Paper.server_type());
    assert_eq!(same, installed("Paper", "1.20.1", 100));
    assert!(!needs_update(&local, &same));
    assert!(needs_update(&local, &newer));
}
