use server_updater::marker::{
    get_local_version_information, parse_version, recorded_or_default, version_of_member,
    LocalVersionRecord,
};

fn record(server_type: &str, mc_version: &str, build: u16) -> LocalVersionRecord {
    LocalVersionRecord {
        server_type: server_type.to_string(),
        mc_version: mc_version.to_string(),
        build,
    }
}

#[test]
fn reads_a_paper_marker() {
    let rec = parse_version("git-Paper-100 (MC: 1.20.1)").unwrap();
    assert_eq!(rec.server_type, "Paper");
    assert_eq!(rec.build, 100);
    assert_eq!(rec.mc_version, "1.20.1");
}

#[test]
fn reads_a_purpur_marker() {
    assert_eq!(
        parse_version("git-Purpur-2062 (MC: 1.20.2)"),
        Some(record("Purpur", "1.20.2", 2062))
    );
}

#[test]
fn written_marker_reads_back() {
    for (server_type, mc_version, build) in [
        ("Paper", "1.20.1", 0u16),
        ("Purpur", "1.8", 7),
        ("Paper", "1.21", 65535),
        ("", "", 10),
        ("My-Fork", "23w45a", 1000),
    ] {
        let text = format!("git-{}-{} (MC: {})", server_type, build, mc_version);
        assert_eq!(
            parse_version(&text),
            Some(record(server_type, mc_version, build))
        );
    }
}

#[test]
fn server_type_may_hold_hyphens() {
    assert_eq!(
        parse_version("git-Paper-Fork-12 (MC: 1.19.4)"),
        Some(record("Paper-Fork", "1.19.4", 12))
    );
    assert_eq!(
        parse_version("git-a--5 (MC: 1.0)"),
        Some(record("a-", "1.0", 5))
    );
}

#[test]
fn server_type_may_be_empty() {
    assert_eq!(
        parse_version("git--5 (MC: 1.0)"),
        Some(record("", "1.0", 5))
    );
}

#[test]
fn build_may_carry_a_plus_sign_and_leading_zeros() {
    assert_eq!(
        parse_version("git-Paper-+100 (MC: 1.20.1)"),
        Some(record("Paper", "1.20.1", 100))
    );
    assert_eq!(
        parse_version("git-Paper-000100 (MC: 1.20.1)"),
        Some(record("Paper", "1.20.1", 100))
    );
    assert_eq!(
        parse_version("git-Paper-0000000000000000000065535 (MC: 1.20.1)"),
        Some(record("Paper", "1.20.1", 65535))
    );
}

#[test]
fn build_must_fit_in_sixteen_bits() {
    assert!(parse_version("git-Paper-65535 (MC: 1.20.1)").is_some());
    assert_eq!(parse_version("git-Paper-65536 (MC: 1.20.1)"), None);
    assert_eq!(parse_version("git-Paper-99999999999999999999999 (MC: 1.20.1)"), None);
}

#[test]
fn build_must_be_digits() {
    assert_eq!(parse_version("git-Paper- (MC: 1.20.1)"), None);
    assert_eq!(parse_version("git-Paper-+ (MC: 1.20.1)"), None);
    assert_eq!(parse_version("git-Paper-++1 (MC: 1.20.1)"), None);
    assert_eq!(parse_version("git-Paper-1+ (MC: 1.20.1)"), None);
    assert_eq!(parse_version("git-Paper-12a (MC: 1.20.1)"), None);
    assert_eq!(parse_version("git-Paper-abc (MC: 1.20.1)"), None);
    assert_eq!(parse_version("git-Paper-١٢ (MC: 1.20.1)"), None);
}

#[test]
fn every_closing_parenthesis_is_taken_off() {
    assert_eq!(
        parse_version("git-Paper-100 (MC: 1.20.1)))"),
        Some(record("Paper", "1.20.1", 100))
    );
    assert_eq!(
        parse_version("git-Paper-100 (MC: )"),
        Some(record("Paper", "", 100))
    );
    assert_eq!(
        parse_version("git-Paper-100 (MC: (a)b)"),
        Some(record("Paper", "(a)b", 100))
    );
}

#[test]
fn text_beyond_ascii_is_read() {
    assert_eq!(
        parse_version("git-Papiér-100 (MC: 1.20.1-β)"),
        Some(record("Papiér", "1.20.1-β", 100))
    );
}

#[test]
fn malformed_markers_record_nothing() {
    for text in [
        "",
        "git-",
        "git-Paper-100",
        "git-Paper-100 ",
        "git-Paper-100 (MC: 1.20.1",
        "git-Paper-100 (MC:1.20.1)",
        "git-Paper-100 (MC: 1.20.1) ",
        " git-Paper-100 (MC: 1.20.1)",
        "git-Paper-100  (MC: 1.20.1)",
        "git-Paper-100 (MC: 1.20 .1)",
        "git-Pa per-100 (MC: 1.20.1)",
        "git-Paper-100 (mc: 1.20.1)",
        "git-Paper-100 [MC: 1.20.1)",
        "git-Paper-100 MC: 1.20.1)",
        "Git-Paper-100 (MC: 1.20.1)",
        "got-Paper-100 (MC: 1.20.1)",
        "gitPaper-100 (MC: 1.20.1)",
        "git-100 (MC: 1.20.1)",
        "git-Paper100 (MC: 1.20.1)",
        "git-Paper_100 (MC: 1.20.1)",
        "100 (MC: 1.20.1)",
        "100 x 1.20.1",
        "1.20.1",
    ] {
        assert_eq!(parse_version(text), None, "{:?}", text);
    }
}

#[test]
fn marker_file_gives_its_record() {
    let contents =
        "{\"currentVersion\":\"git-Paper-100 (MC: 1.20.1)\",\"oldVersion\":\"git-Paper-99 (MC: 1.20.1)\"}";
    assert_eq!(
        get_local_version_information(Some(contents)),
        Some(record("Paper", "1.20.1", 100))
    );
}

#[test]
fn marker_file_with_escapes_gives_its_record() {
    let contents = "{\n  \"currentVersion\": \"git-Paper-100 (MC: 1.20\\u002e1)\"\n}\n";
    assert_eq!(
        get_local_version_information(Some(contents)),
        Some(record("Paper", "1.20.1", 100))
    );
}

#[test]
fn missing_marker_file_records_nothing() {
    assert_eq!(get_local_version_information(None), None);
}

#[test]
fn unreadable_marker_file_records_nothing() {
    for contents in [
        "",
        "not json",
        "{",
        "{\"currentVersion\":\"git-Paper-100 (MC: 1.20.1)\"",
        "git-Paper-100 (MC: 1.20.1)",
        "\"git-Paper-100 (MC: 1.20.1)\"",
        "[\"git-Paper-100 (MC: 1.20.1)\"]",
        "{}",
        "{\"oldVersion\":\"git-Paper-100 (MC: 1.20.1)\"}",
        "{\"currentversion\":\"git-Paper-100 (MC: 1.20.1)\"}",
        "{\"currentVersion\":100}",
        "{\"currentVersion\":null}",
        "{\"currentVersion\":[\"git-Paper-100 (MC: 1.20.1)\"]}",
        "{\"currentVersion\":{\"currentVersion\":\"git-Paper-100 (MC: 1.20.1)\"}}",
        "{\"currentVersion\":\"1.20.1\"}",
        "{\"currentVersion\":\"git-Paper-100 (MC: 1.20.1\"}",
    ] {
        assert_eq!(get_local_version_information(Some(contents)), None, "{:?}", contents);
    }
}

#[test]
fn member_gives_what_its_marker_records() {
    assert_eq!(
        version_of_member(Some("git-Paper-100 (MC: 1.20.1)")),
        Some(record("Paper", "1.20.1", 100))
    );
    assert_eq!(version_of_member(Some("Paper 100")), None);
    assert_eq!(version_of_member(None), None);
}

#[test]
fn nothing_recorded_gives_the_default() {
    assert_eq!(recorded_or_default(None), record("", "", 0));
    assert_eq!(LocalVersionRecord::default(), record("", "", 0));
    assert_eq!(
        recorded_or_default(Some(record("Paper", "1.20.1", 100))),
        record("Paper", "1.20.1", 100)
    );
    assert_eq!(
        recorded_or_default(get_local_version_information(Some("{}"))).build,
        0
    );
}

#[test]
fn duplicate_is_the_same_record() {
    let rec = record("Paper", "1.20.1", 100);
    assert_eq!(rec.duplicate(), rec);
}
