use mpc_audio::project_file::{
    path_has_project_suffix, project_file_report, project_file_save_report, project_file_suffix,
    text_ends_with,
};

#[test]
fn project_file_suffix_is_the_saved_project_ending() {
    assert_eq!(project_file_suffix(), ".mpc2000xl-project.json");
}

#[test]
fn text_ends_with_matches_str_ends_with() {
    assert!(text_ends_with("fixture.mpc2000xl-project.json", ".mpc2000xl-project.json"));
    assert!(text_ends_with("abc", ""));
    assert!(text_ends_with("abc", "abc"));
    assert!(!text_ends_with("bc", "abc"));
    assert!(!text_ends_with("fixture.json", ".mpc2000xl-project.json"));
    assert!(text_ends_with("ça va é", "va é"));
}

#[test]
fn project_suffix_is_checked_on_the_file_name() {
    assert!(path_has_project_suffix("/tmp/nested/projects/fixture.mpc2000xl-project.json"));
    assert!(!path_has_project_suffix("/tmp/nested/projects/fixture.json"));
    assert!(!path_has_project_suffix("/tmp/.mpc2000xl-project.json/.."));
    assert!(!path_has_project_suffix(""));
}

#[test]
fn save_report_flags_zero_byte_count_only() {
    let mut details = Vec::new();
    project_file_save_report(&mut details, 120);
    assert!(details.is_empty());
    project_file_save_report(&mut details, 0);
    assert_eq!(details, vec!["project_round_trip.file.save byte_count is zero".to_string()]);
}

#[test]
fn matching_project_file_reports_nothing() {
    let path = "/tmp/p/nested/projects/fixture.mpc2000xl-project.json";
    let mut details = vec!["earlier".to_string()];
    project_file_report(&mut details, 512, 512, 3, 3, path, path, Some(path), 3);
    assert_eq!(details, vec!["earlier".to_string()]);
    project_file_report(&mut details, 512, 512, 3, 3, path, path, None, 3);
    assert_eq!(details, vec!["earlier".to_string()]);
}

#[test]
fn differing_project_file_reports_every_mismatch_in_order() {
    let mut details = Vec::new();
    project_file_report(
        &mut details,
        512,
        0,
        3,
        2,
        "/tmp/save/fixture.json",
        "/tmp/load/fixture.json",
        Some("/private/tmp/save/fixture.json"),
        4,
    );
    assert_eq!(
        details,
        vec![
            "project_round_trip.file.load byte_count is zero".to_string(),
            "project_round_trip.file.byte_count mismatch: save 512, load 0".to_string(),
            "project_round_trip.file.snapshot_version mismatch: save 3, load 2".to_string(),
            "project_round_trip.file.report_path mismatch: save /tmp/save/fixture.json, load /tmp/load/fixture.json"
                .to_string(),
            "project_round_trip.file.report_path expectation mismatch: expected /private/tmp/save/fixture.json, got /tmp/save/fixture.json"
                .to_string(),
            "project_round_trip.file.report_path suffix mismatch: /private/tmp/save/fixture.json"
                .to_string(),
            "project_round_trip.file.snapshot_version expectation mismatch: expected 4, got 3".to_string(),
        ]
    );
}

#[test]
fn unknown_canonical_path_skips_the_path_expectation() {
    let mut details = Vec::new();
    project_file_report(&mut details, 10, 10, 1, 1, "a.json", "a.json", None, 1);
    assert!(details.is_empty());
}
