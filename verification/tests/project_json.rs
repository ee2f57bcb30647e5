use mpc_audio::fixture::ProjectJsonMutation;
use mpc_audio::project_json::{JsonValue, apply_project_json_mutation, set_project_json_pointer};

fn text(value: &str) -> JsonValue {
    JsonValue::Text(value.to_string())
}

fn number(value: &str) -> JsonValue {
    JsonValue::Number(value.to_string())
}

fn object(members: Vec<(&str, JsonValue)>) -> JsonValue {
    JsonValue::Object(members.into_iter().map(|(key, value)| (key.to_string(), value)).collect())
}

fn project() -> JsonValue {
    object(vec![
        ("machine", object(vec![("event_count", number("2")), ("last_playback", text("pad A01"))])),
        (
            "program",
            object(vec![(
                "pad_assignments",
                JsonValue::Array(vec![object(vec![("pad", number("1"))]), object(vec![("pad", number("2"))])]),
            )]),
        ),
        ("rights_boundary", text("metadata_only_no_audio_bytes")),
        ("sequence", object(vec![("recorded_events", JsonValue::Array(vec![number("10"), number("20")]))])),
        ("version", number("1")),
    ])
}

fn member<'a>(value: &'a JsonValue, key: &str) -> &'a JsonValue {
    match value {
        JsonValue::Object(members) => &members.iter().find(|(name, _)| name == key).expect("member").1,
        _ => panic!("not an object"),
    }
}

#[test]
fn unsupported_version_and_rights_boundary_replace_root_members() {
    let mut value = project();
    apply_project_json_mutation(&mut value, &ProjectJsonMutation::UnsupportedVersion { version: 999 }).unwrap();
    assert_eq!(member(&value, "version"), &number("999"));

    apply_project_json_mutation(
        &mut value,
        &ProjectJsonMutation::InvalidRightsBoundary { rights_boundary: "embedded_audio".to_string() },
    )
    .unwrap();
    assert_eq!(member(&value, "rights_boundary"), &text("embedded_audio"));
}

#[test]
fn duplicate_first_pad_assignment_appends_a_copy_of_the_first() {
    let mut value = project();
    apply_project_json_mutation(&mut value, &ProjectJsonMutation::DuplicateFirstPadAssignment).unwrap();
    assert_eq!(
        member(member(&value, "program"), "pad_assignments"),
        &JsonValue::Array(vec![
            object(vec![("pad", number("1"))]),
            object(vec![("pad", number("2"))]),
            object(vec![("pad", number("1"))]),
        ])
    );

    let mut empty = object(vec![("program", object(vec![("pad_assignments", JsonValue::Array(Vec::new()))]))]);
    assert_eq!(
        apply_project_json_mutation(&mut empty, &ProjectJsonMutation::DuplicateFirstPadAssignment),
        Err("program.pad_assignments must not be empty".to_string())
    );
    let mut missing = object(Vec::new());
    assert_eq!(
        apply_project_json_mutation(&mut missing, &ProjectJsonMutation::DuplicateFirstPadAssignment),
        Err("program.pad_assignments must be an array".to_string())
    );
}

#[test]
fn unknown_root_field_is_added_or_overwritten() {
    let mut value = project();
    apply_project_json_mutation(&mut value, &ProjectJsonMutation::UnknownRootField { field: "sample_bytes".to_string() })
        .unwrap();
    assert_eq!(member(&value, "sample_bytes"), &text("rights-unsafe fixture mutation payload"));
    apply_project_json_mutation(&mut value, &ProjectJsonMutation::UnknownRootField { field: "version".to_string() })
        .unwrap();
    assert_eq!(member(&value, "version"), &text("rights-unsafe fixture mutation payload"));

    let mut array = JsonValue::Array(Vec::new());
    assert_eq!(
        apply_project_json_mutation(&mut array, &ProjectJsonMutation::UnknownRootField { field: "x".to_string() }),
        Err("project snapshot root must be an object".to_string())
    );
}

#[test]
fn event_count_mutations_follow_the_recorded_events() {
    let mut value = project();
    apply_project_json_mutation(&mut value, &ProjectJsonMutation::EventCountLessThanRecordedEvents).unwrap();
    assert_eq!(member(member(&value, "machine"), "event_count"), &number("1"));

    let mut value = project();
    apply_project_json_mutation(&mut value, &ProjectJsonMutation::LastPlaybackWithZeroEventCount).unwrap();
    assert_eq!(member(member(&value, "machine"), "event_count"), &number("0"));
    assert_eq!(member(member(&value, "sequence"), "recorded_events"), &JsonValue::Array(Vec::new()));

    let mut no_events = object(vec![("sequence", object(vec![("recorded_events", JsonValue::Array(Vec::new()))]))]);
    assert_eq!(
        apply_project_json_mutation(&mut no_events, &ProjectJsonMutation::EventCountLessThanRecordedEvents),
        Err("sequence.recorded_events must not be empty for this mutation".to_string())
    );

    let mut no_playback = object(vec![("machine", object(vec![("last_playback", JsonValue::Null)]))]);
    assert_eq!(
        apply_project_json_mutation(&mut no_playback, &ProjectJsonMutation::LastPlaybackWithZeroEventCount),
        Err("machine.last_playback must be present for this mutation".to_string())
    );
}

#[test]
fn a_mutation_that_fails_half_way_keeps_its_first_change() {
    let mut value = object(vec![(
        "machine",
        object(vec![("event_count", number("5")), ("last_playback", text("pad"))]),
    )]);
    assert_eq!(
        apply_project_json_mutation(&mut value, &ProjectJsonMutation::LastPlaybackWithZeroEventCount),
        Err("project snapshot JSON pointer /sequence/recorded_events must exist".to_string())
    );
    assert_eq!(member(member(&value, "machine"), "event_count"), &number("0"));
}

#[test]
fn pointer_errors_name_the_missing_pointer_and_leave_the_document_alone() {
    let mut value = project();
    let before = format!("{value:?}");
    assert_eq!(
        set_project_json_pointer(&mut value, &vec!["machine", "tempo", "bpm"], JsonValue::Null),
        Err("project snapshot JSON pointer /machine/tempo/bpm must exist".to_string())
    );
    assert_eq!(format!("{value:?}"), before);
    assert_eq!(set_project_json_pointer(&mut value, &vec!["machine", "event_count"], JsonValue::Null), Ok(()));
    assert_eq!(member(member(&value, "machine"), "event_count"), &JsonValue::Null);
}
