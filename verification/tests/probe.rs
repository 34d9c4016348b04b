use vidreprocess::failure::Failure;
use vidreprocess::probe::{
    build_probe_args, check_probe_output, member, status_of, FileStatus, Json, PROCESSED_MARKER,
};

fn text(value: &str) -> Json {
    Json::Text(value.to_string())
}

fn object(members: Vec<(&str, Json)>) -> Json {
    Json::Object(members.into_iter().map(|(key, item)| (key.to_string(), item)).collect())
}

fn report(tags: Vec<(&str, Json)>) -> Json {
    object(vec![("format", object(vec![("filename", text("a.mp4")), ("tags", object(tags))]))])
}

#[test]
fn reprocessed_tag_means_skipped_whatever_its_value() {
    assert_eq!(status_of(&report(vec![("reprocessed", text("quality=28"))])), FileStatus::Skipped);
    assert_eq!(status_of(&report(vec![("reprocessed", text(""))])), FileStatus::Skipped);
    assert_eq!(status_of(&report(vec![("reprocessed", Json::Null)])), FileStatus::Skipped);
    assert_eq!(
        status_of(&report(vec![("title", text("x")), ("reprocessed", Json::Bool(false))])),
        FileStatus::Skipped
    );
}

#[test]
fn legacy_comment_with_marker_means_skipped() {
    assert_eq!(status_of(&report(vec![("comment", text(PROCESSED_MARKER))])), FileStatus::Skipped);
    assert_eq!(
        status_of(&report(vec![("comment", text("x PROCESSED_BY_VIDREPROCESS y"))])),
        FileStatus::Skipped
    );
}

#[test]
fn neither_tag_nor_marker_means_pending() {
    assert_eq!(status_of(&report(vec![])), FileStatus::Pending);
    assert_eq!(status_of(&report(vec![("comment", text("my holiday"))])), FileStatus::Pending);
    assert_eq!(status_of(&report(vec![("title", text("reprocessed"))])), FileStatus::Pending);
    assert_eq!(
        status_of(&report(vec![("comment", Json::Number("1".to_string()))])),
        FileStatus::Pending
    );
    assert_eq!(
        status_of(&report(vec![("comment", Json::Array(vec![text(PROCESSED_MARKER)]))])),
        FileStatus::Pending
    );
}

#[test]
fn missing_format_or_tags_means_pending() {
    assert_eq!(status_of(&object(vec![])), FileStatus::Pending);
    assert_eq!(status_of(&object(vec![("format", object(vec![]))])), FileStatus::Pending);
    assert_eq!(
        status_of(&object(vec![("format", object(vec![("tags", text("reprocessed"))]))])),
        FileStatus::Pending
    );
    assert_eq!(status_of(&Json::Null), FileStatus::Pending);
    assert_eq!(status_of(&Json::Array(vec![])), FileStatus::Pending);
    assert_eq!(
        status_of(&object(vec![("tags", object(vec![("reprocessed", text("x"))]))])),
        FileStatus::Pending
    );
}

#[test]
fn member_is_the_first_with_the_key() {
    let json = object(vec![("a", text("1")), ("b", text("2")), ("a", text("3"))]);
    assert!(matches!(member(&json, "a"), Some(Json::Text(t)) if t == "1"));
    assert!(matches!(member(&json, "b"), Some(Json::Text(t)) if t == "2"));
    assert!(member(&json, "c").is_none());
    assert!(member(&text("a"), "a").is_none());
}

#[test]
fn probe_output_is_read_as_json() {
    let output = r#"{"format": {"filename": "a.mp4", "nb_streams": 2, "duration": "12.5",
        "tags": {"major_brand": "isom", "reprocessed": "quality=28; codec=libx265"}}}"#;
    assert_eq!(check_probe_output(true, output).unwrap(), FileStatus::Skipped);
    let output = r#"{"format": {"tags": {"comment": "PROCESSED_BY_VIDREPROCESS"}}}"#;
    assert_eq!(check_probe_output(true, output).unwrap(), FileStatus::Skipped);
    let output = r#"{"format": {"tags": {"comment": "holiday", "encoder": "Lavf"}}}"#;
    assert_eq!(check_probe_output(true, output).unwrap(), FileStatus::Pending);
    assert_eq!(check_probe_output(true, r#"{"format": {}}"#).unwrap(), FileStatus::Pending);
    assert_eq!(check_probe_output(true, "{}").unwrap(), FileStatus::Pending);
    assert_eq!(check_probe_output(true, "[1, 2.5, null, true]").unwrap(), FileStatus::Pending);
}

#[test]
fn output_that_is_no_json_is_a_parse_failure() {
    assert!(matches!(check_probe_output(true, ""), Err(Failure::Parse(_))));
    assert!(matches!(check_probe_output(true, "{\"format\": "), Err(Failure::Parse(_))));
    assert!(matches!(check_probe_output(true, "{} trailing"), Err(Failure::Parse(_))));
}

#[test]
fn failed_probe_run_is_a_probe_failure() {
    assert!(matches!(check_probe_output(false, "{}"), Err(Failure::Probe)));
    assert!(matches!(check_probe_output(false, ""), Err(Failure::Probe)));
    let output = r#"{"format": {"tags": {"reprocessed": "x"}}}"#;
    assert!(matches!(check_probe_output(false, output), Err(Failure::Probe)));
}

#[test]
fn status_labels() {
    assert_eq!(FileStatus::Pending.label(), "pending");
    assert_eq!(FileStatus::Skipped.label(), "skipped");
}

#[test]
fn probe_arguments_ask_for_format_as_json() {
    let expected: Vec<String> = ["-v", "quiet", "-print_format", "json", "-show_format", "a b.mp4"]
        .iter()
        .map(|s| s.to_string())
        .collect();
    assert_eq!(build_probe_args("a b.mp4"), expected);
}
