//! Deciding from the probe tool's report whether a file was processed
//! before.

use vstd::prelude::*;
use crate::failure::Failure;
use crate::text::{contains, empty_list, has_occurrence, push_text};

verus! {

/// The text that marks a processed file in its legacy comment tag.
pub const PROCESSED_MARKER: &'static str = "PROCESSED_BY_VIDREPROCESS";

/// A JSON document. A number is kept as the text that writes it, an object
/// as the list of its members. Where two members carry the same key, a
/// lookup finds the first.
#[derive(Debug)]
pub enum Json {
    Null,
    Bool(bool),
    Number(String),
    Text(String),
    Array(Vec<Json>),
    Object(Vec<(String, Json)>),
}

/// A JSON document as plain values.
pub enum JsonValue {
    Null,
    Bool(bool),
    Number(Seq<char>),
    Text(Seq<char>),
    Array(Seq<JsonValue>),
    Object(Seq<(Seq<char>, JsonValue)>),
}

/// What `json` holds, as plain values.
pub open spec fn json_value(json: Json) -> JsonValue
    decreases json,
{
    match json {
        Json::Null => JsonValue::Null,
        Json::Bool(flag) => JsonValue::Bool(flag),
        Json::Number(digits) => JsonValue::Number(digits@),
        Json::Text(text) => JsonValue::Text(text@),
        Json::Array(items) => JsonValue::Array(
            Seq::new(items@.len(), |i: int| if 0 <= i < items@.len() {
                json_value(items@[i])
            } else {
                JsonValue::Null
            }),
        ),
        Json::Object(members) => JsonValue::Object(
            Seq::new(members@.len(), |i: int| if 0 <= i < members@.len() {
                (members@[i].0@, json_value(members@[i].1))
            } else {
                (Seq::empty(), JsonValue::Null)
            }),
        ),
    }
}

impl View for Json {
    type V = JsonValue;

    open spec fn view(&self) -> JsonValue {
        json_value(*self)
    }
}

/// Whether a file still has to be processed.
#[derive(Debug, Clone, Copy, PartialEq, Eq, Structural)]
pub enum FileStatus {
    Pending,
    Skipped,
}

impl FileStatus {
    /// The word under which the status is reported.
    pub fn label(&self) -> (word: &'static str)
        ensures
            word@ == match self {
                FileStatus::Pending => "pending"@,
                FileStatus::Skipped => "skipped"@,
            },
    {
        match self {
            FileStatus::Pending => "pending",
            FileStatus::Skipped => "skipped",
        }
    }
}

#[verifier::external_type_specification]
#[verifier::external_body]
pub struct ExJsonValue(serde_json::Value);

#[verifier::external_type_specification]
#[verifier::external_body]
pub struct ExJsonError(serde_json::Error);

/// The document that `serde_json::from_str` reads from `text`, or none
/// where it reports an error.
pub uninterp spec fn json_document(text: Seq<char>) -> Option<JsonValue>;

/// Tells the six variants of `serde_json::Value` apart and moves what each
/// holds into the variant of `Json` of the same kind: a number as the text
/// that its `Display` writes, the items of an array in order, the members
/// of an object in the order in which its map hands them out. Nothing is
/// claimed of the result here; `read_json` names it.
#[verifier::external_body]
fn json_of_value(value: serde_json::Value) -> (json: Json) {
    match value {
        serde_json::Value::Null => Json::Null,
        serde_json::Value::Bool(flag) => Json::Bool(flag),
        serde_json::Value::Number(number) => Json::Number(number.to_string()),
        serde_json::Value::String(text) => Json::Text(text),
        serde_json::Value::Array(items) => Json::Array(
            items.into_iter().map(json_of_value).collect(),
        ),
        serde_json::Value::Object(members) => Json::Object(
            members.into_iter().map(|(key, item)| (key, json_of_value(item))).collect(),
        ),
    }
}

/// Calls `serde_json::from_str` for a `serde_json::Value`, which reads one
/// JSON document from the whole of `text` and reports an error where `text`
/// is no such document. The result depends on `text` alone; the contract
/// gives it the name `json_document` and claims no more.
#[verifier::external_body]
fn read_json(text: &str) -> (document: Result<Json, serde_json::Error>)
    ensures
        match document {
            Ok(json) => json_document(text@) == Some(json@),
            Err(_) => json_document(text@) is None,
        },
{
    serde_json::from_str::<serde_json::Value>(text).map(json_of_value)
}

/// The message of a `serde_json::Error`, as its `Display` writes it.
/// Nothing is claimed of the text.
#[verifier::external_body]
fn json_error_text(error: &serde_json::Error) -> (text: String) {
    error.to_string()
}

/// The first of `members` that carries `key`, if any does.
pub open spec fn member_among(members: Seq<(Seq<char>, JsonValue)>, key: Seq<char>) -> Option<
    JsonValue,
>
    decreases members.len(),
{
    if members.len() == 0 {
        None
    } else {
        match member_among(members.drop_last(), key) {
            Some(found) => Some(found),
            None => if members.last().0 == key {
                Some(members.last().1)
            } else {
                None
            },
        }
    }
}

/// The member `key` of `json`: of an object, the first member that carries
/// the key; of anything else, none.
pub open spec fn member_of(json: JsonValue, key: Seq<char>) -> Option<JsonValue> {
    match json {
        JsonValue::Object(members) => member_among(members, key),
        _ => None,
    }
}

/// The tags of the container format in a probe report: the member `tags`
/// of the member `format`.
pub open spec fn format_tags(report: JsonValue) -> Option<JsonValue> {
    match member_of(report, "format"@) {
        Some(format) => member_of(format, "tags"@),
        None => None,
    }
}

/// True when the report shows a processed file: its format tags hold a tag
/// `reprocessed`, whatever its value, or a tag `comment` whose value is a
/// text in which the processed marker stands.
pub open spec fn is_processed(report: JsonValue) -> bool {
    match format_tags(report) {
        None => false,
        Some(tags) => member_of(tags, "reprocessed"@) is Some || (match member_of(
            tags,
            "comment"@,
        ) {
            Some(JsonValue::Text(comment)) => has_occurrence(comment, PROCESSED_MARKER@),
            _ => false,
        }),
    }
}

/// The status that a probe report gives a file.
pub open spec fn status_of_report(report: JsonValue) -> FileStatus {
    if is_processed(report) {
        FileStatus::Skipped
    } else {
        FileStatus::Pending
    }
}

/// Looks up the member `key` of `json`.
#[verifier::loop_isolation(false)]
pub fn member<'a>(json: &'a Json, key: &str) -> (found: Option<&'a Json>)
    ensures
        match found {
            Some(item) => member_of(json@, key@) == Some(item@),
            None => member_of(json@, key@) is None,
        },
{
    match json {
        Json::Object(members) => {
            let ghost all = json@->Object_0;
            let mut i: usize = 0;
            assert(*json == Json::Object(*members));
            assert(all.len() == members@.len());
            assert forall|k: int| 0 <= k < members@.len() implies #[trigger] all[k] == (
                members@[k].0@,
                members@[k].1@,
            ) by {}
            assert(all.take(0) =~= Seq::empty());
            while i < members.len()
                invariant
                    i <= members.len(),
                    member_among(all.take(i as int), key@) is None,
                decreases members.len() - i,
            {
                assert(all.take(i + 1).drop_last() =~= all.take(i as int));
                assert(all.take(i + 1).last() == (members@[i as int].0@, members@[i as int].1@));
                if crate::text::same_text(members[i].0.as_str(), key) {
                    proof {
                        lemma_member_found_extends(all, key@, i + 1);
                    }
                    return Some(&members[i].1);
                }
                i += 1;
            }
            assert(all.take(members.len() as int) =~= all);
            None
        },
        _ => None,
    }
}

/// A member found among the first `n` is the member found among all.
proof fn lemma_member_found_extends(members: Seq<(Seq<char>, JsonValue)>, key: Seq<char>, n: int)
    requires
        0 <= n <= members.len(),
        member_among(members.take(n), key) is Some,
    ensures
        member_among(members, key) == member_among(members.take(n), key),
    decreases members.len() - n,
{
    if n < members.len() {
        assert(members.take(n + 1).drop_last() =~= members.take(n));
        lemma_member_found_extends(members, key, n + 1);
    } else {
        assert(members.take(n) =~= members);
    }
}

/// Decides from a probe report whether the file was processed before.
pub fn status_of(report: &Json) -> (status: FileStatus)
    ensures
        status == status_of_report(report@),
{
    let tags = match member(report, "format") {
        Some(format) => member(format, "tags"),
        None => None,
    };
    match tags {
        None => FileStatus::Pending,
        Some(tags) => {
            if member(tags, "reprocessed").is_some() {
                return FileStatus::Skipped;
            }
            match member(tags, "comment") {
                Some(Json::Text(comment)) => {
                    if contains(comment.as_str(), PROCESSED_MARKER) {
                        FileStatus::Skipped
                    } else {
                        FileStatus::Pending
                    }
                },
                _ => FileStatus::Pending,
            }
        },
    }
}

/// The arguments with which the probe tool reports the container format of
/// the file at `path` as JSON.
pub open spec fn probe_arguments(path: Seq<char>) -> Seq<Seq<char>> {
    seq!["-v"@, "quiet"@, "-print_format"@, "json"@, "-show_format"@, path]
}

/// Builds the arguments of the probe tool for the file at `path`.
pub fn build_probe_args(path: &str) -> (args: Vec<String>)
    ensures
        args.deep_view() == probe_arguments(path@),
{
    let mut args = empty_list();
    push_text(&mut args, "-v");
    push_text(&mut args, "quiet");
    push_text(&mut args, "-print_format");
    push_text(&mut args, "json");
    push_text(&mut args, "-show_format");
    push_text(&mut args, path);
    args
}

/// Decides a file's status from what the probe tool did: whether it ended
/// with success, and what it wrote. A run that did not end with success is
/// a probe failure; output that is no JSON document is a parse failure;
/// otherwise the report decides.
pub fn check_probe_output(succeeded: bool, output: &str) -> (status: Result<FileStatus, Failure>)
    ensures
        match status {
            Ok(found) => succeeded && json_document(output@) is Some && found
                == status_of_report(json_document(output@).unwrap()),
            Err(failure) => if succeeded {
                json_document(output@) is None && failure@ is Parse
            } else {
                failure@ is Probe
            },
        },
{
    if !succeeded {
        return Err(Failure::Probe);
    }
    match read_json(output) {
        Ok(report) => Ok(status_of(&report)),
        Err(error) => Err(Failure::Parse(json_error_text(&error))),
    }
}

/// A report whose format tags hold a tag `reprocessed` gives the status
/// skipped, whatever the tag's value and whatever else the report holds; a
/// report whose format tags hold neither that tag nor a comment gives the
/// status pending, and so does a report without format tags.
pub proof fn lemma_reprocessed_tag_decides(report: JsonValue)
    ensures
        format_tags(report) is Some && member_of(format_tags(report).unwrap(), "reprocessed"@)
            is Some ==> status_of_report(report) == FileStatus::Skipped,
        format_tags(report) is Some && member_of(format_tags(report).unwrap(), "reprocessed"@)
            is None && member_of(format_tags(report).unwrap(), "comment"@) is None
            ==> status_of_report(report) == FileStatus::Pending,
        format_tags(report) is None ==> status_of_report(report) == FileStatus::Pending,
{
}

} // verus!
