//! File names derived from the input file and the options, and the text
//! that records which options a file was produced with.

use vstd::prelude::*;
use crate::decimal::{decimal, u8_to_decimal};
use crate::models::{ProcessingOptions, VideoOptions, selected_pairs};
use crate::text::{chars_of, join, joined, push_string, push_text, string_between};

verus! {

/// The index of the last dot in `name`, or -1 where it has none.
pub open spec fn last_dot(name: Seq<char>) -> int
    decreases name.len(),
{
    if name.len() == 0 {
        -1
    } else if name.last() == '.' {
        name.len() - 1
    } else {
        last_dot(name.drop_last())
    }
}

/// A file name without its extension: what stands before the last dot. A
/// name without a dot, or whose only dot is its first character, is its own
/// stem.
pub open spec fn stem_of(name: Seq<char>) -> Seq<char> {
    if last_dot(name) > 0 {
        name.take(last_dot(name))
    } else {
        name
    }
}

/// Strips the extension from a file name.
pub fn file_stem(name: &str) -> (stem: String)
    ensures
        stem@ == stem_of(name@),
{
    let text = chars_of(name);
    let mut dot: usize = 0;
    let mut found = false;
    let mut i: usize = 0;
    assert(name@.take(0) =~= Seq::empty());
    while i < text.len()
        invariant
            i <= text.len(),
            text@ == name@,
            found ==> dot < i && last_dot(name@.take(i as int)) == dot,
            !found ==> last_dot(name@.take(i as int)) == -1,
        decreases text.len() - i,
    {
        assert(name@.take(i + 1).drop_last() =~= name@.take(i as int));
        if text[i] == '.' {
            dot = i;
            found = true;
        }
        i += 1;
    }
    assert(name@.take(text.len() as int) =~= name@);
    let keep: usize = if found && dot > 0 {
        dot
    } else {
        text.len()
    };
    assert(name@.subrange(0, keep as int) =~= name@.take(keep as int));
    string_between(&text, 0, keep)
}

/// The short names of the selected modifiers, in order.
pub open spec fn modifier_names(selected: Seq<(Seq<char>, Seq<char>)>) -> Seq<Seq<char>> {
    Seq::new(selected.len(), |i: int| selected[i].0)
}

/// Each selected modifier as `name:value`, in order.
pub open spec fn modifier_settings(selected: Seq<(Seq<char>, Seq<char>)>) -> Seq<Seq<char>> {
    Seq::new(selected.len(), |i: int| selected[i].0 + ":"@ + selected[i].1)
}

/// What the options add to the stem of the input file's name: `_stabilized`
/// when stabilizing, the selected filters joined by underscores, the
/// selected modifiers joined by underscores, then quality and codec.
pub open spec fn output_suffix(options: ProcessingOptions) -> Seq<char> {
    (if options.stabilize {
        "_stabilized"@
    } else {
        Seq::empty()
    }) + (if options.filters.len() > 0 {
        "_"@ + joined(options.filters, "_"@)
    } else {
        Seq::empty()
    }) + (if options.modifiers.len() > 0 {
        "_"@ + joined(modifier_names(options.modifiers), "_"@)
    } else {
        Seq::empty()
    }) + "_q"@ + decimal(options.quality) + "_"@ + options.codec
}

/// The name of the file that a job writes for the input file `name`.
pub open spec fn output_name(name: Seq<char>, options: ProcessingOptions) -> Seq<char> {
    stem_of(name) + output_suffix(options) + ".mp4"@
}

fn names_of(selected: &Vec<(String, String)>) -> (names: Vec<String>)
    ensures
        names.deep_view() == modifier_names(selected_pairs(selected@)),
{
    let mut names: Vec<String> = Vec::new();
    let mut i: usize = 0;
    while i < selected.len()
        invariant
            i <= selected.len(),
            names.deep_view() == modifier_names(selected_pairs(selected@)).take(
                i as int,
            ),
        decreases selected.len() - i,
    {
        push_text(&mut names, selected[i].0.as_str());
        assert(names.deep_view() =~= modifier_names(
            selected_pairs(selected@),
        ).take(i + 1));
        i += 1;
    }
    assert(names.deep_view() =~= modifier_names(selected_pairs(selected@)));
    names
}

fn settings_of(selected: &Vec<(String, String)>) -> (settings: Vec<String>)
    ensures
        settings.deep_view() == modifier_settings(selected_pairs(selected@)),
{
    let mut settings: Vec<String> = Vec::new();
    let mut i: usize = 0;
    while i < selected.len()
        invariant
            i <= selected.len(),
            settings.deep_view() == modifier_settings(
                selected_pairs(selected@),
            ).take(i as int),
        decreases selected.len() - i,
    {
        let setting = selected[i].0.clone().concat(":").concat(selected[i].1.as_str());
        push_string(&mut settings, setting);
        assert(settings.deep_view() =~= modifier_settings(
            selected_pairs(selected@),
        ).take(i + 1));
        i += 1;
    }
    assert(settings.deep_view() =~= modifier_settings(selected_pairs(selected@)));
    settings
}

/// Derives the output file's name from the input file's name and the
/// options.
pub fn output_file_name(input_file_name: &str, options: &VideoOptions) -> (name: String)
    ensures
        name@ == output_name(input_file_name@, options@),
{
    let stabilized = if options.stabilize {
        "_stabilized".to_owned()
    } else {
        String::new()
    };
    let filters = if options.filters.len() > 0 {
        "_".to_owned().concat(join(&options.filters, "_").as_str())
    } else {
        String::new()
    };
    let modifiers = if options.modifiers.len() > 0 {
        "_".to_owned().concat(join(&names_of(&options.modifiers), "_").as_str())
    } else {
        String::new()
    };
    let suffix = stabilized.concat(filters.as_str()).concat(modifiers.as_str()).concat(
        "_q",
    ).concat(u8_to_decimal(options.quality).as_str()).concat("_").concat(options.codec.as_str());
    file_stem(input_file_name).concat(suffix.as_str()).concat(".mp4")
}

/// The record of the options that a file was produced with:
/// `quality=<q>; codec=<c>; preset=<p>`, then `; stabilize=true` when
/// stabilizing, `; filters=<names joined by commas>` when filters are
/// selected, and `; modifiers=<name:value joined by commas>` when modifiers
/// are.
pub open spec fn description(options: ProcessingOptions) -> Seq<char> {
    "quality="@ + decimal(options.quality) + "; codec="@ + options.codec + "; preset="@
        + options.preset + (if options.stabilize {
        "; stabilize=true"@
    } else {
        Seq::empty()
    }) + (if options.filters.len() > 0 {
        "; filters="@ + joined(options.filters, ","@)
    } else {
        Seq::empty()
    }) + (if options.modifiers.len() > 0 {
        "; modifiers="@ + joined(modifier_settings(options.modifiers), ","@)
    } else {
        Seq::empty()
    })
}

/// Writes the record of the options that a file is produced with.
pub fn describe_options(options: &VideoOptions) -> (text: String)
    ensures
        text@ == description(options@),
{
    let stabilized = if options.stabilize {
        "; stabilize=true".to_owned()
    } else {
        String::new()
    };
    let filters = if options.filters.len() > 0 {
        "; filters=".to_owned().concat(join(&options.filters, ",").as_str())
    } else {
        String::new()
    };
    let modifiers = if options.modifiers.len() > 0 {
        "; modifiers=".to_owned().concat(join(&settings_of(&options.modifiers), ",").as_str())
    } else {
        String::new()
    };
    "quality=".to_owned().concat(u8_to_decimal(options.quality).as_str()).concat(
        "; codec=",
    ).concat(options.codec.as_str()).concat("; preset=").concat(options.preset.as_str()).concat(
        stabilized.as_str(),
    ).concat(filters.as_str()).concat(modifiers.as_str())
}

/// Calls `Uuid::new_v4` of `uuid` and writes the identifier as its
/// `Display` does. The identifier is drawn at random, so nothing is claimed
/// of it, and two calls may differ. The call panics where the system hands
/// out no random bytes, which no argument decides.
#[verifier::external_body]
fn fresh_identifier() -> (id: String) {
    uuid::Uuid::new_v4().to_string()
}

/// The name of the file that the main pass writes before its result is
/// moved to its place.
pub open spec fn work_name(stem: Seq<char>, id: Seq<char>) -> Seq<char> {
    stem + "_"@ + id + "_workinprogress.mp4"@
}

/// The name of the file that holds the findings of the detection pass.
pub open spec fn transform_data_name(stem: Seq<char>, id: Seq<char>) -> Seq<char> {
    stem + "_"@ + id + ".trf"@
}

/// The name of the tagged copy of the original.
pub open spec fn tagged_copy_name(stem: Seq<char>) -> Seq<char> {
    stem + "_tagged_temp.mp4"@
}

/// The name of the file that holds a preview picture.
pub open spec fn preview_name(id: Seq<char>) -> Seq<char> {
    "preview_"@ + id + ".jpg"@
}

/// Names the work file of the input file `input_file_name`, told apart
/// from others by `id`.
pub fn work_file_name(input_file_name: &str, id: &str) -> (name: String)
    ensures
        name@ == work_name(stem_of(input_file_name@), id@),
{
    file_stem(input_file_name).concat("_").concat(id).concat("_workinprogress.mp4")
}

/// Names the transform data file of the input file `input_file_name`, told
/// apart from others by `id`.
pub fn transform_data_file_name(input_file_name: &str, id: &str) -> (name: String)
    ensures
        name@ == transform_data_name(stem_of(input_file_name@), id@),
{
    file_stem(input_file_name).concat("_").concat(id).concat(".trf")
}

/// Names the tagged copy of the input file `input_file_name`.
pub fn tagged_copy_file_name(input_file_name: &str) -> (name: String)
    ensures
        name@ == tagged_copy_name(stem_of(input_file_name@)),
{
    file_stem(input_file_name).concat("_tagged_temp.mp4")
}

/// Names a preview picture, told apart from others by `id`.
pub fn preview_file_name(id: &str) -> (name: String)
    ensures
        name@ == preview_name(id@),
{
    "preview_".to_owned().concat(id).concat(".jpg")
}

/// Names a work file of the input file `input_file_name` that no other job
/// names.
pub fn fresh_work_file_name(input_file_name: &str) -> (name: String)
    ensures
        exists|id: Seq<char>| name@ == work_name(stem_of(input_file_name@), id),
{
    let id = fresh_identifier();
    work_file_name(input_file_name, id.as_str())
}

/// Names a transform data file of the input file `input_file_name` that no
/// other job names.
pub fn fresh_transform_data_file_name(input_file_name: &str) -> (name: String)
    ensures
        exists|id: Seq<char>| name@ == transform_data_name(stem_of(input_file_name@), id),
{
    let id = fresh_identifier();
    transform_data_file_name(input_file_name, id.as_str())
}

/// Names a preview picture that no other preview names.
pub fn fresh_preview_file_name() -> (name: String)
    ensures
        exists|id: Seq<char>| name@ == preview_name(id),
{
    let id = fresh_identifier();
    preview_file_name(id.as_str())
}

} // verus!
