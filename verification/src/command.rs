//! The argument lists handed to the transcoding tool.

use vstd::prelude::*;
use crate::decimal::{decimal, u8_to_decimal};
use crate::failure::{Failure, FailureKind};
use crate::models::{
    FilterEntry,
    ModifierEntry,
    ProcessingOptions,
    VideoFilter,
    VideoModifier,
    VideoOptions,
    filter_entries,
    modifier_entries,
};
use crate::modifiers::{Gathered, gather_modifiers, gathered};
use crate::naming::{describe_options, description};
use crate::ordering::{application_order, row_numbers, selection_order};
use crate::probe::PROCESSED_MARKER;
use crate::quoting::{escape_filter_path, escaped_path};
use crate::text::{empty_list, join, joined, push_all, push_string, push_text, same_text};

verus! {

/// The filter that the detection pass runs; it writes its findings to the
/// file `result_path`.
pub open spec fn detect_filter(result_path: Seq<char>) -> Seq<char> {
    "vidstabdetect=stepsize=32:shakiness=10:accuracy=15:result='"@ + escaped_path(result_path)
        + "'"@
}

/// The filter that applies the findings of the detection pass, read from
/// the file `result_path`.
pub open spec fn transform_filter(result_path: Seq<char>) -> Seq<char> {
    "vidstabtransform=input='"@ + escaped_path(result_path) + "':zoom=0:smoothing=10"@
}

/// The arguments of the detection pass.
pub open spec fn stabilize_detect_args(input_path: Seq<char>, result_path: Seq<char>) -> Seq<
    Seq<char>,
> {
    seq![
        "-y"@,
        "-i"@,
        input_path,
        "-vf"@,
        detect_filter(result_path),
        "-f"@,
        "null"@,
        "-"@,
    ]
}

/// Builds the arguments of the detection pass, which reads `input_path` and
/// writes motion data to `trf_path`.
pub fn build_stabilize_detect_args(input_path: &str, trf_path: &str) -> (args: Vec<String>)
    ensures
        args.deep_view() == stabilize_detect_args(input_path@, trf_path@),
{
    let filter = "vidstabdetect=stepsize=32:shakiness=10:accuracy=15:result='".to_owned().concat(
        escape_filter_path(trf_path).as_str(),
    ).concat("'");
    let mut args = empty_list();
    push_text(&mut args, "-y");
    push_text(&mut args, "-i");
    push_text(&mut args, input_path);
    push_text(&mut args, "-vf");
    push_string(&mut args, filter);
    push_text(&mut args, "-f");
    push_text(&mut args, "null");
    push_text(&mut args, "-");
    args
}

/// The arguments of the remux that copies every stream of `input_path` to
/// `tagged_path` and adds the processed marker.
pub open spec fn tag_original_args(input_path: Seq<char>, tagged_path: Seq<char>) -> Seq<
    Seq<char>,
> {
    seq![
        "-y"@,
        "-i"@,
        input_path,
        "-c"@,
        "copy"@,
        "-map_metadata"@,
        "0"@,
        "-metadata"@,
        "reprocessed=tagged_as_processed"@,
        tagged_path,
    ]
}

/// Builds the arguments of the remux that marks the original as processed.
pub fn build_tag_original_args(input_path: &str, tagged_path: &str) -> (args: Vec<String>)
    ensures
        args.deep_view() == tag_original_args(input_path@, tagged_path@),
{
    let mut args = empty_list();
    push_text(&mut args, "-y");
    push_text(&mut args, "-i");
    push_text(&mut args, input_path);
    push_text(&mut args, "-c");
    push_text(&mut args, "copy");
    push_text(&mut args, "-map_metadata");
    push_text(&mut args, "0");
    push_text(&mut args, "-metadata");
    push_text(&mut args, "reprocessed=tagged_as_processed");
    push_text(&mut args, tagged_path);
    args
}

/// The line that shows a command in the log: `label`, the tool's name and
/// the arguments, with blanks between.
pub open spec fn command_line(label: Seq<char>, args: Seq<Seq<char>>) -> Seq<char> {
    label + ": ffmpeg "@ + joined(args, " "@)
}

/// Writes the line that shows a command in the log.
pub fn render_command_line(label: &str, args: &Vec<String>) -> (line: String)
    ensures
        line@ == command_line(label@, args.deep_view()),
{
    label.to_owned().concat(": ffmpeg ").concat(join(args, " ").as_str())
}

/// The codes of the catalog rows `order`, in that order.
pub open spec fn ordered_codes(catalog: Seq<FilterEntry>, order: Seq<int>) -> Seq<Seq<char>> {
    Seq::new(order.len(), |k: int| catalog[order[k]].code)
}

/// The fragments of the filter chain, in the order in which they apply: the
/// transform filter when stabilizing with a result file, the codes of the
/// selected catalog filters in their order of application, then the
/// fragments that modifiers contribute.
pub open spec fn chain_fragments(
    options: ProcessingOptions,
    filters: Seq<FilterEntry>,
    modifier_fragments: Seq<Seq<char>>,
    result_path: Option<Seq<char>>,
) -> Seq<Seq<char>> {
    (match result_path {
        Some(path) if options.stabilize => seq![transform_filter(path)],
        _ => Seq::empty(),
    }) + ordered_codes(filters, application_order(filters, options.filters)) + modifier_fragments
}

/// The arguments of the main pass, given what the modifiers contribute.
pub open spec fn main_args_with(
    options: ProcessingOptions,
    input_path: Seq<char>,
    output_path: Seq<char>,
    filters: Seq<FilterEntry>,
    modifiers: Gathered,
    result_path: Option<Seq<char>>,
) -> Seq<Seq<char>> {
    let fragments = chain_fragments(options, filters, modifiers.fragments, result_path);
    seq!["-y"@] + (if options.hwaccel != "none"@ {
        seq!["-hwaccel"@, options.hwaccel]
    } else {
        Seq::empty()
    }) + seq![
        "-i"@,
        input_path,
        "-map_metadata"@,
        "0"@,
        "-c:a"@,
        "copy"@,
        "-codec:v"@,
        options.codec,
        "-qmin"@,
        "20"@,
    ] + modifiers.arguments + (if fragments.len() > 0 {
        seq!["-vf"@, joined(fragments, ","@)]
    } else {
        Seq::empty()
    }) + seq![
        "-qmax"@,
        decimal(options.quality),
        "-preset"@,
        options.preset,
        "-movflags"@,
        "+faststart"@,
        "-metadata"@,
        "reprocessed="@ + description(options),
        "-metadata"@,
        "comment="@ + PROCESSED_MARKER@,
        output_path,
    ]
}

/// The arguments of the main pass, or the failure of the first selected
/// modifier that fails.
pub open spec fn main_args(
    options: ProcessingOptions,
    input_path: Seq<char>,
    output_path: Seq<char>,
    filters: Seq<FilterEntry>,
    modifiers: Seq<ModifierEntry>,
    result_path: Option<Seq<char>>,
) -> Result<Seq<Seq<char>>, FailureKind> {
    match gathered(modifiers, options.modifiers) {
        Err(failure) => Err(failure),
        Ok(contributed) => Ok(
            main_args_with(options, input_path, output_path, filters, contributed, result_path),
        ),
    }
}

/// Lists the fragments of the filter chain in the order in which they apply.
pub fn build_chain_fragments(
    options: &VideoOptions,
    filters: &Vec<VideoFilter>,
    modifier_fragments: &Vec<String>,
    stabilization_result_path: Option<&str>,
) -> (fragments: Vec<String>)
    ensures
        fragments.deep_view() == chain_fragments(
            options@,
            filter_entries(filters@),
            modifier_fragments.deep_view(),
            stabilization_result_path.deep_view(),
        ),
{
    let ghost entries = filter_entries(filters@);
    let mut fragments = empty_list();
    if options.stabilize {
        if let Some(path) = stabilization_result_path {
            let transform = "vidstabtransform=input='".to_owned().concat(
                escape_filter_path(path).as_str(),
            ).concat("':zoom=0:smoothing=10");
            push_string(&mut fragments, transform);
        }
    }
    let ghost head = fragments.deep_view();
    let order = selection_order(filters, &options.filters);
    let ghost rows = row_numbers(order@);
    let mut k: usize = 0;
    assert(ordered_codes(entries, rows).take(0) =~= Seq::empty());
    assert(fragments.deep_view() =~= head + ordered_codes(entries, rows).take(0));
    while k < order.len()
        invariant
            k <= order.len(),
            entries == filter_entries(filters@),
            rows == row_numbers(order@),
            crate::ordering::is_application_order(entries, options.filters.deep_view(), rows),
            fragments.deep_view() == head + ordered_codes(entries, rows).take(k as int),
        decreases order.len() - k,
    {
        assert(rows[k as int] == order@[k as int]);
        assert(order@[k as int] < filters.len());
        push_text(&mut fragments, filters[order[k]].code.as_str());
        assert(fragments.deep_view() =~= head + ordered_codes(entries, rows).take(k + 1));
        k += 1;
    }
    assert(ordered_codes(entries, rows).take(order.len() as int) =~= ordered_codes(entries, rows));
    push_all(&mut fragments, modifier_fragments);
    fragments
}

/// Builds the arguments of the main pass, which reads `input_path` and
/// writes `output_path`. Fails where a selected modifier is not in the
/// catalog, or where its code cannot be split into arguments; the first
/// such modifier decides the failure.
pub fn build_main_args(
    options: &VideoOptions,
    input_path: &str,
    output_path: &str,
    filters: &Vec<VideoFilter>,
    modifiers: &Vec<VideoModifier>,
    stabilization_result_path: Option<&str>,
) -> (args: Result<Vec<String>, Failure>)
    ensures
        match (
            args,
            main_args(
                options@,
                input_path@,
                output_path@,
                filter_entries(filters@),
                modifier_entries(modifiers@),
                stabilization_result_path.deep_view(),
            ),
        ) {
            (Ok(list), Ok(expected)) => list.deep_view() == expected,
            (Err(failure), Err(expected)) => failure@ == expected,
            _ => false,
        },
{
    let (modifier_arguments, modifier_fragments) = match gather_modifiers(
        modifiers,
        &options.modifiers,
    ) {
        Ok(lists) => lists,
        Err(failure) => {
            return Err(failure);
        },
    };
    let fragments = build_chain_fragments(
        options,
        filters,
        &modifier_fragments,
        stabilization_result_path,
    );
    let mut args = empty_list();
    push_text(&mut args, "-y");
    let mut acceleration = empty_list();
    if !same_text(options.hwaccel.as_str(), "none") {
        push_text(&mut acceleration, "-hwaccel");
        push_text(&mut acceleration, options.hwaccel.as_str());
    }
    push_all(&mut args, &acceleration);
    let mut encoding = empty_list();
    push_text(&mut encoding, "-i");
    push_text(&mut encoding, input_path);
    push_text(&mut encoding, "-map_metadata");
    push_text(&mut encoding, "0");
    push_text(&mut encoding, "-c:a");
    push_text(&mut encoding, "copy");
    push_text(&mut encoding, "-codec:v");
    push_text(&mut encoding, options.codec.as_str());
    push_text(&mut encoding, "-qmin");
    push_text(&mut encoding, "20");
    push_all(&mut args, &encoding);
    push_all(&mut args, &modifier_arguments);
    let mut chain = empty_list();
    if fragments.len() > 0 {
        push_text(&mut chain, "-vf");
        push_string(&mut chain, join(&fragments, ","));
    }
    push_all(&mut args, &chain);
    let mut closing = empty_list();
    push_text(&mut closing, "-qmax");
    push_string(&mut closing, u8_to_decimal(options.quality));
    push_text(&mut closing, "-preset");
    push_text(&mut closing, options.preset.as_str());
    push_text(&mut closing, "-movflags");
    push_text(&mut closing, "+faststart");
    push_text(&mut closing, "-metadata");
    push_string(&mut closing, "reprocessed=".to_owned().concat(describe_options(options).as_str()));
    push_text(&mut closing, "-metadata");
    push_string(&mut closing, "comment=".to_owned().concat(PROCESSED_MARKER));
    push_text(&mut closing, output_path);
    push_all(&mut args, &closing);
    Ok(args)
}

/// Whatever the selection, the filter chain lists the codes of the selected
/// catalog filters in non-decreasing priority, and those of equal priority
/// in catalog order: behind the transform filter, where there is one, the
/// fragment at place `k` is the code of the row at place `k` of the order
/// of application, and of two places the earlier holds the row of lower
/// priority, or of equal priority and earlier in the catalog.
pub proof fn lemma_chain_lists_filters_by_priority(
    options: ProcessingOptions,
    filters: Seq<FilterEntry>,
    modifier_fragments: Seq<Seq<char>>,
    result_path: Option<Seq<char>>,
)
    ensures
        ({
            let order = application_order(filters, options.filters);
            let fragments = chain_fragments(options, filters, modifier_fragments, result_path);
            let lead: int = if options.stabilize && result_path is Some {
                1
            } else {
                0
            };
            &&& crate::ordering::is_application_order(filters, options.filters, order)
            &&& fragments.len() == lead + order.len() + modifier_fragments.len()
            &&& forall|k: int|
                0 <= k < order.len() ==> #[trigger] fragments[lead + k] == filters[order[k]].code
            &&& forall|k: int, l: int|
                #![trigger order[k], order[l]]
                0 <= k < l < order.len() ==> filters[order[k]].priority
                    < filters[order[l]].priority || (filters[order[k]].priority
                    == filters[order[l]].priority && order[k] < order[l])
        }),
{
    crate::ordering::lemma_application_order_sorted_and_stable(filters, options.filters);
    let order = application_order(filters, options.filters);
    assert forall|k: int, l: int| 0 <= k < l < order.len() implies filters[order[k]].priority
        < filters[order[l]].priority || (filters[order[k]].priority == filters[order[l]].priority
        && order[k] < order[l]) by {
        assert(crate::ordering::applies_before(filters, order[k], order[l]));
    }
}

/// The fragment of a selected modifier whose code begins with `vf:` stands
/// inside the filter chain, which is the one argument behind `-vf`; the
/// top-level arguments that modifiers contribute are the same with that
/// modifier as without it.
pub proof fn lemma_filter_modifier_stays_in_chain(
    options: ProcessingOptions,
    input_path: Seq<char>,
    output_path: Seq<char>,
    filters: Seq<FilterEntry>,
    modifiers: Seq<ModifierEntry>,
    result_path: Option<Seq<char>>,
    k: int,
)
    requires
        0 <= k < options.modifiers.len(),
        main_args(options, input_path, output_path, filters, modifiers, result_path) is Ok,
        crate::modifiers::modifier_contribution(
            modifiers,
            options.modifiers[k].0,
            options.modifiers[k].1,
        ) matches Ok(crate::modifiers::Contribution::Fragment(_)),
    ensures
        ({
            let args = main_args(
                options,
                input_path,
                output_path,
                filters,
                modifiers,
                result_path,
            )->Ok_0;
            let contributed = gathered(modifiers, options.modifiers)->Ok_0;
            let fragments = chain_fragments(options, filters, contributed.fragments, result_path);
            let fragment = crate::modifiers::modifier_contribution(
                modifiers,
                options.modifiers[k].0,
                options.modifiers[k].1,
            )->Ok_0->Fragment_0;
            &&& fragments.contains(fragment)
            &&& exists|p: int|
                0 <= p < args.len() - 1 && args[p] == "-vf"@ && #[trigger] args[p + 1] == joined(
                    fragments,
                    ","@,
                )
            &&& gathered(modifiers, options.modifiers.remove(k)) is Ok
            &&& gathered(modifiers, options.modifiers.remove(k))->Ok_0.arguments
                == contributed.arguments
        }),
{
    crate::modifiers::lemma_fragment_joins_chain_only(modifiers, options.modifiers, k);
    let args = main_args(options, input_path, output_path, filters, modifiers, result_path)->Ok_0;
    let contributed = gathered(modifiers, options.modifiers)->Ok_0;
    let fragments = chain_fragments(options, filters, contributed.fragments, result_path);
    let fragment = crate::modifiers::modifier_contribution(
        modifiers,
        options.modifiers[k].0,
        options.modifiers[k].1,
    )->Ok_0->Fragment_0;
    let index = choose|i: int|
        0 <= i < contributed.fragments.len() && contributed.fragments[i] == fragment;
    let offset = fragments.len() - contributed.fragments.len();
    assert(fragments[offset + index] == fragment);
    let head = seq!["-y"@] + (if options.hwaccel != "none"@ {
        seq!["-hwaccel"@, options.hwaccel]
    } else {
        Seq::empty()
    }) + seq![
        "-i"@,
        input_path,
        "-map_metadata"@,
        "0"@,
        "-c:a"@,
        "copy"@,
        "-codec:v"@,
        options.codec,
        "-qmin"@,
        "20"@,
    ] + contributed.arguments;
    let p = head.len() as int;
    assert(args[p] == "-vf"@);
    assert(args[p + 1] == joined(fragments, ","@));
}

} // verus!
