//! The filter and modifier catalogs: tab-separated tables with a header
//! row, read row by row into entries.

use vstd::prelude::*;
use crate::decimal::{parse_i8, parsed_i8};
use crate::failure::{Failure, FailureKind};
use crate::models::{
    FilterEntry,
    ModifierEntry,
    VideoFilter,
    VideoModifier,
    filter_entries,
    modifier_entries,
};
use crate::text::{join, joined};

verus! {

/// The name of the filter table in the configuration directory.
pub const FILTERS_FILE: &'static str = "video_filters.tab";

/// The name of the modifier table in the configuration directory.
pub const MODIFIERS_FILE: &'static str = "video_commands.tab";

/// The filter table written where none exists yet.
pub const DEFAULT_FILTERS: &'static str =
    "short_name\tlong_name\tpriority\tcode\nquart\tquarter size\t10\tscale=iw/4:-1\nhalf\thalve size\t10\tscale=iw/2:-1\nthrqts\t3/4 size\t10\tscale=iw*0.75:-1\neighth\t1/8 size\t10\tscale=iw*0.125:-1\ndenoise\tdenoise default\t-1\thqdn3d=3:3:2:2\ndenoise_sft\tdenoise soft\t-1\thqdn3d=3:3:2:2\ndenoise_vsft\tdenoise very soft\t-1\thqdn3d=2:2:1:1\natadenoise\tadaptive temporal averaging denoiser\t-1\tatadenoise\nbm3d\tblock-matching 3d denoiser\t-1\tbm3d\nnlm\tnon-local means denoiser\t-1\tnlmeans\ndeshake\tdeshake\t0\tdeshake,crop=in_w-32:in_h-32:16:16\nrot+90\trotate +90 degrees\t1\ttranspose=1\nrot-90\trotate -90 degrees\t1\ttranspose=2\nrot180\trotate 180 degrees\t1\ttranspose=2,transpose=2\nsab\tshape adaptive blur\t-2\tsab\nw3fdif\tdeinterlace w3fdif\t-10\tw3fdif\nsharp\tsharpen\t5\tsmartblur=lr=2.00:ls=-0.90:lt=-5.0:cr=0.5:cs=1.0:ct=1.5\n";

/// The modifier table written where none exists yet.
pub const DEFAULT_MODIFIERS: &'static str =
    "short_name\tlong_name\tcode\nss\tstart (secs)\t-ss #1\nt\tduration (secs)\t-t #1\ncrop\tcrop frame (pixels)\tvf:crop=in_w-2*#1:in_h-2*#1:#1:#1\n";

/// What has to be created before the catalogs can be read.
#[derive(Debug, Clone, Copy, PartialEq, Eq, Structural)]
pub struct SeedPlan {
    /// Create the configuration directory.
    pub create_directory: bool,
    /// Write `DEFAULT_FILTERS` to `FILTERS_FILE`.
    pub write_filters: bool,
    /// Write `DEFAULT_MODIFIERS` to `MODIFIERS_FILE`.
    pub write_modifiers: bool,
}

/// Decides what to create on start: whatever of the configuration
/// directory and the two tables does not exist yet.
pub fn seed_plan(directory_exists: bool, filters_exist: bool, modifiers_exist: bool) -> (plan:
    SeedPlan)
    ensures
        plan.create_directory == !directory_exists,
        plan.write_filters == !filters_exist,
        plan.write_modifiers == !modifiers_exist,
{
    SeedPlan {
        create_directory: !directory_exists,
        write_filters: !filters_exist,
        write_modifiers: !modifiers_exist,
    }
}

#[verifier::external_type_specification]
#[verifier::external_body]
pub struct ExCsvError(csv::Error);

/// The rows that the `csv` reader, set to split fields at tabs and otherwise
/// left at its defaults, reads from `text` behind the header row, each as
/// the list of its fields; or none where the reader reports an error.
pub uninterp spec fn tab_separated_rows(text: Seq<char>) -> Option<Seq<Seq<Seq<char>>>>;

/// Runs a `csv::Reader` built by `csv::ReaderBuilder` with the delimiter set
/// to a tab over the bytes of `text`, and collects what `records` yields.
/// The reader takes the first row for the header and does not yield it; it
/// yields an error, which ends the reading here, for a row that has another
/// number of fields than the row before it. What comes out depends on
/// `text` alone; the contract gives it the name `tab_separated_rows` and
/// claims no more.
#[verifier::external_body]
fn read_tab_separated(text: &str) -> (rows: Result<Vec<Vec<String>>, csv::Error>)
    ensures
        match rows {
            Ok(list) => tab_separated_rows(text@) == Some(list.deep_view()),
            Err(_) => tab_separated_rows(text@) is None,
        },
{
    let mut reader = csv::ReaderBuilder::new().delimiter(b'\t').from_reader(text.as_bytes());
    let mut rows = Vec::new();
    for record in reader.records() {
        rows.push(record?.iter().map(|field| field.to_string()).collect());
    }
    Ok(rows)
}

/// The message of a `csv::Error`, as its `Display` writes it. Nothing is
/// claimed of the text.
#[verifier::external_body]
fn csv_error_text(error: &csv::Error) -> (text: String) {
    error.to_string()
}

/// The filter entry that a row of fields stands for: four fields, the third
/// an eight-bit integer in decimal. Any other row stands for none.
pub open spec fn filter_of_row(row: Seq<Seq<char>>) -> Option<FilterEntry> {
    if row.len() == 4 && parsed_i8(row[2]) is Some {
        Some(
            FilterEntry {
                short_name: row[0],
                long_name: row[1],
                priority: parsed_i8(row[2]).unwrap() as int,
                code: row[3],
            },
        )
    } else {
        None
    }
}

/// The modifier entry that a row of fields stands for: three fields. Any
/// other row stands for none.
pub open spec fn modifier_of_row(row: Seq<Seq<char>>) -> Option<ModifierEntry> {
    if row.len() == 3 {
        Some(ModifierEntry { short_name: row[0], long_name: row[1], code: row[2] })
    } else {
        None
    }
}

/// The failure reported for a row that stands for no entry of the table
/// `kind`.
pub open spec fn malformed_row(kind: Seq<char>, row: Seq<Seq<char>>) -> FailureKind {
    FailureKind::Parse("malformed "@ + kind + " row: "@ + joined(row, "\t"@))
}

/// The filter catalog that `rows` stand for, or the failure for the first
/// row that stands for no entry.
pub open spec fn filters_of_rows(rows: Seq<Seq<Seq<char>>>) -> Result<Seq<FilterEntry>, FailureKind>
    decreases rows.len(),
{
    if rows.len() == 0 {
        Ok(Seq::empty())
    } else {
        match filters_of_rows(rows.drop_last()) {
            Err(failure) => Err(failure),
            Ok(before) => match filter_of_row(rows.last()) {
                Some(entry) => Ok(before.push(entry)),
                None => Err(malformed_row("filter"@, rows.last())),
            },
        }
    }
}

/// The modifier catalog that `rows` stand for, or the failure for the first
/// row that stands for no entry.
pub open spec fn modifiers_of_rows(rows: Seq<Seq<Seq<char>>>) -> Result<
    Seq<ModifierEntry>,
    FailureKind,
>
    decreases rows.len(),
{
    if rows.len() == 0 {
        Ok(Seq::empty())
    } else {
        match modifiers_of_rows(rows.drop_last()) {
            Err(failure) => Err(failure),
            Ok(before) => match modifier_of_row(rows.last()) {
                Some(entry) => Ok(before.push(entry)),
                None => Err(malformed_row("modifier"@, rows.last())),
            },
        }
    }
}

fn malformed(kind: &str, row: &Vec<String>) -> (failure: Failure)
    ensures
        failure@ == malformed_row(kind@, row.deep_view()),
{
    Failure::Parse(
        "malformed ".to_owned().concat(kind).concat(" row: ").concat(join(row, "\t").as_str()),
    )
}

proof fn lemma_filters_failure_extends(rows: Seq<Seq<Seq<char>>>, n: int)
    requires
        0 <= n <= rows.len(),
        filters_of_rows(rows.take(n)) is Err,
    ensures
        filters_of_rows(rows) == filters_of_rows(rows.take(n)),
    decreases rows.len() - n,
{
    if n < rows.len() {
        assert(rows.take(n + 1).drop_last() =~= rows.take(n));
        lemma_filters_failure_extends(rows, n + 1);
    } else {
        assert(rows.take(n) =~= rows);
    }
}

proof fn lemma_modifiers_failure_extends(rows: Seq<Seq<Seq<char>>>, n: int)
    requires
        0 <= n <= rows.len(),
        modifiers_of_rows(rows.take(n)) is Err,
    ensures
        modifiers_of_rows(rows) == modifiers_of_rows(rows.take(n)),
    decreases rows.len() - n,
{
    if n < rows.len() {
        assert(rows.take(n + 1).drop_last() =~= rows.take(n));
        lemma_modifiers_failure_extends(rows, n + 1);
    } else {
        assert(rows.take(n) =~= rows);
    }
}

/// Turns the rows of a filter table into entries, position by position:
/// short name, long name, priority, code.
pub fn filters_from_rows(rows: &Vec<Vec<String>>) -> (catalog: Result<Vec<VideoFilter>, Failure>)
    ensures
        match (catalog, filters_of_rows(rows.deep_view())) {
            (Ok(list), Ok(expected)) => filter_entries(list@) == expected,
            (Err(failure), Err(expected)) => failure@ == expected,
            _ => false,
        },
{
    let ghost all = rows.deep_view();
    let mut list: Vec<VideoFilter> = Vec::new();
    let mut i: usize = 0;
    assert(all.take(0) =~= Seq::empty());
    assert(filter_entries(list@) =~= Seq::empty());
    while i < rows.len()
        invariant
            i <= rows.len(),
            all == rows.deep_view(),
            filters_of_rows(all.take(i as int)) == Ok::<Seq<FilterEntry>, FailureKind>(
                filter_entries(list@),
            ),
        decreases rows.len() - i,
    {
        assert(all.take(i + 1).drop_last() =~= all.take(i as int));
        assert(all.take(i + 1).last() == rows@[i as int].deep_view());
        let row = &rows[i];
        let ghost fields = row.deep_view();
        let priority = if row.len() == 4 {
            assert(fields[2] == row@[2]@);
            parse_i8(row[2].as_str())
        } else {
            None
        };
        match priority {
            Some(value) => {
                let ghost before = filter_entries(list@);
                assert(fields[0] == row@[0]@ && fields[1] == row@[1]@ && fields[3] == row@[3]@);
                list.push(
                    VideoFilter {
                        short_name: row[0].clone(),
                        long_name: row[1].clone(),
                        priority: value,
                        code: row[3].clone(),
                    },
                );
                assert(filter_entries(list@) =~= before.push(filter_of_row(fields).unwrap()));
            },
            None => {
                proof {
                    lemma_filters_failure_extends(all, i + 1);
                }
                return Err(malformed("filter", row));
            },
        }
        i += 1;
    }
    assert(all.take(rows.len() as int) =~= all);
    Ok(list)
}

/// Turns the rows of a modifier table into entries, position by position:
/// short name, long name, code.
pub fn modifiers_from_rows(rows: &Vec<Vec<String>>) -> (catalog: Result<
    Vec<VideoModifier>,
    Failure,
>)
    ensures
        match (catalog, modifiers_of_rows(rows.deep_view())) {
            (Ok(list), Ok(expected)) => modifier_entries(list@) == expected,
            (Err(failure), Err(expected)) => failure@ == expected,
            _ => false,
        },
{
    let ghost all = rows.deep_view();
    let mut list: Vec<VideoModifier> = Vec::new();
    let mut i: usize = 0;
    assert(all.take(0) =~= Seq::empty());
    assert(modifier_entries(list@) =~= Seq::empty());
    while i < rows.len()
        invariant
            i <= rows.len(),
            all == rows.deep_view(),
            modifiers_of_rows(all.take(i as int)) == Ok::<Seq<ModifierEntry>, FailureKind>(
                modifier_entries(list@),
            ),
        decreases rows.len() - i,
    {
        assert(all.take(i + 1).drop_last() =~= all.take(i as int));
        assert(all.take(i + 1).last() == rows@[i as int].deep_view());
        let row = &rows[i];
        let ghost fields = row.deep_view();
        if row.len() == 3 {
            let ghost before = modifier_entries(list@);
            assert(fields[0] == row@[0]@ && fields[1] == row@[1]@ && fields[2] == row@[2]@);
            list.push(
                VideoModifier {
                    short_name: row[0].clone(),
                    long_name: row[1].clone(),
                    code: row[2].clone(),
                },
            );
            assert(modifier_entries(list@) =~= before.push(modifier_of_row(fields).unwrap()));
        } else {
            proof {
                lemma_modifiers_failure_extends(all, i + 1);
            }
            return Err(malformed("modifier", row));
        }
        i += 1;
    }
    assert(all.take(rows.len() as int) =~= all);
    Ok(list)
}

/// Reads a filter table. Fails with a parse failure where the reader
/// rejects the text, and with the failure of the first malformed row
/// otherwise.
pub fn parse_filters(text: &str) -> (catalog: Result<Vec<VideoFilter>, Failure>)
    ensures
        match (catalog, tab_separated_rows(text@)) {
            (Ok(list), Some(rows)) => filters_of_rows(rows) == Ok::<
                Seq<FilterEntry>,
                FailureKind,
            >(filter_entries(list@)),
            (Err(failure), Some(rows)) => filters_of_rows(rows) == Err::<
                Seq<FilterEntry>,
                FailureKind,
            >(failure@),
            (Err(failure), None) => failure@ is Parse,
            (Ok(_), None) => false,
        },
{
    match read_tab_separated(text) {
        Ok(rows) => filters_from_rows(&rows),
        Err(error) => Err(Failure::Parse(csv_error_text(&error))),
    }
}

/// Reads a modifier table. Fails with a parse failure where the reader
/// rejects the text, and with the failure of the first malformed row
/// otherwise.
pub fn parse_modifiers(text: &str) -> (catalog: Result<Vec<VideoModifier>, Failure>)
    ensures
        match (catalog, tab_separated_rows(text@)) {
            (Ok(list), Some(rows)) => modifiers_of_rows(rows) == Ok::<
                Seq<ModifierEntry>,
                FailureKind,
            >(modifier_entries(list@)),
            (Err(failure), Some(rows)) => modifiers_of_rows(rows) == Err::<
                Seq<ModifierEntry>,
                FailureKind,
            >(failure@),
            (Err(failure), None) => failure@ is Parse,
            (Ok(_), None) => false,
        },
{
    match read_tab_separated(text) {
        Ok(rows) => modifiers_from_rows(&rows),
        Err(error) => Err(Failure::Parse(csv_error_text(&error))),
    }
}

} // verus!
