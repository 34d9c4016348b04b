//! Embedding a path in a single-quoted filter argument.

use vstd::prelude::*;
use crate::text::{occurs_at, replace_all, replaced};

verus! {

/// `path` as it stands between single quotes in a filter argument: every
/// single quote becomes the four characters `'\''`, which close the
/// quotation, write one quote and open the quotation again.
pub open spec fn escaped_path(path: Seq<char>) -> Seq<char> {
    replaced(path, "'"@, "'\\''"@)
}

/// The path that `text` stands for between single quotes: every `'\''`
/// becomes one single quote.
pub open spec fn unescaped_path(text: Seq<char>) -> Seq<char> {
    replaced(text, "'\\''"@, "'"@)
}

/// Escapes a path for embedding between single quotes in a filter argument.
pub fn escape_filter_path(path: &str) -> (text: String)
    ensures
        text@ == escaped_path(path@),
{
    replace_all(path, "'", "'\\''")
}

/// Reads back the path that stands between single quotes in a filter
/// argument.
pub fn unescape_filter_path(text: &str) -> (path: String)
    ensures
        path@ == unescaped_path(text@),
{
    replace_all(text, "'\\''", "'")
}

/// Escaping a path and reading it back gives the path itself, whatever
/// characters it holds.
pub proof fn lemma_escape_round_trip(path: Seq<char>)
    ensures
        unescaped_path(escaped_path(path)) == path,
    decreases path.len(),
{
    reveal_strlit("'");
    reveal_strlit("'\\''");
    let quote = "'"@;
    let quoted = "'\\''"@;
    assert(quote =~= seq!['\''] && quoted =~= seq!['\'', '\\', '\'', '\'']);
    if path.len() == 0 {
    } else if occurs_at(path, 0, quote) {
        let rest = path.skip(1);
        lemma_escape_round_trip(rest);
        let escaped = quoted + escaped_path(rest);
        assert(escaped_path(path) == escaped);
        assert(escaped.subrange(0, 4) =~= quoted);
        assert(occurs_at(escaped, 0, quoted));
        assert(escaped.skip(4) =~= escaped_path(rest));
        assert(path.subrange(0, 1) == quote);
        assert(path[0] == path.subrange(0, 1)[0]);
        assert(quote + rest =~= path);
    } else {
        let rest = path.skip(1);
        lemma_escape_round_trip(rest);
        let escaped = seq![path[0]] + escaped_path(rest);
        assert(escaped_path(path) == escaped);
        assert(path[0] != '\'') by {
            if path[0] == '\'' {
                assert(path.subrange(0, 1) =~= quote);
            }
        }
        assert(!occurs_at(escaped, 0, quoted)) by {
            if occurs_at(escaped, 0, quoted) {
                assert(escaped.subrange(0, 4)[0] == escaped[0]);
            }
        }
        assert(escaped.skip(1) =~= escaped_path(rest));
        assert(escaped[0] == path[0]);
        assert(seq![path[0]] + rest =~= path);
    }
}

} // verus!
