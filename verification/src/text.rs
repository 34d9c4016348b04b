//! Character-sequence helpers shared by the command builder and the parsers.
//!
//! Strings are modelled by their view, a `Seq<char>`; a list of strings by
//! its deep view, a `Seq<Seq<char>>`.

use vstd::prelude::*;

verus! {

/// `String::push` appends exactly one character to the end of the string.
pub assume_specification[ String::push ](s: &mut String, ch: char)
    ensures
        final(s)@ == old(s)@.push(ch),
;

/// The characters of `s`, in order.
pub fn chars_of(s: &str) -> (out: Vec<char>)
    ensures
        out@ == s@,
{
    let mut out: Vec<char> = Vec::new();
    for c in it: s.chars()
        invariant
            it.seq() == s@,
            out@ == s@.take(it.index()),
    {
        assert(s@.take(it.index() + 1) == s@.take(it.index()).push(c));
        out.push(c);
    }
    out
}

/// The string made of the characters of `chars` from index `from` up to,
/// but not including, index `to`.
pub(crate) fn string_between(chars: &Vec<char>, from: usize, to: usize) -> (out: String)
    requires
        from <= to <= chars.len(),
    ensures
        out@ == chars@.subrange(from as int, to as int),
{
    let mut out = String::new();
    let mut i: usize = from;
    while i < to
        invariant
            from <= i <= to <= chars.len(),
            out@ == chars@.subrange(from as int, i as int),
        decreases to - i,
    {
        assert(chars@.subrange(from as int, i + 1) == chars@.subrange(from as int, i as int).push(
            chars@[i as int],
        ));
        out.push(chars[i]);
        i += 1;
    }
    out
}

/// `parts` written one after another with `sep` between neighbours.
pub open spec fn joined(parts: Seq<Seq<char>>, sep: Seq<char>) -> Seq<char>
    decreases parts.len(),
{
    if parts.len() == 0 {
        Seq::empty()
    } else if parts.len() == 1 {
        parts[0]
    } else {
        joined(parts.drop_last(), sep) + sep + parts.last()
    }
}

/// Joins `parts` with `sep` between neighbours.
pub fn join(parts: &Vec<String>, sep: &str) -> (out: String)
    ensures
        out@ == joined(parts.deep_view(), sep@),
{
    let mut out = String::new();
    let mut i: usize = 0;
    while i < parts.len()
        invariant
            i <= parts.len(),
            out@ == joined(parts.deep_view().take(i as int), sep@),
        decreases parts.len() - i,
    {
        let ghost longer = parts.deep_view().take(i + 1);
        assert(longer.drop_last() == parts.deep_view().take(i as int));
        assert(longer.last() == parts@[i as int]@);
        if i > 0 {
            out.append(sep);
        }
        out.append(parts[i].as_str());
        i += 1;
    }
    assert(parts.deep_view().take(parts.len() as int) == parts.deep_view());
    out
}

/// True when `pat` stands in `s` starting at index `at`.
pub open spec fn occurs_at(s: Seq<char>, at: int, pat: Seq<char>) -> bool {
    0 <= at && at + pat.len() <= s.len() && s.subrange(at, at + pat.len()) == pat
}

/// True when `pat` stands somewhere in `s`.
pub open spec fn has_occurrence(s: Seq<char>, pat: Seq<char>) -> bool {
    exists|at: int| occurs_at(s, at, pat)
}

/// Tests whether `pat` stands in `s` starting at index `at`.
pub fn matches_at(s: &Vec<char>, at: usize, pat: &Vec<char>) -> (found: bool)
    ensures
        found == occurs_at(s@, at as int, pat@),
{
    if at > s.len() || pat.len() > s.len() - at {
        return false;
    }
    let mut k: usize = 0;
    while k < pat.len()
        invariant
            k <= pat.len(),
            at + pat.len() <= s.len(),
            forall|j: int| 0 <= j < k ==> s@[at + j] == pat@[j],
        decreases pat.len() - k,
    {
        if s[at + k] != pat[k] {
            assert(s@.subrange(at as int, at + pat.len())[k as int] == s@[at + k]);
            return false;
        }
        k += 1;
    }
    assert(s@.subrange(at as int, at + pat.len()) =~= pat@);
    true
}

/// Tests whether `s` begins with `prefix`.
pub fn starts_with(s: &str, prefix: &str) -> (found: bool)
    ensures
        found == prefix@.is_prefix_of(s@),
{
    let text = chars_of(s);
    let head = chars_of(prefix);
    let found = matches_at(&text, 0, &head);
    proof {
        if found {
            assert(prefix@ =~= s@.subrange(0, prefix@.len() as int));
        }
    }
    found
}

/// Tests whether `needle` stands somewhere in `s`.
pub fn contains(s: &str, needle: &str) -> (found: bool)
    ensures
        found == has_occurrence(s@, needle@),
{
    let text = chars_of(s);
    let pat = chars_of(needle);
    let mut at: usize = 0;
    while at < text.len()
        invariant
            at <= text.len(),
            text@ == s@,
            pat@ == needle@,
            forall|j: int| 0 <= j < at ==> !occurs_at(s@, j, needle@),
        decreases text.len() - at,
    {
        if matches_at(&text, at, &pat) {
            return true;
        }
        at += 1;
    }
    matches_at(&text, at, &pat)
}

/// `s` with every occurrence of `pat` replaced by `rep`, scanning from the
/// left and resuming after each replaced occurrence. An empty `pat` occurs
/// nowhere.
pub open spec fn replaced(s: Seq<char>, pat: Seq<char>, rep: Seq<char>) -> Seq<char>
    decreases s.len(),
{
    if pat.len() == 0 || s.len() == 0 {
        s
    } else if occurs_at(s, 0, pat) {
        rep + replaced(s.skip(pat.len() as int), pat, rep)
    } else {
        seq![s[0]] + replaced(s.skip(1), pat, rep)
    }
}

/// Replaces every occurrence of `pat` in `s` by `rep`.
pub fn replace_all(s: &str, pat: &str, rep: &str) -> (out: String)
    ensures
        out@ == replaced(s@, pat@, rep@),
{
    let text = chars_of(s);
    let find = chars_of(pat);
    let mut out = String::new();
    if find.len() == 0 {
        out.append(s);
        return out;
    }
    let mut at: usize = 0;
    assert(s@.skip(0) =~= s@);
    while at < text.len()
        invariant
            at <= text.len(),
            find.len() > 0,
            text@ == s@,
            find@ == pat@,
            out@ + replaced(s@.skip(at as int), pat@, rep@) == replaced(s@, pat@, rep@),
        decreases text.len() - at,
    {
        let ghost rest = s@.skip(at as int);
        if matches_at(&text, at, &find) {
            assert(rest.subrange(0, pat@.len() as int) =~= s@.subrange(
                at as int,
                at + pat@.len(),
            ));
            assert(rest.skip(pat@.len() as int) =~= s@.skip(at + pat@.len()));
            out.append(rep);
            at += find.len();
        } else {
            proof {
                if at + pat@.len() <= s@.len() {
                    assert(rest.subrange(0, pat@.len() as int) =~= s@.subrange(
                        at as int,
                        at + pat@.len(),
                    ));
                }
            }
            assert(rest.skip(1) =~= s@.skip(at + 1));
            assert(out@.push(text@[at as int]) + replaced(s@.skip(at + 1), pat@, rep@) =~= out@
                + (seq![rest[0]] + replaced(rest.skip(1), pat@, rep@)));
            out.push(text[at]);
            at += 1;
        }
    }
    out
}

/// Appends a copy of `item` to `list`.
pub(crate) fn push_text(list: &mut Vec<String>, item: &str)
    ensures
        final(list).deep_view() == old(list).deep_view().push(item@),
{
    list.push(item.to_owned());
    assert(list.deep_view() =~= old(list).deep_view().push(item@));
}

/// Appends `item` to `list`.
pub(crate) fn push_string(list: &mut Vec<String>, item: String)
    ensures
        final(list).deep_view() == old(list).deep_view().push(item@),
{
    list.push(item);
    assert(list.deep_view() =~= old(list).deep_view().push(item@));
}

/// Appends copies of all of `items` to `list`, in order.
pub(crate) fn push_all(list: &mut Vec<String>, items: &Vec<String>)
    ensures
        final(list).deep_view() == old(list).deep_view() + items.deep_view(),
{
    let mut i: usize = 0;
    assert(items.deep_view().take(0) =~= Seq::empty());
    assert(list.deep_view() =~= old(list).deep_view() + items.deep_view().take(0));
    while i < items.len()
        invariant
            i <= items.len(),
            list.deep_view() == old(list).deep_view() + items.deep_view().take(i as int),
        decreases items.len() - i,
    {
        push_text(list, items[i].as_str());
        assert(list.deep_view() =~= old(list).deep_view() + items.deep_view().take(i + 1));
        i += 1;
    }
    assert(items.deep_view().take(items.len() as int) =~= items.deep_view());
}

/// A list that holds no string.
pub(crate) fn empty_list() -> (list: Vec<String>)
    ensures
        list.deep_view() == Seq::<Seq<char>>::empty(),
{
    let list: Vec<String> = Vec::new();
    assert(list.deep_view() =~= Seq::<Seq<char>>::empty());
    list
}

/// Tests whether `a` and `b` hold the same characters.
pub fn same_text(a: &str, b: &str) -> (same: bool)
    ensures
        same == (a@ == b@),
{
    let left = chars_of(a);
    let right = chars_of(b);
    if left.len() != right.len() {
        return false;
    }
    let found = matches_at(&left, 0, &right);
    proof {
        if a@ == b@ {
            assert(a@.subrange(0, b@.len() as int) =~= b@);
        }
        if found {
            assert(a@.subrange(0, b@.len() as int) =~= a@);
        }
    }
    found
}

} // verus!
