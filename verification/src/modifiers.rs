//! What the selected modifiers contribute to a command: top-level arguments,
//! or fragments of the filter chain.

use vstd::prelude::*;
use crate::failure::{Failure, FailureKind};
use crate::models::{ModifierEntry, VideoModifier, modifier_entries, selected_pairs};
use crate::text::{
    chars_of,
    push_all,
    push_string,
    replace_all,
    replaced,
    starts_with,
    string_between,
};

verus! {

/// The words into which `shlex::split` splits `code`, or none where it finds
/// `code` erroneous.
pub uninterp spec fn shell_words(code: Seq<char>) -> Option<Seq<Seq<char>>>;

/// Calls `shlex::split`, which splits a string into words as a POSIX shell
/// does (blanks separate, single and double quotes group, a backslash
/// escapes) and returns nothing where the string ends inside a quotation or
/// behind a backslash. The result depends on the string alone; the contract
/// gives it the name `shell_words` and claims no more.
#[verifier::external_body]
fn split_shell_words(code: &str) -> (words: Option<Vec<String>>)
    ensures
        match words {
            Some(list) => shell_words(code@) == Some(list.deep_view()),
            None => shell_words(code@) is None,
        },
{
    shlex::split(code)
}

/// What one modifier contributes.
#[derive(Debug, Clone)]
pub enum ModifierEffect {
    /// A fragment for the filter chain.
    Fragment(String),
    /// Arguments for the top level of the command.
    Arguments(Vec<String>),
}

/// A `ModifierEffect` as plain values.
pub enum Contribution {
    Fragment(Seq<char>),
    Arguments(Seq<Seq<char>>),
}

impl View for ModifierEffect {
    type V = Contribution;

    open spec fn view(&self) -> Contribution {
        match self {
            ModifierEffect::Fragment(text) => Contribution::Fragment(text@),
            ModifierEffect::Arguments(list) => Contribution::Arguments(list.deep_view()),
        }
    }
}

/// The first catalog row that carries `name`, if any does.
pub open spec fn row_named(catalog: Seq<ModifierEntry>, name: Seq<char>) -> Option<int>
    decreases catalog.len(),
{
    if catalog.len() == 0 {
        None
    } else {
        match row_named(catalog.drop_last(), name) {
            Some(row) => Some(row),
            None => if catalog.last().short_name == name {
                Some(catalog.len() - 1)
            } else {
                None
            },
        }
    }
}

/// A modifier's code with the value in place of every `#1`.
pub open spec fn expanded_code(template: Seq<char>, value: Seq<char>) -> Seq<char> {
    replaced(template, "#1"@, value)
}

/// True when `code` is reserved for the filter chain.
pub open spec fn is_filter_code(code: Seq<char>) -> bool {
    "vf:"@.is_prefix_of(code)
}

/// What the expanded `code` of the modifier `name` contributes, given the
/// words that the shell-word splitter makes of it. Code that begins with
/// `vf:` contributes what follows the prefix to the filter chain, whatever
/// the splitter says; other code contributes its words, and fails where
/// there are none.
pub open spec fn contribution_of(
    name: Seq<char>,
    code: Seq<char>,
    words: Option<Seq<Seq<char>>>,
) -> Result<Contribution, FailureKind> {
    if is_filter_code(code) {
        Ok(Contribution::Fragment(code.skip(3)))
    } else {
        match words {
            Some(list) => Ok(Contribution::Arguments(list)),
            None => Err(FailureKind::ModifierSyntax(name)),
        }
    }
}

/// What the selected modifier `name` with `value` contributes under
/// `catalog`.
pub open spec fn modifier_contribution(
    catalog: Seq<ModifierEntry>,
    name: Seq<char>,
    value: Seq<char>,
) -> Result<Contribution, FailureKind> {
    match row_named(catalog, name) {
        None => Err(FailureKind::UnknownModifier(name)),
        Some(row) => {
            let code = expanded_code(catalog[row].code, value);
            contribution_of(name, code, shell_words(code))
        },
    }
}

/// The contributions of a selection of modifiers, gathered.
pub struct Gathered {
    /// Top-level arguments, in the order of the selection.
    pub arguments: Seq<Seq<char>>,
    /// Filter-chain fragments, in the order of the selection.
    pub fragments: Seq<Seq<char>>,
}

/// What the selected modifiers contribute together, taken from left to
/// right; the first one that fails decides the failure.
pub open spec fn gathered(
    catalog: Seq<ModifierEntry>,
    selected: Seq<(Seq<char>, Seq<char>)>,
) -> Result<Gathered, FailureKind>
    decreases selected.len(),
{
    if selected.len() == 0 {
        Ok(Gathered { arguments: Seq::empty(), fragments: Seq::empty() })
    } else {
        match gathered(catalog, selected.drop_last()) {
            Err(failure) => Err(failure),
            Ok(before) => match modifier_contribution(
                catalog,
                selected.last().0,
                selected.last().1,
            ) {
                Err(failure) => Err(failure),
                Ok(Contribution::Fragment(text)) => Ok(
                    Gathered { arguments: before.arguments, fragments: before.fragments.push(text) },
                ),
                Ok(Contribution::Arguments(list)) => Ok(
                    Gathered { arguments: before.arguments + list, fragments: before.fragments },
                ),
            },
        }
    }
}

/// Finds the first catalog row that carries `name`.
pub fn find_modifier(catalog: &Vec<VideoModifier>, name: &String) -> (row: Option<usize>)
    ensures
        match row {
            Some(index) => row_named(modifier_entries(catalog@), name@) == Some(index as int)
                && index < catalog.len(),
            None => row_named(modifier_entries(catalog@), name@) is None,
        },
{
    let ghost entries = modifier_entries(catalog@);
    let mut i: usize = 0;
    while i < catalog.len()
        invariant
            i <= catalog.len(),
            entries == modifier_entries(catalog@),
            row_named(entries.take(i as int), name@) is None,
        decreases catalog.len() - i,
    {
        assert(entries.take(i + 1).drop_last() =~= entries.take(i as int));
        if catalog[i].short_name == *name {
            proof {
                lemma_row_named_extends(entries, name@, i + 1);
            }
            return Some(i);
        }
        i += 1;
    }
    assert(entries.take(catalog.len() as int) =~= entries);
    None
}

/// A row found among the first `n` rows is the row found in the whole
/// catalog.
proof fn lemma_row_named_extends(catalog: Seq<ModifierEntry>, name: Seq<char>, n: int)
    requires
        0 <= n <= catalog.len(),
        row_named(catalog.take(n), name) is Some,
    ensures
        row_named(catalog, name) == row_named(catalog.take(n), name),
    decreases catalog.len() - n,
{
    if n < catalog.len() {
        assert(catalog.take(n + 1).drop_last() =~= catalog.take(n));
        lemma_row_named_extends(catalog, name, n + 1);
    } else {
        assert(catalog.take(n) =~= catalog);
    }
}

/// Decides what the expanded `code` of the modifier `short_name`
/// contributes, given the words that the shell-word splitter made of it.
pub fn classify_modifier_code(short_name: &str, code: &str, words: Option<Vec<String>>) -> (effect:
    Result<ModifierEffect, Failure>)
    ensures
        match (effect, contribution_of(short_name@, code@, words.deep_view())) {
            (Ok(made), Ok(expected)) => made@ == expected,
            (Err(failure), Err(expected)) => failure@ == expected,
            _ => false,
        },
{
    if starts_with(code, "vf:") {
        proof {
            reveal_strlit("vf:");
        }
        let text = chars_of(code);
        assert(code@.subrange(3, code@.len() as int) =~= code@.skip(3));
        let rest = string_between(&text, 3, text.len());
        Ok(ModifierEffect::Fragment(rest))
    } else {
        match words {
            Some(list) => Ok(ModifierEffect::Arguments(list)),
            None => Err(Failure::ModifierSyntax(short_name.to_owned())),
        }
    }
}

/// Decides what the selected modifier `short_name` with `value`
/// contributes: looks it up in the catalog, puts the value in place of every
/// `#1` in its code, and classifies the result.
pub fn resolve_modifier(catalog: &Vec<VideoModifier>, short_name: &String, value: &str) -> (effect:
    Result<ModifierEffect, Failure>)
    ensures
        match (effect, modifier_contribution(modifier_entries(catalog@), short_name@, value@)) {
            (Ok(made), Ok(expected)) => made@ == expected,
            (Err(failure), Err(expected)) => failure@ == expected,
            _ => false,
        },
{
    match find_modifier(catalog, short_name) {
        None => Err(Failure::UnknownModifier(short_name.clone())),
        Some(row) => {
            let code = replace_all(catalog[row].code.as_str(), "#1", value);
            let words = if starts_with(code.as_str(), "vf:") {
                None
            } else {
                split_shell_words(code.as_str())
            };
            classify_modifier_code(short_name.as_str(), code.as_str(), words)
        },
    }
}

/// Gathers what the selected modifiers contribute, from left to right: the
/// top-level arguments first, the filter-chain fragments second. The first
/// modifier that fails decides the failure.
pub fn gather_modifiers(
    catalog: &Vec<VideoModifier>,
    selected: &Vec<(String, String)>,
) -> (outcome: Result<(Vec<String>, Vec<String>), Failure>)
    ensures
        match (outcome, gathered(modifier_entries(catalog@), selected_pairs(selected@))) {
            (Ok(lists), Ok(expected)) => lists.0.deep_view() == expected.arguments
                && lists.1.deep_view() == expected.fragments,
            (Err(failure), Err(expected)) => failure@ == expected,
            _ => false,
        },
{
    let ghost entries = modifier_entries(catalog@);
    let ghost pairs = selected_pairs(selected@);
    let mut arguments: Vec<String> = Vec::new();
    let mut fragments: Vec<String> = Vec::new();
    let mut i: usize = 0;
    assert(pairs.take(0) =~= Seq::empty());
    assert(arguments.deep_view() =~= Seq::empty());
    assert(fragments.deep_view() =~= Seq::empty());
    while i < selected.len()
        invariant
            i <= selected.len(),
            entries == modifier_entries(catalog@),
            pairs == selected_pairs(selected@),
            gathered(entries, pairs.take(i as int)) matches Ok(so_far) && so_far.arguments
                == arguments.deep_view() && so_far.fragments == fragments.deep_view(),
        decreases selected.len() - i,
    {
        assert(pairs.take(i + 1).drop_last() =~= pairs.take(i as int));
        assert(pairs.take(i + 1).last() == pairs[i as int]);
        match resolve_modifier(catalog, &selected[i].0, selected[i].1.as_str()) {
            Err(failure) => {
                proof {
                    lemma_gathered_failure_extends(entries, pairs, i + 1);
                }
                return Err(failure);
            },
            Ok(ModifierEffect::Fragment(text)) => {
                push_string(&mut fragments, text);
            },
            Ok(ModifierEffect::Arguments(list)) => {
                push_all(&mut arguments, &list);
            },
        }
        i += 1;
    }
    assert(pairs.take(selected.len() as int) =~= pairs);
    Ok((arguments, fragments))
}

/// A failure among the first `n` selected modifiers is the failure of the
/// whole selection.
proof fn lemma_gathered_failure_extends(
    catalog: Seq<ModifierEntry>,
    selected: Seq<(Seq<char>, Seq<char>)>,
    n: int,
)
    requires
        0 <= n <= selected.len(),
        gathered(catalog, selected.take(n)) is Err,
    ensures
        gathered(catalog, selected) == gathered(catalog, selected.take(n)),
    decreases selected.len() - n,
{
    if n < selected.len() {
        assert(selected.take(n + 1).drop_last() =~= selected.take(n));
        lemma_gathered_failure_extends(catalog, selected, n + 1);
    } else {
        assert(selected.take(n) =~= selected);
    }
}

/// A selected modifier that contributes a filter-chain fragment, which is
/// one whose code with the value filled in begins with `vf:`, has that
/// fragment among the gathered fragments and gives nothing to the top-level
/// arguments: they are what the selection without it contributes.
pub proof fn lemma_fragment_joins_chain_only(
    catalog: Seq<ModifierEntry>,
    selected: Seq<(Seq<char>, Seq<char>)>,
    k: int,
)
    requires
        0 <= k < selected.len(),
        gathered(catalog, selected) is Ok,
        modifier_contribution(catalog, selected[k].0, selected[k].1) matches Ok(
            Contribution::Fragment(_),
        ),
    ensures
        gathered(catalog, selected)->Ok_0.fragments.contains(
            modifier_contribution(catalog, selected[k].0, selected[k].1)->Ok_0->Fragment_0,
        ),
        gathered(catalog, selected.remove(k)) is Ok,
        gathered(catalog, selected.remove(k))->Ok_0.arguments == gathered(
            catalog,
            selected,
        )->Ok_0.arguments,
    decreases selected.len(),
{
    let text = modifier_contribution(catalog, selected[k].0, selected[k].1)->Ok_0->Fragment_0;
    let all = gathered(catalog, selected)->Ok_0;
    let before = gathered(catalog, selected.drop_last())->Ok_0;
    if k == selected.len() - 1 {
        assert(selected.remove(k) =~= selected.drop_last());
        assert(all.fragments == before.fragments.push(text));
        assert(all.fragments[before.fragments.len() as int] == text);
    } else {
        let shorter = selected.drop_last();
        assert(shorter[k] == selected[k]);
        lemma_fragment_joins_chain_only(catalog, shorter, k);
        let without = selected.remove(k);
        assert(without.drop_last() =~= shorter.remove(k));
        assert(without.last() == selected.last());
        let index = choose|i: int| 0 <= i < before.fragments.len() && before.fragments[i] == text;
        match modifier_contribution(catalog, selected.last().0, selected.last().1) {
            Ok(Contribution::Fragment(other)) => {
                assert(all.fragments == before.fragments.push(other));
                assert(all.fragments[index] == text);
            },
            Ok(Contribution::Arguments(_)) => {
                assert(all.fragments[index] == text);
            },
            Err(_) => {},
        }
    }
}

} // verus!
