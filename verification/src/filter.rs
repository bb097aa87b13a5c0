//! Compiling a directive set into filters, one filter for each sink.
//!
//! A compiled filter keeps state of its own while it is attached to a sink,
//! so two sinks never share one: the same set is compiled once for each.
//! What a filter holds is modelled as a map from target to the word of a
//! level, with the global directive under `None`.

use crate::directive::{
    effective, is_level_word, is_path, is_rule_text, lemma_path_is_path,
    lemma_paths_are_distinct, lemma_word_is_level_word, lemma_words_are_distinct, targeted,
    Directive, DirectiveSet,
};
use crate::level::Level;
use crate::resolver::{lemma_resolved_follows_table, level_at, resolved};
use crate::scope::Scope;
use tracing_subscriber::EnvFilter;
use vstd::prelude::*;

verus! {

/// `tracing_subscriber::EnvFilter`, a compiled filter.
#[verifier::external_type_specification]
#[verifier::external_body]
pub struct ExEnvFilter(EnvFilter);

/// What `filter` holds: for every target for which it has a directive
/// without span and fields, the word of that directive's level as the filter
/// crate prints it. The directive without target stands under `None`.
pub uninterp spec fn filter_levels(filter: EnvFilter) -> Map<Option<Seq<char>>, Seq<char>>;

/// `EnvFilter::default()`. Trusted: the filter holds no directive.
#[verifier::external_body]
fn empty_filter() -> (filter: EnvFilter)
    ensures
        filter_levels(filter) == (Map::<Option<Seq<char>>, Seq<char>>::empty()),
{
    EnvFilter::default()
}

/// `EnvFilter::add_directive` on what `str::parse` makes of `text`, through
/// `FromStr` for `tracing_subscriber::filter::Directive`. Trusted: the parser
/// reads the word of a level alone as a directive without target, and a
/// path, `=` and the word of a level as a directive for that path; the
/// directive takes the place of the one that the filter held for the same
/// target, or is added where it held none, and what the filter holds for
/// other targets stays. On other texts the parser may fail, and on some that
/// begin with white space of more than one byte it panics.
#[verifier::external_body]
fn add_directive(filter: EnvFilter, text: &str) -> (added: EnvFilter)
    requires
        is_rule_text(text@),
    ensures
        is_level_word(text@) ==> filter_levels(added) == filter_levels(filter).insert(None, text@),
        (forall|path: Seq<char>, word: Seq<char>|
            is_path(path) && is_level_word(word) && text@ == #[trigger] targeted(path, word)
                ==> filter_levels(added) == filter_levels(filter).insert(Some(path), word)),
{
    filter.add_directive(text.parse().unwrap())
}

/// What a filter holds once the directives of `entries` have been added to
/// an empty one, in order: for every scope that `entries` names, its path
/// mapped to the word of the level of its last directive.
pub open spec fn rules_of(entries: Seq<Directive>) -> Map<Option<Seq<char>>, Seq<char>>
    decreases entries.len(),
{
    if entries.len() == 0 {
        Map::empty()
    } else {
        rules_of(entries.drop_last()).insert(
            entries.last().scope.path(),
            entries.last().level.word(),
        )
    }
}

/// Adds `directive` to `filter`, as the filter crate reads it from its text.
pub fn extend(filter: EnvFilter, directive: Directive) -> (extended: EnvFilter)
    ensures
        filter_levels(extended) == filter_levels(filter).insert(
            directive.scope.path(),
            directive.level.word(),
        ),
{
    let text = directive.text();
    proof {
        lemma_path_is_path(directive.scope);
        lemma_word_is_level_word(directive.level);
    }
    add_directive(filter, text.as_str())
}

/// Compiles `set` into a fresh filter: starting from a filter without
/// directives, every directive is parsed from its text and added, in order.
pub fn compile(set: &DirectiveSet) -> (filter: EnvFilter)
    ensures
        filter_levels(filter) == rules_of(set@),
{
    let mut filter = empty_filter();
    let mut index: usize = 0;
    while index < set.len()
        invariant
            index <= set@.len(),
            filter_levels(filter) == rules_of(set@.take(index as int)),
        decreases set@.len() - index,
    {
        proof {
            let upto = set@.take(index + 1);
            assert(upto.last() == set@[index as int]);
            assert(upto.drop_last() =~= set@.take(index as int));
        }
        filter = extend(filter, set.at(index));
        index += 1;
    }
    assert(set@.take(index as int) =~= set@);
    filter
}

/// Compiles `set` twice, into one filter for the terminal sink and one for
/// the file sink. Both hold the same, and neither shares anything with the
/// other.
pub fn build_pair(set: &DirectiveSet) -> (pair: (EnvFilter, EnvFilter))
    ensures
        filter_levels(pair.0) == rules_of(set@),
        filter_levels(pair.1) == rules_of(set@),
{
    let terminal = compile(set);
    let file = compile(set);
    (terminal, file)
}

/// A compiled filter holds, for every scope, what the set says of it: the
/// word of the effective level under the scope's path, and nothing under the
/// path of a scope that the set does not name.
pub proof fn lemma_rules_follow_effective(entries: Seq<Directive>, scope: Scope)
    ensures
        match effective(entries, scope) {
            Some(level) => rules_of(entries).contains_key(scope.path()) && rules_of(
                entries,
            )[scope.path()] == level.word(),
            None => !rules_of(entries).contains_key(scope.path()),
        },
    decreases entries.len(),
{
    if entries.len() > 0 {
        lemma_rules_follow_effective(entries.drop_last(), scope);
        if entries.last().scope != scope {
            if entries.last().scope.path() == scope.path() {
                lemma_paths_are_distinct(entries.last().scope, scope);
            }
        }
    }
}

/// What a compiled filter holds under the path of a scope tells the level
/// that the set gives to the scope: no two scopes share a path, and no two
/// levels a word.
pub proof fn lemma_rules_determine_levels(
    entries: Seq<Directive>,
    scope: Scope,
    level: Level,
)
    requires
        rules_of(entries).contains_key(scope.path()),
        rules_of(entries)[scope.path()] == level.word(),
    ensures
        effective(entries, scope) == Some(level),
{
    lemma_rules_follow_effective(entries, scope);
    lemma_words_are_distinct(effective(entries, scope).unwrap(), level);
}

/// The filters of a verbosity hold the table: under the path of every scope,
/// the word of the level that the verbosity gives to it.
pub proof fn lemma_compiled_levels_follow_table(verbosity: u8, scope: Scope)
    ensures
        rules_of(resolved(verbosity)).contains_key(scope.path()),
        rules_of(resolved(verbosity))[scope.path()] == level_at(verbosity, scope).word(),
{
    lemma_resolved_follows_table(verbosity, scope);
    lemma_rules_follow_effective(resolved(verbosity), scope);
}

} // verus!
