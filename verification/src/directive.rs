//! Filter directives and ordered sets of them.

use crate::level::Level;
use crate::scope::Scope;
use vstd::prelude::*;
use vstd::string::StringExecFns;

verus! {

/// One rule of a filter: records of `scope` pass up to `level`.
#[derive(Clone, Copy, Debug, PartialEq, Eq, Structural)]
pub struct Directive {
    /// What the rule applies to.
    pub scope: Scope,
    /// The threshold that it sets.
    pub level: Level,
}

/// The characters that the path of a scope is made of.
pub open spec fn is_path_char(c: char) -> bool {
    ('a' <= c && c <= 'z') || c == '_' || c == ':'
}

/// Whether `path` can stand before the `=` of a directive: it is not empty,
/// and holds nothing but path characters.
pub open spec fn is_path(path: Seq<char>) -> bool {
    path.len() > 0 && forall|i: int| 0 <= i < path.len() ==> is_path_char(#[trigger] path[i])
}

/// Whether `word` is the word of a level.
pub open spec fn is_level_word(word: Seq<char>) -> bool {
    word == "off"@ || word == "info"@ || word == "debug"@ || word == "trace"@
}

/// The text of a directive for one target: the path, `=`, and the word of
/// the level.
pub open spec fn targeted(path: Seq<char>, word: Seq<char>) -> Seq<char> {
    path + "="@ + word
}

/// Whether `text` is the word of a level alone, or a path, `=` and the word
/// of a level.
pub open spec fn is_rule_text(text: Seq<char>) -> bool {
    is_level_word(text) || exists|path: Seq<char>, word: Seq<char>|
        is_path(path) && is_level_word(word) && text == #[trigger] targeted(path, word)
}

impl Directive {
    /// The directive as a filter reads it: the level's word alone for the
    /// global scope, otherwise the scope's path, `=` and the level's word.
    pub open spec fn spec_text(self) -> Seq<char> {
        match self.scope.path() {
            None => self.level.word(),
            Some(path) => targeted(path, self.level.word()),
        }
    }

    /// The directive as a filter reads it.
    pub fn text(&self) -> (text: String)
        ensures
            text@ == self.spec_text(),
            is_rule_text(text@),
    {
        proof {
            lemma_text_is_rule_text(*self);
        }
        match self.scope.target() {
            None => String::from_str(self.level.name()),
            Some(path) => {
                let mut text = String::from_str(path);
                text.append("=");
                text.append(self.level.name());
                text
            },
        }
    }
}

/// The level that `entries` gives to `scope`: that of the last entry for the
/// scope, since a later entry overrides an earlier one; `None` where no entry
/// names the scope.
pub open spec fn effective(entries: Seq<Directive>, scope: Scope) -> Option<Level>
    decreases entries.len(),
{
    if entries.len() == 0 {
        None
    } else if entries.last().scope == scope {
        Some(entries.last().level)
    } else {
        effective(entries.drop_last(), scope)
    }
}

/// Directives in the order in which a filter is given them.
#[derive(Clone, Debug)]
pub struct DirectiveSet {
    entries: Vec<Directive>,
}

impl View for DirectiveSet {
    type V = Seq<Directive>;

    closed spec fn view(&self) -> Seq<Directive> {
        self.entries@
    }
}

impl DirectiveSet {
    /// A set without directives.
    pub fn new() -> (set: DirectiveSet)
        ensures
            set@ == Seq::<Directive>::empty(),
    {
        DirectiveSet { entries: Vec::new() }
    }

    /// Appends `directive`; it overrides what the set said of its scope.
    pub fn add(&mut self, directive: Directive)
        ensures
            final(self)@ == old(self)@.push(directive),
    {
        self.entries.push(directive);
    }

    /// The number of directives, overridden ones included.
    pub fn len(&self) -> (n: usize)
        ensures
            n == self@.len(),
    {
        self.entries.len()
    }

    /// The directive at position `index`, or `None` past the end.
    pub fn get(&self, index: usize) -> (directive: Option<Directive>)
        ensures
            directive == if index < self@.len() {
                Some(self@[index as int])
            } else {
                None
            },
    {
        if index < self.entries.len() {
            Some(self.entries[index])
        } else {
            None
        }
    }

    /// The directive at position `index`.
    pub(crate) fn at(&self, index: usize) -> (directive: Directive)
        requires
            index < self@.len(),
        ensures
            directive == self@[index as int],
    {
        self.entries[index]
    }

    /// The level that the set gives to `scope`, or `None` where it says
    /// nothing of it.
    pub fn level_for(&self, scope: Scope) -> (level: Option<Level>)
        ensures
            level == effective(self@, scope),
    {
        let mut i: usize = self.entries.len();
        assert(self@.take(i as int) =~= self@);
        while i > 0
            invariant
                i <= self@.len(),
                effective(self@, scope) == effective(self@.take(i as int), scope),
            decreases i,
        {
            i -= 1;
            let entry = self.entries[i];
            proof {
                let upto = self@.take(i + 1);
                assert(upto.last() == self@[i as int]);
                assert(upto.drop_last() =~= self@.take(i as int));
            }
            if entry.scope == scope {
                return Some(entry.level);
            }
        }
        assert(self@.take(0).len() == 0);
        None
    }
}

/// Appending a directive settles its own scope and leaves the others as they
/// were.
pub proof fn lemma_effective_push(
    entries: Seq<Directive>,
    directive: Directive,
    scope: Scope,
)
    ensures
        effective(entries.push(directive), scope) == if directive.scope == scope {
            Some(directive.level)
        } else {
            effective(entries, scope)
        },
{
    assert(entries.push(directive).last() == directive);
    assert(entries.push(directive).drop_last() =~= entries);
}

/// The word of every level is a level word.
pub proof fn lemma_word_is_level_word(level: Level)
    ensures
        is_level_word(level.word()),
{
}

/// The path of every scope that has one can stand before the `=` of a
/// directive.
pub proof fn lemma_path_is_path(scope: Scope)
    ensures
        scope.path() matches Some(path) ==> is_path(path),
{
    reveal_strlit("snarkos_node_narwhal::gateway");
    reveal_strlit("snarkos_node_narwhal");
    reveal_strlit("snarkos_node_router");
    reveal_strlit("snarkos_node_tcp");
    reveal_strlit("mio");
    reveal_strlit("tokio_util");
    reveal_strlit("hyper");
    reveal_strlit("reqwest");
    reveal_strlit("want");
    reveal_strlit("warp");
}

/// The text of every directive is one that the filter crate reads: the word
/// of a level alone, or a path, `=` and the word of a level.
pub proof fn lemma_text_is_rule_text(directive: Directive)
    ensures
        is_rule_text(directive.spec_text()),
{
    lemma_word_is_level_word(directive.level);
    lemma_path_is_path(directive.scope);
    if let Some(path) = directive.scope.path() {
        assert(directive.spec_text() == targeted(path, directive.level.word()));
    }
}

/// A path, `=` and the word of a level are never the word of a level
/// themselves, since no word of a level holds `=`: a directive for a path is
/// not taken for the global one.
pub proof fn lemma_targeted_is_no_level_word(path: Seq<char>, word: Seq<char>)
    requires
        is_level_word(word),
    ensures
        !is_level_word(targeted(path, word)),
{
    reveal_strlit("off");
    reveal_strlit("info");
    reveal_strlit("debug");
    reveal_strlit("trace");
    reveal_strlit("=");
    let text = targeted(path, word);
    assert(text[path.len() as int] == '=');
    if is_level_word(text) {
        assert(forall|i: int| 0 <= i < text.len() ==> text[i] != '=');
    }
}

/// Two levels with the same word are the same level.
pub proof fn lemma_words_are_distinct(a: Level, b: Level)
    requires
        a.word() == b.word(),
    ensures
        a == b,
{
    reveal_strlit("off");
    reveal_strlit("info");
    reveal_strlit("debug");
    reveal_strlit("trace");
    assert("off"@[0] == 'o' && "info"@[0] == 'i' && "debug"@[0] == 'd' && "trace"@[0] == 't');
    assert(a.word()[0] == b.word()[0]);
}

/// Two scopes with the same path, or both without one, are the same scope.
pub proof fn lemma_paths_are_distinct(a: Scope, b: Scope)
    requires
        a.path() == b.path(),
    ensures
        a == b,
{
    reveal_strlit("snarkos_node_narwhal::gateway");
    reveal_strlit("snarkos_node_narwhal");
    reveal_strlit("snarkos_node_router");
    reveal_strlit("snarkos_node_tcp");
    reveal_strlit("mio");
    reveal_strlit("tokio_util");
    reveal_strlit("hyper");
    reveal_strlit("reqwest");
    reveal_strlit("want");
    reveal_strlit("warp");
    if a != b {
        if a.path() is Some && b.path() is Some {
            let p = a.path().unwrap();
            let q = b.path().unwrap();
            assert(p.len() != q.len() || p[2] != q[2]);
        }
    }
}

} // verus!
