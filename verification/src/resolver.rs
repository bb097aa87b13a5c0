//! From a verbosity to the directives that the filters are compiled from.

use crate::directive::{effective, lemma_effective_push, Directive, DirectiveSet};
use crate::level::Level;
use crate::scope::Scope;
use vstd::prelude::*;

verus! {

/// The level of records that no subsystem directive claims: `info` at
/// verbosity 0, `debug` at 1, `trace` from 2 on.
pub open spec fn global_level_at(verbosity: u8) -> Level {
    if verbosity == 0 {
        Level::Info
    } else if verbosity == 1 {
        Level::Debug
    } else {
        Level::Trace
    }
}

/// The level that `verbosity` gives to `scope`. Each subsystem has a base
/// level and rises to `trace` past a threshold of its own; the noisy
/// libraries are silenced at every verbosity.
pub open spec fn level_at(verbosity: u8, scope: Scope) -> Level {
    match scope {
        Scope::Global => global_level_at(verbosity),
        Scope::Gateway => if verbosity > 3 {
            Level::Trace
        } else {
            Level::Debug
        },
        Scope::Narwhal => if verbosity > 4 {
            Level::Trace
        } else {
            Level::Debug
        },
        Scope::Router => if verbosity > 5 {
            Level::Trace
        } else {
            Level::Off
        },
        Scope::Tcp => if verbosity > 6 {
            Level::Trace
        } else {
            Level::Off
        },
        Scope::Mio | Scope::TokioUtil | Scope::Hyper | Scope::Reqwest | Scope::Want
        | Scope::Warp => Level::Off,
    }
}

/// The scopes in the order in which their directives are given to a filter:
/// the global level, the silenced libraries, then the subsystems.
pub open spec fn scope_order() -> Seq<Scope> {
    seq![
        Scope::Global,
        Scope::Mio,
        Scope::TokioUtil,
        Scope::Hyper,
        Scope::Reqwest,
        Scope::Want,
        Scope::Warp,
        Scope::Gateway,
        Scope::Narwhal,
        Scope::Router,
        Scope::Tcp,
    ]
}

/// The directives of `verbosity`: one for each scope, in the order of
/// [`scope_order`], with the level of [`level_at`].
pub open spec fn resolved(verbosity: u8) -> Seq<Directive> {
    Seq::new(
        scope_order().len(),
        |i: int|
            Directive {
                scope: scope_order()[i],
                level: level_at(verbosity, scope_order()[i]),
            },
    )
}

/// Whether formatted records name the module they come from: from verbosity
/// 3 on.
pub open spec fn shows_target_at(verbosity: u8) -> bool {
    verbosity > 2
}

/// The level of records that no subsystem directive claims.
pub fn global_level(verbosity: u8) -> (level: Level)
    ensures
        level == global_level_at(verbosity),
{
    if verbosity == 0 {
        Level::Info
    } else if verbosity == 1 {
        Level::Debug
    } else {
        Level::Trace
    }
}

/// The level that `verbosity` gives to `scope`.
pub fn level_of(verbosity: u8, scope: Scope) -> (level: Level)
    ensures
        level == level_at(verbosity, scope),
{
    match scope {
        Scope::Global => global_level(verbosity),
        Scope::Gateway => escalated(verbosity, 3, Level::Debug),
        Scope::Narwhal => escalated(verbosity, 4, Level::Debug),
        Scope::Router => escalated(verbosity, 5, Level::Off),
        Scope::Tcp => escalated(verbosity, 6, Level::Off),
        Scope::Mio | Scope::TokioUtil | Scope::Hyper | Scope::Reqwest | Scope::Want
        | Scope::Warp => Level::Off,
    }
}

/// `trace` past `threshold`, `base` up to it.
fn escalated(verbosity: u8, threshold: u8, base: Level) -> (level: Level)
    ensures
        level == if verbosity > threshold {
            Level::Trace
        } else {
            base
        },
{
    if verbosity > threshold {
        Level::Trace
    } else {
        base
    }
}

/// Whether formatted records name the module they come from.
pub fn shows_target(verbosity: u8) -> (yes: bool)
    ensures
        yes == shows_target_at(verbosity),
{
    verbosity > 2
}

/// Resolves `verbosity` into its directives. Every verbosity has them: there
/// is no input to reject.
pub fn resolve(verbosity: u8) -> (set: DirectiveSet)
    ensures
        set@ == resolved(verbosity),
{
    let mut set = DirectiveSet::new();
    set.add(directive_for(verbosity, Scope::Global));
    set.add(directive_for(verbosity, Scope::Mio));
    set.add(directive_for(verbosity, Scope::TokioUtil));
    set.add(directive_for(verbosity, Scope::Hyper));
    set.add(directive_for(verbosity, Scope::Reqwest));
    set.add(directive_for(verbosity, Scope::Want));
    set.add(directive_for(verbosity, Scope::Warp));
    set.add(directive_for(verbosity, Scope::Gateway));
    set.add(directive_for(verbosity, Scope::Narwhal));
    set.add(directive_for(verbosity, Scope::Router));
    set.add(directive_for(verbosity, Scope::Tcp));
    assert(set@ =~= resolved(verbosity));
    set
}

/// The directive of `scope` at `verbosity`.
fn directive_for(verbosity: u8, scope: Scope) -> (directive: Directive)
    ensures
        directive == (Directive { scope, level: level_at(verbosity, scope) }),
{
    Directive { scope, level: level_of(verbosity, scope) }
}

/// The position of `scope` in [`scope_order`].
pub open spec fn position(scope: Scope) -> int {
    match scope {
        Scope::Global => 0,
        Scope::Mio => 1,
        Scope::TokioUtil => 2,
        Scope::Hyper => 3,
        Scope::Reqwest => 4,
        Scope::Want => 5,
        Scope::Warp => 6,
        Scope::Gateway => 7,
        Scope::Narwhal => 8,
        Scope::Router => 9,
        Scope::Tcp => 10,
    }
}

/// Every scope has exactly one directive in the resolved set, at its position
/// in the order, and that directive carries the level of the table.
pub proof fn lemma_one_directive_per_scope(verbosity: u8, scope: Scope)
    ensures
        0 <= position(scope) < resolved(verbosity).len(),
        resolved(verbosity)[position(scope)] == (Directive {
            scope,
            level: level_at(verbosity, scope),
        }),
        forall|i: int|
            0 <= i < resolved(verbosity).len() && i != position(scope)
                ==> (#[trigger] resolved(verbosity)[i]).scope != scope,
{
}

/// The resolved set gives every scope the level of the table, whatever the
/// verbosity.
pub proof fn lemma_resolved_follows_table(verbosity: u8, scope: Scope)
    ensures
        effective(resolved(verbosity), scope) == Some(level_at(verbosity, scope)),
{
    let set = resolved(verbosity);
    let d = |i: int|
        Directive { scope: scope_order()[i], level: level_at(verbosity, scope_order()[i]) };
    let s0 = Seq::<Directive>::empty();
    let s1 = s0.push(d(0));
    let s2 = s1.push(d(1));
    let s3 = s2.push(d(2));
    let s4 = s3.push(d(3));
    let s5 = s4.push(d(4));
    let s6 = s5.push(d(5));
    let s7 = s6.push(d(6));
    let s8 = s7.push(d(7));
    let s9 = s8.push(d(8));
    let s10 = s9.push(d(9));
    let s11 = s10.push(d(10));
    assert(s11 =~= set);
    lemma_effective_push(s0, d(0), scope);
    lemma_effective_push(s1, d(1), scope);
    lemma_effective_push(s2, d(2), scope);
    lemma_effective_push(s3, d(3), scope);
    lemma_effective_push(s4, d(4), scope);
    lemma_effective_push(s5, d(5), scope);
    lemma_effective_push(s6, d(6), scope);
    lemma_effective_push(s7, d(7), scope);
    lemma_effective_push(s8, d(8), scope);
    lemma_effective_push(s9, d(9), scope);
    lemma_effective_push(s10, d(10), scope);
}

/// The noisy libraries are silenced at every verbosity.
pub proof fn lemma_noise_is_silenced(verbosity: u8, scope: Scope)
    requires
        scope.is_noise(),
    ensures
        effective(resolved(verbosity), scope) == Some(Level::Off),
{
    lemma_resolved_follows_table(verbosity, scope);
}

/// Raising the verbosity never lowers the level of any scope.
pub proof fn lemma_verbosity_is_monotone(lower: u8, higher: u8, scope: Scope)
    requires
        lower <= higher,
    ensures
        level_at(lower, scope).rank() <= level_at(higher, scope).rank(),
{
}

/// From verbosity 7 on nothing is left to raise: every higher verbosity
/// resolves to the same directives.
pub proof fn lemma_verbosity_saturates(verbosity: u8)
    requires
        verbosity >= 7,
    ensures
        resolved(verbosity) == resolved(7),
{
    assert(resolved(verbosity) =~= resolved(7));
}

} // verus!
