//! Environment edits and what they do to the variables a child receives.

use vstd::prelude::*;

verus! {

/// One recorded change to the environment of the process to be started.
#[derive(Debug, PartialEq, Eq)]
pub enum EnvEdit {
    /// Give the variable this value, whatever it held before.
    Assign(String, String),
    /// Take the variable away, also if the parent would have handed it down.
    Remove(String),
    /// Take every variable away, inherited ones included.
    ClearAll,
}

/// The variables of a process: each name with its value.
pub type Environment = Map<Seq<char>, Seq<char>>;

/// The mathematical content of an [`EnvEdit`].
pub enum EnvChange {
    Assign(Seq<char>, Seq<char>),
    Remove(Seq<char>),
    ClearAll,
}

impl View for EnvEdit {
    type V = EnvChange;

    open spec fn view(&self) -> EnvChange {
        match self {
            EnvEdit::Assign(key, value) => EnvChange::Assign(key@, value@),
            EnvEdit::Remove(key) => EnvChange::Remove(key@),
            EnvEdit::ClearAll => EnvChange::ClearAll,
        }
    }
}

/// The views of a list of edits, in the same order.
pub open spec fn changes(edits: Seq<EnvEdit>) -> Seq<EnvChange> {
    Seq::new(edits.len(), |i: int| edits[i]@)
}

/// The environment after one change.
pub open spec fn apply_change(env: Environment, change: EnvChange) -> Environment {
    match change {
        EnvChange::Assign(key, value) => env.insert(key, value),
        EnvChange::Remove(key) => env.remove(key),
        EnvChange::ClearAll => Environment::empty(),
    }
}

/// The environment after a list of changes, applied first to last to `env`.
pub open spec fn apply_changes(env: Environment, edits: Seq<EnvChange>) -> Environment
    decreases edits.len(),
{
    if edits.len() == 0 {
        env
    } else {
        apply_change(apply_changes(env, edits.drop_last()), edits.last())
    }
}

/// Applying a list with one more change at its end is applying the list and then the change.
pub proof fn lemma_apply_appended(
    env: Environment,
    edits: Seq<EnvChange>,
    change: EnvChange,
)
    ensures
        apply_changes(env, edits.push(change)) == apply_change(apply_changes(env, edits), change),
{
    assert(edits.push(change).drop_last() =~= edits);
}

/// Applying two lists one after the other is applying their concatenation.
pub proof fn lemma_apply_concatenated(
    env: Environment,
    first: Seq<EnvChange>,
    second: Seq<EnvChange>,
)
    ensures
        apply_changes(env, first + second) == apply_changes(apply_changes(env, first), second),
    decreases second.len(),
{
    if second.len() == 0 {
        assert(first + second =~= first);
    } else {
        lemma_apply_concatenated(env, first, second.drop_last());
        assert((first + second).drop_last() =~= first + second.drop_last());
    }
}

/// A clear wipes out the inherited variables and every change recorded before it: what the
/// child receives is decided by the changes after the clear alone.
pub proof fn lemma_clear_discards_what_came_before(
    env: Environment,
    before: Seq<EnvChange>,
    after: Seq<EnvChange>,
)
    ensures
        apply_changes(env, before.push(EnvChange::ClearAll) + after) == apply_changes(
            Environment::empty(),
            after,
        ),
{
    lemma_apply_concatenated(env, before.push(EnvChange::ClearAll), after);
    lemma_apply_appended(env, before, EnvChange::ClearAll);
}

/// The last write wins: after a set, the variable holds that value, whatever was recorded or
/// inherited before, and every other variable is as it was.
pub proof fn lemma_last_set_wins(
    env: Environment,
    edits: Seq<EnvChange>,
    key: Seq<char>,
    value: Seq<char>,
)
    ensures
        apply_changes(env, edits.push(EnvChange::Assign(key, value))) == apply_changes(
            env,
            edits,
        ).insert(key, value),
        apply_changes(env, edits.push(EnvChange::Assign(key, value))).contains_key(key),
        apply_changes(env, edits.push(EnvChange::Assign(key, value)))[key] == value,
{
    lemma_apply_appended(env, edits, EnvChange::Assign(key, value));
}

/// Setting a variable, clearing, and setting it again leaves the child with that one variable
/// at its second value: nothing inherited survives, nor does the first value.
pub proof fn lemma_set_clear_set(
    env: Environment,
    key: Seq<char>,
    first: Seq<char>,
    second: Seq<char>,
)
    ensures
        apply_changes(
            env,
            seq![EnvChange::Assign(key, first), EnvChange::ClearAll, EnvChange::Assign(key, second)],
        ) == Environment::empty().insert(key, second),
{
    let set_first = EnvChange::Assign(key, first);
    let set_second = EnvChange::Assign(key, second);
    let edits = seq![set_first, EnvChange::ClearAll, set_second];
    assert(edits =~= seq![set_first].push(EnvChange::ClearAll) + seq![set_second]);
    lemma_clear_discards_what_came_before(env, seq![set_first], seq![set_second]);
    assert(seq![set_second] =~= Seq::<EnvChange>::empty().push(set_second));
    lemma_apply_appended(Environment::empty(), Seq::empty(), set_second);
}

/// Setting a variable and then removing it leaves the child without it, also where the parent
/// holds it; every other variable is as inherited.
pub proof fn lemma_set_then_remove(
    env: Environment,
    key: Seq<char>,
    value: Seq<char>,
)
    ensures
        !apply_changes(env, seq![EnvChange::Assign(key, value), EnvChange::Remove(key)]).contains_key(
            key,
        ),
        apply_changes(env, seq![EnvChange::Assign(key, value), EnvChange::Remove(key)]) == env.remove(
            key,
        ),
{
    let set = EnvChange::Assign(key, value);
    let remove = EnvChange::Remove(key);
    assert(seq![set, remove] =~= Seq::<EnvChange>::empty().push(set).push(remove));
    lemma_apply_appended(env, Seq::empty().push(set), remove);
    lemma_apply_appended(env, Seq::empty(), set);
    assert(env.insert(key, value).remove(key) =~= env.remove(key));
}

} // verus!
