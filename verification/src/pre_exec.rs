//! What the child does between being split off from its parent and loading the program.
//!
//! In that window the child has a single thread and may not allocate, lock or call into
//! anything that is not reentrant. The procedure is therefore a list of tagged primitive
//! steps, each of which maps to one system call, and never arbitrary code.

use vstd::prelude::*;

verus! {

/// One primitive step of the procedure.
#[derive(Clone, Copy, Debug, PartialEq, Eq, Structural)]
pub enum PreExecAction {
    /// Leave the parent's session and lead a new one.
    MakeSessionLeader,
    /// Take the terminal behind this descriptor as the controlling terminal of the session.
    SetControllingTerminal(i32),
    /// Close a descriptor that the program must not inherit.
    CloseFd(i32),
    /// Make the second descriptor refer to what the first one refers to.
    RedirectFd(i32, i32),
}

/// The procedure that attaches a child to the terminal behind `slave`: lead a new session,
/// then take the terminal as that session's controlling terminal.
pub open spec fn session_setup(slave: i32) -> Seq<PreExecAction> {
    seq![PreExecAction::MakeSessionLeader, PreExecAction::SetControllingTerminal(slave)]
}

/// Every step that takes a controlling terminal comes strictly after a step that made the
/// child a session leader.
pub open spec fn leads_session_first(procedure: Seq<PreExecAction>) -> bool {
    forall|j: int|
        0 <= j < procedure.len() && (#[trigger] procedure[j]) is SetControllingTerminal
            ==> exists|i: int| 0 <= i < j && procedure[i] == PreExecAction::MakeSessionLeader
}

/// No terminal but the one behind `slave` is ever taken as controlling terminal.
pub open spec fn takes_only_terminal(procedure: Seq<PreExecAction>, slave: i32) -> bool {
    forall|j: int|
        0 <= j < procedure.len() && (#[trigger] procedure[j]) is SetControllingTerminal
            ==> procedure[j] == PreExecAction::SetControllingTerminal(slave)
}

/// Builds the procedure that attaches a child to the terminal behind `slave`.
pub fn pre_exec_procedure(slave: i32) -> (procedure: Vec<PreExecAction>)
    ensures
        procedure@ == session_setup(slave),
{
    let mut procedure: Vec<PreExecAction> = Vec::new();
    procedure.push(PreExecAction::MakeSessionLeader);
    procedure.push(PreExecAction::SetControllingTerminal(slave));
    procedure
}

/// The procedure for a terminal makes the child a session leader before it takes a
/// controlling terminal, takes one, and takes no other terminal than that one.
pub proof fn lemma_session_setup_is_ordered(slave: i32)
    ensures
        leads_session_first(session_setup(slave)),
        takes_only_terminal(session_setup(slave), slave),
        session_setup(slave).contains(PreExecAction::SetControllingTerminal(slave)),
{
    let procedure = session_setup(slave);
    assert(procedure[0] == PreExecAction::MakeSessionLeader);
    assert(procedure[1] == PreExecAction::SetControllingTerminal(slave));
}

/// What the child does next while it works through its procedure.
#[derive(Clone, Copy, Debug, PartialEq, Eq, Structural)]
pub enum PreExecStep {
    /// Perform this step and report whether it succeeded.
    Perform(PreExecAction),
    /// Every step succeeded: load the program.
    LoadProgram,
    /// A step failed: end at once, without loading the program, and let process creation
    /// report the failure to the parent.
    Abandon,
}

/// The child's next move when the first `done` steps of `procedure` have succeeded and
/// `failed` tells whether the step after them was tried and failed.
pub open spec fn step_after(procedure: Seq<PreExecAction>, done: int, failed: bool) -> PreExecStep {
    if failed {
        PreExecStep::Abandon
    } else if done < procedure.len() {
        PreExecStep::Perform(procedure[done])
    } else {
        PreExecStep::LoadProgram
    }
}

/// Decides the child's next move when the first `done` steps of `procedure` have succeeded
/// and `failed` tells whether the step after them was tried and failed. Neither allocates
/// nor locks, so the child may call it between being split off and loading the program.
pub fn next_step(procedure: &[PreExecAction], done: usize, failed: bool) -> (step: PreExecStep)
    ensures
        step == step_after(procedure@, done as int, failed),
{
    if failed {
        PreExecStep::Abandon
    } else if done < procedure.len() {
        PreExecStep::Perform(procedure[done])
    } else {
        PreExecStep::LoadProgram
    }
}

/// Where the child stands once it has answered the move it was given: a step that was
/// performed counts as done if it succeeded and as the failure if it did not. Where no step
/// was to be performed (the procedure is through, or has failed before), nothing changes.
pub open spec fn state_after(
    procedure: Seq<PreExecAction>,
    done: int,
    failed: bool,
    succeeded: bool,
) -> (int, bool) {
    if step_after(procedure, done, failed) is Perform {
        if succeeded {
            (done + 1, false)
        } else {
            (done, true)
        }
    } else {
        (done, failed)
    }
}

/// Records how the step that [`next_step`] asked for went, and gives the count of steps
/// done and the failure flag to ask with next. Neither allocates nor locks.
pub fn after_step(procedure: &[PreExecAction], done: usize, failed: bool, succeeded: bool) -> (next:
    (usize, bool))
    ensures
        (next.0 as int, next.1) == state_after(procedure@, done as int, failed, succeeded),
{
    if failed || done >= procedure.len() {
        (done, failed)
    } else if succeeded {
        (done + 1, false)
    } else {
        (done, true)
    }
}

/// After a step that failed the child is told to end, and never to perform another step or
/// to load the program; after one that succeeded it is told to go on with the step behind
/// it, or to load the program if that was the last.
pub proof fn lemma_failure_ends_the_procedure(
    procedure: Seq<PreExecAction>,
    done: int,
    succeeded: bool,
)
    requires
        0 <= done < procedure.len(),
    ensures
        ({
            let next = state_after(procedure, done, false, succeeded);
            step_after(procedure, next.0, next.1) == if !succeeded {
                PreExecStep::Abandon
            } else if done + 1 < procedure.len() {
                PreExecStep::Perform(procedure[done + 1])
            } else {
                PreExecStep::LoadProgram
            }
        }),
{
}

/// A child that works through an ordered procedure is never told to take a controlling
/// terminal unless a step that made it a session leader has succeeded before, and it is
/// told to load the program only when every step has succeeded.
pub proof fn lemma_terminal_is_taken_by_a_session_leader(
    procedure: Seq<PreExecAction>,
    done: int,
    failed: bool,
)
    requires
        leads_session_first(procedure),
        0 <= done,
    ensures
        step_after(procedure, done, failed) matches PreExecStep::Perform(action) && action
            is SetControllingTerminal ==> !failed && exists|i: int|
            0 <= i < done && procedure[i] == PreExecAction::MakeSessionLeader,
        step_after(procedure, done, failed) == PreExecStep::LoadProgram ==> !failed && done
            >= procedure.len(),
{
    if !failed && done < procedure.len() && procedure[done] is SetControllingTerminal {
        let i = choose|i: int| 0 <= i < done && procedure[i] == PreExecAction::MakeSessionLeader;
        assert(0 <= i < done && procedure[i] == PreExecAction::MakeSessionLeader);
    }
}

} // verus!
