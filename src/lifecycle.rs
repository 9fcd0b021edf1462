use vstd::prelude::*;

use crate::error::ServiceError;

verus! {

/// The state that a client declares for a program.
#[derive(Clone, Copy, Debug, PartialEq, Eq, Structural)]
pub enum ProgramState {
    Initiated,
    Processing,
    Complete,
    Cancelled,
}

/// A client's state update for a program, with the batch that the
/// operator associates with this run.
#[derive(Debug)]
pub struct ProgramUpdate {
    pub batch: String,
    pub state: ProgramState,
}

/// What the service answers to a state update: an HTTP status, and how many
/// errors it logged while handling the update.
#[derive(Clone, Copy, Debug, PartialEq, Eq, Structural)]
pub struct Ack {
    pub status: u16,
    pub errors_logged: u8,
}

/// The status with which every state update is acknowledged.
pub const CREATED: u16 = 201;

/// A failed completion write is logged and not passed on to the client, so
/// that a bookkeeping failure never blocks the operator.
pub const BEST_EFFORT_RECORD: bool = true;

/// The next thing to do for a state update.
#[derive(Debug)]
pub enum LifecycleAction {
    /// Answer the client; nothing is written.
    Respond(Ack),
    /// Insert one completion transaction for `program`, then answer.
    RecordCompletion { program: String },
}

/// Whether a declared state asks for a completion write.
pub open spec fn writes_completion(state: ProgramState) -> bool {
    state == ProgramState::Complete
}

/// The answer once the completion write has given `outcome`.
pub open spec fn ack_after_write(outcome: Result<(), ServiceError>) -> Ack {
    Ack { status: CREATED, errors_logged: if outcome is Err { 1 } else { 0 } }
}

/// Decides what a state update for `program` calls for. The handler keeps
/// no state between updates: it does not look at earlier ones, and a
/// `Complete` update always asks for a write.
pub fn on_update(program: &String, state: ProgramState) -> (r: LifecycleAction)
    ensures
        writes_completion(state) ==> (r matches LifecycleAction::RecordCompletion { program: p } && p@
            == program@),
        !writes_completion(state) ==> r == LifecycleAction::Respond(
            Ack { status: CREATED, errors_logged: 0 },
        ),
{
    match state {
        ProgramState::Complete => LifecycleAction::RecordCompletion { program: program.clone() },
        ProgramState::Initiated | ProgramState::Processing | ProgramState::Cancelled => {
            LifecycleAction::Respond(Ack { status: CREATED, errors_logged: 0 })
        },
    }
}

/// The answer to a `Complete` update once its write has given `outcome`.
/// The client is told of success either way; a failed write is logged once.
pub fn on_completion_written(outcome: &Result<(), ServiceError>) -> (r: Ack)
    ensures
        r == ack_after_write(*outcome),
        r.status == CREATED,
        r.errors_logged == (if outcome is Err { 1u8 } else { 0u8 }),
{
    let errors_logged: u8 = if BEST_EFFORT_RECORD && outcome.is_err() {
        1
    } else {
        0
    };
    Ack { status: CREATED, errors_logged }
}

/// The number of completion writes that a run of state updates issues.
pub open spec fn completion_writes(states: Seq<ProgramState>) -> nat
    decreases states.len(),
{
    if states.len() == 0 {
        0
    } else {
        completion_writes(states.drop_last()) + if writes_completion(states.last()) {
            1nat
        } else {
            0nat
        }
    }
}

/// Completion writes are not deduplicated: whatever came before, each
/// `Complete` update issues one more write, so two of them for the same
/// program issue two.
pub proof fn lemma_completion_not_deduplicated(history: Seq<ProgramState>)
    ensures
        completion_writes(history.push(ProgramState::Complete)) == completion_writes(history) + 1,
        completion_writes(history.push(ProgramState::Complete).push(ProgramState::Complete))
            == completion_writes(history) + 2,
{
    let once = history.push(ProgramState::Complete);
    assert(once.drop_last() =~= history);
    assert(completion_writes(once) == completion_writes(history) + 1);
    assert(once.push(ProgramState::Complete).drop_last() =~= once);
}

/// Whatever its completion write gives, a `Complete` update is acknowledged
/// as created, and a failed write is logged exactly once.
pub proof fn lemma_acknowledgment_independent_of_write(outcome: Result<(), ServiceError>)
    ensures
        ack_after_write(outcome).status == CREATED,
        outcome is Err ==> ack_after_write(outcome).errors_logged == 1,
        outcome is Ok ==> ack_after_write(outcome).errors_logged == 0,
{
}

} // verus!
