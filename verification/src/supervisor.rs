//! The supervisor's slot and what each spawn attempt does to it.

use vstd::prelude::*;

verus! {

/// The operating system's identity of a spawned child process.
#[derive(Clone, Copy, Debug, PartialEq, Eq, Structural)]
pub struct ProcessHandle {
    pub pid: u32,
}

/// Whether the supervisor tracks a process.
#[derive(Clone, Copy, Debug, PartialEq, Eq, Structural)]
pub enum State {
    Empty,
    Running,
}

/// The text of the confirmation that a successful start returns.
pub open spec fn started_text() -> Seq<char> {
    "Server started"@
}

/// What stands before the operating system's error text in a failure message.
pub open spec fn failure_prefix() -> Seq<char> {
    "Failed to start server: "@
}

/// The slot after one spawn attempt: a new handle replaces whatever was
/// stored, a failure leaves the slot as it was.
pub open spec fn slot_after(
    slot: Option<ProcessHandle>,
    outcome: Result<ProcessHandle, String>,
) -> Option<ProcessHandle> {
    match outcome {
        Ok(handle) => Some(handle),
        Err(_) => slot,
    }
}

/// The slot after a series of spawn attempts, applied in order.
pub open spec fn slot_after_all(
    slot: Option<ProcessHandle>,
    outcomes: Seq<Result<ProcessHandle, String>>,
) -> Option<ProcessHandle>
    decreases outcomes.len(),
{
    if outcomes.len() == 0 {
        slot
    } else {
        slot_after(slot_after_all(slot, outcomes.drop_last()), outcomes.last())
    }
}

/// What the caller of a start is told: the confirmation, or the failure
/// prefix followed by the operating system's error text.
pub open spec fn reply_after(outcome: Result<ProcessHandle, String>) -> Result<Seq<char>, Seq<char>> {
    match outcome {
        Ok(_) => Ok(started_text()),
        Err(os_text) => Err(failure_prefix() + os_text@),
    }
}

/// A reply as plain text, success and failure kept apart.
pub open spec fn reply_text(reply: Result<String, String>) -> Result<Seq<char>, Seq<char>> {
    match reply {
        Ok(text) => Ok(text@),
        Err(text) => Err(text@),
    }
}

/// The state that a slot stands for.
pub open spec fn state_of(slot: Option<ProcessHandle>) -> State {
    match slot {
        Some(_) => State::Running,
        None => State::Empty,
    }
}

/// The message for a spawn failure with the given operating-system error text.
pub fn failure_message(os_text: &str) -> (message: String)
    ensures
        message@ == failure_prefix() + os_text@,
{
    String::from_str("Failed to start server: ").concat(os_text)
}

/// Tracks at most one child process: the server that was started last.
#[derive(Debug)]
pub struct Supervisor {
    slot: Option<ProcessHandle>,
}

impl View for Supervisor {
    type V = Option<ProcessHandle>;

    closed spec fn view(&self) -> Option<ProcessHandle> {
        self.slot
    }
}

impl Supervisor {
    /// A supervisor that tracks no process.
    pub fn new() -> (supervisor: Supervisor)
        ensures
            supervisor@ == None::<ProcessHandle>,
    {
        Supervisor { slot: None }
    }

    /// The stored handle, if a start has succeeded.
    pub fn handle(&self) -> (handle: Option<ProcessHandle>)
        ensures
            handle == self@,
    {
        self.slot
    }

    /// `Running` once a start has succeeded, `Empty` before.
    pub fn state(&self) -> (state: State)
        ensures
            state == state_of(self@),
    {
        match self.slot {
            Some(_) => State::Running,
            None => State::Empty,
        }
    }

    /// Completes a start: takes the outcome of the attempt to spawn the server.
    ///
    /// A handle is stored in place of whatever the slot held, and the
    /// confirmation is returned; the handle that was replaced is forgotten, its
    /// process is not terminated. A failure leaves the slot untouched and is
    /// returned as a message that carries the operating system's error text.
    pub fn finish_start(&mut self, outcome: Result<ProcessHandle, String>) -> (reply: Result<
        String,
        String,
    >)
        ensures
            final(self)@ == slot_after(old(self)@, outcome),
            reply_text(reply) == reply_after(outcome),
    {
        match outcome {
            Ok(handle) => {
                self.slot = Some(handle);
                Ok(String::from_str("Server started"))
            },
            Err(os_text) => Err(failure_message(os_text.as_str())),
        }
    }

    /// The start made while the host initialises: best effort. The outcome is
    /// taken as in [`Supervisor::finish_start`], and a failure is dropped
    /// without a trace.
    pub fn finish_startup(&mut self, outcome: Result<ProcessHandle, String>)
        ensures
            final(self)@ == slot_after(old(self)@, outcome),
    {
        let _ = self.finish_start(outcome);
    }
}

/// A successful start ends in `Running` with the new handle stored, whatever
/// the slot held before.
pub proof fn lemma_success_stores_handle(slot: Option<ProcessHandle>, handle: ProcessHandle)
    ensures
        slot_after(slot, Ok(handle)) == Some(handle),
        state_of(slot_after(slot, Ok(handle))) == State::Running,
{
}

/// A failed start changes neither the slot nor the state, and its message is
/// the failure prefix followed by the operating system's error text.
pub proof fn lemma_failure_keeps_slot(slot: Option<ProcessHandle>, os_text: String)
    ensures
        slot_after(slot, Err(os_text)) == slot,
        state_of(slot_after(slot, Err(os_text))) == state_of(slot),
        reply_after(Err(os_text)) == Err::<Seq<char>, Seq<char>>(failure_prefix() + os_text@),
{
}

/// Of two successful starts in a row only the second handle stays reachable:
/// the first is replaced, and nothing the supervisor holds refers to it.
pub proof fn lemma_second_success_replaces_first(
    slot: Option<ProcessHandle>,
    first: ProcessHandle,
    second: ProcessHandle,
)
    ensures
        slot_after(slot_after(slot, Ok(first)), Ok(second)) == Some(second),
        first != second ==> slot_after(slot_after(slot, Ok(first)), Ok(second)) != Some(first),
{
}

/// No attempt leads from `Running` back to `Empty`.
pub proof fn lemma_running_stays_running(
    slot: Option<ProcessHandle>,
    outcome: Result<ProcessHandle, String>,
)
    requires
        state_of(slot) == State::Running,
    ensures
        state_of(slot_after(slot, outcome)) == State::Running,
{
}

/// Starts that take the slot one after another, in whatever order, leave in
/// it the handle of the last one that succeeded, whole; if none succeeded, the
/// slot is as it was before the first.
pub proof fn lemma_serial_starts_keep_last_success(
    slot: Option<ProcessHandle>,
    outcomes: Seq<Result<ProcessHandle, String>>,
)
    ensures
        (forall|i: int| 0 <= i < outcomes.len() ==> outcomes[i] is Err) ==> slot_after_all(
            slot,
            outcomes,
        ) == slot,
        (exists|i: int| 0 <= i < outcomes.len() && outcomes[i] is Ok) ==> exists|i: int|
            {
                &&& 0 <= i < outcomes.len()
                &&& #[trigger] outcomes[i] is Ok
                &&& slot_after_all(slot, outcomes) == Some(outcomes[i]->Ok_0)
                &&& forall|j: int| i < j < outcomes.len() ==> outcomes[j] is Err
            },
    decreases outcomes.len(),
{
    if outcomes.len() > 0 {
        let earlier = outcomes.drop_last();
        let last = outcomes.len() - 1;
        lemma_serial_starts_keep_last_success(slot, earlier);
        assert(forall|i: int| 0 <= i < earlier.len() ==> earlier[i] == outcomes[i]);
        if outcomes[last] is Ok {
            assert(slot_after_all(slot, outcomes) == Some(outcomes[last]->Ok_0));
        } else if exists|i: int| 0 <= i < outcomes.len() && outcomes[i] is Ok {
            let k = choose|i: int| 0 <= i < outcomes.len() && outcomes[i] is Ok;
            assert(earlier[k] is Ok);
            let w = choose|i: int|
                {
                    &&& 0 <= i < earlier.len()
                    &&& #[trigger] earlier[i] is Ok
                    &&& slot_after_all(slot, earlier) == Some(earlier[i]->Ok_0)
                    &&& forall|j: int| i < j < earlier.len() ==> earlier[j] is Err
                };
            assert(outcomes[w] is Ok);
            assert(slot_after_all(slot, outcomes) == Some(outcomes[w]->Ok_0));
            assert(forall|j: int| w < j < outcomes.len() ==> outcomes[j] is Err);
        }
    }
}

} // verus!
