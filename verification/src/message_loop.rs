use vstd::prelude::*;

verus! {

/// How many times the demo console writes its message.
pub const MESSAGE_REPEATS: u32 = 10;

/// How long the demo console pauses after each message, in seconds.
pub const PAUSE_SECONDS: u64 = 1;

/// Nanoseconds in one second.
pub const NANOS_PER_SECOND: u64 = 1_000_000_000;

/// What the console loop asks its driver to do next.
#[derive(Clone, Copy, Debug, PartialEq, Eq, Structural)]
pub enum LoopAction {
    /// Write the message to the console.
    WriteMessage,
    /// Sleep for the given number of nanoseconds.
    Sleep(i64),
    /// The loop is over.
    Finish,
}

/// The pause after each message, in nanoseconds.
pub open spec fn spec_pause_nanos() -> int {
    PAUSE_SECONDS * NANOS_PER_SECOND
}

/// Number of actions the loop hands out before it finishes: one write and one
/// pause per message.
pub open spec fn loop_length() -> nat {
    2 * MESSAGE_REPEATS as nat
}

/// The action handed out at position `step` of the loop (counting from 0):
/// writes at even positions, pauses at odd ones, and `Finish` from
/// [`loop_length`] on.
pub open spec fn action_at(step: nat) -> LoopAction {
    if step >= loop_length() {
        LoopAction::Finish
    } else if step % 2 == 0 {
        LoopAction::WriteMessage
    } else {
        LoopAction::Sleep(spec_pause_nanos() as i64)
    }
}

/// The pause after each message, in nanoseconds, as the sleep call takes it.
pub fn pause_nanos() -> (n: i64)
    ensures
        n == spec_pause_nanos(),
{
    let nanos: u64 = PAUSE_SECONDS * NANOS_PER_SECOND;
    nanos as i64
}

/// The demo console loop: it writes its message [`MESSAGE_REPEATS`] times, each
/// time followed by a pause of [`PAUSE_SECONDS`], then finishes.
pub struct MessageLoop {
    step: u32,
}

impl View for MessageLoop {
    type V = nat;

    /// How many actions the loop has handed out, not counting `Finish`.
    closed spec fn view(&self) -> nat {
        self.step as nat
    }
}

impl MessageLoop {
    #[verifier::type_invariant]
    spec fn inv(self) -> bool {
        self.step <= 2 * MESSAGE_REPEATS
    }

    /// A loop that has not handed out any action yet.
    pub fn new() -> (r: MessageLoop)
        ensures
            r@ == 0,
    {
        MessageLoop { step: 0 }
    }

    /// Whether the loop is over.
    pub fn is_finished(&self) -> (b: bool)
        ensures
            b == (self@ >= loop_length()),
    {
        proof {
            use_type_invariant(self);
        }
        self.step >= 2 * MESSAGE_REPEATS
    }

    /// Hands out the next action and moves on; once the loop is over it keeps
    /// handing out `Finish`.
    pub fn next_action(&mut self) -> (a: LoopAction)
        ensures
            a == action_at(old(self)@),
            final(self)@ == if old(self)@ < loop_length() { old(self)@ + 1 } else { old(self)@ },
            final(self)@ <= loop_length(),
    {
        proof {
            use_type_invariant(&*self);
        }
        if self.step >= 2 * MESSAGE_REPEATS {
            LoopAction::Finish
        } else {
            let action = if self.step % 2 == 0 {
                LoopAction::WriteMessage
            } else {
                LoopAction::Sleep(pause_nanos())
            };
            self.step = self.step + 1;
            action
        }
    }
}

/// How many of the first `n` actions of the loop are writes.
pub open spec fn writes_in(n: nat) -> nat
    decreases n,
{
    if n == 0 {
        0
    } else {
        writes_in((n - 1) as nat) + if action_at((n - 1) as nat) is WriteMessage { 1nat } else { 0nat }
    }
}

/// Every write is immediately followed by a pause of [`PAUSE_SECONDS`].
pub proof fn lemma_write_then_pause(step: nat)
    requires
        action_at(step) is WriteMessage,
    ensures
        action_at(step + 1) == LoopAction::Sleep(spec_pause_nanos() as i64),
        spec_pause_nanos() == 1_000_000_000,
{
}

/// Once the loop has finished, every later action is `Finish` too.
pub proof fn lemma_finish_is_final(step: nat, later: nat)
    requires
        action_at(step) is Finish,
        step <= later,
    ensures
        action_at(later) is Finish,
{
}

/// Among the first `n` actions, the writes number `(n + 1) / 2` while the loop
/// runs, and [`MESSAGE_REPEATS`] in all: the message is written exactly that many
/// times, however long the driver keeps asking.
pub proof fn lemma_write_count(n: nat)
    ensures
        n <= loop_length() ==> writes_in(n) == (n + 1) / 2,
        n >= loop_length() ==> writes_in(n) == MESSAGE_REPEATS,
    decreases n,
{
    if n > 0 {
        lemma_write_count((n - 1) as nat);
    }
}

} // verus!
