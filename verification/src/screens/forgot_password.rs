//! The two steps of recovering a password on one screen: ask for a code
//! sent by SMS to the phone, then confirm it with the new password.
use vstd::prelude::*;

verus! {

/// The step the screen shows.
#[derive(Debug, Clone, Copy, PartialEq, Eq, Structural)]
pub enum PasswordResetStep {
    /// Type the phone and ask for a code.
    RequestCode,
    /// Type the code and the new password.
    ConfirmCode,
}

/// What happens on the screen.
#[derive(Debug, Clone, Copy, PartialEq, Eq, Structural)]
pub enum PasswordResetEvent {
    /// The backend sent the code.
    CodeSent,
    /// The backend refused to send a code.
    CodeRefused,
    /// The backend refused the code or the new password.
    ResetRefused,
    /// The user asks for a new code (the first did not arrive).
    AskForANewCode,
}

/// The step after `event`: a sent code moves on to confirming it, asking for
/// a new code goes back, a refusal leaves the step as it was (with its
/// error shown).
pub open spec fn reset_step_after(step: PasswordResetStep, event: PasswordResetEvent) -> PasswordResetStep {
    match event {
        PasswordResetEvent::CodeSent => PasswordResetStep::ConfirmCode,
        PasswordResetEvent::AskForANewCode => PasswordResetStep::RequestCode,
        PasswordResetEvent::CodeRefused | PasswordResetEvent::ResetRefused => step,
    }
}

/// The step after `events`, from the first step.
pub open spec fn reset_steps(events: Seq<PasswordResetEvent>) -> PasswordResetStep
    decreases events.len(),
{
    if events.len() == 0 {
        PasswordResetStep::RequestCode
    } else {
        reset_step_after(reset_steps(events.drop_last()), events.last())
    }
}

/// Decides the step after `event` (see `reset_step_after`).
pub fn next_reset_step(step: PasswordResetStep, event: PasswordResetEvent) -> (r: PasswordResetStep)
    ensures
        r == reset_step_after(step, event),
{
    match event {
        PasswordResetEvent::CodeSent => PasswordResetStep::ConfirmCode,
        PasswordResetEvent::AskForANewCode => PasswordResetStep::RequestCode,
        PasswordResetEvent::CodeRefused | PasswordResetEvent::ResetRefused => step,
    }
}

/// The screen asks for a code to be confirmed only after one was sent, and
/// since the user last asked for a new one: the last of `CodeSent` and
/// `AskForANewCode` in `events` is `CodeSent`.
pub proof fn a_code_is_confirmed_only_after_it_was_sent(events: Seq<PasswordResetEvent>)
    requires
        reset_steps(events) == PasswordResetStep::ConfirmCode,
    ensures
        exists|i: int|
            0 <= i < events.len() && events[i] == PasswordResetEvent::CodeSent && forall|j: int|
                i < j < events.len() ==> (#[trigger] events[j]) != PasswordResetEvent::AskForANewCode
                    && events[j] != PasswordResetEvent::CodeSent,
    decreases events.len(),
{
    let last = events.last();
    let rest = events.drop_last();
    if last == PasswordResetEvent::CodeSent {
        assert(events[events.len() - 1] == PasswordResetEvent::CodeSent);
    } else {
        a_code_is_confirmed_only_after_it_was_sent(rest);
        let i = choose|i: int|
            0 <= i < rest.len() && rest[i] == PasswordResetEvent::CodeSent && forall|j: int|
                i < j < rest.len() ==> (#[trigger] rest[j]) != PasswordResetEvent::AskForANewCode
                    && rest[j] != PasswordResetEvent::CodeSent;
        assert forall|j: int| i < j < events.len() implies (#[trigger] events[j])
            != PasswordResetEvent::AskForANewCode && events[j] != PasswordResetEvent::CodeSent by {
            if j < rest.len() {
                assert(events[j] == rest[j]);
            } else {
                assert(events[j] == last);
            }
        }
        assert(events[i] == rest[i]);
    }
}

} // verus!
