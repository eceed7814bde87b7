//! What to do about a failed response attempt.
use vstd::prelude::*;

verus! {

/// Maximum number of times a single request is re-sent before the failure is
/// surfaced.
pub const MAX_RETRIES: usize = 3;

/// What to do about a failed or truncated response attempt.
#[derive(Debug, Clone, Copy, PartialEq, Eq, Structural)]
pub enum RecoveryAction {
    /// Re-send the same request immediately.
    RetryNow,
    /// Re-send the same request once connectivity returns.
    RetryWhenOnline,
    /// Resume the conversation with a fresh request after the stream completes.
    Resume,
    /// Surface the error; the conversation ends in error.
    Fail,
}

/// Whether a failed request can be re-sent: nothing of its response has been acted
/// on, the failure is transient and there is budget left.
pub open spec fn may_retry(
    has_received_client_actions: bool,
    is_recoverable: bool,
    has_retry_budget: bool,
) -> bool {
    !has_received_client_actions && is_recoverable && has_retry_budget
}

/// Whether a failed request can be followed by a resume: some of its response has
/// been acted on, the failure is transient and the request is not itself a resume.
pub open spec fn may_resume(
    has_received_client_actions: bool,
    is_recoverable: bool,
    can_attempt_resume_on_error: bool,
) -> bool {
    has_received_client_actions && is_recoverable && can_attempt_resume_on_error
}

/// How a failed attempt is recovered from.
pub open spec fn recovery(
    has_received_client_actions: bool,
    is_recoverable: bool,
    has_retry_budget: bool,
    can_attempt_resume_on_error: bool,
    is_online: bool,
) -> RecoveryAction {
    if may_retry(has_received_client_actions, is_recoverable, has_retry_budget) {
        if is_online {
            RecoveryAction::RetryNow
        } else {
            RecoveryAction::RetryWhenOnline
        }
    } else if may_resume(has_received_client_actions, is_recoverable, can_attempt_resume_on_error) {
        RecoveryAction::Resume
    } else {
        RecoveryAction::Fail
    }
}

/// Decides how to recover from a failed attempt.
///
/// Before any client actions have been received, the request can be re-sent
/// verbatim (immediately, or once connectivity returns). After actions have
/// streamed, re-sending is unsafe, so recovery uses a fresh request that resumes the
/// conversation.
pub fn recovery_action(
    has_received_client_actions: bool,
    is_recoverable: bool,
    has_retry_budget: bool,
    can_attempt_resume_on_error: bool,
    is_online: bool,
) -> (action: RecoveryAction)
    ensures
        action == recovery(
            has_received_client_actions,
            is_recoverable,
            has_retry_budget,
            can_attempt_resume_on_error,
            is_online,
        ),
        action is RetryNow <==> may_retry(
            has_received_client_actions,
            is_recoverable,
            has_retry_budget,
        ) && is_online,
        action is RetryWhenOnline <==> may_retry(
            has_received_client_actions,
            is_recoverable,
            has_retry_budget,
        ) && !is_online,
        action is Resume <==> may_resume(
            has_received_client_actions,
            is_recoverable,
            can_attempt_resume_on_error,
        ),
{
    if !has_received_client_actions && is_recoverable && has_retry_budget {
        if is_online {
            RecoveryAction::RetryNow
        } else {
            RecoveryAction::RetryWhenOnline
        }
    } else if has_received_client_actions && is_recoverable && can_attempt_resume_on_error {
        RecoveryAction::Resume
    } else {
        RecoveryAction::Fail
    }
}

/// Before client actions, whether a resume may be attempted is irrelevant. After
/// them, the retry budget and connectivity are: a resume itself waits for
/// connectivity.
pub proof fn recovery_rests_on_the_phase(
    is_recoverable: bool,
    has_retry_budget: bool,
    can_attempt_resume_on_error: bool,
    is_online: bool,
)
    ensures
        recovery(false, is_recoverable, has_retry_budget, true, is_online) == recovery(
            false,
            is_recoverable,
            has_retry_budget,
            false,
            is_online,
        ),
        recovery(true, is_recoverable, has_retry_budget, can_attempt_resume_on_error, is_online)
            == recovery(true, is_recoverable, false, can_attempt_resume_on_error, false),
{
}

/// A failure is terminal exactly where it is not transient, or where neither a retry
/// nor a resume is left: before client actions without budget, after them on a
/// request that is itself a resume.
pub proof fn terminal_failures(
    has_received_client_actions: bool,
    is_recoverable: bool,
    has_retry_budget: bool,
    can_attempt_resume_on_error: bool,
    is_online: bool,
)
    ensures
        recovery(
            has_received_client_actions,
            is_recoverable,
            has_retry_budget,
            can_attempt_resume_on_error,
            is_online,
        ) is Fail <==> !is_recoverable || (if has_received_client_actions {
            !can_attempt_resume_on_error
        } else {
            !has_retry_budget
        }),
{
}

/// Each way to recover, with the failures that it is for: a request is re-sent where
/// nothing has been acted on, the failure is transient and there is budget, at once
/// where the host is online; the conversation is resumed where something has been
/// acted on, the failure is transient and the request is not itself a resume; nothing
/// else is recovered from.
pub proof fn recoveries(
    has_received_client_actions: bool,
    is_recoverable: bool,
    has_retry_budget: bool,
    can_attempt_resume_on_error: bool,
    is_online: bool,
)
    ensures
        ({
            let action = recovery(
                has_received_client_actions,
                is_recoverable,
                has_retry_budget,
                can_attempt_resume_on_error,
                is_online,
            );
            let resent = !has_received_client_actions && is_recoverable && has_retry_budget;
            let resumed = has_received_client_actions && is_recoverable
                && can_attempt_resume_on_error;
            &&& action == RecoveryAction::RetryNow <==> resent && is_online
            &&& action == RecoveryAction::RetryWhenOnline <==> resent && !is_online
            &&& action == RecoveryAction::Resume <==> resumed
            &&& action == RecoveryAction::Fail <==> !resent && !resumed
            &&& may_retry(has_received_client_actions, is_recoverable, has_retry_budget) <==> resent
            &&& may_resume(
                has_received_client_actions,
                is_recoverable,
                can_attempt_resume_on_error,
            ) <==> resumed
        }),
{
}

} // verus!
