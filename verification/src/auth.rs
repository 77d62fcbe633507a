//! The credential check: which local authentication policies to evaluate, in
//! which order, and what their answers add up to.
//!
//! The policies are evaluated by the embedding program, which alone can show
//! the system's prompt; the order and the verdict are decided here.

use vstd::prelude::*;
use vstd::string::StringExecFns;

verus! {

/// A way the system can check who is there.
#[derive(Clone, Copy, Debug, PartialEq, Eq, Structural)]
pub enum AuthPolicy {
    /// By biometry alone.
    Biometrics,
    /// By biometry, a paired watch, or the password of the device's owner.
    DeviceOwner,
}

/// What the check has come to.
#[derive(Clone, Copy, Debug, PartialEq, Eq, Structural)]
pub enum AuthStep {
    /// The embedding program is to evaluate this policy and to go on with
    /// [`authenticate_after`].
    Evaluate(AuthPolicy),
    /// The check is over, with this verdict.
    Decided(bool),
}

/// The reason that the system's prompt shows.
pub open spec fn reason_text() -> Seq<char> {
    "Access your private journal entries"@
}

/// The reason that the system's prompt shows.
pub fn reason() -> (text: String)
    ensures
        text@ == reason_text(),
{
    String::from_str("Access your private journal entries")
}

/// The first step of the check: biometry where the system offers local
/// authentication, and admission without a check where it offers none.
pub open spec fn first_step(supported: bool) -> AuthStep {
    if supported {
        AuthStep::Evaluate(AuthPolicy::Biometrics)
    } else {
        AuthStep::Decided(true)
    }
}

/// The step after `policy` was evaluated and answered `granted`: biometry
/// that refuses is followed by the owner's check, and any other answer is
/// the verdict.
pub open spec fn next_step(policy: AuthPolicy, granted: bool) -> AuthStep {
    if policy == AuthPolicy::Biometrics && !granted {
        AuthStep::Evaluate(AuthPolicy::DeviceOwner)
    } else {
        AuthStep::Decided(granted)
    }
}

/// The verdict of a whole check on a system that answers the two policies
/// with `biometrics` and `owner`.
pub open spec fn verdict_of(biometrics: bool, owner: bool) -> bool {
    match first_step(true) {
        AuthStep::Decided(verdict) => verdict,
        AuthStep::Evaluate(first) => match next_step(first, biometrics) {
            AuthStep::Decided(verdict) => verdict,
            AuthStep::Evaluate(second) => match next_step(second, owner) {
                AuthStep::Decided(verdict) => verdict,
                AuthStep::Evaluate(_) => false,
            },
        },
    }
}

/// Begins the check. `supported` says whether the system offers local
/// authentication.
pub fn authenticate(supported: bool) -> (step: AuthStep)
    ensures
        step == first_step(supported),
{
    if supported {
        AuthStep::Evaluate(AuthPolicy::Biometrics)
    } else {
        AuthStep::Decided(true)
    }
}

/// Goes on with the check after `policy` was evaluated and answered
/// `granted`.
pub fn authenticate_after(policy: AuthPolicy, granted: bool) -> (step: AuthStep)
    ensures
        step == next_step(policy, granted),
{
    match policy {
        AuthPolicy::Biometrics => if granted {
            AuthStep::Decided(true)
        } else {
            AuthStep::Evaluate(AuthPolicy::DeviceOwner)
        },
        AuthPolicy::DeviceOwner => AuthStep::Decided(granted),
    }
}

/// The check admits exactly those whom biometry or, failing that, the
/// owner's check admits; it evaluates at most two policies, biometry first,
/// and the owner's check only after biometry has refused.
pub proof fn lemma_check_tries_biometrics_then_owner(biometrics: bool, owner: bool)
    ensures
        verdict_of(biometrics, owner) == (biometrics || owner),
        first_step(true) == AuthStep::Evaluate(AuthPolicy::Biometrics),
        next_step(AuthPolicy::Biometrics, true) == AuthStep::Decided(true),
        next_step(AuthPolicy::Biometrics, false) == AuthStep::Evaluate(AuthPolicy::DeviceOwner),
        next_step(AuthPolicy::DeviceOwner, owner) == AuthStep::Decided(owner),
{
}

} // verus!
