//! One policy for every RPC: a call refused as unauthenticated is answered by
//! re-authenticating once with the stored credentials and replaying the very
//! same call; everything else is handed back as it came.

use vstd::prelude::*;

verus! {

/// How the policy classes a call's result.
#[derive(Clone, Copy, PartialEq, Eq, Structural, Debug)]
pub enum CallOutcome {
    Success,
    /// The server refused the call because the session's token expired.
    Unauthenticated,
    OtherError,
}

/// What the caller does next.
#[derive(Clone, Copy, PartialEq, Eq, Structural, Debug)]
pub enum ReauthStep {
    /// Re-authenticate with the stored credentials, then report the result.
    Authenticate,
    /// Replay the identical call, then report its result.
    Replay,
    /// Return the result of the latest call unchanged.
    ReturnCallResult,
    /// Return the error of the failed re-authentication unchanged.
    ReturnAuthError,
}

/// Where one wrapped call stands.
#[derive(Clone, Copy, PartialEq, Eq, Structural, Debug)]
pub enum ReauthPhase {
    FirstCall,
    Authenticating,
    Replaying,
    Done,
}

/// The state of one wrapped call, as plain values.
pub struct ReauthView {
    pub has_credentials: bool,
    pub phase: ReauthPhase,
    /// How many times the call has been made so far.
    pub calls: nat,
}

/// A wrapped call before it is first made.
pub open spec fn reauth_start(has_credentials: bool) -> ReauthView {
    ReauthView { has_credentials, phase: ReauthPhase::FirstCall, calls: 0 }
}

/// The call is about to be made (first time or replay).
pub open spec fn awaits_call(v: ReauthView) -> bool {
    v.phase == ReauthPhase::FirstCall || v.phase == ReauthPhase::Replaying
}

/// The state and the step after the call came back with `outcome`.
pub open spec fn after_call(v: ReauthView, outcome: CallOutcome) -> (ReauthView, ReauthStep) {
    if v.phase == ReauthPhase::FirstCall && outcome == CallOutcome::Unauthenticated
        && v.has_credentials {
        (
            ReauthView { phase: ReauthPhase::Authenticating, calls: v.calls + 1, ..v },
            ReauthStep::Authenticate,
        )
    } else {
        (
            ReauthView { phase: ReauthPhase::Done, calls: v.calls + 1, ..v },
            ReauthStep::ReturnCallResult,
        )
    }
}

/// The state and the step after re-authentication succeeded (`ok`) or failed.
pub open spec fn after_auth(v: ReauthView, ok: bool) -> (ReauthView, ReauthStep) {
    if ok {
        (ReauthView { phase: ReauthPhase::Replaying, ..v }, ReauthStep::Replay)
    } else {
        (ReauthView { phase: ReauthPhase::Done, ..v }, ReauthStep::ReturnAuthError)
    }
}

/// The policy applied to one call.
pub struct ReauthCall {
    has_credentials: bool,
    phase: ReauthPhase,
    calls: u8,
}

impl View for ReauthCall {
    type V = ReauthView;

    closed spec fn view(&self) -> ReauthView {
        ReauthView { has_credentials: self.has_credentials, phase: self.phase, calls: self.calls as nat }
    }
}

impl ReauthCall {
    /// The call count matches the phase.
    pub closed spec fn well_formed(&self) -> bool {
        &&& self.phase == ReauthPhase::FirstCall ==> self.calls == 0
        &&& (self.phase == ReauthPhase::Authenticating || self.phase == ReauthPhase::Replaying)
            ==> self.calls == 1
        &&& self.calls <= 2
    }

    /// A call about to be made; `has_credentials` tells whether the
    /// connection holds a user and password to re-authenticate with.
    pub fn new(has_credentials: bool) -> (r: ReauthCall)
        ensures
            r.well_formed(),
            r@ == reauth_start(has_credentials),
    {
        ReauthCall { has_credentials, phase: ReauthPhase::FirstCall, calls: 0 }
    }

    /// The phase the call is in.
    pub fn phase(&self) -> (r: ReauthPhase)
        ensures
            r == self@.phase,
    {
        self.phase
    }

    /// How many times the call was made.
    pub fn calls_made(&self) -> (r: u8)
        ensures
            r == self@.calls,
    {
        self.calls
    }

    /// Reports how the (first or replayed) call came back.
    pub fn on_call_result(&mut self, outcome: CallOutcome) -> (r: ReauthStep)
        requires
            old(self).well_formed(),
            awaits_call(old(self)@),
        ensures
            final(self).well_formed(),
            (final(self)@, r) == after_call(old(self)@, outcome),
    {
        self.calls = self.calls + 1;
        if self.phase == ReauthPhase::FirstCall && outcome == CallOutcome::Unauthenticated
            && self.has_credentials {
            self.phase = ReauthPhase::Authenticating;
            ReauthStep::Authenticate
        } else {
            self.phase = ReauthPhase::Done;
            ReauthStep::ReturnCallResult
        }
    }

    /// Reports whether re-authentication succeeded.
    pub fn on_auth_result(&mut self, ok: bool) -> (r: ReauthStep)
        requires
            old(self).well_formed(),
            old(self)@.phase == ReauthPhase::Authenticating,
        ensures
            final(self).well_formed(),
            (final(self)@, r) == after_auth(old(self)@, ok),
    {
        if ok {
            self.phase = ReauthPhase::Replaying;
            ReauthStep::Replay
        } else {
            self.phase = ReauthPhase::Done;
            ReauthStep::ReturnAuthError
        }
    }
}

/// With credentials at hand, a call refused as unauthenticated is
/// re-authenticated and replayed exactly once, and whatever the replay
/// returns (a second refusal or a success) is returned unchanged: the call is
/// then over after two calls, with no further retry.
pub proof fn lemma_retry_once(replay: CallOutcome)
    ensures
        ({
            let (s1, a1) = after_call(reauth_start(true), CallOutcome::Unauthenticated);
            let (s2, a2) = after_auth(s1, true);
            let (s3, a3) = after_call(s2, replay);
            &&& a1 == ReauthStep::Authenticate
            &&& a2 == ReauthStep::Replay
            &&& awaits_call(s2)
            &&& a3 == ReauthStep::ReturnCallResult
            &&& s3.phase == ReauthPhase::Done
            &&& s3.calls == 2
        }),
{
}

/// Any other first result, or no credentials, returns the first result
/// unchanged after one call; a failed re-authentication returns its own error
/// at once, without a replay.
pub proof fn lemma_no_retry_otherwise(has_credentials: bool, first: CallOutcome)
    ensures
        (first != CallOutcome::Unauthenticated || !has_credentials) ==> ({
            let (s1, a1) = after_call(reauth_start(has_credentials), first);
            a1 == ReauthStep::ReturnCallResult && s1.phase == ReauthPhase::Done && s1.calls == 1
        }),
        ({
            let (s1, a1) = after_call(reauth_start(true), CallOutcome::Unauthenticated);
            let (s2, a2) = after_auth(s1, false);
            a2 == ReauthStep::ReturnAuthError && s2.phase == ReauthPhase::Done && s2.calls == 1
        }),
{
}

} // verus!
