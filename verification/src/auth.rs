use vstd::prelude::*;
use crate::errors::AuthError;
use crate::login::{AuthTicket, LockoutInfo, LoginOutcome};
use crate::region::{
    region_code_of, region_of_code, spec_region_code_of, spec_region_of_code, Region, RegionCode,
};

verus! {

/// Live authenticated context: the resolved region, the bearer ticket, and
/// the user it belongs to. Created only from a successful `Authenticated`
/// outcome.
#[derive(Debug)]
pub struct Session {
    pub region: Region,
    pub ticket: AuthTicket,
    pub user_id: String,
}

impl Session {
    /// A session is well formed when its token and user identity are
    /// non-empty.
    pub open spec fn wf(self) -> bool {
        self.ticket.token@.len() > 0 && self.user_id@.len() > 0
    }
}

/// No two entries of the sequence are the same code.
pub open spec fn distinct_codes(s: Seq<RegionCode>) -> bool {
    forall|i: int, j: int| 0 <= i < j < s.len() ==> s[i] != s[j]
}

/// One authentication call in progress: the region of the in-flight login
/// attempt, and every fixed region code attempted so far in this call. The
/// attempted set is what bounds redirects: revisiting a member is a fatal
/// redirect loop, so a well-formed attempt can be redirected at most once
/// per region code.
#[derive(Debug)]
pub struct AuthAttempt {
    pub current: Region,
    pub attempted: Vec<RegionCode>,
}

/// What the state machine asks of its driver after one login response.
#[derive(Debug)]
pub enum AuthStep {
    /// Re-attempt login against the region the new state holds.
    Continue(AuthAttempt),
    /// Terminal success: a usable session.
    Authenticated(Session),
    /// Terminal failure, surfaced verbatim.
    Failed(AuthError),
}

/// Whether a sequence of codes contains the given code.
fn contains_code(v: &Vec<RegionCode>, c: RegionCode) -> (r: bool)
    ensures
        r == v@.contains(c),
{
    let mut i: usize = 0;
    while i < v.len()
        invariant
            i <= v@.len(),
            forall|k: int| 0 <= k < i ==> v@[k] != c,
        decreases v@.len() - i,
    {
        if v[i] == c {
            assert(v@.contains(c));
            return true;
        }
        i = i + 1;
    }
    assert(!v@.contains(c));
    false
}

impl AuthAttempt {
    /// The attempt never repeats a code in its attempted set.
    pub open spec fn wf(self) -> bool {
        distinct_codes(self.attempted@)
    }

    /// Begin an authentication call against the starting region; if that
    /// region has a fixed code, it counts as attempted.
    pub fn begin(starting: Region) -> (r: AuthAttempt)
        ensures
            r.current == starting,
            r.attempted@ == match starting.spec_code() {
                Some(c) => seq![c],
                None => Seq::<RegionCode>::empty(),
            },
            r.wf(),
    {
        let code = starting.code();
        let mut attempted: Vec<RegionCode> = Vec::new();
        if let Some(c) = code {
            attempted.push(c);
        }
        AuthAttempt { current: starting, attempted }
    }

    /// Interpret one login outcome. A redirect re-attempts exactly once
    /// against the named region unless that region was already attempted in
    /// this call, which is a fatal redirect loop; an authenticated outcome
    /// seeds the session with its ticket and user against the current
    /// region; step, lockout and malformed outcomes are terminal and
    /// surfaced verbatim, never retried.
    pub fn on_outcome(self, outcome: LoginOutcome) -> (r: AuthStep)
        ensures
            (outcome matches LoginOutcome::Redirected { region } ==> {
                let copt = spec_region_code_of(region@);
                &&& copt is None ==> r == AuthStep::Failed(AuthError::UnknownRegion)
                &&& (copt matches Some(c) && self.attempted@.contains(c)) ==> r == AuthStep::Failed(
                    AuthError::RedirectLoop,
                )
                &&& (copt matches Some(c) && !self.attempted@.contains(c)) ==> (r matches
                AuthStep::Continue(a) && a.current == spec_region_of_code(copt->0) && a.attempted@
                    == self.attempted@.push(copt->0) && (self.wf() ==> a.wf()))
            }),
            (outcome matches LoginOutcome::Authenticated { ticket, user } ==> r matches
                AuthStep::Authenticated(s) && s.region == self.current && s.ticket == ticket
                && s.user_id == user.id),
            (outcome matches LoginOutcome::StepRequired { step } ==> r == AuthStep::Failed(
                AuthError::StepRequired(step),
            )),
            (outcome matches LoginOutcome::Locked { failures, interval, lockout } ==> r
                == AuthStep::Failed(
                AuthError::Locked(LockoutInfo { failures, interval, lockout }),
            )),
            (outcome is Malformed ==> r == AuthStep::Failed(AuthError::MalformedResponse)),
    {
        match outcome {
            LoginOutcome::Redirected { region } => {
                match region_code_of(region.as_str()) {
                    None => AuthStep::Failed(AuthError::UnknownRegion),
                    Some(c) => {
                        if contains_code(&self.attempted, c) {
                            AuthStep::Failed(AuthError::RedirectLoop)
                        } else {
                            let mut attempted = self.attempted;
                            let ghost pre = attempted@;
                            attempted.push(c);
                            proof {
                                if distinct_codes(pre) {
                                    lemma_distinct_push(pre, c);
                                }
                            }
                            AuthStep::Continue(
                                AuthAttempt { current: region_of_code(c), attempted },
                            )
                        }
                    },
                }
            },
            LoginOutcome::Authenticated { ticket, user } => {
                AuthStep::Authenticated(
                    Session { region: self.current, ticket, user_id: user.id },
                )
            },
            LoginOutcome::StepRequired { step } => {
                AuthStep::Failed(AuthError::StepRequired(step))
            },
            LoginOutcome::Locked { failures, interval, lockout } => {
                AuthStep::Failed(AuthError::Locked(LockoutInfo { failures, interval, lockout }))
            },
            LoginOutcome::Malformed => AuthStep::Failed(AuthError::MalformedResponse),
        }
    }
}

/// Pushing a code that is not yet present keeps the attempted set free of
/// repeats; with finitely many fixed codes this is what bounds the number
/// of redirects one authentication call can follow.
pub proof fn lemma_distinct_push(s: Seq<RegionCode>, c: RegionCode)
    requires
        distinct_codes(s),
        !s.contains(c),
    ensures
        distinct_codes(s.push(c)),
{
    assert forall|i: int, j: int| 0 <= i < j < s.push(c).len() implies s.push(c)[i] != s.push(
        c,
    )[j] by {
        if j == s.len() {
            assert(s.push(c)[j] == c);
            assert(s.push(c)[i] == s[i]);
            assert(s[i] != c);
        }
    }
}

} // verus!
