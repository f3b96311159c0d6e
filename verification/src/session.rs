use vstd::prelude::*;
use crate::auth::Session;
use crate::login::{AuthTicket, LoginArgs};
use crate::region::Region;

verus! {

/// Owner of the authenticated session. It is the single source of truth
/// for "am I logged in, with what token, to which region", and it holds
/// the previously supplied credentials and the last-known region so that
/// an expired session can be replaced by re-running authentication from
/// there. The caller serializes access (one exclusive-access discipline);
/// the manager itself makes the single-flight decision.
#[derive(Debug)]
pub struct SessionManager {
    pub session: Option<Session>,
    pub refresh_in_flight: bool,
    pub credentials: LoginArgs,
    pub last_region: Region,
}

/// What a token request asks of its caller.
#[derive(Debug)]
pub enum TokenDecision {
    /// The held ticket is still fresh; use it.
    UseHeld(AuthTicket),
    /// No usable ticket and no authentication under way: this caller must
    /// run the authentication state machine and hand back its result.
    BeginAuth,
    /// An authentication attempt is already in flight; await its outcome
    /// rather than starting another.
    AwaitInFlight,
}

/// Whether the manager holds a ticket that is still fresh: a held ticket
/// is usable while `now` lies strictly before its expiry.
pub open spec fn spec_has_fresh(m: SessionManager, now: i64) -> bool {
    match m.session {
        Some(s) => now < s.ticket.expires,
        None => false,
    }
}

/// The decision a token request yields: the held ticket while fresh; else
/// await the in-flight authentication if there is one; else begin one.
pub open spec fn spec_token_decision(m: SessionManager, now: i64) -> TokenDecision {
    if spec_has_fresh(m, now) {
        TokenDecision::UseHeld(m.session->0.ticket)
    } else if m.refresh_in_flight {
        TokenDecision::AwaitInFlight
    } else {
        TokenDecision::BeginAuth
    }
}

/// The manager state after a token request: unchanged, except that the
/// request which begins an authentication marks it in flight.
pub open spec fn spec_after_request(m: SessionManager, now: i64) -> SessionManager {
    if spec_has_fresh(m, now) || m.refresh_in_flight {
        m
    } else {
        SessionManager {
            session: m.session,
            refresh_in_flight: true,
            credentials: m.credentials,
            last_region: m.last_region,
        }
    }
}

impl SessionManager {
    /// A manager that has never authenticated: the next token request
    /// begins authentication with these credentials from this region.
    pub fn new(credentials: LoginArgs, starting_region: Region) -> (r: SessionManager)
        ensures
            r.session is None,
            !r.refresh_in_flight,
            r.credentials == credentials,
            r.last_region == starting_region,
    {
        SessionManager {
            session: None,
            refresh_in_flight: false,
            credentials,
            last_region: starting_region,
        }
    }

    /// The decision step of `getValidToken`: return the held ticket while
    /// it is fresh; otherwise begin re-authentication, unless one is
    /// already in flight, in which case the caller awaits it. At most one
    /// request is told to begin, so at most one authentication attempt is
    /// ever in flight.
    pub fn request_token(&mut self, now: i64) -> (r: TokenDecision)
        ensures
            r == spec_token_decision(*old(self), now),
            *final(self) == spec_after_request(*old(self), now),
    {
        let mut held: Option<AuthTicket> = None;
        match &self.session {
            Some(s) => {
                if now < s.ticket.expires {
                    held = Some(s.ticket.dup());
                }
            },
            None => {},
        }
        if let Some(t) = held {
            return TokenDecision::UseHeld(t);
        }
        if self.refresh_in_flight {
            return TokenDecision::AwaitInFlight;
        }
        self.refresh_in_flight = true;
        TokenDecision::BeginAuth
    }

    /// Record the outcome of the authentication attempt this manager asked
    /// for. Success replaces the held session and the last-known region; a
    /// failed or canceled attempt leaves the prior session untouched.
    /// Either way the in-flight mark is cleared.
    pub fn complete_auth(&mut self, result: Option<Session>)
        ensures
            !final(self).refresh_in_flight,
            final(self).credentials == old(self).credentials,
            result matches Some(s) ==> final(self).session == Some(s) && final(self).last_region
                == s.region,
            result is None ==> final(self).session == old(self).session
                && final(self).last_region == old(self).last_region,
    {
        self.refresh_in_flight = false;
        if let Some(s) = result {
            self.last_region = s.region.dup();
            self.session = Some(s);
        }
    }

    /// Clear the held session, forcing the next token request to
    /// re-authenticate.
    pub fn invalidate(&mut self)
        ensures
            final(self).session is None,
            final(self).refresh_in_flight == old(self).refresh_in_flight,
            final(self).credentials == old(self).credentials,
            final(self).last_region == old(self).last_region,
    {
        self.session = None;
    }
}

/// Single flight: from a state with no usable ticket and no authentication
/// under way, the first token request is told to begin authentication, a
/// second request made before that attempt completes is told to await it,
/// and that second request changes nothing — so concurrent expired callers
/// trigger exactly one authentication attempt.
pub proof fn lemma_single_flight(m: SessionManager, now: i64)
    requires
        !spec_has_fresh(m, now),
        !m.refresh_in_flight,
    ensures
        spec_token_decision(m, now) is BeginAuth,
        spec_token_decision(spec_after_request(m, now), now) is AwaitInFlight,
        spec_after_request(spec_after_request(m, now), now) == spec_after_request(m, now),
{
}

} // verus!
