use vstd::prelude::*;

verus! {

/// Login credentials.
#[derive(Debug, Clone)]
pub struct LoginArgs {
    pub username: String,
    pub password: String,
}

/// Login redirect response when a regional redirect is needed.
#[derive(Debug, Clone)]
pub struct LoginRedirectResponse {
    pub status: i32,
    pub data: LoginRedirectData,
}

/// The redirect flag and the region it names.
#[derive(Debug, Clone)]
pub struct LoginRedirectData {
    pub redirect: bool,
    pub region: String,
}

/// Main login response.
#[derive(Debug, Clone)]
pub struct LoginResponse {
    pub status: i32,
    pub data: LoginResponseData,
}

/// Login response data: either a regional redirect, complete user data,
/// step data for an additional verification step, or lockout counters.
#[derive(Debug, Clone)]
pub enum LoginResponseData {
    Redirect(LoginRedirectData),
    Complete(Data),
    Step(StepData),
    Locked(LockedData),
}

/// Locked account data for rate limiting.
#[derive(Debug, Clone)]
pub struct LockedData {
    pub code: i32,
    pub data: LockoutInfo,
    pub message: String,
}

/// The raw lockout counters: failure count, counting interval, and
/// lockout duration in seconds.
#[derive(Debug, Clone, Copy, PartialEq, Eq, Structural)]
pub struct LockoutInfo {
    pub failures: i32,
    pub interval: i32,
    pub lockout: i32,
}

/// Step data for additional authentication requirements such as MFA or
/// email verification.
#[derive(Debug, Clone)]
pub struct StepData {
    pub step: Step,
    pub user: StepUser,
    pub auth_ticket: AuthTicket,
}

/// The authentication-step descriptor.
#[derive(Debug, Clone)]
pub struct Step {
    pub step_type: String,
    pub component_name: String,
    pub props: StepProps,
}

#[derive(Debug, Clone)]
pub struct StepProps {
    pub email: String,
}

#[derive(Debug, Clone)]
pub struct StepUser {
    pub id: String,
    pub account_type: String,
    pub country: String,
    pub ui_language: String,
}

/// Complete login data with full user information.
#[derive(Debug, Clone)]
pub struct Data {
    pub user: User,
    pub messages: DataMessages,
    pub notifications: Notifications,
    pub auth_ticket: AuthTicket,
    pub invitations: Vec<String>,
}

/// A bearer credential: an opaque token with its expiry (epoch seconds)
/// and duration (seconds).
#[derive(Debug, Clone)]
pub struct AuthTicket {
    pub token: String,
    pub expires: i64,
    pub duration: i64,
}

impl AuthTicket {
    /// An owned copy equal to this ticket.
    pub fn dup(&self) -> (r: AuthTicket)
        ensures
            r == *self,
    {
        AuthTicket { token: self.token.clone(), expires: self.expires, duration: self.duration }
    }
}

#[derive(Debug, Clone, Copy, PartialEq, Eq, Structural)]
pub struct DataMessages {
    pub unread: i32,
}

#[derive(Debug, Clone, Copy, PartialEq, Eq, Structural)]
pub struct Notifications {
    pub unresolved: i32,
}

/// User profile information.
#[derive(Debug, Clone)]
pub struct User {
    pub id: String,
    pub first_name: String,
    pub last_name: String,
    pub email: String,
    pub country: String,
    pub ui_language: String,
    pub communication_language: String,
    pub account_type: String,
    pub uom: String,
    pub date_format: String,
    pub time_format: String,
    pub email_day: Vec<i32>,
    pub system: System,
    pub details: Details,
    pub two_factor: Option<TwoFactor>,
    pub created: i64,
    pub last_login: i64,
    pub programs: Details,
    pub date_of_birth: i64,
    pub practices: Details,
    pub devices: Details,
    pub consents: Consents,
}

#[derive(Debug, Clone)]
pub struct TwoFactor {
    pub primary_method: String,
    pub primary_value: String,
    pub secondary_method: String,
    pub secondary_value: String,
}

#[derive(Debug, Clone, Copy, PartialEq, Eq, Structural)]
pub struct Consents {
    pub llu: Llu,
}

#[derive(Debug, Clone, Copy, PartialEq, Eq, Structural)]
pub struct Llu {
    pub policy_accept: i64,
    pub tou_accept: i64,
}

/// Empty details object.
#[derive(Debug, Clone, Copy, PartialEq, Eq, Structural)]
pub struct Details {}

#[derive(Debug, Clone)]
pub struct System {
    pub messages: SystemMessages,
}

impl Default for System {
    /// A system record with no message markers set.
    fn default() -> (r: Self)
        ensures
            r.messages.first_use_phoenix is None,
            r.messages.first_use_phoenix_reports_data_merged is None,
            r.messages.llu_getting_started_banner is None,
            r.messages.llu_new_feature_modal is None,
            r.messages.llu_onboarding is None,
            r.messages.lv_web_post_release is None,
            r.messages.app_review_banner is None,
            r.messages.streaming_tour_mandatory is None,
    {
        Self {
            messages: SystemMessages {
                first_use_phoenix: None,
                first_use_phoenix_reports_data_merged: None,
                llu_getting_started_banner: None,
                llu_new_feature_modal: None,
                llu_onboarding: None,
                lv_web_post_release: None,
                app_review_banner: None,
                streaming_tour_mandatory: None,
            },
        }
    }
}

#[derive(Debug, Clone)]
pub struct SystemMessages {
    pub first_use_phoenix: Option<i64>,
    pub first_use_phoenix_reports_data_merged: Option<i64>,
    pub llu_getting_started_banner: Option<i64>,
    pub llu_new_feature_modal: Option<i64>,
    pub llu_onboarding: Option<i64>,
    pub lv_web_post_release: Option<String>,
    pub app_review_banner: Option<i64>,
    pub streaming_tour_mandatory: Option<i64>,
}

/// The structural parts a wire login payload may carry. The wire shape has
/// no type tag: which parts are present decides, in a fixed priority order,
/// what the payload means.
#[derive(Debug, Clone)]
pub struct RawLoginPayload {
    pub status: i32,
    pub redirect: Option<LoginRedirectData>,
    pub step: Option<StepData>,
    pub lockout: Option<LockoutInfo>,
    pub auth: Option<Data>,
}

/// Result of one login attempt, as a tagged variant.
#[derive(Debug, Clone)]
pub enum LoginOutcome {
    /// The account lives in another region; retry there.
    Redirected { region: String },
    /// A usable ticket and user identity.
    Authenticated { ticket: AuthTicket, user: User },
    /// The server demands an additional verification step; never retried
    /// automatically.
    StepRequired { step: StepData },
    /// The account is rate limited; the raw counters are surfaced so the
    /// caller can decide on backoff.
    Locked { failures: i32, interval: i32, lockout: i32 },
    /// The payload matched none of the expected shapes.
    Malformed,
}

/// Whether the payload carries a redirect flag set true.
pub open spec fn has_active_redirect(p: RawLoginPayload) -> bool {
    match p.redirect {
        Some(rd) => rd.redirect,
        None => false,
    }
}

/// Whether the payload carries complete credentials: a non-empty token and
/// a non-empty user identity.
pub open spec fn has_complete_auth(p: RawLoginPayload) -> bool {
    match p.auth {
        Some(d) => d.auth_ticket.token@.len() > 0 && d.user.id@.len() > 0,
        None => false,
    }
}

/// What a wire login payload means, decided structurally in a fixed
/// priority order: an active redirect wins, then step metadata, then
/// lockout counters; everything else must carry complete credentials or it
/// is malformed.
pub open spec fn spec_classify_login(p: RawLoginPayload) -> LoginOutcome {
    if has_active_redirect(p) {
        LoginOutcome::Redirected { region: p.redirect->0.region }
    } else if p.step is Some {
        LoginOutcome::StepRequired { step: p.step->0 }
    } else if p.lockout is Some {
        LoginOutcome::Locked {
            failures: p.lockout->0.failures,
            interval: p.lockout->0.interval,
            lockout: p.lockout->0.lockout,
        }
    } else if has_complete_auth(p) {
        LoginOutcome::Authenticated { ticket: p.auth->0.auth_ticket, user: p.auth->0.user }
    } else {
        LoginOutcome::Malformed
    }
}

/// Discriminate a wire login payload into its outcome, by the fixed
/// priority order of `spec_classify_login`. A redirect is never treated as
/// a failure; an authenticated payload without a token or user identity is
/// malformed, never a silent success.
pub fn classify_login(payload: RawLoginPayload) -> (r: LoginOutcome)
    ensures
        r == spec_classify_login(payload),
{
    let RawLoginPayload { status: _, redirect, step, lockout, auth } = payload;
    if let Some(rd) = redirect {
        if rd.redirect {
            return LoginOutcome::Redirected { region: rd.region };
        }
    }
    if let Some(s) = step {
        return LoginOutcome::StepRequired { step: s };
    }
    if let Some(l) = lockout {
        return LoginOutcome::Locked {
            failures: l.failures,
            interval: l.interval,
            lockout: l.lockout,
        };
    }
    if let Some(d) = auth {
        if !d.auth_ticket.token.as_str().is_empty() && !d.user.id.as_str().is_empty() {
            return LoginOutcome::Authenticated { ticket: d.auth_ticket, user: d.user };
        }
    }
    LoginOutcome::Malformed
}

/// A payload with lockout counters and no active redirect and no step
/// metadata is always `Locked` with exactly those counters, never
/// `Authenticated`, whatever else it carries.
pub proof fn lemma_locked_never_authenticated(p: RawLoginPayload)
    requires
        !has_active_redirect(p),
        p.step is None,
        p.lockout is Some,
    ensures
        spec_classify_login(p) == (LoginOutcome::Locked {
            failures: p.lockout->0.failures,
            interval: p.lockout->0.interval,
            lockout: p.lockout->0.lockout,
        }),
        !(spec_classify_login(p) is Authenticated),
{
}

/// A payload whose redirect flag is set always classifies as `Redirected`
/// to the named region, whatever else it carries.
pub proof fn lemma_redirect_wins(p: RawLoginPayload)
    requires
        has_active_redirect(p),
    ensures
        spec_classify_login(p) == (LoginOutcome::Redirected { region: p.redirect->0.region }),
{
}

} // verus!
