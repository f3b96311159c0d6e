use libre_link_up_api_client::auth::{AuthAttempt, AuthStep};
use libre_link_up_api_client::countries::{RegionalMap, AE};
use libre_link_up_api_client::errors::AuthError;
use libre_link_up_api_client::login::{
    classify_login, AuthTicket, Consents, Data, DataMessages, Details, Llu, LockoutInfo,
    LoginOutcome, LoginRedirectData, Notifications, RawLoginPayload, Step, StepData, StepProps,
    StepUser, System, User,
};
use libre_link_up_api_client::region::{region_code_of, resolve_region, Region, RegionCode};

fn user(id: &str) -> User {
    User {
        id: id.to_owned(),
        first_name: String::new(),
        last_name: String::new(),
        email: String::new(),
        country: "us".to_owned(),
        ui_language: String::new(),
        communication_language: String::new(),
        account_type: String::new(),
        uom: String::new(),
        date_format: String::new(),
        time_format: String::new(),
        email_day: Vec::new(),
        system: System::default(),
        details: Details {},
        two_factor: None,
        created: 0,
        last_login: 0,
        programs: Details {},
        date_of_birth: 0,
        practices: Details {},
        devices: Details {},
        consents: Consents { llu: Llu { policy_accept: 0, tou_accept: 0 } },
    }
}

fn complete_data(token: &str, user_id: &str) -> Data {
    Data {
        user: user(user_id),
        messages: DataMessages { unread: 0 },
        notifications: Notifications { unresolved: 0 },
        auth_ticket: AuthTicket { token: token.to_owned(), expires: 1000, duration: 3600 },
        invitations: Vec::new(),
    }
}

fn payload() -> RawLoginPayload {
    RawLoginPayload { status: 0, redirect: None, step: None, lockout: None, auth: None }
}

fn step_data() -> StepData {
    StepData {
        step: Step {
            step_type: "verifyEmail".to_owned(),
            component_name: "VerifyEmail".to_owned(),
            props: StepProps { email: "a@b.c".to_owned() },
        },
        user: StepUser {
            id: "u1".to_owned(),
            account_type: String::new(),
            country: "us".to_owned(),
            ui_language: String::new(),
        },
        auth_ticket: AuthTicket { token: String::new(), expires: 0, duration: 0 },
    }
}

fn endpoints(name: &str) -> AE {
    AE { lsl_api: format!("https://api-{name}.example"), socket_hub: format!("https://hub-{name}.example") }
}

fn map() -> RegionalMap {
    RegionalMap {
        us: endpoints("us"),
        eu: endpoints("eu"),
        fr: endpoints("fr"),
        jp: endpoints("jp"),
        de: endpoints("de"),
        ap: endpoints("ap"),
        au: endpoints("au"),
        ae: endpoints("ae"),
        eu2: endpoints("eu2"),
    }
}

#[test]
fn redirect_payload_classifies_as_redirected() {
    let p = RawLoginPayload {
        redirect: Some(LoginRedirectData { redirect: true, region: "us".to_owned() }),
        ..payload()
    };
    match classify_login(p) {
        LoginOutcome::Redirected { region } => assert_eq!(region, "us"),
        other => panic!("expected a redirect, got {other:?}"),
    }
}

#[test]
fn redirect_flag_false_is_not_a_redirect() {
    let p = RawLoginPayload {
        redirect: Some(LoginRedirectData { redirect: false, region: "us".to_owned() }),
        auth: Some(complete_data("tok", "u1")),
        ..payload()
    };
    assert!(matches!(classify_login(p), LoginOutcome::Authenticated { .. }));
}

#[test]
fn lockout_payload_classifies_as_locked_never_authenticated() {
    let p = RawLoginPayload {
        lockout: Some(LockoutInfo { failures: 5, interval: 60, lockout: 1800 }),
        auth: Some(complete_data("tok", "u1")),
        ..payload()
    };
    match classify_login(p) {
        LoginOutcome::Locked { failures, interval, lockout } => {
            assert_eq!((failures, interval, lockout), (5, 60, 1800));
        },
        other => panic!("expected locked, got {other:?}"),
    }
}

#[test]
fn step_metadata_wins_over_lockout_and_auth() {
    let p = RawLoginPayload {
        step: Some(step_data()),
        lockout: Some(LockoutInfo { failures: 1, interval: 2, lockout: 3 }),
        auth: Some(complete_data("tok", "u1")),
        ..payload()
    };
    assert!(matches!(classify_login(p), LoginOutcome::StepRequired { .. }));
}

#[test]
fn empty_token_is_malformed_not_success() {
    let p = RawLoginPayload { auth: Some(complete_data("", "u1")), ..payload() };
    assert!(matches!(classify_login(p), LoginOutcome::Malformed));
    let p2 = RawLoginPayload { auth: Some(complete_data("tok", "")), ..payload() };
    assert!(matches!(classify_login(p2), LoginOutcome::Malformed));
    let p3 = payload();
    assert!(matches!(classify_login(p3), LoginOutcome::Malformed));
}

#[test]
fn redirect_then_authenticated_yields_session() {
    let attempt = AuthAttempt::begin(Region::Global);
    let step = attempt.on_outcome(LoginOutcome::Redirected { region: "us".to_owned() });
    let attempt = match step {
        AuthStep::Continue(a) => a,
        other => panic!("expected a re-attempt, got {other:?}"),
    };
    assert!(matches!(attempt.current, Region::US));
    let outcome = classify_login(RawLoginPayload {
        auth: Some(complete_data("tok", "u1")),
        ..payload()
    });
    match attempt.on_outcome(outcome) {
        AuthStep::Authenticated(s) => {
            assert!(matches!(s.region, Region::US));
            assert_eq!(s.ticket.token, "tok");
            assert_eq!(s.user_id, "u1");
        },
        other => panic!("expected a session, got {other:?}"),
    }
}

#[test]
fn revisiting_a_region_is_a_redirect_loop() {
    let attempt = AuthAttempt::begin(Region::US);
    let step = attempt.on_outcome(LoginOutcome::Redirected { region: "eu".to_owned() });
    let attempt = match step {
        AuthStep::Continue(a) => a,
        other => panic!("expected a re-attempt, got {other:?}"),
    };
    // redirect back to a region already attempted in this call
    match attempt.on_outcome(LoginOutcome::Redirected { region: "us".to_owned() }) {
        AuthStep::Failed(AuthError::RedirectLoop) => {},
        other => panic!("expected a redirect loop, got {other:?}"),
    }
}

#[test]
fn step_and_lockout_outcomes_are_terminal() {
    let attempt = AuthAttempt::begin(Region::Global);
    match attempt.on_outcome(LoginOutcome::StepRequired { step: step_data() }) {
        AuthStep::Failed(AuthError::StepRequired(_)) => {},
        other => panic!("expected step required, got {other:?}"),
    }
    let attempt = AuthAttempt::begin(Region::Global);
    match attempt.on_outcome(LoginOutcome::Locked { failures: 5, interval: 60, lockout: 1800 }) {
        AuthStep::Failed(AuthError::Locked(l)) => {
            assert_eq!(l, LockoutInfo { failures: 5, interval: 60, lockout: 1800 });
        },
        other => panic!("expected locked, got {other:?}"),
    }
    let attempt = AuthAttempt::begin(Region::Global);
    match attempt.on_outcome(LoginOutcome::Malformed) {
        AuthStep::Failed(AuthError::MalformedResponse) => {},
        other => panic!("expected malformed, got {other:?}"),
    }
}

#[test]
fn redirect_to_unknown_region_fails() {
    let attempt = AuthAttempt::begin(Region::Global);
    match attempt.on_outcome(LoginOutcome::Redirected { region: "zz".to_owned() }) {
        AuthStep::Failed(AuthError::UnknownRegion) => {},
        other => panic!("expected unknown region, got {other:?}"),
    }
}

#[test]
fn regional_map_lookup() {
    let m = map();
    assert_eq!(m.get("us").unwrap().lsl_api, "https://api-us.example");
    assert_eq!(m.get("eu2").unwrap().socket_hub, "https://hub-eu2.example");
    assert_eq!(m.get("ae").unwrap().lsl_api, "https://api-ae.example");
    assert!(m.get("ca").is_none()); // no entry: not found, never a default
    assert!(m.get("").is_none());
    assert!(m.get("US").is_none());
}

#[test]
fn resolve_region_cases() {
    let m = map();
    let r = resolve_region(&Region::US, &m).unwrap();
    assert_eq!(r.lsl_api, "https://api-us.example");
    // custom override is used verbatim for both hosts
    let c = resolve_region(&Region::Custom("https://own.example".to_owned()), &m).unwrap();
    assert_eq!(c.lsl_api, "https://own.example");
    assert_eq!(c.socket_hub, "https://own.example");
    // the global pseudo-region never resolves to a data host
    assert!(matches!(resolve_region(&Region::Global, &m), Err(AuthError::UnknownRegion)));
    // codes without a map entry are unknown
    assert!(matches!(resolve_region(&Region::CA, &m), Err(AuthError::UnknownRegion)));
}

#[test]
fn login_targets_global_endpoint_first() {
    let m = map();
    let base = libre_link_up_api_client::region::login_api_base(&Region::Global, &m).unwrap();
    assert_eq!(base, "https://api.libreview.io");
    let base_us = libre_link_up_api_client::region::login_api_base(&Region::US, &m).unwrap();
    assert_eq!(base_us, "https://api-us.example");
    let base_own =
        libre_link_up_api_client::region::login_api_base(&Region::Custom("https://o.example".to_owned()), &m)
            .unwrap();
    assert_eq!(base_own, "https://o.example");
    assert!(libre_link_up_api_client::region::login_api_base(&Region::RU, &m).is_err());
}

#[test]
fn default_system_has_no_markers() {
    let s = System::default();
    assert!(s.messages.first_use_phoenix.is_none());
    assert!(s.messages.lv_web_post_release.is_none());
    assert!(s.messages.streaming_tour_mandatory.is_none());
}

#[test]
fn region_codes_parse() {
    assert_eq!(region_code_of("us"), Some(RegionCode::Us));
    assert_eq!(region_code_of("eu2"), Some(RegionCode::Eu2));
    assert_eq!(region_code_of("cn"), Some(RegionCode::Cn));
    assert_eq!(region_code_of("global"), None);
    assert_eq!(region_code_of(""), None);
}
