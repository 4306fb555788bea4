use rfs::error::api::ApiErrorKind;
use rfs::routing::auth::session::{
    drop, new_session, request, submit, verify, Denial, DropAction, Lookup, Reply, SessionState,
    Submitted, VerifyMethod,
};

fn lookup_of(s: SessionState) -> Lookup {
    if !s.authenticated {
        Lookup::SessionUnauthenticated
    } else if !s.verified {
        Lookup::SessionUnverified
    } else {
        Lookup::Found
    }
}

#[test]
fn request_needs_no_session() {
    assert!(request(Lookup::MechanismNotFound, true, true) == Ok(new_session(true)));
    assert!(request(Lookup::MechanismNotFound, true, false) == Ok(new_session(false)));
    assert!(
        request(Lookup::MechanismNotFound, false, true) == Err(Denial::Kind(ApiErrorKind::UserNotFound))
    );
    assert!(request(Lookup::Found, true, true) == Err(Denial::Kind(ApiErrorKind::AlreadyAuthenticated)));
    assert!(request(Lookup::SessionExpired, true, true) == Err(Denial::LookupError));
}

#[test]
fn password_only_login() {
    let s = new_session(false);
    assert!(s.verify_method == VerifyMethod::NoFactor);
    let (n, reply) = match submit(lookup_of(s), s, true) {
        Ok(x) => x,
        Err(_) => panic!("password refused"),
    };
    assert!(reply == Reply::NoContent);
    assert!(n.authenticated && n.verified);
    assert!(submit(lookup_of(n), n, true) == Err(Denial::Kind(ApiErrorKind::AlreadyAuthenticated)));
}

#[test]
fn totp_login() {
    let s = new_session(true);
    let (n, reply) = match submit(lookup_of(s), s, true) {
        Ok(x) => x,
        Err(_) => panic!("password refused"),
    };
    assert!(reply == Reply::RequestTotp);
    assert!(n.authenticated && !n.verified);
    assert!(submit(lookup_of(n), n, true) == Err(Denial::Kind(ApiErrorKind::VerifyRequired)));
    assert!(
        verify(lookup_of(n), n, Submitted::Totp, false)
            == Err(Denial::Kind(ApiErrorKind::InvalidTotp))
    );
    assert!(
        verify(lookup_of(n), n, Submitted::TotpHash, false)
            == Err(Denial::Kind(ApiErrorKind::InvalidTotpHash))
    );
    let v = match verify(lookup_of(n), n, Submitted::Totp, true) {
        Ok(v) => v,
        Err(_) => panic!("code refused"),
    };
    assert!(v.authenticated && v.verified);
}

#[test]
fn wrong_password() {
    let s = new_session(true);
    assert!(submit(lookup_of(s), s, false) == Err(Denial::Kind(ApiErrorKind::InvalidPassword)));
}

#[test]
fn verify_before_password() {
    let s = new_session(true);
    assert!(
        verify(lookup_of(s), s, Submitted::Totp, true) == Err(Denial::Kind(ApiErrorKind::AuthRequired))
    );
}

#[test]
fn verify_without_second_factor() {
    let s = SessionState { authenticated: true, verified: false, verify_method: VerifyMethod::NoFactor };
    assert!(
        verify(Lookup::SessionUnverified, s, Submitted::Totp, true)
            == Err(Denial::Kind(ApiErrorKind::InvalidAuthMethod))
    );
}

#[test]
fn dropping_sessions() {
    assert!(drop(Lookup::SessionNotFound) == Ok(DropAction::ExpireCookie));
    assert!(drop(Lookup::Found) == Ok(DropAction::DeleteSession));
    assert!(drop(Lookup::SessionExpired) == Ok(DropAction::DeleteSession));
    assert!(drop(Lookup::UserNotFound) == Ok(DropAction::DeleteSession));
    assert!(drop(Lookup::MechanismNotFound) == Err(Denial::LookupError));
    assert!(drop(Lookup::Failed) == Err(Denial::LookupError));
}

#[test]
fn recovery_hash_is_used_once() {
    use_recovery_hash_checks();
}

fn use_recovery_hash_checks() {
    let refused = Err(Denial::Kind(ApiErrorKind::InvalidTotpHash));
    assert!(rfs::routing::auth::session::use_recovery_hash(None, true) == refused);
    assert!(rfs::routing::auth::session::use_recovery_hash(Some(true), true) == refused);
    assert!(rfs::routing::auth::session::use_recovery_hash(Some(false), false) == refused);
    let used = rfs::routing::auth::session::use_recovery_hash(Some(false), true);
    assert!(used == Ok(true));
    assert!(rfs::routing::auth::session::use_recovery_hash(Some(true), true) == refused);
}
