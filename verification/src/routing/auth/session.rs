//! Session authentication: a session is requested for a user, then
//! authenticated with a password, then (when the user has a second factor)
//! verified with a TOTP code or a recovery hash, and finally dropped.
//! Each step is decided here from what looking up the request's session
//! gave and from the outcome of the checks made against stored secrets.
use vstd::prelude::*;
use crate::error::api::ApiErrorKind;

verus! {

/// The second factor a session must be verified with.
#[derive(PartialEq, Eq, Structural, Clone, Copy)]
pub enum VerifyMethod {
    NoFactor,
    Totp,
}

/// The authentication state of a session.
#[derive(PartialEq, Eq, Structural, Clone, Copy)]
pub struct SessionState {
    pub authenticated: bool,
    pub verified: bool,
    pub verify_method: VerifyMethod,
}

/// What looking up the session of a request gave.
#[derive(PartialEq, Eq, Structural, Clone, Copy)]
pub enum Lookup {
    /// An authenticated and verified session of an existing user.
    Found,
    /// The request carries no session.
    MechanismNotFound,
    /// The request names a session that does not exist.
    SessionNotFound,
    SessionExpired,
    SessionUnauthenticated,
    SessionUnverified,
    /// The session's user does not exist.
    UserNotFound,
    /// The lookup itself failed.
    Failed,
}

/// Why a request is refused: an API error, or the lookup's own error.
#[derive(PartialEq, Eq, Structural, Clone, Copy)]
pub enum Denial {
    Kind(ApiErrorKind),
    LookupError,
}

/// How a live, unexpired session of an existing user is classified.
pub open spec fn classify(s: SessionState) -> Lookup {
    if !s.authenticated {
        Lookup::SessionUnauthenticated
    } else if !s.verified {
        Lookup::SessionUnverified
    } else {
        Lookup::Found
    }
}

/// Requesting a new session for a user: only a request that carries no
/// session may ask (an authenticated one is answered `AlreadyAuthenticated`,
/// a failed lookup with its own error); then the user must exist
/// (`UserNotFound`), and the new session is neither authenticated nor
/// verified, and is to be verified with TOTP when the user has TOTP as its
/// primary second factor.
pub open spec fn request_spec(lookup: Lookup, user_found: bool, has_totp: bool) -> Result<SessionState, Denial> {
    match lookup {
        Lookup::Found => Err(Denial::Kind(ApiErrorKind::AlreadyAuthenticated)),
        Lookup::MechanismNotFound => if !user_found {
            Err(Denial::Kind(ApiErrorKind::UserNotFound))
        } else {
            Ok(
                SessionState {
                    authenticated: false,
                    verified: false,
                    verify_method: if has_totp { VerifyMethod::Totp } else { VerifyMethod::NoFactor },
                },
            )
        },
        _ => Err(Denial::LookupError),
    }
}

/// Decides a session request (see [`request_spec`]): `user_found` says
/// whether the named user exists, `has_totp` whether TOTP is its primary
/// second factor.
pub fn request(lookup: Lookup, user_found: bool, has_totp: bool) -> (r: Result<SessionState, Denial>)
    ensures
        r == request_spec(lookup, user_found, has_totp),
{
    match lookup {
        Lookup::Found => Err(Denial::Kind(ApiErrorKind::AlreadyAuthenticated)),
        Lookup::MechanismNotFound => {
            if !user_found {
                Err(Denial::Kind(ApiErrorKind::UserNotFound))
            } else {
                Ok(new_session(has_totp))
            }
        },
        _ => Err(Denial::LookupError),
    }
}

/// A newly requested session: neither authenticated nor verified, to be
/// verified with TOTP when the user has TOTP set up.
pub fn new_session(has_totp: bool) -> (r: SessionState)
    ensures
        r == (SessionState {
            authenticated: false,
            verified: false,
            verify_method: if has_totp { VerifyMethod::Totp } else { VerifyMethod::NoFactor },
        }),
{
    SessionState {
        authenticated: false,
        verified: false,
        verify_method: if has_totp { VerifyMethod::Totp } else { VerifyMethod::NoFactor },
    }
}

/// The reply to a successful step.
#[derive(PartialEq, Eq, Structural, Clone, Copy)]
pub enum Reply {
    /// Done: no content.
    NoContent,
    /// A TOTP code is required next.
    RequestTotp,
}

/// Submitting a password for the request's session: the session must be
/// unauthenticated, and the password must match (`password_valid`). The
/// session is then authenticated, and verified as well when it needs no
/// second factor.
pub open spec fn submit_spec(lookup: Lookup, s: SessionState, password_valid: bool) -> Result<
    (SessionState, Reply),
    Denial,
> {
    match lookup {
        Lookup::Found => Err(Denial::Kind(ApiErrorKind::AlreadyAuthenticated)),
        Lookup::SessionUnverified => Err(Denial::Kind(ApiErrorKind::VerifyRequired)),
        Lookup::SessionUnauthenticated => if !password_valid {
            Err(Denial::Kind(ApiErrorKind::InvalidPassword))
        } else {
            match s.verify_method {
                VerifyMethod::NoFactor => Ok(
                    (SessionState { authenticated: true, verified: true, ..s }, Reply::NoContent),
                ),
                VerifyMethod::Totp => Ok(
                    (SessionState { authenticated: true, ..s }, Reply::RequestTotp),
                ),
            }
        },
        _ => Err(Denial::LookupError),
    }
}

/// Decides the password step (see [`submit_spec`]).
pub fn submit(lookup: Lookup, s: SessionState, password_valid: bool) -> (r: Result<
    (SessionState, Reply),
    Denial,
>)
    ensures
        r == submit_spec(lookup, s, password_valid),
{
    match lookup {
        Lookup::Found => Err(Denial::Kind(ApiErrorKind::AlreadyAuthenticated)),
        Lookup::SessionUnverified => Err(Denial::Kind(ApiErrorKind::VerifyRequired)),
        Lookup::SessionUnauthenticated => {
            if !password_valid {
                return Err(Denial::Kind(ApiErrorKind::InvalidPassword));
            }
            let mut next = s;
            next.authenticated = true;
            match next.verify_method {
                VerifyMethod::NoFactor => {
                    next.verified = true;
                    Ok((next, Reply::NoContent))
                },
                VerifyMethod::Totp => Ok((next, Reply::RequestTotp)),
            }
        },
        _ => Err(Denial::LookupError),
    }
}

/// A second factor submitted for verification.
#[derive(PartialEq, Eq, Structural, Clone, Copy)]
pub enum Submitted {
    /// A TOTP code.
    Totp,
    /// A recovery hash.
    TotpHash,
}

/// Verifying the request's session with a second factor: the session must
/// be authenticated but unverified and must be verified with TOTP;
/// `accepted` says whether the code was valid, or whether the recovery hash
/// exists, is unused and matches. The session is then verified.
pub open spec fn verify_spec(lookup: Lookup, s: SessionState, submitted: Submitted, accepted: bool) -> Result<
    SessionState,
    Denial,
> {
    match lookup {
        Lookup::Found => Err(Denial::Kind(ApiErrorKind::AlreadyAuthenticated)),
        Lookup::SessionUnauthenticated => Err(Denial::Kind(ApiErrorKind::AuthRequired)),
        Lookup::SessionUnverified => if s.verify_method != VerifyMethod::Totp {
            Err(Denial::Kind(ApiErrorKind::InvalidAuthMethod))
        } else if !accepted {
            Err(
                Denial::Kind(
                    match submitted {
                        Submitted::Totp => ApiErrorKind::InvalidTotp,
                        Submitted::TotpHash => ApiErrorKind::InvalidTotpHash,
                    },
                ),
            )
        } else {
            Ok(SessionState { verified: true, ..s })
        },
        _ => Err(Denial::LookupError),
    }
}

/// Decides the verification step (see [`verify_spec`]).
pub fn verify(lookup: Lookup, s: SessionState, submitted: Submitted, accepted: bool) -> (r: Result<
    SessionState,
    Denial,
>)
    ensures
        r == verify_spec(lookup, s, submitted, accepted),
{
    match lookup {
        Lookup::Found => Err(Denial::Kind(ApiErrorKind::AlreadyAuthenticated)),
        Lookup::SessionUnauthenticated => Err(Denial::Kind(ApiErrorKind::AuthRequired)),
        Lookup::SessionUnverified => {
            if s.verify_method != VerifyMethod::Totp {
                return Err(Denial::Kind(ApiErrorKind::InvalidAuthMethod));
            }
            if !accepted {
                return Err(
                    Denial::Kind(
                        match submitted {
                            Submitted::Totp => ApiErrorKind::InvalidTotp,
                            Submitted::TotpHash => ApiErrorKind::InvalidTotpHash,
                        },
                    ),
                );
            }
            let mut next = s;
            next.verified = true;
            Ok(next)
        },
        _ => Err(Denial::LookupError),
    }
}

/// What dropping the request's session does.
#[derive(PartialEq, Eq, Structural, Clone, Copy)]
pub enum DropAction {
    /// There is no such session: only the cookie is expired.
    ExpireCookie,
    /// The session is deleted and the cookie expired.
    DeleteSession,
}

/// Dropping the request's session: any session that exists is deleted,
/// whatever its state; a missing one only has its cookie expired.
pub open spec fn drop_spec(lookup: Lookup) -> Result<DropAction, Denial> {
    match lookup {
        Lookup::SessionNotFound => Ok(DropAction::ExpireCookie),
        Lookup::Found | Lookup::SessionExpired | Lookup::SessionUnauthenticated
        | Lookup::SessionUnverified | Lookup::UserNotFound => Ok(DropAction::DeleteSession),
        _ => Err(Denial::LookupError),
    }
}

/// Decides what dropping the session does (see [`drop_spec`]).
pub fn drop(lookup: Lookup) -> (r: Result<DropAction, Denial>)
    ensures
        r == drop_spec(lookup),
{
    match lookup {
        Lookup::SessionNotFound => Ok(DropAction::ExpireCookie),
        Lookup::Found | Lookup::SessionExpired | Lookup::SessionUnauthenticated
        | Lookup::SessionUnverified | Lookup::UserNotFound => Ok(DropAction::DeleteSession),
        _ => Err(Denial::LookupError),
    }
}

/// A session state that can be reached: verified only when authenticated.
pub open spec fn consistent(s: SessionState) -> bool {
    s.verified ==> s.authenticated
}

/// Law: starting from a newly requested session, every step keeps the
/// session consistent, so a session is never verified without having been
/// authenticated; and no step succeeds on a session that is already fully
/// authenticated.
pub proof fn lemma_steps_keep_consistent(s: SessionState, password_valid: bool, submitted: Submitted, accepted: bool)
    requires
        consistent(s),
    ensures
        submit_spec(classify(s), s, password_valid) matches Ok((n, _)) ==> consistent(n) && n.authenticated,
        verify_spec(classify(s), s, submitted, accepted) matches Ok(n) ==> consistent(n) && n.verified,
        classify(s) == Lookup::Found ==> submit_spec(classify(s), s, password_valid) is Err
            && verify_spec(classify(s), s, submitted, accepted) is Err,
        consistent(SessionState { authenticated: false, verified: false, verify_method: s.verify_method }),
{
}

/// Law: a session becomes verified only through a step that checked a
/// secret: a valid password when no second factor is required, or an
/// accepted second factor.
pub proof fn lemma_verified_needs_secret(
    lookup: Lookup,
    s: SessionState,
    password_valid: bool,
    submitted: Submitted,
    accepted: bool,
)
    requires
        !s.verified,
    ensures
        submit_spec(lookup, s, password_valid) matches Ok((n, _)) ==> password_valid && (n.verified
            ==> s.verify_method == VerifyMethod::NoFactor),
        verify_spec(lookup, s, submitted, accepted) is Ok ==> accepted && s.verify_method
            == VerifyMethod::Totp,
{
}


/// Checking a submitted recovery hash: it must be stored for the user
/// (`stored` gives its used flag), unused, and match; otherwise it is
/// refused with `InvalidTotpHash`. An accepted hash is stored back as used
/// (the flag given back).
pub open spec fn recovery_spec(stored: Option<bool>, matches: bool) -> Result<bool, Denial> {
    match stored {
        None => Err(Denial::Kind(ApiErrorKind::InvalidTotpHash)),
        Some(used) => if used || !matches {
            Err(Denial::Kind(ApiErrorKind::InvalidTotpHash))
        } else {
            Ok(true)
        },
    }
}

/// Checks a submitted recovery hash (see [`recovery_spec`]); `matches` is
/// whether the stored hash verifies the submitted one.
pub fn use_recovery_hash(stored: Option<bool>, matches: bool) -> (r: Result<bool, Denial>)
    ensures
        r == recovery_spec(stored, matches),
{
    match stored {
        None => Err(Denial::Kind(ApiErrorKind::InvalidTotpHash)),
        Some(used) => {
            if used || !matches {
                Err(Denial::Kind(ApiErrorKind::InvalidTotpHash))
            } else {
                Ok(true)
            }
        },
    }
}

/// Law: a recovery hash is accepted at most once: once accepted it is stored
/// as used, and any later submission of it is refused with
/// `InvalidTotpHash`.
pub proof fn lemma_recovery_hash_used_once(stored: Option<bool>, first: bool, later: bool)
    ensures
        recovery_spec(stored, first) matches Ok(used) ==> recovery_spec(Some(used), later) == Err::<
            bool,
            Denial,
        >(Denial::Kind(ApiErrorKind::InvalidTotpHash)),
{
}


/// Law: a session that passed the password step and waits for its TOTP
/// second factor is verified by any accepted second factor, code or
/// recovery hash alike, and nothing else of it changes; a factor that is not
/// accepted is refused with the error of its kind and verifies nothing.
pub proof fn lemma_verify_accepts_any_factor(s: SessionState, submitted: Submitted, accepted: bool)
    requires
        s.verify_method == VerifyMethod::Totp,
    ensures
        accepted ==> verify_spec(Lookup::SessionUnverified, s, submitted, accepted) == Ok::<
            SessionState,
            Denial,
        >(SessionState { verified: true, ..s }),
        !accepted ==> verify_spec(Lookup::SessionUnverified, s, submitted, accepted) == Err::<
            SessionState,
            Denial,
        >(
            Denial::Kind(
                if submitted == Submitted::Totp {
                    ApiErrorKind::InvalidTotp
                } else {
                    ApiErrorKind::InvalidTotpHash
                },
            ),
        ),
{
}

/// Law: logging out deletes every session the lookup found, whatever its
/// state (authenticated or not, verified or not, expired, or of a user that
/// no longer exists); a session that does not exist only has its cookie
/// expired; only a request with no session at all or a failed lookup is
/// refused.
pub proof fn lemma_drop_deletes_found_sessions(lookup: Lookup)
    ensures
        (lookup == Lookup::Found || lookup == Lookup::SessionExpired || lookup
            == Lookup::SessionUnauthenticated || lookup == Lookup::SessionUnverified || lookup
            == Lookup::UserNotFound) ==> drop_spec(lookup) == Ok::<DropAction, Denial>(
            DropAction::DeleteSession,
        ),
        lookup == Lookup::SessionNotFound ==> drop_spec(lookup) == Ok::<DropAction, Denial>(
            DropAction::ExpireCookie,
        ),
        drop_spec(lookup) is Err <==> (lookup == Lookup::MechanismNotFound || lookup == Lookup::Failed),
{
}

} // verus!
