//! The kinds of errors that API requests are answered with.
use vstd::prelude::*;

verus! {

/// Why an API request was refused.
#[derive(PartialEq, Eq, Structural, Clone, Copy, Debug)]
pub enum ApiErrorKind {
    NotFound,
    NoWork,
    AlreadyExists,
    AlreadyAuthenticated,
    VerifyRequired,
    AuthRequired,
    InvalidAuthMethod,
    InvalidPassword,
    InvalidTotp,
    InvalidTotpHash,
    InvalidHeaderValue,
    InvalidHash,
    InvalidMimeType,
    NoContentType,
    MaxSize,
    MissingData,
    SecretNotFound,
    FileNotFound,
    LookupFailed,
    StorageNotFound,
    PermissionDenied,
    NotAbsolutePath,
    DirNotFound,
    NotDirectory,
    ValidationFailed,
    InvalidType,
    InvalidTags,
    UserNotFound,
    RoleNotFound,
}

} // verus!
