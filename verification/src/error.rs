//! The server's general error type and helpers that attach context to
//! failures.
use vstd::prelude::*;
use vstd::string::*;
use crate::text::push_decimal;

pub mod base;
pub mod api;

pub use base::Er;

verus! {

/// A plain text error description.
pub struct StrError(pub String);

impl Default for StrError {
    /// The description `Error`.
    fn default() -> (r: Self)
        ensures
            r.0@ == "Error"@,
    {
        StrError(String::from_str("Error"))
    }
}

/// The error type of configuration loading and of the background jobs.
pub type Error = Er<StrError>;

/// An error whose description is `Error` and that has no context or cause.
pub open spec fn is_fresh(e: Error) -> bool {
    &&& e.inner.0@ == "Error"@
    &&& e.cxt is None
    &&& e.src is None
}

/// An error with the description `Error`, the given context and cause.
pub open spec fn is_plain_error(e: Error, cxt: Option<Seq<char>>, src: Option<Seq<char>>) -> bool {
    &&& e.inner.0@ == "Error"@
    &&& match (e.cxt, cxt) {
        (None, None) => true,
        (Some(a), Some(b)) => a@ == b,
        _ => false,
    }
    &&& match (e.src, src) {
        (None, None) => true,
        (Some(a), Some(b)) => a@ == b,
        _ => false,
    }
}

impl Er<StrError> {
    /// An error described as `Error`, without context or cause.
    pub fn new() -> (r: Self)
        ensures
            is_fresh(r),
    {
        Er { inner: StrError::default(), cxt: None, src: None }
    }

    /// Replaces the description, keeping context and cause.
    pub fn kind(self, kind: &str) -> (r: Self)
        ensures
            r.inner.0@ == kind@,
            r.cxt == self.cxt,
            r.src == self.src,
    {
        let mut s = self;
        s.inner = StrError(kind.to_owned());
        s
    }

    /// An error described as `Error` whose context is `msg` (what converting a
    /// message into an error gives).
    pub fn from_message(msg: &str) -> (r: Self)
        ensures
            is_plain_error(r, Some(msg@), None),
    {
        Self::new().context(msg)
    }

    /// The text the error displays: the description, then the context and the
    /// cause on lines of their own.
    pub fn to_display_string(&self) -> (r: String)
        ensures
            r@ == display_spec(*self),
    {
        let mut s = self.inner.0.clone();
        match &self.cxt {
            Some(c) => {
                s.append("\ncxt: ");
                s.append(c.as_str());
            },
            None => {},
        }
        match &self.src {
            Some(e) => {
                s.append("\nerr: ");
                s.append(e.as_str());
            },
            None => {},
        }
        s
    }
}

/// The text an error displays: its description, then its context and its
/// cause on lines of their own. The cause is held as the text `{:?}` renders
/// of the causing error, and is shown as held.
pub open spec fn display_spec(e: Error) -> Seq<char> {
    let with_cxt = match e.cxt {
        Some(c) => e.inner.0@ + "\ncxt: "@ + c@,
        None => e.inner.0@,
    };
    match e.src {
        Some(s) => with_cxt + "\nerr: "@ + s@,
        None => with_cxt,
    }
}

/// Turning a missing value or a failure into an [`Error`].
pub trait Context<T>: Sized {
    /// The value, or an error carrying the context `cxt`.
    fn context(self, cxt: &str) -> Result<T, Error>;

    /// The value, or an error described as `kind`.
    fn kind(self, kind: &str) -> Result<T, Error>;
}

impl<T> Context<T> for Option<T> {
    fn context(self, cxt: &str) -> (r: Result<T, Error>)
        ensures
            match self {
                Some(v) => r == Ok::<T, Error>(v),
                None => r is Err && is_plain_error(r->Err_0, Some(cxt@), None),
            },
    {
        match self {
            Some(v) => Ok(v),
            None => Err(Error::new().context(cxt)),
        }
    }

    fn kind(self, kind: &str) -> (r: Result<T, Error>)
        ensures
            match self {
                Some(v) => r == Ok::<T, Error>(v),
                None => r is Err && r->Err_0.inner.0@ == kind@ && r->Err_0.cxt is None
                    && r->Err_0.src is None,
            },
    {
        match self {
            Some(v) => Ok(v),
            None => Err(Er { inner: StrError(kind.to_owned()), cxt: None, src: None }),
        }
    }
}

/// How `{:?}` renders a text: between double quotes, with quotes,
/// backslashes and special characters escaped.
pub uninterp spec fn str_debug_text(s: Seq<char>) -> Seq<char>;

/// `format!("{:?}", s)` for a text (the `Debug` of `str`): the rendering
/// is only named ([`str_debug_text`]), not stated.
#[verifier::external_body]
fn debug_of(s: &str) -> (r: String)
    ensures
        r@ == str_debug_text(s@),
{
    format!("{:?}", s)
}

/// A failure described by a text: the error's cause is that text as `{:?}`
/// renders it, as an error displays its cause.
impl<T> Context<T> for Result<T, String> {
    fn context(self, cxt: &str) -> (r: Result<T, Error>)
        ensures
            match self {
                Ok(v) => r == Ok::<T, Error>(v),
                Err(e) => r is Err && is_plain_error(r->Err_0, Some(cxt@), Some(str_debug_text(e@))),
            },
    {
        match self {
            Ok(v) => Ok(v),
            Err(e) => {
                let d = debug_of(e.as_str());
                Err(Error::new().context(cxt).source(d.as_str()))
            },
        }
    }

    fn kind(self, kind: &str) -> (r: Result<T, Error>)
        ensures
            match self {
                Ok(v) => r == Ok::<T, Error>(v),
                Err(e) => r is Err && r->Err_0.inner.0@ == kind@ && r->Err_0.cxt is None
                    && r->Err_0.src is Some && r->Err_0.src->0@ == str_debug_text(e@),
            },
    {
        match self {
            Ok(v) => Ok(v),
            Err(e) => Err(Er { inner: StrError(kind.to_owned()), cxt: None, src: Some(debug_of(e.as_str())) }),
        }
    }
}

/// The views of a sequence of strings.
pub open spec fn string_views(v: Seq<String>) -> Seq<Seq<char>> {
    v.map_values(|s: String| s@)
}

/// The numbered trace of an error and the chain of errors that caused it:
/// `0) error`, then `n) cause` on a line of its own for the n-th cause.
pub open spec fn trace_body(error: Seq<char>, sources: Seq<Seq<char>>) -> Seq<char>
    decreases sources.len(),
{
    if sources.len() == 0 {
        "0) "@ + error
    } else {
        trace_body(error, sources.drop_last()) + "\n"@ + crate::text::decimal(sources.len())
            + ") "@ + sources.last()
    }
}

/// The text logged for an error: `prefix`, a line break, then the numbered
/// trace of `error` and of the errors in its `source` chain, nearest first.
pub fn trace_error(prefix: &str, error: &str, sources: &Vec<String>) -> (r: String)
    ensures
        r@ == prefix@ + "\n"@ + trace_body(error@, string_views(sources@)),
{
    let mut msg = String::from_str("0) ");
    msg.append(error);
    let ghost sv = string_views(sources@);
    assert(sv.take(0) =~= Seq::<Seq<char>>::empty());
    let mut i: usize = 0;
    while i < sources.len()
        invariant
            i <= sources@.len(),
            sv == string_views(sources@),
            msg@ == trace_body(error@, sv.take(i as int)),
        decreases sources.len() - i,
    {
        assert(sv.take(i + 1).drop_last() =~= sv.take(i as int));
        assert(sv.take(i + 1).last() == sources@[i as int]@);
        msg.append("\n");
        push_decimal(&mut msg, i + 1);
        msg.append(") ");
        msg.append(sources[i].as_str());
        i = i + 1;
    }
    assert(sv.take(sources@.len() as int) =~= sv);
    let mut out = String::from_str(prefix);
    out.append("\n");
    out.append(msg.as_str());
    out
}


/// What an [`Error`] holds, as plain text.
pub struct ErrorView {
    pub inner: Seq<char>,
    pub cxt: Option<Seq<char>>,
    pub src: Option<Seq<char>>,
}

impl View for Er<StrError> {
    type V = ErrorView;

    open spec fn view(&self) -> ErrorView {
        ErrorView {
            inner: self.inner.0@,
            cxt: match self.cxt {
                Some(c) => Some(c@),
                None => None,
            },
            src: match self.src {
                Some(c) => Some(c@),
                None => None,
            },
        }
    }
}

/// An error described as `Error` with the context `cxt` and cause `src`.
pub open spec fn plain_view(cxt: Seq<char>, src: Option<Seq<char>>) -> ErrorView {
    ErrorView { inner: "Error"@, cxt: Some(cxt), src }
}

/// An error described as `Error` with the given context and cause.
pub fn error_with(cxt: String, src: Option<String>) -> (r: Error)
    ensures
        r@ == plain_view(cxt@, match src { Some(s) => Some(s@), None => None }),
{
    Er { inner: StrError::default(), cxt: Some(cxt), src }
}

} // verus!
