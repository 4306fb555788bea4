//! The error value used across the server: an inner description, an optional
//! context message and an optional rendering of the error that caused it.
use vstd::prelude::*;

verus! {

/// An error with an inner description `inner`, the context in which it
/// happened and the text of the error that caused it.
pub struct Er<I> {
    pub inner: I,
    pub cxt: Option<String>,
    pub src: Option<String>,
}

impl<I> Er<I> {
    /// Sets the context message, keeping everything else.
    pub fn context(self, context: &str) -> (r: Self)
        ensures
            r.inner == self.inner,
            r.src == self.src,
            r.cxt is Some,
            r.cxt->0@ == context@,
    {
        let mut s = self;
        s.cxt = Some(context.to_owned());
        s
    }

    /// Sets the causing error, given as the text `{:?}` renders of it,
    /// keeping everything else.
    pub fn source(self, source: &str) -> (r: Self)
        ensures
            r.inner == self.inner,
            r.cxt == self.cxt,
            r.src is Some,
            r.src->0@ == source@,
    {
        let mut s = self;
        s.src = Some(source.to_owned());
        s
    }
}

impl<I: Default> Default for Er<I> {
    /// An error with the default inner description, no context and no cause.
    fn default() -> (r: Self)
        ensures
            r.cxt is None,
            r.src is None,
    {
        Er { inner: I::default(), cxt: None, src: None }
    }
}

} // verus!
