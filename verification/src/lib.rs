//! Adapter that lets peripheral errors join a chainable error-report walk.
//!
//! Hardware-abstraction error traits (digital I/O, I2C, SPI, PWM, CAN,
//! non-blocking serial, generic I/O) each classify their errors into a small
//! family-specific kind enumeration, but the error values themselves do not
//! take part in a generic cause-chain walk.  [`Error`] pairs such a
//! peripheral error with the classification it reported, keeps the original
//! value available for inspection, and reports the classification as its
//! cause, so that a composed driver error always walks
//! driver error, adapter, classification, end.

use vstd::prelude::*;

pub mod hal;

verus! {

/// Pairs a peripheral error with the classification it reported when the
/// wrapper was built.
///
/// The two fields are set together at construction and never change
/// afterwards: the stored classification is the one the inner error reported
/// at that moment.  The inner error stays available through [`Error::inner`]
/// and [`Error::into_inner`]; the classification is read through
/// [`Error::kind`] and is what [`Error::source`] reports as the cause.
pub struct Error<E, K> {
    inner: E,
    kind: K,
}

impl<E, K> Error<E, K> {
    /// The wrapped peripheral error.
    pub closed spec fn spec_inner(self) -> E {
        self.inner
    }

    /// The classification stored when the wrapper was built.
    pub closed spec fn spec_kind(self) -> K {
        self.kind
    }

    /// The wrapper that pairs `inner` with `kind`.
    pub closed spec fn spec_wrap(inner: E, kind: K) -> Self {
        Error { inner, kind }
    }

    /// The cause this wrapper reports in a chain walk: always the stored
    /// classification, never anything else and never absent.
    pub open spec fn spec_source(self) -> Option<K> {
        Some(self.spec_kind())
    }

    /// Pair a peripheral error with its classification.
    ///
    /// Total and infallible: the wrapper stores exactly the two values it is
    /// given.
    pub fn new(inner: E, kind: K) -> (r: Self)
        ensures
            r == Self::spec_wrap(inner, kind),
            r.spec_inner() == inner,
            r.spec_kind() == kind,
    {
        Error { inner, kind }
    }

    /// Extract the inner error, destroying the wrapper and the stored
    /// classification with it.
    pub fn into_inner(self) -> (r: E)
        ensures
            r == self.spec_inner(),
    {
        self.inner
    }

    /// Read through to the inner error without unwrapping it.
    ///
    /// Every operation applied through the returned reference acts on the
    /// original error value itself; the forwarding changes nothing.
    pub fn inner(&self) -> (r: &E)
        ensures
            *r == self.spec_inner(),
    {
        &self.inner
    }

    /// Borrow the stored classification without consuming the wrapper.
    pub fn kind(&self) -> (r: &K)
        ensures
            *r == self.spec_kind(),
    {
        &self.kind
    }

    /// One step of a cause-chain walk: the cause this wrapper reports is the
    /// stored classification, and there always is one.
    pub fn source(&self) -> (r: Option<&K>)
        ensures
            r matches Some(k) && *k == self.spec_kind(),
    {
        Some(&self.kind)
    }
}

/// Relies on `core::fmt`: renders a value through its `Debug`
/// implementation.
#[verifier::external_body]
fn debug_render<E: core::fmt::Debug>(e: &E) -> String {
    format!("{:?}", e)
}

impl<E: core::fmt::Debug, K> Error<E, K> {
    /// The human-readable diagnostic form of the wrapper: the inner error's
    /// own debug rendering, with nothing added.  The stored classification is
    /// deliberately left out of it; it is visible only through
    /// [`Error::source`], so the same fact is never reported twice.
    pub fn display_string(&self) -> String {
        debug_render(&self.inner)
    }

    /// The debug diagnostic form of the wrapper: defined identically to
    /// [`Error::display_string`], both delegate to the inner error's own
    /// debug rendering.
    pub fn debug_string(&self) -> String {
        debug_render(&self.inner)
    }
}

/// What a chain walk finds below a classification: nothing.  A classification
/// is a terminal reportable value, so every chain through an adapter ends
/// right after it.
pub open spec fn spec_kind_source<K>(kind: K) -> Option<K> {
    None
}

/// One step of a cause-chain walk starting from a classification: a
/// classification reports no further cause, so the walk ends here.
pub fn kind_source<K>(kind: &K) -> (r: Option<&K>)
    ensures
        r is None,
{
    None
}

/// Law: wrapping an error and extracting it again returns the original value
/// itself, so its rendering and its classification on a re-query are those of
/// the original.
pub proof fn lemma_round_trip<E, K>(inner: E, kind: K)
    ensures
        Error::spec_wrap(inner, kind).spec_inner() == inner,
{
}

/// Law: the classification a wrapper carries is exactly the one supplied when
/// it was built, which the wrap operation takes from the error at that moment.
pub proof fn lemma_classification_consistent<E, K>(inner: E, kind: K)
    ensures
        Error::spec_wrap(inner, kind).spec_kind() == kind,
{
}

/// Law: the cause chain below an adapter is exactly one step deep.  The
/// adapter always reports the stored classification as its cause, and a
/// classification reports no cause of its own; a composed error whose cause
/// is an adapter therefore walks composed error, adapter, classification,
/// end — never longer, never shorter.
pub proof fn lemma_chain_depth<E, K>(a: Error<E, K>)
    ensures
        a.spec_source() == Some(a.spec_kind()),
        spec_kind_source(a.spec_kind()) is None,
{
}

/// Law: reading through the wrapper is transparent.  Any operation applied to
/// the value reached through the wrapper gives the same result as applying it
/// to the original error directly.
pub proof fn lemma_transparent_forwarding<E, K, R>(inner: E, kind: K, op: spec_fn(E) -> R)
    ensures
        op(Error::spec_wrap(inner, kind).spec_inner()) == op(inner),
{
}

} // verus!
