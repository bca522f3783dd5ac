use vstd::prelude::*;

verus! {

/// Nanoseconds in one second.
pub const NANOS_PER_SEC: u128 = 1_000_000_000;

/// The largest number of nanoseconds that a span can hold: that of
/// `u64::MAX` whole seconds and 999 999 999 nanoseconds, like `std::time::Duration`.
pub open spec fn max_span_nanos() -> int {
    (u64::MAX as int) * 1_000_000_000 + 999_999_999
}

/// A non-negative length of time, counted in nanoseconds.
///
/// It holds exactly the values of `std::time::Duration`, which the library
/// cannot take apart, so that timeouts can be compared and clamped in
/// verified code. Its view is the number of nanoseconds.
#[derive(Copy, Clone, Debug)]
pub struct Span {
    nanos: u128,
}

impl View for Span {
    type V = int;

    closed spec fn view(&self) -> int {
        self.nanos as int
    }
}

impl Span {
    #[verifier::type_invariant]
    closed spec fn within_range(self) -> bool {
        self.nanos as int <= max_span_nanos()
    }

    /// The span of `secs` whole seconds.
    pub fn from_secs(secs: u64) -> (r: Span)
        ensures
            r@ == secs * 1_000_000_000,
    {
        Span { nanos: (secs as u128) * NANOS_PER_SEC }
    }

    /// The span of `nanos` nanoseconds.
    pub fn from_nanos(nanos: u128) -> (r: Span)
        requires
            nanos <= max_span_nanos(),
        ensures
            r@ == nanos,
    {
        Span { nanos }
    }

    /// The number of nanoseconds in the span.
    pub fn as_nanos(&self) -> (r: u128)
        ensures
            r == self@,
            r <= max_span_nanos(),
    {
        proof {
            use_type_invariant(self);
        }
        self.nanos
    }

    /// The number of whole seconds in the span.
    pub fn as_secs(&self) -> (r: u64)
        ensures
            r == self@ / 1_000_000_000,
    {
        proof {
            use_type_invariant(self);
        }
        (self.nanos / NANOS_PER_SEC) as u64
    }

    /// The nanoseconds beyond the whole seconds.
    pub fn subsec_nanos(&self) -> (r: u32)
        ensures
            r == self@ % 1_000_000_000,
    {
        (self.nanos % NANOS_PER_SEC) as u32
    }

    /// Whether `self` is strictly shorter than `other`.
    pub fn shorter_than(&self, other: &Span) -> (r: bool)
        ensures
            r == (self@ < other@),
    {
        self.nanos < other.nanos
    }
}

} // verus!
