//! Spans of wall-clock time, held as whole seconds and the nanoseconds past
//! them, and viewed as a number of nanoseconds.

use vstd::prelude::*;

verus! {

/// Nanoseconds in one second.
pub const NANOS_PER_SEC: u32 = 1_000_000_000;

/// The longest span an [`Elapsed`] can hold, in nanoseconds:
/// `u64::MAX` seconds and 999,999,999 nanoseconds.
pub open spec fn max_nanos() -> nat {
    0xffff_ffff_ffff_ffff * 1_000_000_000 + 999_999_999
}

/// How long something took.
///
/// The nanosecond part is always below one second, so two spans of the same
/// length are the same value.
#[derive(Clone, Copy, Debug, PartialEq, Eq, Structural)]
pub struct Elapsed {
    secs: u64,
    subsec_nanos: u32,
}

impl View for Elapsed {
    type V = nat;

    /// The length of the span in nanoseconds.
    closed spec fn view(&self) -> nat {
        (self.secs * 1_000_000_000 + self.subsec_nanos) as nat
    }
}

impl Elapsed {
    #[verifier::type_invariant]
    spec fn sub_second_part_is_small(self) -> bool {
        self.subsec_nanos < 1_000_000_000
    }

    /// A span of `secs` seconds and `nanos` nanoseconds. Nanoseconds of a
    /// second or more carry over into the seconds; `None` when the seconds
    /// would then no longer fit.
    pub fn from_parts(secs: u64, nanos: u32) -> (span: Option<Elapsed>)
        ensures
            span is Some <==> secs * 1_000_000_000 + nanos <= max_nanos(),
            span matches Some(e) ==> e@ == secs * 1_000_000_000 + nanos,
    {
        let carry: u64 = (nanos / NANOS_PER_SEC) as u64;
        let rest: u32 = nanos % NANOS_PER_SEC;
        match secs.checked_add(carry) {
            Some(total) => Some(Elapsed { secs: total, subsec_nanos: rest }),
            None => None,
        }
    }

    /// The span of `nanos` nanoseconds; `None` when it is longer than
    /// [`max_nanos`].
    pub fn from_nanos(nanos: u128) -> (span: Option<Elapsed>)
        ensures
            span is Some <==> nanos <= max_nanos(),
            span matches Some(e) ==> e@ == nanos,
    {
        let secs: u128 = nanos / 1_000_000_000;
        let rest: u128 = nanos % 1_000_000_000;
        if secs <= 0xffff_ffff_ffff_ffff {
            Some(Elapsed { secs: secs as u64, subsec_nanos: rest as u32 })
        } else {
            None
        }
    }

    /// The whole seconds of the span.
    pub fn as_secs(&self) -> (secs: u64)
        ensures
            secs == self@ / 1_000_000_000,
    {
        proof {
            use_type_invariant(self);
        }
        self.secs
    }

    /// The nanoseconds past the whole seconds, always below one second.
    pub fn subsec_nanos(&self) -> (nanos: u32)
        ensures
            nanos == self@ % 1_000_000_000,
            nanos < 1_000_000_000,
    {
        proof {
            use_type_invariant(self);
        }
        self.subsec_nanos
    }

    /// The whole span in nanoseconds.
    pub fn as_nanos(&self) -> (nanos: u128)
        ensures
            nanos == self@,
            nanos <= max_nanos(),
    {
        proof {
            use_type_invariant(self);
        }
        self.secs as u128 * 1_000_000_000 + self.subsec_nanos as u128
    }
}

} // verus!
