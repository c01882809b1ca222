//! Which delays a script may ask for.
//!
//! A delay reaches the host as a number of seconds in IEEE 754 binary64. The
//! host never computes with it: it only decides, from the 64 bits of the
//! encoding, whether the delay may be scheduled.

use vstd::prelude::*;

use crate::error::{SandboxError, SandboxErrorView};

verus! {

/// The encoding of negative zero: the sign bit alone.
pub const NEGATIVE_ZERO_BITS: u64 = 0x8000_0000_0000_0000;

/// The encoding of positive infinity: every exponent bit set, no fraction bit.
pub const INFINITY_BITS: u64 = 0x7ff0_0000_0000_0000;

/// The encoding without its sign bit.
pub open spec fn magnitude_bits(bits: u64) -> int {
    bits as int % 0x8000_0000_0000_0000
}

/// True if `bits` encodes a finite number: its exponent is not all ones, so
/// it is neither an infinity nor a NaN.
pub open spec fn encodes_finite(bits: u64) -> bool {
    magnitude_bits(bits) < INFINITY_BITS
}

/// True if `bits` encodes a finite number below zero: the sign bit is set
/// and the number is not negative zero.
pub open spec fn encodes_below_zero(bits: u64) -> bool {
    encodes_finite(bits) && bits > NEGATIVE_ZERO_BITS
}

/// True if `bits` encodes a delay that may be scheduled: a finite number
/// that is not below zero.
pub open spec fn encodes_valid_delay(bits: u64) -> bool {
    encodes_finite(bits) && !encodes_below_zero(bits)
}

/// A delay that may be scheduled. Only `from_bits` makes one, so holding one
/// shows that the script asked for a finite delay of zero seconds or more.
pub struct DelaySeconds {
    bits: u64,
}

impl View for DelaySeconds {
    type V = u64;

    closed spec fn view(&self) -> u64 {
        self.bits
    }
}

impl DelaySeconds {
    #[verifier::type_invariant]
    spec fn well_formed(self) -> bool {
        encodes_valid_delay(self.bits)
    }

    /// Accepts the delay that `bits` encodes if it is finite and not below
    /// zero, and refuses every other with `InvalidDuration`.
    pub fn from_bits(bits: u64) -> (delay: Result<DelaySeconds, SandboxError>)
        ensures
            encodes_valid_delay(bits) <==> delay is Ok,
            delay matches Ok(accepted) ==> accepted@ == bits,
            delay matches Err(error) ==> error@ == SandboxErrorView::InvalidDuration,
    {
        let magnitude: u64 = bits % 0x8000_0000_0000_0000;
        if magnitude >= INFINITY_BITS {
            Err(SandboxError::InvalidDuration)
        } else if bits > NEGATIVE_ZERO_BITS {
            Err(SandboxError::InvalidDuration)
        } else {
            Ok(DelaySeconds { bits })
        }
    }

    /// The encoding of the delay.
    pub fn to_bits(&self) -> (bits: u64)
        ensures
            bits == self@,
            encodes_valid_delay(bits),
    {
        proof {
            use_type_invariant(self);
        }
        self.bits
    }
}

} // verus!
