//! Bit-packed flag sets carried in the status block of a telemetry document.
//!
//! Each set lives in a `u32`. Decoding keeps the recognized bit positions and
//! drops every other bit without complaint, so a newer service may add flags
//! without breaking older readers. Encoding hands the kept bits back.

use vstd::prelude::*;

verus! {

/// Self-levelling flight mode.
pub const FLIGHT_MODE_ANGLE: u32 = 0x01;

/// Horizon flight mode.
pub const FLIGHT_MODE_HORIZON: u32 = 0x02;

/// Rate ("acro") flight mode.
pub const FLIGHT_MODE_ACRO: u32 = 0x40;

/// Every recognized flight-mode bit.
pub const FLIGHT_MODE_ALL: u32 = 0x43;

/// The vehicle may be armed.
pub const ARMING_OK_TO_ARM: u32 = 0x01;

/// The serial control protocol is active.
pub const ARMING_MSP_ACTIVE: u32 = 0x04;

/// Every recognized arming bit.
pub const ARMING_ALL: u32 = 0x05;

/// Arming is refused because the throttle is raised.
pub const DISABLE_THROTTLE: u32 = 0x01;

/// Arming is refused by the serial control protocol.
pub const DISABLE_MSP: u32 = 0x02;

/// Arming is refused because of the battery.
pub const DISABLE_BATTERY: u32 = 0x04;

/// Every recognized disable-reason bit.
pub const DISABLE_ALL: u32 = 0x07;

/// The bits of `raw` that `mask` recognizes.
pub open spec fn keep_recognized(raw: u32, mask: u32) -> u32 {
    raw & mask
}

/// `raw` has no bit outside `mask`.
pub open spec fn only_recognized(raw: u32, mask: u32) -> bool {
    raw & !mask == 0
}

/// Keeping the recognized bits leaves nothing unrecognized, and keeping them
/// twice changes nothing more.
pub proof fn lemma_keep_is_canonical(raw: u32, mask: u32)
    by (bit_vector)
    ensures
        (raw & mask) & !mask == 0,
        (raw & mask) & mask == raw & mask,
{
}

/// A value without unrecognized bits survives truncation unchanged.
pub proof fn lemma_keep_fixes_canonical(raw: u32, mask: u32)
    by (bit_vector)
    requires
        raw & !mask == 0,
    ensures
        raw & mask == raw,
{
}

/// Bits outside the mask do not influence what is kept.
pub proof fn lemma_keep_ignores_extra(raw: u32, extra: u32, mask: u32)
    by (bit_vector)
    requires
        extra & mask == 0,
    ensures
        (raw | extra) & mask == raw & mask,
{
}

/// Whether every bit of `wanted` is set in `bits`.
pub open spec fn has_all(bits: u32, wanted: u32) -> bool {
    bits & wanted == wanted
}

/// The active flight modes.
#[derive(Clone, Copy, Debug, PartialEq, Eq, Structural)]
pub struct FlightModeFlags {
    bits: u32,
}

impl View for FlightModeFlags {
    type V = u32;

    closed spec fn view(&self) -> u32 {
        self.bits
    }
}

impl FlightModeFlags {
    #[verifier::type_invariant]
    spec fn canonical(self) -> bool {
        only_recognized(self.bits, FLIGHT_MODE_ALL)
    }

    /// The set that decoding `raw` yields.
    pub closed spec fn decoded(raw: u32) -> FlightModeFlags {
        FlightModeFlags { bits: keep_recognized(raw, FLIGHT_MODE_ALL) }
    }

    /// The set holds recognized bits only. Every set that executable code
    /// can hold does.
    pub open spec fn well_formed(self) -> bool {
        only_recognized(self@, FLIGHT_MODE_ALL)
    }

    /// The set without any flag.
    pub fn empty() -> (r: FlightModeFlags)
        ensures
            r@ == 0,
            r == Self::decoded(0),
    {
        assert(0u32 & !0x43u32 == 0) by (bit_vector);
        assert(0u32 & 0x43u32 == 0) by (bit_vector);
        FlightModeFlags { bits: 0 }
    }

    /// Truncating decode: keeps the recognized bits of `raw`.
    pub fn from_bits_truncate(raw: u32) -> (r: FlightModeFlags)
        ensures
            r == Self::decoded(raw),
            r@ == keep_recognized(raw, FLIGHT_MODE_ALL),
            r.well_formed(),
    {
        proof {
            lemma_keep_is_canonical(raw, FLIGHT_MODE_ALL);
        }
        FlightModeFlags { bits: raw & FLIGHT_MODE_ALL }
    }

    /// Encode: the raw representation, which holds recognized bits only.
    pub fn bits(&self) -> (r: u32)
        ensures
            r == self@,
            only_recognized(r, FLIGHT_MODE_ALL),
    {
        proof {
            use_type_invariant(self);
        }
        self.bits
    }

    /// Whether every flag of `wanted` is in the set.
    pub fn contains(&self, wanted: u32) -> (r: bool)
        ensures
            r == has_all(self@, wanted),
    {
        self.bits & wanted == wanted
    }

    /// Two sets are equal exactly when their raw representations are.
    pub proof fn lemma_view_determines(a: FlightModeFlags, b: FlightModeFlags)
        ensures
            a == b <==> a@ == b@,
    {
    }

    /// What decoding yields, in raw form.
    pub proof fn lemma_decoded_view(raw: u32)
        ensures
            Self::decoded(raw)@ == keep_recognized(raw, FLIGHT_MODE_ALL),
            Self::decoded(raw).well_formed(),
    {
        lemma_keep_is_canonical(raw, FLIGHT_MODE_ALL);
    }

    /// Decoding the encoding of a well-formed set gives the set back.
    pub proof fn lemma_decode_encode(f: FlightModeFlags)
        requires
            f.well_formed(),
        ensures
            Self::decoded(f@) == f,
    {
        lemma_keep_fixes_canonical(f.bits, FLIGHT_MODE_ALL);
    }

    /// Decoding, encoding and decoding again gives what decoding gave.
    pub proof fn lemma_decode_is_idempotent(raw: u32)
        ensures
            Self::decoded(Self::decoded(raw)@) == Self::decoded(raw),
    {
        lemma_keep_is_canonical(raw, FLIGHT_MODE_ALL);
    }

    /// Decoding an integer equals decoding it with the unrecognized bits
    /// masked off, and setting unrecognized bits does not change the result.
    pub proof fn lemma_decode_drops_unrecognized(raw: u32, extra: u32)
        requires
            extra & FLIGHT_MODE_ALL == 0,
        ensures
            Self::decoded(raw) == Self::decoded(raw & FLIGHT_MODE_ALL),
            Self::decoded(raw | extra) == Self::decoded(raw),
    {
        lemma_keep_is_canonical(raw, FLIGHT_MODE_ALL);
        lemma_keep_ignores_extra(raw, extra, FLIGHT_MODE_ALL);
    }
}

impl Default for FlightModeFlags {
    fn default() -> (r: FlightModeFlags)
        ensures
            r@ == 0,
            r == FlightModeFlags::decoded(0),
    {
        FlightModeFlags::empty()
    }
}

/// Encodes a flight-mode set for the wire.
pub fn ser_mode(f: &FlightModeFlags) -> (raw: u32)
    ensures
        raw == f@,
        only_recognized(raw, FLIGHT_MODE_ALL),
{
    f.bits()
}

/// Decodes a flight-mode set from the wire; never fails.
pub fn de_mode(raw: u32) -> (f: FlightModeFlags)
    ensures
        f == FlightModeFlags::decoded(raw),
        f@ == keep_recognized(raw, FLIGHT_MODE_ALL),
{
    FlightModeFlags::from_bits_truncate(raw)
}

/// What the flight controller reports about arming.
#[derive(Clone, Copy, Debug, PartialEq, Eq, Structural)]
pub struct ArmingFlags {
    bits: u32,
}

impl View for ArmingFlags {
    type V = u32;

    closed spec fn view(&self) -> u32 {
        self.bits
    }
}

impl ArmingFlags {
    #[verifier::type_invariant]
    spec fn canonical(self) -> bool {
        only_recognized(self.bits, ARMING_ALL)
    }

    /// The set that decoding `raw` yields.
    pub closed spec fn decoded(raw: u32) -> ArmingFlags {
        ArmingFlags { bits: keep_recognized(raw, ARMING_ALL) }
    }

    /// The set holds recognized bits only. Every set that executable code
    /// can hold does.
    pub open spec fn well_formed(self) -> bool {
        only_recognized(self@, ARMING_ALL)
    }

    /// The set without any flag.
    pub fn empty() -> (r: ArmingFlags)
        ensures
            r@ == 0,
            r == Self::decoded(0),
    {
        assert(0u32 & !0x05u32 == 0) by (bit_vector);
        assert(0u32 & 0x05u32 == 0) by (bit_vector);
        ArmingFlags { bits: 0 }
    }

    /// Truncating decode: keeps the recognized bits of `raw`.
    pub fn from_bits_truncate(raw: u32) -> (r: ArmingFlags)
        ensures
            r == Self::decoded(raw),
            r@ == keep_recognized(raw, ARMING_ALL),
            r.well_formed(),
    {
        proof {
            lemma_keep_is_canonical(raw, ARMING_ALL);
        }
        ArmingFlags { bits: raw & ARMING_ALL }
    }

    /// Encode: the raw representation, which holds recognized bits only.
    pub fn bits(&self) -> (r: u32)
        ensures
            r == self@,
            only_recognized(r, ARMING_ALL),
    {
        proof {
            use_type_invariant(self);
        }
        self.bits
    }

    /// Whether every flag of `wanted` is in the set.
    pub fn contains(&self, wanted: u32) -> (r: bool)
        ensures
            r == has_all(self@, wanted),
    {
        self.bits & wanted == wanted
    }

    /// Two sets are equal exactly when their raw representations are.
    pub proof fn lemma_view_determines(a: ArmingFlags, b: ArmingFlags)
        ensures
            a == b <==> a@ == b@,
    {
    }

    /// What decoding yields, in raw form.
    pub proof fn lemma_decoded_view(raw: u32)
        ensures
            Self::decoded(raw)@ == keep_recognized(raw, ARMING_ALL),
            Self::decoded(raw).well_formed(),
    {
        lemma_keep_is_canonical(raw, ARMING_ALL);
    }

    /// Decoding the encoding of a well-formed set gives the set back.
    pub proof fn lemma_decode_encode(f: ArmingFlags)
        requires
            f.well_formed(),
        ensures
            Self::decoded(f@) == f,
    {
        lemma_keep_fixes_canonical(f.bits, ARMING_ALL);
    }

    /// Decoding, encoding and decoding again gives what decoding gave.
    pub proof fn lemma_decode_is_idempotent(raw: u32)
        ensures
            Self::decoded(Self::decoded(raw)@) == Self::decoded(raw),
    {
        lemma_keep_is_canonical(raw, ARMING_ALL);
    }

    /// Decoding an integer equals decoding it with the unrecognized bits
    /// masked off, and setting unrecognized bits does not change the result.
    pub proof fn lemma_decode_drops_unrecognized(raw: u32, extra: u32)
        requires
            extra & ARMING_ALL == 0,
        ensures
            Self::decoded(raw) == Self::decoded(raw & ARMING_ALL),
            Self::decoded(raw | extra) == Self::decoded(raw),
    {
        lemma_keep_is_canonical(raw, ARMING_ALL);
        lemma_keep_ignores_extra(raw, extra, ARMING_ALL);
    }
}

impl Default for ArmingFlags {
    fn default() -> (r: ArmingFlags)
        ensures
            r@ == 0,
            r == ArmingFlags::decoded(0),
    {
        ArmingFlags::empty()
    }
}

/// Encodes an arming-flag set for the wire.
pub fn ser_arm(f: &ArmingFlags) -> (raw: u32)
    ensures
        raw == f@,
        only_recognized(raw, ARMING_ALL),
{
    f.bits()
}

/// Decodes an arming-flag set from the wire; never fails.
pub fn de_arm(raw: u32) -> (f: ArmingFlags)
    ensures
        f == ArmingFlags::decoded(raw),
        f@ == keep_recognized(raw, ARMING_ALL),
{
    ArmingFlags::from_bits_truncate(raw)
}

/// The reasons for which arming is refused.
#[derive(Clone, Copy, Debug, PartialEq, Eq, Structural)]
pub struct DisableReasonsFlags {
    bits: u32,
}

impl View for DisableReasonsFlags {
    type V = u32;

    closed spec fn view(&self) -> u32 {
        self.bits
    }
}

impl DisableReasonsFlags {
    #[verifier::type_invariant]
    spec fn canonical(self) -> bool {
        only_recognized(self.bits, DISABLE_ALL)
    }

    /// The set that decoding `raw` yields.
    pub closed spec fn decoded(raw: u32) -> DisableReasonsFlags {
        DisableReasonsFlags { bits: keep_recognized(raw, DISABLE_ALL) }
    }

    /// The set holds recognized bits only. Every set that executable code
    /// can hold does.
    pub open spec fn well_formed(self) -> bool {
        only_recognized(self@, DISABLE_ALL)
    }

    /// The set without any flag.
    pub fn empty() -> (r: DisableReasonsFlags)
        ensures
            r@ == 0,
            r == Self::decoded(0),
    {
        assert(0u32 & !0x07u32 == 0) by (bit_vector);
        assert(0u32 & 0x07u32 == 0) by (bit_vector);
        DisableReasonsFlags { bits: 0 }
    }

    /// Truncating decode: keeps the recognized bits of `raw`.
    pub fn from_bits_truncate(raw: u32) -> (r: DisableReasonsFlags)
        ensures
            r == Self::decoded(raw),
            r@ == keep_recognized(raw, DISABLE_ALL),
            r.well_formed(),
    {
        proof {
            lemma_keep_is_canonical(raw, DISABLE_ALL);
        }
        DisableReasonsFlags { bits: raw & DISABLE_ALL }
    }

    /// Encode: the raw representation, which holds recognized bits only.
    pub fn bits(&self) -> (r: u32)
        ensures
            r == self@,
            only_recognized(r, DISABLE_ALL),
    {
        proof {
            use_type_invariant(self);
        }
        self.bits
    }

    /// Whether every flag of `wanted` is in the set.
    pub fn contains(&self, wanted: u32) -> (r: bool)
        ensures
            r == has_all(self@, wanted),
    {
        self.bits & wanted == wanted
    }

    /// Two sets are equal exactly when their raw representations are.
    pub proof fn lemma_view_determines(a: DisableReasonsFlags, b: DisableReasonsFlags)
        ensures
            a == b <==> a@ == b@,
    {
    }

    /// What decoding yields, in raw form.
    pub proof fn lemma_decoded_view(raw: u32)
        ensures
            Self::decoded(raw)@ == keep_recognized(raw, DISABLE_ALL),
            Self::decoded(raw).well_formed(),
    {
        lemma_keep_is_canonical(raw, DISABLE_ALL);
    }

    /// Decoding the encoding of a well-formed set gives the set back.
    pub proof fn lemma_decode_encode(f: DisableReasonsFlags)
        requires
            f.well_formed(),
        ensures
            Self::decoded(f@) == f,
    {
        lemma_keep_fixes_canonical(f.bits, DISABLE_ALL);
    }

    /// Decoding, encoding and decoding again gives what decoding gave.
    pub proof fn lemma_decode_is_idempotent(raw: u32)
        ensures
            Self::decoded(Self::decoded(raw)@) == Self::decoded(raw),
    {
        lemma_keep_is_canonical(raw, DISABLE_ALL);
    }

    /// Decoding an integer equals decoding it with the unrecognized bits
    /// masked off, and setting unrecognized bits does not change the result.
    pub proof fn lemma_decode_drops_unrecognized(raw: u32, extra: u32)
        requires
            extra & DISABLE_ALL == 0,
        ensures
            Self::decoded(raw) == Self::decoded(raw & DISABLE_ALL),
            Self::decoded(raw | extra) == Self::decoded(raw),
    {
        lemma_keep_is_canonical(raw, DISABLE_ALL);
        lemma_keep_ignores_extra(raw, extra, DISABLE_ALL);
    }
}

impl Default for DisableReasonsFlags {
    fn default() -> (r: DisableReasonsFlags)
        ensures
            r@ == 0,
            r == DisableReasonsFlags::decoded(0),
    {
        DisableReasonsFlags::empty()
    }
}

/// Encodes a disable-reason set for the wire.
pub fn ser_dis(f: &DisableReasonsFlags) -> (raw: u32)
    ensures
        raw == f@,
        only_recognized(raw, DISABLE_ALL),
{
    f.bits()
}

/// Decodes a disable-reason set from the wire; never fails.
pub fn de_dis(raw: u32) -> (f: DisableReasonsFlags)
    ensures
        f == DisableReasonsFlags::decoded(raw),
        f@ == keep_recognized(raw, DISABLE_ALL),
{
    DisableReasonsFlags::from_bits_truncate(raw)
}

} // verus!
