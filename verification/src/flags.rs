//! The strict set of car and session states that a frame carries in sixteen
//! bits, twelve of which have a meaning.

use vstd::prelude::*;

verus! {

/// The car is on the track.
pub const CAR_ON_TRACK: u16 = 0x0001;

/// The game is paused.
pub const PAUSED: u16 = 0x0002;

/// The game is loading or processing.
pub const LOADING_OR_PROCESSING: u16 = 0x0004;

/// A gear is engaged.
pub const IN_GEAR: u16 = 0x0008;

/// The car has a turbo.
pub const HAS_TURBO: u16 = 0x0010;

/// The rev limiter alert is blinking.
pub const REV_LIMITER_BLINK_ALERT_ACTIVE: u16 = 0x0020;

/// The hand brake is on.
pub const HAND_BRAKE_ACTIVE: u16 = 0x0040;

/// The lights are on.
pub const LIGHTS_ACTIVE: u16 = 0x0080;

/// The high beam is on.
pub const HIGH_BEAM_ACTIVE: u16 = 0x0100;

/// The low beam is on.
pub const LOW_BEAM_ACTIVE: u16 = 0x0200;

/// The stability management is intervening.
pub const ASM_ACTIVE: u16 = 0x0400;

/// The traction control is intervening.
pub const TCS_ACTIVE: u16 = 0x0800;

/// Every bit that names a state: positions 0 to 11.
pub const DEFINED_FLAG_BITS: u16 = 0x0fff;

/// Whether `bits` has no bit outside the twelve defined positions.
pub open spec fn only_defined_bits(bits: u16) -> bool {
    bits & !DEFINED_FLAG_BITS == 0
}

/// A set of the twelve car and session states.
///
/// The view of a set is its bit pattern. A pattern with a bit outside
/// [`DEFINED_FLAG_BITS`] is no set: no value of this type holds one.
#[derive(Debug, Clone, Copy, PartialEq, Eq, PartialOrd, Ord, Hash, Structural)]
pub struct PacketFlags {
    bits: u16,
}

impl View for PacketFlags {
    type V = u16;

    closed spec fn view(&self) -> u16 {
        self.bits
    }
}

impl PacketFlags {
    /// What every set that the program holds satisfies: its pattern lies
    /// within the defined bits.
    #[verifier::type_invariant]
    pub closed spec fn is_valid(self) -> bool {
        only_defined_bits(self.bits)
    }

    /// What [`PacketFlags::from_bits`] returns for `bits`.
    pub closed spec fn spec_from_bits(bits: u16) -> Option<PacketFlags> {
        if only_defined_bits(bits) {
            Some(PacketFlags { bits })
        } else {
            None
        }
    }

    /// A pattern is accepted exactly when none of its bits lies outside
    /// positions 0 to 11, and the set that comes back has that very pattern.
    pub proof fn lemma_from_bits_strict(bits: u16)
        ensures
            only_defined_bits(bits) <==> bits <= DEFINED_FLAG_BITS,
            PacketFlags::spec_from_bits(bits) is Some <==> only_defined_bits(bits),
            PacketFlags::spec_from_bits(bits) matches Some(flags) ==> flags@ == bits
                && flags.is_valid(),
    {
        assert(only_defined_bits(bits) <==> bits <= DEFINED_FLAG_BITS) by (bit_vector);
    }

    /// The pattern of a set is accepted and gives the same set back.
    pub proof fn lemma_bits_round_trip(flags: PacketFlags)
        requires
            flags.is_valid(),
        ensures
            only_defined_bits(flags@),
            PacketFlags::spec_from_bits(flags@) == Some(flags),
    {
    }

    /// Two sets with one bit pattern are one set.
    pub proof fn lemma_view_injective(a: PacketFlags, b: PacketFlags)
        requires
            a@ == b@,
        ensures
            a == b,
    {
    }

    fn known(bits: u16) -> (flags: PacketFlags)
        requires
            only_defined_bits(bits),
        ensures
            flags@ == bits,
    {
        PacketFlags { bits }
    }

    /// The set that holds no state.
    pub fn empty() -> (flags: PacketFlags)
        ensures
            flags@ == 0,
    {
        assert(only_defined_bits(0)) by (bit_vector);
        PacketFlags::known(0)
    }

    /// The set that holds all twelve states.
    pub fn all() -> (flags: PacketFlags)
        ensures
            flags@ == DEFINED_FLAG_BITS,
    {
        assert(only_defined_bits(DEFINED_FLAG_BITS)) by (bit_vector);
        PacketFlags::known(DEFINED_FLAG_BITS)
    }

    /// The set that holds only "car on track".
    pub fn car_on_track() -> (flags: PacketFlags)
        ensures
            flags@ == CAR_ON_TRACK,
    {
        assert(only_defined_bits(CAR_ON_TRACK)) by (bit_vector);
        PacketFlags::known(CAR_ON_TRACK)
    }

    /// The set that holds only "paused".
    pub fn paused() -> (flags: PacketFlags)
        ensures
            flags@ == PAUSED,
    {
        assert(only_defined_bits(PAUSED)) by (bit_vector);
        PacketFlags::known(PAUSED)
    }

    /// The set that holds only "loading or processing".
    pub fn loading_or_processing() -> (flags: PacketFlags)
        ensures
            flags@ == LOADING_OR_PROCESSING,
    {
        assert(only_defined_bits(LOADING_OR_PROCESSING)) by (bit_vector);
        PacketFlags::known(LOADING_OR_PROCESSING)
    }

    /// The set that holds only "in gear".
    pub fn in_gear() -> (flags: PacketFlags)
        ensures
            flags@ == IN_GEAR,
    {
        assert(only_defined_bits(IN_GEAR)) by (bit_vector);
        PacketFlags::known(IN_GEAR)
    }

    /// The set that holds only "has turbo".
    pub fn has_turbo() -> (flags: PacketFlags)
        ensures
            flags@ == HAS_TURBO,
    {
        assert(only_defined_bits(HAS_TURBO)) by (bit_vector);
        PacketFlags::known(HAS_TURBO)
    }

    /// The set that holds only "rev limiter alert blinking".
    pub fn rev_limiter_blink_alert_active() -> (flags: PacketFlags)
        ensures
            flags@ == REV_LIMITER_BLINK_ALERT_ACTIVE,
    {
        assert(only_defined_bits(REV_LIMITER_BLINK_ALERT_ACTIVE)) by (bit_vector);
        PacketFlags::known(REV_LIMITER_BLINK_ALERT_ACTIVE)
    }

    /// The set that holds only "hand brake on".
    pub fn hand_brake_active() -> (flags: PacketFlags)
        ensures
            flags@ == HAND_BRAKE_ACTIVE,
    {
        assert(only_defined_bits(HAND_BRAKE_ACTIVE)) by (bit_vector);
        PacketFlags::known(HAND_BRAKE_ACTIVE)
    }

    /// The set that holds only "lights on".
    pub fn lights_active() -> (flags: PacketFlags)
        ensures
            flags@ == LIGHTS_ACTIVE,
    {
        assert(only_defined_bits(LIGHTS_ACTIVE)) by (bit_vector);
        PacketFlags::known(LIGHTS_ACTIVE)
    }

    /// The set that holds only "high beam on".
    pub fn high_beam_active() -> (flags: PacketFlags)
        ensures
            flags@ == HIGH_BEAM_ACTIVE,
    {
        assert(only_defined_bits(HIGH_BEAM_ACTIVE)) by (bit_vector);
        PacketFlags::known(HIGH_BEAM_ACTIVE)
    }

    /// The set that holds only "low beam on".
    pub fn low_beam_active() -> (flags: PacketFlags)
        ensures
            flags@ == LOW_BEAM_ACTIVE,
    {
        assert(only_defined_bits(LOW_BEAM_ACTIVE)) by (bit_vector);
        PacketFlags::known(LOW_BEAM_ACTIVE)
    }

    /// The set that holds only "stability management intervening".
    pub fn asm_active() -> (flags: PacketFlags)
        ensures
            flags@ == ASM_ACTIVE,
    {
        assert(only_defined_bits(ASM_ACTIVE)) by (bit_vector);
        PacketFlags::known(ASM_ACTIVE)
    }

    /// The set that holds only "traction control intervening".
    pub fn tcs_active() -> (flags: PacketFlags)
        ensures
            flags@ == TCS_ACTIVE,
    {
        assert(only_defined_bits(TCS_ACTIVE)) by (bit_vector);
        PacketFlags::known(TCS_ACTIVE)
    }

    /// The set with the bit pattern `bits`, or nothing where `bits` has a bit
    /// that names no state. No bit is dropped to make a pattern fit.
    pub fn from_bits(bits: u16) -> (flags: Option<PacketFlags>)
        ensures
            flags == PacketFlags::spec_from_bits(bits),
            flags is Some <==> only_defined_bits(bits),
            flags matches Some(f) ==> f@ == bits,
    {
        if bits & !DEFINED_FLAG_BITS == 0 {
            Some(PacketFlags::known(bits))
        } else {
            None
        }
    }

    /// The set of the defined bits of `bits`; the others are dropped.
    pub fn from_bits_truncate(bits: u16) -> (flags: PacketFlags)
        ensures
            flags@ == bits & DEFINED_FLAG_BITS,
    {
        let kept = bits & DEFINED_FLAG_BITS;
        assert(only_defined_bits(bits & DEFINED_FLAG_BITS)) by (bit_vector);
        PacketFlags::known(kept)
    }

    /// The bit pattern of the set.
    pub fn bits(&self) -> (bits: u16)
        ensures
            bits == self@,
            only_defined_bits(bits),
    {
        proof {
            use_type_invariant(self);
        }
        self.bits
    }

    /// Whether the set holds no state.
    pub fn is_empty(&self) -> (empty: bool)
        ensures
            empty == (self@ == 0),
    {
        self.bits == 0
    }

    /// Whether every state of `other` is in the set.
    pub fn contains(&self, other: PacketFlags) -> (held: bool)
        ensures
            held == (self@ & other@ == other@),
    {
        self.bits & other.bits == other.bits
    }

    /// Whether the set and `other` share a state.
    pub fn intersects(&self, other: PacketFlags) -> (shared: bool)
        ensures
            shared == (self@ & other@ != 0),
    {
        self.bits & other.bits != 0
    }

    /// The states of either set.
    pub fn union(self, other: PacketFlags) -> (flags: PacketFlags)
        ensures
            flags@ == self@ | other@,
    {
        proof {
            use_type_invariant(&self);
            use_type_invariant(&other);
        }
        let a = self.bits;
        let b = other.bits;
        assert(only_defined_bits(a | b)) by (bit_vector)
            requires
                only_defined_bits(a),
                only_defined_bits(b),
        ;
        PacketFlags::known(a | b)
    }

    /// Adds the states of `other` to the set.
    pub fn insert(&mut self, other: PacketFlags)
        ensures
            final(self)@ == old(self)@ | other@,
    {
        *self = self.union(other);
    }

    /// Takes the states of `other` out of the set.
    pub fn remove(&mut self, other: PacketFlags)
        ensures
            final(self)@ == old(self)@ & !other@,
    {
        proof {
            use_type_invariant(&*self);
        }
        let a = self.bits;
        let b = other.bits;
        assert(only_defined_bits(a & !b)) by (bit_vector)
            requires
                only_defined_bits(a),
        ;
        *self = PacketFlags::known(a & !b);
    }

    /// Flips in the set each state of `other`.
    pub fn toggle(&mut self, other: PacketFlags)
        ensures
            final(self)@ == old(self)@ ^ other@,
    {
        proof {
            use_type_invariant(&*self);
            use_type_invariant(&other);
        }
        let a = self.bits;
        let b = other.bits;
        assert(only_defined_bits(a ^ b)) by (bit_vector)
            requires
                only_defined_bits(a),
                only_defined_bits(b),
        ;
        *self = PacketFlags::known(a ^ b);
    }
}

impl core::ops::BitOr for PacketFlags {
    type Output = PacketFlags;

    fn bitor(self, rhs: PacketFlags) -> (flags: PacketFlags)
        ensures
            flags@ == self@ | rhs@,
    {
        self.union(rhs)
    }
}

impl vstd::std_specs::ops::BitOrSpecImpl for PacketFlags {
    open spec fn obeys_bitor_spec() -> bool {
        true
    }

    open spec fn bitor_req(self, rhs: PacketFlags) -> bool {
        true
    }

    closed spec fn bitor_spec(self, rhs: PacketFlags) -> PacketFlags {
        PacketFlags { bits: self.bits | rhs.bits }
    }
}

} // verus!
