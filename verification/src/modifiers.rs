//! The modifier-key bit-set.

use vstd::prelude::*;

verus! {

/// Bit assigned to the shift key inside [`Modifiers`].
pub const MOD_SHIFT: u32 = 0x1;

/// Bit assigned to the control key inside [`Modifiers`].
pub const MOD_CTRL: u32 = 0x2;

/// Bit assigned to the alt key inside [`Modifiers`].
pub const MOD_ALT: u32 = 0x4;

/// Bit assigned to the logo key inside [`Modifiers`].
pub const MOD_LOGO: u32 = 0x8;

/// A set over the four modifier keys: shift, control, alt and logo.
///
/// A value is immutable; combining two sets builds a new one.  In contracts a
/// set is characterised completely by the four membership queries
/// [`spec_shift`](Self::spec_shift), [`spec_ctrl`](Self::spec_ctrl),
/// [`spec_alt`](Self::spec_alt) and [`spec_logo`](Self::spec_logo).
#[derive(Clone, Copy, Debug, PartialEq, Eq, Hash, Structural)]
pub struct Modifiers {
    bits: u32,
}

impl Modifiers {
    /// Whether the shift key is in the set.
    pub closed spec fn spec_shift(self) -> bool {
        self.bits & MOD_SHIFT != 0
    }

    /// Whether the control key is in the set.
    pub closed spec fn spec_ctrl(self) -> bool {
        self.bits & MOD_CTRL != 0
    }

    /// Whether the alt key is in the set.
    pub closed spec fn spec_alt(self) -> bool {
        self.bits & MOD_ALT != 0
    }

    /// Whether the logo key is in the set.
    pub closed spec fn spec_logo(self) -> bool {
        self.bits & MOD_LOGO != 0
    }

    /// The value [`empty`](Self::empty) returns.
    pub closed spec fn spec_empty() -> Modifiers {
        Modifiers { bits: 0 }
    }

    /// The empty set has no modifier key in it.
    pub proof fn lemma_empty_flags()
        ensures
            !Modifiers::spec_empty().spec_shift(),
            !Modifiers::spec_empty().spec_ctrl(),
            !Modifiers::spec_empty().spec_alt(),
            !Modifiers::spec_empty().spec_logo(),
    {
        assert(0u32 & MOD_SHIFT == 0) by (bit_vector);
        assert(0u32 & MOD_CTRL == 0) by (bit_vector);
        assert(0u32 & MOD_ALT == 0) by (bit_vector);
        assert(0u32 & MOD_LOGO == 0) by (bit_vector);
    }

    /// The set with no modifier keys in it.
    pub fn empty() -> (r: Modifiers)
        ensures
            r == Modifiers::spec_empty(),
            !r.spec_shift(),
            !r.spec_ctrl(),
            !r.spec_alt(),
            !r.spec_logo(),
    {
        let r = Modifiers { bits: 0 };
        proof {
            assert(0u32 & MOD_SHIFT == 0) by (bit_vector);
            assert(0u32 & MOD_CTRL == 0) by (bit_vector);
            assert(0u32 & MOD_ALT == 0) by (bit_vector);
            assert(0u32 & MOD_LOGO == 0) by (bit_vector);
        }
        r
    }

    /// The set holding exactly the modifier keys picked by the four flags.
    pub fn new(shift: bool, ctrl: bool, alt: bool, logo: bool) -> (r: Modifiers)
        ensures
            r.spec_shift() == shift,
            r.spec_ctrl() == ctrl,
            r.spec_alt() == alt,
            r.spec_logo() == logo,
    {
        let s: u32 = if shift { MOD_SHIFT } else { 0 };
        let c: u32 = if ctrl { MOD_CTRL } else { 0 };
        let a: u32 = if alt { MOD_ALT } else { 0 };
        let l: u32 = if logo { MOD_LOGO } else { 0 };
        let r = Modifiers { bits: s | c | a | l };
        proof {
            let sv = s;
            let cv = c;
            let av = a;
            let lv = l;
            assert(((sv | cv | av | lv) & 0x1u32 != 0) == (sv & 0x1u32 != 0 || cv & 0x1u32 != 0
                || av & 0x1u32 != 0 || lv & 0x1u32 != 0)) by (bit_vector);
            assert(((sv | cv | av | lv) & 0x2u32 != 0) == (sv & 0x2u32 != 0 || cv & 0x2u32 != 0
                || av & 0x2u32 != 0 || lv & 0x2u32 != 0)) by (bit_vector);
            assert(((sv | cv | av | lv) & 0x4u32 != 0) == (sv & 0x4u32 != 0 || cv & 0x4u32 != 0
                || av & 0x4u32 != 0 || lv & 0x4u32 != 0)) by (bit_vector);
            assert(((sv | cv | av | lv) & 0x8u32 != 0) == (sv & 0x8u32 != 0 || cv & 0x8u32 != 0
                || av & 0x8u32 != 0 || lv & 0x8u32 != 0)) by (bit_vector);
            assert(0u32 & 0x1u32 == 0 && 0u32 & 0x2u32 == 0 && 0u32 & 0x4u32 == 0 && 0u32 & 0x8u32
                == 0) by (bit_vector);
            assert(0x1u32 & 0x2u32 == 0 && 0x1u32 & 0x4u32 == 0 && 0x1u32 & 0x8u32 == 0 && 0x2u32
                & 0x1u32 == 0 && 0x2u32 & 0x4u32 == 0 && 0x2u32 & 0x8u32 == 0) by (bit_vector);
            assert(0x4u32 & 0x1u32 == 0 && 0x4u32 & 0x2u32 == 0 && 0x4u32 & 0x8u32 == 0 && 0x8u32
                & 0x1u32 == 0 && 0x8u32 & 0x2u32 == 0 && 0x8u32 & 0x4u32 == 0) by (bit_vector);
            assert(0x1u32 & 0x1u32 != 0 && 0x2u32 & 0x2u32 != 0 && 0x4u32 & 0x4u32 != 0 && 0x8u32
                & 0x8u32 != 0) by (bit_vector);
        }
        r
    }

    /// Whether the shift key is in the set.
    pub fn shift(self) -> (r: bool)
        ensures
            r == self.spec_shift(),
    {
        self.bits & MOD_SHIFT != 0
    }

    /// Whether the control key is in the set.
    pub fn ctrl(self) -> (r: bool)
        ensures
            r == self.spec_ctrl(),
    {
        self.bits & MOD_CTRL != 0
    }

    /// Whether the alt key is in the set.
    pub fn alt(self) -> (r: bool)
        ensures
            r == self.spec_alt(),
    {
        self.bits & MOD_ALT != 0
    }

    /// Whether the logo key is in the set.
    pub fn logo(self) -> (r: bool)
        ensures
            r == self.spec_logo(),
    {
        self.bits & MOD_LOGO != 0
    }

    /// The union of the two sets.
    pub fn union(self, other: Modifiers) -> (r: Modifiers)
        ensures
            r.spec_shift() == (self.spec_shift() || other.spec_shift()),
            r.spec_ctrl() == (self.spec_ctrl() || other.spec_ctrl()),
            r.spec_alt() == (self.spec_alt() || other.spec_alt()),
            r.spec_logo() == (self.spec_logo() || other.spec_logo()),
    {
        Modifiers::new(
            self.shift() || other.shift(),
            self.ctrl() || other.ctrl(),
            self.alt() || other.alt(),
            self.logo() || other.logo(),
        )
    }

    /// Whether the two sets share at least one modifier key.
    pub fn intersects(self, other: Modifiers) -> (r: bool)
        ensures
            r == ((self.spec_shift() && other.spec_shift()) || (self.spec_ctrl()
                && other.spec_ctrl()) || (self.spec_alt() && other.spec_alt()) || (self.spec_logo()
                && other.spec_logo())),
    {
        (self.shift() && other.shift()) || (self.ctrl() && other.ctrl()) || (self.alt()
            && other.alt()) || (self.logo() && other.logo())
    }
}

} // verus!
