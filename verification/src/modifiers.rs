//! Translation of a native modifier bitmask into the engine's modifier set.

use vstd::prelude::*;

verus! {

/// Native bit that signals Shift.
pub const NATIVE_SHIFT: u16 = 0x1;

/// Native bit that signals Control.
pub const NATIVE_CONTROL: u16 = 0x4;

/// Native bit that signals Super.
pub const NATIVE_SUPER: u16 = 0x40;

/// The modifiers the composition engine distinguishes.
#[derive(Clone, Copy, Debug, PartialEq, Eq, Structural)]
pub struct Modifiers {
    pub shift: bool,
    pub control: bool,
    pub super_key: bool,
}

/// The modifier set that a native bitmask stands for: each of the three
/// recognised bits sets its own modifier, every other bit is ignored.
pub open spec fn modifiers_of(state: u16) -> Modifiers {
    Modifiers {
        shift: state & 0x1 != 0,
        control: state & 0x4 != 0,
        super_key: state & 0x40 != 0,
    }
}

/// Derives the engine's modifier set from a native modifier bitmask.
pub fn translate_modifiers(state: u16) -> (m: Modifiers)
    ensures
        m == modifiers_of(state),
{
    Modifiers {
        shift: state & NATIVE_SHIFT != 0,
        control: state & NATIVE_CONTROL != 0,
        super_key: state & NATIVE_SUPER != 0,
    }
}

/// Each modifier follows its own bit alone: the set is the same whatever the
/// other bits of the mask are.
pub proof fn lemma_modifiers_follow_their_bits(state: u16, other: u16)
    requires
        other & 0x45 == 0,
    ensures
        modifiers_of(state).shift == (state & 0x1 == 0x1),
        modifiers_of(state).control == (state & 0x4 == 0x4),
        modifiers_of(state).super_key == (state & 0x40 == 0x40),
        modifiers_of(state | other) == modifiers_of(state),
        modifiers_of(state & 0x45) == modifiers_of(state),
{
    assert((state & 0x1 != 0) == (state & 0x1 == 0x1)) by (bit_vector);
    assert((state & 0x4 != 0) == (state & 0x4 == 0x4)) by (bit_vector);
    assert((state & 0x40 != 0) == (state & 0x40 == 0x40)) by (bit_vector);
    assert((state | other) & 0x1 == state & 0x1 && (state | other) & 0x4 == state & 0x4 && (state
        | other) & 0x40 == state & 0x40) by (bit_vector)
        requires
            other & 0x45 == 0,
    ;
    assert((state & 0x45) & 0x1 == state & 0x1 && (state & 0x45) & 0x4 == state & 0x4 && (state
        & 0x45) & 0x40 == state & 0x40) by (bit_vector);
}

/// The native masks of Shift, Control and Super give exactly those modifiers,
/// and a union of masks gives the union of their modifiers.
pub proof fn lemma_modifiers_union(a: u16, b: u16)
    ensures
        modifiers_of(a | b).shift == (modifiers_of(a).shift || modifiers_of(b).shift),
        modifiers_of(a | b).control == (modifiers_of(a).control || modifiers_of(b).control),
        modifiers_of(a | b).super_key == (modifiers_of(a).super_key || modifiers_of(b).super_key),
        modifiers_of(0) == (Modifiers { shift: false, control: false, super_key: false }),
        modifiers_of(0x1) == (Modifiers { shift: true, control: false, super_key: false }),
        modifiers_of(0x4) == (Modifiers { shift: false, control: true, super_key: false }),
        modifiers_of(0x40) == (Modifiers { shift: false, control: false, super_key: true }),
{
    assert(((a | b) & 0x1 != 0) == ((a & 0x1 != 0) || (b & 0x1 != 0))) by (bit_vector);
    assert(((a | b) & 0x4 != 0) == ((a & 0x4 != 0) || (b & 0x4 != 0))) by (bit_vector);
    assert(((a | b) & 0x40 != 0) == ((a & 0x40 != 0) || (b & 0x40 != 0))) by (bit_vector);
    assert(0u16 & 0x1 == 0 && 0u16 & 0x4 == 0 && 0u16 & 0x40 == 0) by (bit_vector);
    assert(0x1u16 & 0x1 != 0 && 0x1u16 & 0x4 == 0 && 0x1u16 & 0x40 == 0) by (bit_vector);
    assert(0x4u16 & 0x1 == 0 && 0x4u16 & 0x4 != 0 && 0x4u16 & 0x40 == 0) by (bit_vector);
    assert(0x40u16 & 0x1 == 0 && 0x40u16 & 0x4 == 0 && 0x40u16 & 0x40 != 0) by (bit_vector);
}

} // verus!
