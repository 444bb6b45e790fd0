//! The buttons of the device: how each is lit, and which are pressed.

use vstd::prelude::*;

verus! {

/// How a button is lit.
#[derive(Copy, Clone, Debug, PartialEq, Eq, Structural)]
pub enum ButtonStates {
    Colour1,
    Colour2,
    DimmedColour1,
    DimmedColour2,
    Flashing,
}

impl ButtonStates {
    /// The byte that stands for the illumination state on the wire.
    pub open spec fn spec_id(self) -> u8 {
        match self {
            ButtonStates::Colour1 => 0x01,
            ButtonStates::Colour2 => 0x00,
            ButtonStates::DimmedColour1 => 0x02,
            ButtonStates::DimmedColour2 => 0x04,
            ButtonStates::Flashing => 0x03,
        }
    }

    /// The byte that stands for the illumination state on the wire.
    pub fn id(&self) -> (id: u8)
        ensures
            id == self.spec_id(),
    {
        match self {
            ButtonStates::Colour1 => 0x01,
            ButtonStates::Colour2 => 0x00,
            ButtonStates::DimmedColour1 => 0x02,
            ButtonStates::DimmedColour2 => 0x04,
            ButtonStates::Flashing => 0x03,
        }
    }
}

/// The number of buttons, and of bit positions in a press mask.
pub const BUTTON_COUNT: u8 = 24;

/// A button of the device. The small model has the four fader mutes, the
/// bleep button and the microphone mute; it never reports the others.
#[derive(Copy, Clone, Debug, PartialEq, Eq, Hash, Structural)]
pub enum Buttons {
    Fader1Mute,
    Fader2Mute,
    Fader3Mute,
    Fader4Mute,
    Bleep,
    MicrophoneMute,
    EffectSelect1,
    EffectSelect2,
    EffectSelect3,
    EffectSelect4,
    EffectSelect5,
    EffectSelect6,
    EffectFx,
    EffectMegaphone,
    EffectRobot,
    EffectHardTune,
    SamplerSelectA,
    SamplerSelectB,
    SamplerSelectC,
    SamplerTopLeft,
    SamplerTopRight,
    SamplerBottomLeft,
    SamplerBottomRight,
    SamplerClear,
}

impl Buttons {
    /// The button's bit position in a press mask, and its index in an
    /// illumination map.
    pub open spec fn spec_position(self) -> u8 {
        match self {
            Buttons::Fader1Mute => 4,
            Buttons::Fader2Mute => 9,
            Buttons::Fader3Mute => 14,
            Buttons::Fader4Mute => 19,
            Buttons::Bleep => 22,
            Buttons::MicrophoneMute => 23,
            Buttons::EffectSelect1 => 0,
            Buttons::EffectSelect2 => 5,
            Buttons::EffectSelect3 => 11,
            Buttons::EffectSelect4 => 15,
            Buttons::EffectSelect5 => 1,
            Buttons::EffectSelect6 => 6,
            Buttons::EffectFx => 21,
            Buttons::EffectMegaphone => 20,
            Buttons::EffectRobot => 10,
            Buttons::EffectHardTune => 16,
            Buttons::SamplerSelectA => 2,
            Buttons::SamplerSelectB => 7,
            Buttons::SamplerSelectC => 12,
            Buttons::SamplerTopLeft => 3,
            Buttons::SamplerTopRight => 8,
            Buttons::SamplerBottomLeft => 17,
            Buttons::SamplerBottomRight => 13,
            Buttons::SamplerClear => 18,
        }
    }

    /// The button's bit position in a press mask, and its index in an
    /// illumination map.
    pub fn position(&self) -> (position: u8)
        ensures
            position == self.spec_position(),
            position < BUTTON_COUNT,
    {
        match self {
            Buttons::Fader1Mute => 4,
            Buttons::Fader2Mute => 9,
            Buttons::Fader3Mute => 14,
            Buttons::Fader4Mute => 19,
            Buttons::Bleep => 22,
            Buttons::MicrophoneMute => 23,
            Buttons::EffectSelect1 => 0,
            Buttons::EffectSelect2 => 5,
            Buttons::EffectSelect3 => 11,
            Buttons::EffectSelect4 => 15,
            Buttons::EffectSelect5 => 1,
            Buttons::EffectSelect6 => 6,
            Buttons::EffectFx => 21,
            Buttons::EffectMegaphone => 20,
            Buttons::EffectRobot => 10,
            Buttons::EffectHardTune => 16,
            Buttons::SamplerSelectA => 2,
            Buttons::SamplerSelectB => 7,
            Buttons::SamplerSelectC => 12,
            Buttons::SamplerTopLeft => 3,
            Buttons::SamplerTopRight => 8,
            Buttons::SamplerBottomLeft => 17,
            Buttons::SamplerBottomRight => 13,
            Buttons::SamplerClear => 18,
        }
    }

    /// The button at a bit position: every position below twenty-four has
    /// exactly one.
    pub open spec fn spec_from_position(position: u8) -> Option<Buttons> {
        match position {
            0 => Some(Buttons::EffectSelect1),
            1 => Some(Buttons::EffectSelect5),
            2 => Some(Buttons::SamplerSelectA),
            3 => Some(Buttons::SamplerTopLeft),
            4 => Some(Buttons::Fader1Mute),
            5 => Some(Buttons::EffectSelect2),
            6 => Some(Buttons::EffectSelect6),
            7 => Some(Buttons::SamplerSelectB),
            8 => Some(Buttons::SamplerTopRight),
            9 => Some(Buttons::Fader2Mute),
            10 => Some(Buttons::EffectRobot),
            11 => Some(Buttons::EffectSelect3),
            12 => Some(Buttons::SamplerSelectC),
            13 => Some(Buttons::SamplerBottomRight),
            14 => Some(Buttons::Fader3Mute),
            15 => Some(Buttons::EffectSelect4),
            16 => Some(Buttons::EffectHardTune),
            17 => Some(Buttons::SamplerBottomLeft),
            18 => Some(Buttons::SamplerClear),
            19 => Some(Buttons::Fader4Mute),
            20 => Some(Buttons::EffectMegaphone),
            21 => Some(Buttons::EffectFx),
            22 => Some(Buttons::Bleep),
            23 => Some(Buttons::MicrophoneMute),
            _ => None,
        }
    }

    /// The button at a bit position: every position below twenty-four has
    /// exactly one.
    pub fn from_position(position: u8) -> (button: Option<Buttons>)
        ensures
            button == Buttons::spec_from_position(position),
    {
        match position {
            0 => Some(Buttons::EffectSelect1),
            1 => Some(Buttons::EffectSelect5),
            2 => Some(Buttons::SamplerSelectA),
            3 => Some(Buttons::SamplerTopLeft),
            4 => Some(Buttons::Fader1Mute),
            5 => Some(Buttons::EffectSelect2),
            6 => Some(Buttons::EffectSelect6),
            7 => Some(Buttons::SamplerSelectB),
            8 => Some(Buttons::SamplerTopRight),
            9 => Some(Buttons::Fader2Mute),
            10 => Some(Buttons::EffectRobot),
            11 => Some(Buttons::EffectSelect3),
            12 => Some(Buttons::SamplerSelectC),
            13 => Some(Buttons::SamplerBottomRight),
            14 => Some(Buttons::Fader3Mute),
            15 => Some(Buttons::EffectSelect4),
            16 => Some(Buttons::EffectHardTune),
            17 => Some(Buttons::SamplerBottomLeft),
            18 => Some(Buttons::SamplerClear),
            19 => Some(Buttons::Fader4Mute),
            20 => Some(Buttons::EffectMegaphone),
            21 => Some(Buttons::EffectFx),
            22 => Some(Buttons::Bleep),
            23 => Some(Buttons::MicrophoneMute),
            _ => None,
        }
    }
}

/// No two buttons share a position, and every button's position is below
/// twenty-four.
pub proof fn lemma_positions_distinct(a: Buttons, b: Buttons)
    ensures
        a.spec_position() < BUTTON_COUNT,
        a.spec_position() == b.spec_position() <==> a == b,
{
}

/// A position has a button exactly when it is below twenty-four, and the
/// button's position is then that one.
pub proof fn lemma_button_at_position(position: u8)
    ensures
        position < BUTTON_COUNT <==> Buttons::spec_from_position(position).is_some(),
        Buttons::spec_from_position(position) matches Some(b) ==> b.spec_position() == position,
{
}

/// A button is the one that stands at its position.
pub proof fn lemma_position_of_button(button: Buttons)
    ensures
        Buttons::spec_from_position(button.spec_position()) == Some(button),
{
}

/// Whether the bit at `position` is set in `mask`.
pub open spec fn bit_is_set(mask: u32, position: u8) -> bool {
    (mask >> (position as u32)) & 1 == 1
}

/// The buttons whose bits are set in a press mask.
pub open spec fn buttons_of_mask(mask: u32) -> Set<Buttons> {
    Set::new(|button: Buttons| bit_is_set(mask, button.spec_position()))
}

/// A set of buttons, kept as one bit per button at the button's position.
#[derive(Copy, Clone, Debug, PartialEq, Eq)]
pub struct ButtonSet {
    bits: u32,
}

impl View for ButtonSet {
    type V = Set<Buttons>;

    closed spec fn view(&self) -> Set<Buttons> {
        buttons_of_mask(self.bits)
    }
}

impl ButtonSet {
    #[verifier::type_invariant]
    spec fn only_button_bits(self) -> bool {
        self.bits < 0x100_0000
    }

    /// The set without any button.
    pub fn empty() -> (set: ButtonSet)
        ensures
            set@ == Set::<Buttons>::empty(),
    {
        let set = ButtonSet { bits: 0 };
        proof {
            assert forall|button: Buttons| !bit_is_set(0, button.spec_position()) by {
                let p: u32 = button.spec_position() as u32;
                assert((0u32 >> p) & 1 != 1) by (bit_vector);
            }
            assert(set@ =~= Set::<Buttons>::empty());
        }
        set
    }

    /// The set of all twenty-four buttons.
    pub fn all() -> (set: ButtonSet)
        ensures
            set@ == Set::<Buttons>::full(),
    {
        let set = ButtonSet { bits: 0xFF_FFFF };
        proof {
            assert forall|button: Buttons| bit_is_set(0xFF_FFFF, button.spec_position()) by {
                let p: u32 = button.spec_position() as u32;
                assert((0xFF_FFFFu32 >> p) & 1 == 1) by (bit_vector)
                    requires
                        p < 24,
                ;
            }
            assert(set@ =~= Set::<Buttons>::full());
        }
        set
    }

    /// The buttons whose bits are set in `mask`; bits that belong to no
    /// button are dropped.
    pub fn from_bits(mask: u32) -> (set: ButtonSet)
        ensures
            set@ == buttons_of_mask(mask),
    {
        let bits: u32 = mask & 0xFF_FFFF;
        assert(bits < 0x100_0000) by (bit_vector)
            requires
                bits == mask & 0xFF_FFFF,
        ;
        let set = ButtonSet { bits };
        proof {
            assert forall|button: Buttons|
                bit_is_set(bits, button.spec_position()) == bit_is_set(
                    mask,
                    button.spec_position(),
                ) by {
                let p: u32 = button.spec_position() as u32;
                assert(((mask & 0xFF_FFFF) >> p) & 1 == (mask >> p) & 1) by (bit_vector)
                    requires
                        p < 24,
                ;
            }
            assert(set@ =~= buttons_of_mask(mask));
        }
        set
    }

    /// The set as a mask: the bit at a button's position is set exactly when
    /// the button is in the set, and no other bit is.
    pub fn bits(&self) -> (mask: u32)
        ensures
            mask < 0x100_0000,
            self@ == buttons_of_mask(mask),
    {
        proof {
            use_type_invariant(self);
        }
        self.bits
    }

    /// Whether `button` is in the set.
    pub fn contains(&self, button: Buttons) -> (found: bool)
        ensures
            found == self@.contains(button),
    {
        let position: u32 = button.position() as u32;
        (self.bits >> position) & 1 == 1
    }

    /// Whether the set holds no button.
    pub fn is_empty(&self) -> (empty: bool)
        ensures
            empty == (self@ == Set::<Buttons>::empty()),
    {
        proof {
            use_type_invariant(self);
            let bits = self.bits;
            if bits == 0 {
                assert forall|button: Buttons| !bit_is_set(bits, button.spec_position()) by {
                    let p: u32 = button.spec_position() as u32;
                    assert((0u32 >> p) & 1 != 1) by (bit_vector);
                }
                assert(self@ =~= Set::<Buttons>::empty());
            } else {
                lemma_some_bit_is_set(bits);
                let p: u32 = choose|p: u32| p < 24 && #[trigger] ((bits >> p) & 1) == 1;
                let position: u8 = p as u8;
                lemma_button_at_position(position);
                let button = Buttons::spec_from_position(position).unwrap();
                assert(bit_is_set(bits, button.spec_position()));
                assert(self@.contains(button));
            }
        }
        self.bits == 0
    }

    /// Puts `button` into the set, and says whether it was missing before.
    pub fn insert(&mut self, button: Buttons) -> (added: bool)
        ensures
            final(self)@ == old(self)@.insert(button),
            added == !old(self)@.contains(button),
    {
        proof {
            use_type_invariant(&*self);
        }
        let position: u32 = button.position() as u32;
        let before: u32 = self.bits;
        let after: u32 = before | (1u32 << position);
        assert(after < 0x100_0000) by (bit_vector)
            requires
                before < 0x100_0000,
                position < 24,
                after == before | (1u32 << position),
        ;
        proof {
            assert forall|other: Buttons|
                bit_is_set(after, other.spec_position()) == (other == button || bit_is_set(
                    before,
                    other.spec_position(),
                )) by {
                lemma_positions_distinct(other, button);
                let q: u32 = other.spec_position() as u32;
                assert(((before | (1u32 << position)) >> q) & 1 == 1 <==> (q == position || (before
                    >> q) & 1 == 1)) by (bit_vector)
                    requires
                        position < 24,
                        q < 24,
                ;
            }
        }
        self.bits = after;
        assert(self@ =~= old(self)@.insert(button));
        (before >> position) & 1 != 1
    }

    /// Takes `button` out of the set, and says whether it was there.
    pub fn remove(&mut self, button: Buttons) -> (removed: bool)
        ensures
            final(self)@ == old(self)@.remove(button),
            removed == old(self)@.contains(button),
    {
        proof {
            use_type_invariant(&*self);
        }
        let position: u32 = button.position() as u32;
        let before: u32 = self.bits;
        let after: u32 = before & !(1u32 << position);
        assert(after < 0x100_0000) by (bit_vector)
            requires
                before < 0x100_0000,
                after == before & !(1u32 << position),
        ;
        proof {
            assert forall|other: Buttons|
                bit_is_set(after, other.spec_position()) == (other != button && bit_is_set(
                    before,
                    other.spec_position(),
                )) by {
                lemma_positions_distinct(other, button);
                let q: u32 = other.spec_position() as u32;
                assert(((before & !(1u32 << position)) >> q) & 1 == 1 <==> (q != position && (before
                    >> q) & 1 == 1)) by (bit_vector)
                    requires
                        position < 24,
                        q < 24,
                ;
            }
        }
        self.bits = after;
        assert(self@ =~= old(self)@.remove(button));
        (before >> position) & 1 == 1
    }

    /// The buttons of the set, in the order of their positions.
    pub fn to_vec(&self) -> (buttons: Vec<Buttons>)
        ensures
            forall|button: Buttons| buttons@.contains(button) <==> self@.contains(button),
            forall|i: int, j: int|
                0 <= i < j < buttons@.len() ==> buttons@[i].spec_position()
                    < buttons@[j].spec_position(),
    {
        let mut buttons: Vec<Buttons> = Vec::new();
        let mut position: u8 = 0;
        while position < BUTTON_COUNT
            invariant
                position <= BUTTON_COUNT,
                forall|i: int|
                    0 <= i < buttons@.len() ==> #[trigger] buttons@[i].spec_position() < position
                        && self@.contains(buttons@[i]),
                forall|button: Buttons|
                    self@.contains(button) && button.spec_position() < position
                        ==> buttons@.contains(button),
                forall|i: int, j: int|
                    0 <= i < j < buttons@.len() ==> buttons@[i].spec_position()
                        < buttons@[j].spec_position(),
            decreases BUTTON_COUNT - position,
        {
            match Buttons::from_position(position) {
                Some(button) => {
                    let ghost before = buttons@;
                    if self.contains(button) {
                        buttons.push(button);
                        proof {
                            assert(buttons@[before.len() as int] == button);
                            assert forall|other: Buttons|
                                self@.contains(other) && other.spec_position() < position + 1
                                    implies buttons@.contains(other) by {
                                lemma_positions_distinct(other, button);
                                if other != button {
                                    assert(before.contains(other));
                                    let k = choose|k: int| 0 <= k < before.len() && before[k] == other;
                                    assert(buttons@[k] == other);
                                }
                            }
                        }
                    } else {
                        proof {
                            assert forall|other: Buttons|
                                self@.contains(other) && other.spec_position() < position + 1
                                    implies buttons@.contains(other) by {
                                lemma_positions_distinct(other, button);
                            }
                        }
                    }
                },
                None => {},
            }
            position = position + 1;
        }
        proof {
            assert forall|button: Buttons| self@.contains(button) implies buttons@.contains(
                button,
            ) by {
                lemma_positions_distinct(button, button);
            }
        }
        buttons
    }
}

/// A mask with the one bit of a button's position stands for that button
/// alone.
pub proof fn lemma_mask_of_one_button(button: Buttons)
    ensures
        buttons_of_mask(1u32 << (button.spec_position() as u32)) == Set::<Buttons>::empty().insert(
            button,
        ),
{
    let p: u32 = button.spec_position() as u32;
    assert forall|other: Buttons|
        bit_is_set(1u32 << p, other.spec_position()) == (other == button) by {
        lemma_positions_distinct(other, button);
        let q: u32 = other.spec_position() as u32;
        assert((((1u32 << p) >> q) & 1 == 1) == (q == p)) by (bit_vector)
            requires
                p < 24,
                q < 24,
        ;
    }
    assert(buttons_of_mask(1u32 << p) =~= Set::<Buttons>::empty().insert(button));
}

/// A mask of button bits that is not zero has one of its twenty-four bits
/// set.
proof fn lemma_some_bit_is_set(bits: u32)
    requires
        bits != 0,
        bits < 0x100_0000,
    ensures
        exists|p: u32| p < 24 && #[trigger] ((bits >> p) & 1) == 1,
{
    assert((bits >> 0u32) & 1 == 1 || (bits >> 1u32) & 1 == 1 || (bits >> 2u32) & 1 == 1 || (bits >> 3u32) & 1 == 1 || (bits >> 4u32) & 1 == 1 || (bits >> 5u32) & 1 == 1 || (bits >> 6u32) & 1 == 1 || (bits >> 7u32) & 1 == 1 || (bits >> 8u32) & 1 == 1 || (bits >> 9u32) & 1 == 1 || (bits >> 10u32) & 1 == 1 || (bits >> 11u32) & 1 == 1 || (bits >> 12u32) & 1 == 1 || (bits >> 13u32) & 1 == 1 || (bits >> 14u32) & 1 == 1 || (bits >> 15u32) & 1 == 1 || (bits >> 16u32) & 1 == 1 || (bits >> 17u32) & 1 == 1 || (bits >> 18u32) & 1 == 1 || (bits >> 19u32) & 1 == 1 || (bits >> 20u32) & 1 == 1 || (bits >> 21u32) & 1 == 1 || (bits >> 22u32) & 1 == 1 || (bits >> 23u32) & 1 == 1) by (bit_vector)
        requires
            bits != 0,
            bits < 0x100_0000,
    ;
}

} // verus!
