use vstd::prelude::*;
use crate::state::Interaction;

verus! {

/// A colour whose channels are given in hundredths (0 is none, 100 is full).
#[derive(Clone, Copy, Debug, PartialEq, Eq, Structural, Hash)]
pub struct Rgb {
    pub r: u8,
    pub g: u8,
    pub b: u8,
}

impl Rgb {
    pub open spec fn spec_new(r: u8, g: u8, b: u8) -> Rgb {
        Rgb { r, g, b }
    }

    pub open spec fn valid(self) -> bool {
        self.r <= 100 && self.g <= 100 && self.b <= 100
    }
}

/// Button colour when the pointer leaves it alone.
pub open spec fn normal_button() -> Rgb {
    Rgb::spec_new(15, 15, 15)
}

/// Button colour under a hovering pointer: lighter than the normal one.
pub open spec fn hovered_button() -> Rgb {
    Rgb::spec_new(25, 25, 25)
}

/// Button colour while pressed: tinted green.
pub open spec fn pressed_button() -> Rgb {
    Rgb::spec_new(35, 75, 35)
}

/// The colour that a button shows for each interaction.
pub open spec fn shade(i: Interaction) -> Rgb {
    match i {
        Interaction::Idle => normal_button(),
        Interaction::Hovered => hovered_button(),
        Interaction::Pressed => pressed_button(),
    }
}

pub fn button_color(i: Interaction) -> (r: Rgb)
    ensures
        r == shade(i),
        r.valid(),
{
    match i {
        Interaction::Idle => Rgb { r: 15, g: 15, b: 15 },
        Interaction::Hovered => Rgb { r: 25, g: 25, b: 25 },
        Interaction::Pressed => Rgb { r: 35, g: 75, b: 35 },
    }
}

/// Colour of the button's label.
pub fn text_color() -> (r: Rgb)
    ensures
        r == Rgb::spec_new(90, 90, 90),
{
    Rgb { r: 90, g: 90, b: 90 }
}

/// Colour that the window is cleared to.
pub fn clear_color() -> (r: Rgb)
    ensures
        r == Rgb::spec_new(0, 0, 0),
{
    Rgb { r: 0, g: 0, b: 0 }
}

/// The three button colours are pairwise distinct, so a colour tells the
/// interaction that produced it.
pub proof fn lemma_shade_injective(a: Interaction, b: Interaction)
    ensures
        shade(a) == shade(b) <==> a == b,
{
}

} // verus!
