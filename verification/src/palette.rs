use vstd::prelude::*;

use crate::color::Color;
use crate::random::random_in;

verus! {

/// Number of colour palettes a course can be painted with.
pub const PALETTE_COUNT: usize = 5;

/// The colours one course is painted with: three bright colours for gates
/// and obstacles, and two greys for supporting structure.
#[derive(Clone, Copy, Debug, PartialEq, Eq, Structural)]
pub struct Palette {
    pub primary: Color,
    pub secondary: Color,
    pub accent: Color,
    pub structure: Color,
    pub dark: Color,
}

pub open spec fn rgb(r: u8, g: u8, b: u8) -> Color {
    Color { r, g, b }
}

/// The three bright colours of palette `i` of the table, in the order
/// primary, secondary, accent.
pub open spec fn table_brights(i: int) -> (Color, Color, Color) {
    if i == 0 {
        // orange, blue, yellow
        (rgb(255, 100, 30), rgb(30, 150, 255), rgb(255, 220, 30))
    } else if i == 1 {
        // green, purple, pink
        (rgb(30, 220, 80), rgb(180, 50, 220), rgb(255, 80, 180))
    } else if i == 2 {
        // cyan, red, yellow
        (rgb(30, 220, 220), rgb(220, 40, 40), rgb(255, 220, 30))
    } else if i == 3 {
        // orange, green, blue
        (rgb(255, 100, 30), rgb(30, 220, 80), rgb(30, 150, 255))
    } else {
        // purple, cyan, orange
        (rgb(180, 50, 220), rgb(30, 220, 220), rgb(255, 100, 30))
    }
}

/// The grey of supporting structure, the same in every palette.
pub open spec fn structure_grey() -> Color {
    rgb(90, 90, 90)
}

/// The dark grey, the same in every palette.
pub open spec fn dark_grey() -> Color {
    rgb(60, 60, 60)
}

/// Palette `i` of the table.
pub open spec fn table_palette(i: int) -> Palette {
    Palette {
        primary: table_brights(i).0,
        secondary: table_brights(i).1,
        accent: table_brights(i).2,
        structure: structure_grey(),
        dark: dark_grey(),
    }
}

impl Palette {
    /// The bright colour that a roll selects: 0 the primary, 1 the
    /// secondary, anything else the accent.
    pub open spec fn bright_for(self, roll: int) -> Color {
        if roll == 0 {
            self.primary
        } else if roll == 1 {
            self.secondary
        } else {
            self.accent
        }
    }

    /// The bright colour a roll of `0..3` selects.
    pub fn color_for_roll(&self, roll: usize) -> (c: Color)
        ensures
            c == self.bright_for(roll as int),
    {
        if roll == 0 {
            self.primary
        } else if roll == 1 {
            self.secondary
        } else {
            self.accent
        }
    }

    /// A random bright colour of the palette.
    pub fn pick(&self, rng: &mut rand::rngs::ThreadRng) -> (c: Color)
        ensures
            exists|roll: int| 0 <= roll < 3 && c == #[trigger] self.bright_for(roll),
            c == self.primary || c == self.secondary || c == self.accent,
    {
        let roll = random_in(rng, 0, 2);
        self.color_for_roll(roll)
    }

    /// The colour of gate number `i` of the circuit: the bright colours
    /// in turn, starting with the primary.
    pub fn circuit_color(&self, i: usize) -> (c: Color)
        ensures
            c == self.bright_for((i % 3) as int),
    {
        let gate_colors = [self.primary, self.secondary, self.accent];
        gate_colors[i % 3]
    }
}

/// Palette number `index` of the table.
pub fn palette_at(index: usize) -> (p: Palette)
    requires
        index < PALETTE_COUNT,
    ensures
        p == table_palette(index as int),
{
    let structure = Color::new(90, 90, 90);
    let dark = Color::new(60, 60, 60);
    let (primary, secondary, accent) = if index == 0 {
        (Color::new(255, 100, 30), Color::new(30, 150, 255), Color::new(255, 220, 30))
    } else if index == 1 {
        (Color::new(30, 220, 80), Color::new(180, 50, 220), Color::new(255, 80, 180))
    } else if index == 2 {
        (Color::new(30, 220, 220), Color::new(220, 40, 40), Color::new(255, 220, 30))
    } else if index == 3 {
        (Color::new(255, 100, 30), Color::new(30, 220, 80), Color::new(30, 150, 255))
    } else {
        (Color::new(180, 50, 220), Color::new(30, 220, 220), Color::new(255, 100, 30))
    };
    Palette { primary, secondary, accent, structure, dark }
}

/// A palette drawn at random from the table.
pub fn random_palette(rng: &mut rand::rngs::ThreadRng) -> (p: Palette)
    ensures
        exists|i: int| 0 <= i < PALETTE_COUNT && p == #[trigger] table_palette(i),
{
    let index = random_in(rng, 0, PALETTE_COUNT - 1);
    palette_at(index)
}

/// In every palette of the table the three bright colours differ from
/// one another, so two consecutive gates of the circuit never share a
/// colour.
pub proof fn lemma_consecutive_circuit_gates_differ(i: int, gate: nat)
    requires
        0 <= i < PALETTE_COUNT,
    ensures
        table_palette(i).bright_for((gate % 3) as int) != table_palette(i).bright_for(
            ((gate + 1) % 3) as int,
        ),
{
}

/// The circuit colours repeat every three gates.
pub proof fn lemma_circuit_colors_repeat(p: Palette, gate: nat)
    ensures
        p.bright_for((gate % 3) as int) == p.bright_for(((gate + 3) % 3) as int),
{
}

/// No roll picks one of the greys from a palette of the table: picked
/// colours are always bright.
pub proof fn lemma_picks_are_never_grey(i: int, roll: int)
    requires
        0 <= i < PALETTE_COUNT,
    ensures
        table_palette(i).bright_for(roll) != structure_grey(),
        table_palette(i).bright_for(roll) != dark_grey(),
{
}

} // verus!
