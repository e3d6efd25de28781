use vstd::prelude::*;

use crate::stream::draw_u32;

verus! {

/// Mass is held in fixed point: this many units make one solar mass.
pub const MASS_UNITS_PER_SOLAR_MASS: u32 = 100_000;

/// Spectral classes, ordered from the heaviest to the lightest.
#[derive(Debug, PartialEq, Eq, Structural, Hash, Copy, Clone, PartialOrd, Ord)]
pub enum StarClass {
    O,
    B,
    A,
    F,
    G,
    K,
    M,
    WhiteDwarf,
}

/// A mass that is not positive cannot describe a star.
#[derive(Debug, PartialEq, Eq, Structural, Copy, Clone)]
pub enum DomainError {
    NonPositiveMass,
}

/// Red, green, blue and alpha channels of a display color.
#[derive(Debug, PartialEq, Eq, Structural, Copy, Clone)]
pub struct Rgba {
    pub r: u8,
    pub g: u8,
    pub b: u8,
    pub a: u8,
}

/// Class of a star of mass `m` (in mass units): each threshold is the
/// exclusive upper bound of the lighter class.
pub open spec fn class_of_mass(m: int) -> StarClass {
    if m < 8_000 {
        StarClass::WhiteDwarf
    } else if m < 45_000 {
        StarClass::M
    } else if m < 80_000 {
        StarClass::K
    } else if m < 104_000 {
        StarClass::G
    } else if m < 140_000 {
        StarClass::F
    } else if m < 210_000 {
        StarClass::A
    } else if m < 1_600_000 {
        StarClass::B
    } else {
        StarClass::O
    }
}

/// The half-open range `[lo, hi)` (in mass units) from which a star of the
/// class draws its mass.
pub open spec fn mass_range_of(c: StarClass) -> (int, int) {
    match c {
        StarClass::O => (1_600_000, 3_200_000),
        StarClass::B => (210_000, 1_600_000),
        StarClass::A => (140_000, 210_000),
        StarClass::F => (104_000, 140_000),
        StarClass::G => (80_000, 104_000),
        StarClass::K => (45_000, 80_000),
        StarClass::M => (8_000, 45_000),
        StarClass::WhiteDwarf => (1_000, 80_000),
    }
}

pub open spec fn life_allowed(c: StarClass) -> bool {
    c == StarClass::K || c == StarClass::G || c == StarClass::F
}

pub open spec fn rgba(r: u8, g: u8, b: u8, a: u8) -> Rgba {
    Rgba { r, g, b, a }
}

pub open spec fn color_of(c: StarClass) -> Rgba {
    match c {
        StarClass::O => rgba(155, 176, 255, 1),
        StarClass::B => rgba(170, 191, 255, 40),
        StarClass::A => rgba(202, 215, 255, 100),
        StarClass::F => rgba(248, 247, 255, 100),
        StarClass::G => rgba(255, 244, 234, 100),
        StarClass::K => rgba(255, 210, 161, 150),
        StarClass::M => rgba(255, 204, 111, 150),
        StarClass::WhiteDwarf => rgba(155, 176, 255, 50),
    }
}

impl StarClass {
    /// Mass range of the class, in mass units, lower bound included and
    /// upper bound excluded.
    pub fn mass_range(self) -> (r: (u32, u32))
        ensures
            r.0 as int == mass_range_of(self).0,
            r.1 as int == mass_range_of(self).1,
            0 < r.0 < r.1,
    {
        match self {
            StarClass::O => (1_600_000, 3_200_000),
            StarClass::B => (210_000, 1_600_000),
            StarClass::A => (140_000, 210_000),
            StarClass::F => (104_000, 140_000),
            StarClass::G => (80_000, 104_000),
            StarClass::K => (45_000, 80_000),
            StarClass::M => (8_000, 45_000),
            StarClass::WhiteDwarf => (1_000, 80_000),
        }
    }

    /// Whether planets of a star of this class may bear life.
    pub fn allows_life(self) -> (r: bool)
        ensures
            r == life_allowed(self),
    {
        match self {
            StarClass::K | StarClass::G | StarClass::F => true,
            _ => false,
        }
    }

    /// Display color of the class.
    pub fn color(self) -> (r: Rgba)
        ensures
            r == color_of(self),
    {
        match self {
            StarClass::O => Rgba { r: 155, g: 176, b: 255, a: 1 },
            StarClass::B => Rgba { r: 170, g: 191, b: 255, a: 40 },
            StarClass::A => Rgba { r: 202, g: 215, b: 255, a: 100 },
            StarClass::F => Rgba { r: 248, g: 247, b: 255, a: 100 },
            StarClass::G => Rgba { r: 255, g: 244, b: 234, a: 100 },
            StarClass::K => Rgba { r: 255, g: 210, b: 161, a: 150 },
            StarClass::M => Rgba { r: 255, g: 204, b: 111, a: 150 },
            StarClass::WhiteDwarf => Rgba { r: 155, g: 176, b: 255, a: 50 },
        }
    }
}

/// A star. Its mass, in mass units, is its only state; every other attribute
/// is computed from it on demand.
#[derive(Debug, PartialEq, Eq, Structural, Copy, Clone)]
pub struct Star {
    pub mass: u32,
}

impl Star {
    pub open spec fn wf(self) -> bool {
        self.mass > 0
    }

    /// A star of the given mass (in mass units); a zero mass is refused.
    pub fn from_mass(mass: u32) -> (r: Result<Star, DomainError>)
        ensures
            mass == 0 <==> r == Err::<Star, DomainError>(DomainError::NonPositiveMass),
            mass > 0 <==> r == Ok::<Star, DomainError>(Star { mass }),
    {
        if mass == 0 {
            Err(DomainError::NonPositiveMass)
        } else {
            Ok(Star { mass })
        }
    }

    /// A star whose mass is drawn from the class's mass range on the stream.
    pub fn from_class(rng: &mut rand::rngs::StdRng, class: StarClass) -> (r: Star)
        ensures
            r.wf(),
            mass_range_of(class).0 <= r.mass < mass_range_of(class).1,
    {
        let (lo, hi) = class.mass_range();
        let mass = draw_u32(rng, lo, hi);
        Star { mass }
    }

    /// Spectral class of the star, decided by its mass.
    pub fn class(&self) -> (r: StarClass)
        ensures
            r == class_of_mass(self.mass as int),
    {
        class_for_mass(self.mass)
    }

    /// Display color, decided by the class.
    pub fn color(&self) -> (r: Rgba)
        ensures
            r == color_of(class_of_mass(self.mass as int)),
    {
        self.class().color()
    }

    /// Whether planets of this star may bear life.
    pub fn allows_life(&self) -> (r: bool)
        ensures
            r == life_allowed(class_of_mass(self.mass as int)),
    {
        self.class().allows_life()
    }

    /// Inner and outer orbital bounds in millionths of an astronomical unit:
    /// a tenth and forty times the mass in solar masses.
    pub fn orbit_boundaries(&self) -> (r: (u64, u64))
        ensures
            r.0 as int == self.mass,
            r.1 as int == 400 * self.mass,
    {
        (self.mass as u64, 400 * (self.mass as u64))
    }
}

/// Spectral class of a mass given in mass units.
pub fn class_for_mass(mass: u32) -> (r: StarClass)
    ensures
        r == class_of_mass(mass as int),
{
    if mass < 8_000 {
        StarClass::WhiteDwarf
    } else if mass < 45_000 {
        StarClass::M
    } else if mass < 80_000 {
        StarClass::K
    } else if mass < 104_000 {
        StarClass::G
    } else if mass < 140_000 {
        StarClass::F
    } else if mass < 210_000 {
        StarClass::A
    } else if mass < 1_600_000 {
        StarClass::B
    } else {
        StarClass::O
    }
}

} // verus!
