//! The units of CSS numbers.

use vstd::prelude::*;

verus! {

/// Quantities whose units convert into each other by a fixed ratio.
#[derive(Copy, Clone, Debug, PartialEq, Eq, Structural)]
pub enum Quantity {
    Length,
    Angle,
    Time,
    Frequency,
    Resolution,
}

/// The unit of a number.
#[derive(Copy, Clone, Debug, PartialEq, Eq, Structural)]
pub enum Unit {
    /// Pixels
    Px,
    /// Millimeters
    Mm,
    /// Inches
    In,
    /// Centimeters
    Cm,
    /// Quarter-millimeters
    Q,
    /// Points, a seventy-second of an inch
    Pt,
    /// Picas, a sixth of an inch
    Pc,
    /// The font size of the element
    Em,
    /// The font size of the root element
    Rem,
    /// Degrees
    Deg,
    /// Gradians, four hundred to the full circle
    Grad,
    /// Radians
    Rad,
    /// Full circles
    Turn,
    /// Seconds
    S,
    /// Milliseconds
    Ms,
    /// Hertz
    Hz,
    /// Kilohertz
    Khz,
    /// Dots per inch
    Dpi,
    /// Dots per centimeter
    Dpcm,
    /// Dots per pixel
    Dppx,
    /// A percentage
    Percent,
    /// No unit: a plain number
    Unitless,
}

impl Unit {
    /// The unit as it is written after a number.
    pub open spec fn text(self) -> Seq<char> {
        match self {
            Unit::Px => "px"@,
            Unit::Mm => "mm"@,
            Unit::In => "in"@,
            Unit::Cm => "cm"@,
            Unit::Q => "q"@,
            Unit::Pt => "pt"@,
            Unit::Pc => "pc"@,
            Unit::Em => "em"@,
            Unit::Rem => "rem"@,
            Unit::Deg => "deg"@,
            Unit::Grad => "grad"@,
            Unit::Rad => "rad"@,
            Unit::Turn => "turn"@,
            Unit::S => "s"@,
            Unit::Ms => "ms"@,
            Unit::Hz => "Hz"@,
            Unit::Khz => "kHz"@,
            Unit::Dpi => "dpi"@,
            Unit::Dpcm => "dpcm"@,
            Unit::Dppx => "dppx"@,
            Unit::Percent => "%"@,
            Unit::Unitless => ""@,
        }
    }

    /// The size of the unit, where it has a fixed one: the quantity that it
    /// measures, and how many of that quantity's smallest parts make one.
    /// The parts are chosen so that every size is a whole number: of an inch
    /// the 36576th, of a degree the tenth, the millisecond, the hertz, and of
    /// a dot per inch the fiftieth. The radian has no exact ratio to the
    /// degree and is left without a size, like the relative units.
    pub open spec fn size(self) -> Option<(Quantity, int)> {
        match self {
            Unit::Px => Some((Quantity::Length, 381)),
            Unit::Mm => Some((Quantity::Length, 1440)),
            Unit::In => Some((Quantity::Length, 36576)),
            Unit::Cm => Some((Quantity::Length, 14400)),
            Unit::Q => Some((Quantity::Length, 360)),
            Unit::Pt => Some((Quantity::Length, 508)),
            Unit::Pc => Some((Quantity::Length, 6096)),
            Unit::Deg => Some((Quantity::Angle, 10)),
            Unit::Grad => Some((Quantity::Angle, 9)),
            Unit::Turn => Some((Quantity::Angle, 3600)),
            Unit::S => Some((Quantity::Time, 1000)),
            Unit::Ms => Some((Quantity::Time, 1)),
            Unit::Hz => Some((Quantity::Frequency, 1)),
            Unit::Khz => Some((Quantity::Frequency, 1000)),
            Unit::Dpi => Some((Quantity::Resolution, 50)),
            Unit::Dpcm => Some((Quantity::Resolution, 127)),
            Unit::Dppx => Some((Quantity::Resolution, 4800)),
            _ => None,
        }
    }

    /// Whether numbers of the two units can be compared: the units are the
    /// same, or they measure the same quantity.
    pub open spec fn comparable_spec(self, other: Unit) -> bool {
        self == other || (self.size() matches Some((d1, _)) && other.size() matches Some((d2, _))
            && d1 == d2)
    }

    /// The unit as it is written after a number.
    pub fn as_str(self) -> (s: &'static str)
        ensures
            s@ == self.text(),
    {
        match self {
            Unit::Px => "px",
            Unit::Mm => "mm",
            Unit::In => "in",
            Unit::Cm => "cm",
            Unit::Q => "q",
            Unit::Pt => "pt",
            Unit::Pc => "pc",
            Unit::Em => "em",
            Unit::Rem => "rem",
            Unit::Deg => "deg",
            Unit::Grad => "grad",
            Unit::Rad => "rad",
            Unit::Turn => "turn",
            Unit::S => "s",
            Unit::Ms => "ms",
            Unit::Hz => "Hz",
            Unit::Khz => "kHz",
            Unit::Dpi => "dpi",
            Unit::Dpcm => "dpcm",
            Unit::Dppx => "dppx",
            Unit::Percent => "%",
            Unit::Unitless => "",
        }
    }

    /// The unit as it is written after a number, as an owned string.
    pub fn to_string(&self) -> (s: String)
        ensures
            s@ == self.text(),
    {
        String::from_str(self.as_str())
    }

    /// The quantity that the unit measures and its size in that quantity's
    /// smallest parts, where it has a fixed size.
    pub fn measure(self) -> (r: Option<(Quantity, u16)>)
        ensures
            match r {
                Some((d, k)) => self.size() == Some((d, k as int)) && 0 < k <= 36576,
                None => self.size() is None,
            },
    {
        match self {
            Unit::Px => Some((Quantity::Length, 381)),
            Unit::Mm => Some((Quantity::Length, 1440)),
            Unit::In => Some((Quantity::Length, 36576)),
            Unit::Cm => Some((Quantity::Length, 14400)),
            Unit::Q => Some((Quantity::Length, 360)),
            Unit::Pt => Some((Quantity::Length, 508)),
            Unit::Pc => Some((Quantity::Length, 6096)),
            Unit::Deg => Some((Quantity::Angle, 10)),
            Unit::Grad => Some((Quantity::Angle, 9)),
            Unit::Turn => Some((Quantity::Angle, 3600)),
            Unit::S => Some((Quantity::Time, 1000)),
            Unit::Ms => Some((Quantity::Time, 1)),
            Unit::Hz => Some((Quantity::Frequency, 1)),
            Unit::Khz => Some((Quantity::Frequency, 1000)),
            Unit::Dpi => Some((Quantity::Resolution, 50)),
            Unit::Dpcm => Some((Quantity::Resolution, 127)),
            Unit::Dppx => Some((Quantity::Resolution, 4800)),
            _ => None,
        }
    }

    /// Whether numbers of the two units can be compared.
    #[verifier::when_used_as_spec(comparable_spec)]
    pub fn comparable(self, other: Unit) -> (r: bool)
        ensures
            r == self.comparable_spec(other),
    {
        if self == other {
            return true;
        }
        match (self.measure(), other.measure()) {
            (Some((d1, _)), Some((d2, _))) => d1 == d2,
            _ => false,
        }
    }
}

} // verus!
