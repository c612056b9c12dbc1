//! Wire codec for the camera's domain value types.
//!
//! Each value type has a custom numeric wire encoding distinct from its
//! natural representation: shutter speed packs numerator and denominator
//! into the two 16-bit halves of a 32-bit value with a sentinel for bulb,
//! ISO has a sentinel for automatic selection, and aperture has a sentinel
//! for an undefined reading.  Decoding is total: an unrecognized wire value
//! never fails, it maps onto the nearest representable value, because a
//! device may report values newer than this driver understands.

use vstd::prelude::*;

verus! {

/// The wire value that stands for a bulb exposure.
pub const SHUTTER_BULB_WIRE: u64 = 0xFFFF_FFFE;

/// The wire value that stands for automatic ISO selection.
pub const ISO_AUTO_WIRE: u64 = 0x00FF_FFFF;

/// The wire value that stands for an undefined aperture.
pub const APERTURE_UNDEFINED_WIRE: u64 = 0xFFFE;

/// A shutter speed: either a bulb exposure or a fraction of a second.
#[derive(Debug, Clone, Copy, PartialEq, Eq, Structural)]
pub enum ShutterSpeed {
    Bulb,
    Fraction { numerator: u16, denominator: u16 },
}

/// Wire form of a shutter speed: the two 16-bit halves hold numerator and
/// denominator, and one sentinel means bulb.
pub open spec fn shutter_speed_wire(v: ShutterSpeed) -> u64 {
    match v {
        ShutterSpeed::Bulb => SHUTTER_BULB_WIRE as u64,
        ShutterSpeed::Fraction { numerator, denominator } => ((numerator as u64) << 16) | (
        denominator as u64),
    }
}

/// Decoding of a shutter speed from its wire form; total on all wire values.
pub open spec fn shutter_speed_of_wire(n: u64) -> ShutterSpeed {
    if n == SHUTTER_BULB_WIRE {
        ShutterSpeed::Bulb
    } else {
        ShutterSpeed::Fraction {
            numerator: ((n >> 16) & 0xFFFF) as u16,
            denominator: (n & 0xFFFF) as u16,
        }
    }
}

impl ShutterSpeed {
    /// Decode from a 64-bit wire value; never fails.
    pub fn from_u64(n: u64) -> (r: Option<ShutterSpeed>)
        ensures
            r == Some(shutter_speed_of_wire(n)),
    {
        if n == SHUTTER_BULB_WIRE {
            Some(ShutterSpeed::Bulb)
        } else {
            Some(
                ShutterSpeed::Fraction {
                    numerator: ((n >> 16) & 0xFFFF) as u16,
                    denominator: (n & 0xFFFF) as u16,
                },
            )
        }
    }

    /// A shutter speed has no signed wire form.
    pub fn from_i64(n: i64) -> (r: Option<ShutterSpeed>)
        ensures
            r is None,
    {
        None
    }

    /// Encode to the 64-bit wire form.
    pub fn to_u64(&self) -> (r: Option<u64>)
        ensures
            r == Some(shutter_speed_wire(*self)),
    {
        match *self {
            ShutterSpeed::Bulb => Some(SHUTTER_BULB_WIRE),
            ShutterSpeed::Fraction { numerator, denominator } => Some(
                ((numerator as u64) << 16) | (denominator as u64),
            ),
        }
    }

    /// A shutter speed has no signed wire form.
    pub fn to_i64(&self) -> (r: Option<i64>)
        ensures
            r is None,
    {
        None
    }
}

/// Decoding inverts encoding for every representable shutter speed but the
/// one fraction whose packed form collides with the bulb sentinel.
pub proof fn lemma_shutter_speed_round_trip(v: ShutterSpeed)
    requires
        v matches ShutterSpeed::Fraction { numerator, denominator } ==> !(numerator == 0xFFFF
            && denominator == 0xFFFE),
    ensures
        shutter_speed_of_wire(shutter_speed_wire(v)) == v,
{
    match v {
        ShutterSpeed::Bulb => {
        },
        ShutterSpeed::Fraction { numerator: nu, denominator: de } => {
            assert(((((((nu as u64) << 16) | (de as u64)) >> 16) & 0xFFFF) as u16) == nu && (((((nu
                as u64) << 16) | (de as u64)) & 0xFFFF) as u16) == de && ((((nu as u64) << 16) | (de
                as u64)) == 0xFFFF_FFFEu64 ==> (nu == 0xFFFF && de == 0xFFFE))) by (bit_vector);
        },
    }
}

/// An ISO setting: automatic selection or a concrete sensitivity.
#[derive(Debug, Clone, Copy, PartialEq, Eq, Structural)]
pub enum Iso {
    Auto,
    Value(u16),
}

/// Wire form of an ISO setting.
pub open spec fn iso_wire(v: Iso) -> u64 {
    match v {
        Iso::Auto => ISO_AUTO_WIRE as u64,
        Iso::Value(n) => n as u64,
    }
}

/// Decoding of an ISO setting from its wire form; total on all wire values.
pub open spec fn iso_of_wire(n: u64) -> Iso {
    if n == ISO_AUTO_WIRE {
        Iso::Auto
    } else {
        Iso::Value((n & 0xFFFF) as u16)
    }
}

impl Iso {
    /// Decode from a 64-bit wire value; never fails.
    pub fn from_u64(n: u64) -> (r: Option<Iso>)
        ensures
            r == Some(iso_of_wire(n)),
    {
        if n == ISO_AUTO_WIRE {
            Some(Iso::Auto)
        } else {
            Some(Iso::Value((n & 0xFFFF) as u16))
        }
    }

    /// An ISO setting has no signed wire form.
    pub fn from_i64(n: i64) -> (r: Option<Iso>)
        ensures
            r is None,
    {
        None
    }

    /// Encode to the 64-bit wire form.
    pub fn to_u64(&self) -> (r: Option<u64>)
        ensures
            r == Some(iso_wire(*self)),
    {
        match *self {
            Iso::Auto => Some(ISO_AUTO_WIRE),
            Iso::Value(n) => Some(n as u64),
        }
    }

    /// An ISO setting has no signed wire form.
    pub fn to_i64(&self) -> (r: Option<i64>)
        ensures
            r is None,
    {
        None
    }
}

/// Decoding inverts encoding for every representable ISO setting.
pub proof fn lemma_iso_round_trip(v: Iso)
    ensures
        iso_of_wire(iso_wire(v)) == v,
{
    match v {
        Iso::Auto => {
        },
        Iso::Value(n) => {
            assert((((n as u64) & 0xFFFF) as u16) == n && (n as u64) != 0x00FF_FFFFu64)
                by (bit_vector);
        },
    }
}

/// An aperture: undefined (no lens reading) or a concrete f-number in
/// hundredths.
#[derive(Debug, Clone, Copy, PartialEq, Eq, Structural)]
pub enum Aperture {
    Undefined,
    Value(u16),
}

/// Wire form of an aperture.
pub open spec fn aperture_wire(v: Aperture) -> u64 {
    match v {
        Aperture::Undefined => APERTURE_UNDEFINED_WIRE as u64,
        Aperture::Value(n) => n as u64,
    }
}

/// Decoding of an aperture from its wire form; total on all wire values.
pub open spec fn aperture_of_wire(n: u64) -> Aperture {
    if n == APERTURE_UNDEFINED_WIRE {
        Aperture::Undefined
    } else {
        Aperture::Value((n & 0xFFFF) as u16)
    }
}

impl Aperture {
    /// Decode from a 64-bit wire value; never fails.
    pub fn from_u64(n: u64) -> (r: Option<Aperture>)
        ensures
            r == Some(aperture_of_wire(n)),
    {
        if n == APERTURE_UNDEFINED_WIRE {
            Some(Aperture::Undefined)
        } else {
            Some(Aperture::Value((n & 0xFFFF) as u16))
        }
    }

    /// An aperture has no signed wire form.
    pub fn from_i64(n: i64) -> (r: Option<Aperture>)
        ensures
            r is None,
    {
        None
    }

    /// Encode to the 64-bit wire form.
    pub fn to_u64(&self) -> (r: Option<u64>)
        ensures
            r == Some(aperture_wire(*self)),
    {
        match *self {
            Aperture::Undefined => Some(APERTURE_UNDEFINED_WIRE),
            Aperture::Value(n) => Some(n as u64),
        }
    }

    /// An aperture has no signed wire form.
    pub fn to_i64(&self) -> (r: Option<i64>)
        ensures
            r is None,
    {
        None
    }
}

/// Decoding inverts encoding for every representable aperture but the one
/// value that coincides with the undefined sentinel.
pub proof fn lemma_aperture_round_trip(v: Aperture)
    requires
        v matches Aperture::Value(n) ==> n != 0xFFFE,
    ensures
        aperture_of_wire(aperture_wire(v)) == v,
{
    match v {
        Aperture::Undefined => {
        },
        Aperture::Value(n) => {
            assert((((n as u64) & 0xFFFF) as u16) == n) by (bit_vector);
        },
    }
}

} // verus!
