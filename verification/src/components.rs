//! Component records.
//!
//! A component is plain value data correlated with an entity by its index
//! inside an archetype group.  Scalar fields hold raw IEEE-754 bit patterns
//! (`u32`: single precision, `u64`: double precision); the presentation
//! layer converts to and from machine floating point at the boundary, and
//! `crate::numeric` performs the arithmetic on the patterns.

use vstd::prelude::*;

verus! {

/// Bit pattern of single-precision `1.0`, the default mass of the `Mass`
/// component.  (The monolithic `Object` defaults its mass to `0.0` instead;
/// the two variants deliberately diverge here.)
pub const ONE_BITS32: u32 = 0x3F80_0000;

/// A two-dimensional vector of single-precision bit patterns.
#[derive(Clone, Copy, Debug, PartialEq, Eq, Structural)]
pub struct Vec2Bits {
    pub x: u32,
    pub y: u32,
}

impl Vec2Bits {
    /// The zero vector: both axes hold the pattern of `+0.0`.
    pub open spec fn zero_spec() -> Vec2Bits {
        Vec2Bits { x: 0, y: 0 }
    }

    /// Returns the zero vector.
    pub fn zero() -> (r: Vec2Bits)
        ensures
            r == Vec2Bits::zero_spec(),
    {
        Vec2Bits { x: 0, y: 0 }
    }
}

/// A color as four single-precision channel bit patterns.
#[derive(Clone, Copy, Debug, PartialEq, Eq, Structural)]
pub struct ColorBits {
    pub r: u32,
    pub g: u32,
    pub b: u32,
    pub a: u32,
}

/// Where an entity is.
#[derive(Clone, Copy, Debug, PartialEq, Eq, Structural)]
pub struct Position {
    pub pos: Vec2Bits,
}

impl Default for Position {
    /// Defaults to the origin.
    fn default() -> (r: Self)
        ensures
            r.pos == Vec2Bits::zero_spec(),
    {
        Position { pos: Vec2Bits::zero() }
    }
}

/// How fast an entity moves, per axis.
#[derive(Clone, Copy, Debug, PartialEq, Eq, Structural)]
pub struct Velocity {
    pub vel: Vec2Bits,
}

impl Default for Velocity {
    /// Defaults to rest.
    fn default() -> (r: Self)
        ensures
            r.vel == Vec2Bits::zero_spec(),
    {
        Velocity { vel: Vec2Bits::zero() }
    }
}

/// How fast an entity's velocity changes, per axis.
#[derive(Clone, Copy, Debug, PartialEq, Eq, Structural)]
pub struct Acceleration {
    pub acc: Vec2Bits,
}

impl Default for Acceleration {
    /// Defaults to no acceleration.
    fn default() -> (r: Self)
        ensures
            r.acc == Vec2Bits::zero_spec(),
    {
        Acceleration { acc: Vec2Bits::zero() }
    }
}

/// How heavy an entity is.
#[derive(Clone, Copy, Debug, PartialEq, Eq, Structural)]
pub struct Mass {
    pub mass: u32,
}

impl Default for Mass {
    /// Defaults to unit mass (the pattern of `1.0`).
    fn default() -> (r: Self)
        ensures
            r.mass == ONE_BITS32,
    {
        Mass { mass: ONE_BITS32 }
    }
}

/// The monolithic-object layout: all four physics fields inline in one
/// record, the counterpart of the four separate components above.
#[derive(Clone, Copy, Debug, PartialEq, Eq, Structural)]
pub struct Object {
    pub pos: Vec2Bits,
    pub vel: Vec2Bits,
    pub acc: Vec2Bits,
    pub mass: u32,
}

impl Default for Object {
    /// Defaults to the origin, at rest, with mass `0.0` — not the `1.0` the
    /// `Mass` component defaults to.  The divergence is deliberate and kept.
    fn default() -> (r: Self)
        ensures
            r.pos == Vec2Bits::zero_spec(),
            r.vel == Vec2Bits::zero_spec(),
            r.acc == Vec2Bits::zero_spec(),
            r.mass == 0,
    {
        Object { pos: Vec2Bits::zero(), vel: Vec2Bits::zero(), acc: Vec2Bits::zero(), mass: 0 }
    }
}

/// The visual footprint of an entity: a radius and a fill color.
#[derive(Clone, Copy, Debug, PartialEq, Eq, Structural)]
pub struct Circle {
    pub r: u32,
    pub color: ColorBits,
}

/// The presentation layer's view transform: pan target and zoom, per axis.
#[derive(Clone, Copy, Debug, PartialEq, Eq, Structural)]
pub struct Camera {
    pub target: Vec2Bits,
    pub zoom: Vec2Bits,
}

/// The one resource the pipeline reads: the seconds the last tick took and
/// the seconds elapsed overall, both double-precision patterns.  The caller
/// computes `elapsed_seconds` as the difference of the old and new
/// `overall_time` before inserting; the store performs no delta computation.
#[derive(Clone, Copy, Debug, PartialEq, Eq, Structural)]
pub struct Time {
    pub elapsed_seconds: u64,
    pub overall_time: u64,
}

impl Time {
    /// The start of a run: nothing elapsed yet.
    pub open spec fn zero_spec() -> Time {
        Time { elapsed_seconds: 0, overall_time: 0 }
    }

    /// Returns the zero time.
    pub fn zero() -> (r: Time)
        ensures
            r == Time::zero_spec(),
    {
        Time { elapsed_seconds: 0, overall_time: 0 }
    }
}

} // verus!
