use vstd::prelude::*;

verus! {

/// A three-component vector of fixed-point coordinates, each in hundredths of
/// a world unit: `Vec3 { x: 150, y: 0, z: -50 }` stands for (1.5, 0.0, -0.5).
#[derive(Clone, Copy, Debug, PartialEq, Eq, Structural)]
pub struct Vec3 {
    pub x: i64,
    pub y: i64,
    pub z: i64,
}

impl Vec3 {
    pub fn new(x: i64, y: i64, z: i64) -> (v: Vec3)
        ensures
            v == (Vec3 { x, y, z }),
    {
        Vec3 { x, y, z }
    }

    /// The zero vector.
    pub fn zero() -> (v: Vec3)
        ensures
            v == (Vec3 { x: 0, y: 0, z: 0 }),
    {
        Vec3 { x: 0, y: 0, z: 0 }
    }

    /// The vector with every component set to one world unit.
    pub fn one() -> (v: Vec3)
        ensures
            v == (Vec3 { x: 100, y: 100, z: 100 }),
    {
        Vec3 { x: 100, y: 100, z: 100 }
    }
}

/// A planar heading, in hundredths of a radian or of a degree.
#[derive(Clone, Copy, Debug, PartialEq, Eq, Structural)]
pub enum Angle {
    Radians(i64),
    Degrees(i64),
}

/// A colour: red, green and blue channels, each in hundredths
/// (0 is black, 100 is full intensity for that channel).
#[derive(Clone, Copy, Debug, PartialEq, Eq, Structural)]
pub struct Color {
    pub r: i64,
    pub g: i64,
    pub b: i64,
}

impl Color {
    pub fn rgb(r: i64, g: i64, b: i64) -> (c: Color)
        ensures
            c == (Color { r, g, b }),
    {
        Color { r, g, b }
    }

    /// Pure red.
    pub fn red() -> (c: Color)
        ensures
            c == (Color { r: 100, g: 0, b: 0 }),
    {
        Color { r: 100, g: 0, b: 0 }
    }
}

} // verus!
