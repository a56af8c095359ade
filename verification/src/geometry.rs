//! Sizes and positions, in physical pixels or in logical units.

use vstd::prelude::*;

verus! {

/// A real-valued measurement, held as the 64 bits of its IEEE 754 double encoding.
///
/// The event stream carries such values unchanged from producer to consumer and never
/// computes with them.
#[derive(Clone, Copy, Debug, PartialEq, Eq, Hash, Structural)]
pub struct F64Bits {
    pub bits: u64,
}

impl F64Bits {
    pub fn from_bits(bits: u64) -> (v: F64Bits)
        ensures
            v.bits == bits,
    {
        F64Bits { bits }
    }

    pub fn to_bits(&self) -> (bits: u64)
        ensures
            bits == self.bits,
    {
        self.bits
    }
}

/// A size in physical pixels.
#[derive(Clone, Copy, Debug, PartialEq, Eq, Hash, Structural)]
pub struct PhysicalSize<P> {
    pub width: P,
    pub height: P,
}

/// A position in physical pixels.
#[derive(Clone, Copy, Debug, PartialEq, Eq, Hash, Structural)]
pub struct PhysicalPosition<P> {
    pub x: P,
    pub y: P,
}

/// A size in logical units, which the scale factor turns into pixels.
#[derive(Clone, Copy, Debug, PartialEq, Eq, Hash, Structural)]
pub struct LogicalSize<P> {
    pub width: P,
    pub height: P,
}

/// A position in logical units.
#[derive(Clone, Copy, Debug, PartialEq, Eq, Hash, Structural)]
pub struct LogicalPosition<P> {
    pub x: P,
    pub y: P,
}

/// A size in either unit.
#[derive(Clone, Copy, Debug, PartialEq, Eq)]
pub enum Size {
    Physical(PhysicalSize<u32>),
    Logical(LogicalSize<F64Bits>),
}

/// A position in either unit.
#[derive(Clone, Copy, Debug, PartialEq, Eq)]
pub enum Position {
    Physical(PhysicalPosition<i32>),
    Logical(LogicalPosition<F64Bits>),
}

impl<P> PhysicalSize<P> {
    pub fn new(width: P, height: P) -> (size: PhysicalSize<P>)
        ensures
            size.width == width,
            size.height == height,
    {
        PhysicalSize { width, height }
    }
}

impl<P> PhysicalPosition<P> {
    pub fn new(x: P, y: P) -> (position: PhysicalPosition<P>)
        ensures
            position.x == x,
            position.y == y,
    {
        PhysicalPosition { x, y }
    }
}

impl<P> LogicalSize<P> {
    pub fn new(width: P, height: P) -> (size: LogicalSize<P>)
        ensures
            size.width == width,
            size.height == height,
    {
        LogicalSize { width, height }
    }
}

impl<P> LogicalPosition<P> {
    pub fn new(x: P, y: P) -> (position: LogicalPosition<P>)
        ensures
            position.x == x,
            position.y == y,
    {
        LogicalPosition { x, y }
    }
}

} // verus!
