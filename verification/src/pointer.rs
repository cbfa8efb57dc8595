//! The pointer location that the X display reports.
use vstd::prelude::*;

verus! {

/// A pointer location on an X screen.
#[derive(Debug, Clone, Copy, PartialEq, Eq, Structural)]
pub struct Point {
    pub x: i32,
    pub y: i32,
}

} // verus!
