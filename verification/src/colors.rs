//! Colors of the remote's key LEDs.

use vstd::prelude::*;

verus! {

/// A color of a key LED.
#[derive(Clone, Copy, Debug, PartialEq, Eq, Structural)]
pub struct Rgb {
    pub r: u8,
    pub g: u8,
    pub b: u8,
}

pub open spec fn spec_red() -> Rgb {
    Rgb { r: 255, g: 0, b: 0 }
}

pub fn red() -> (c: Rgb)
    ensures
        c == spec_red(),
{
    Rgb { r: 255, g: 0, b: 0 }
}

pub open spec fn spec_blue() -> Rgb {
    Rgb { r: 0, g: 0, b: 255 }
}

pub fn blue() -> (c: Rgb)
    ensures
        c == spec_blue(),
{
    Rgb { r: 0, g: 0, b: 255 }
}

pub open spec fn spec_white() -> Rgb {
    Rgb { r: 255, g: 255, b: 255 }
}

pub fn white() -> (c: Rgb)
    ensures
        c == spec_white(),
{
    Rgb { r: 255, g: 255, b: 255 }
}

pub open spec fn spec_dim_white() -> Rgb {
    Rgb { r: 3, g: 3, b: 3 }
}

pub fn dim_white() -> (c: Rgb)
    ensures
        c == spec_dim_white(),
{
    Rgb { r: 3, g: 3, b: 3 }
}

pub open spec fn spec_orange() -> Rgb {
    Rgb { r: 255, g: 128, b: 0 }
}

pub fn orange() -> (c: Rgb)
    ensures
        c == spec_orange(),
{
    Rgb { r: 255, g: 128, b: 0 }
}

pub open spec fn spec_yellow() -> Rgb {
    Rgb { r: 255, g: 255, b: 0 }
}

pub fn yellow() -> (c: Rgb)
    ensures
        c == spec_yellow(),
{
    Rgb { r: 255, g: 255, b: 0 }
}

pub open spec fn spec_off() -> Rgb {
    Rgb { r: 0, g: 0, b: 0 }
}

pub fn off() -> (c: Rgb)
    ensures
        c == spec_off(),
{
    Rgb { r: 0, g: 0, b: 0 }
}

} // verus!
