use vstd::prelude::*;

pub mod buffer;
pub mod text;
pub mod pixel;
pub mod aligned_image;
pub mod alphablend;
pub mod display;
pub mod output;
pub mod balbird;
pub mod openweather;
pub mod decode;
pub mod schedule;
pub mod web;
pub mod wallpaper;
pub mod switchbot;
pub mod settings;

verus! {

/// The size of a screen in pixels.
#[derive(Debug, Clone, Copy)]
pub struct Dimensions {
    pub width: u16,
    pub height: u16,
}

/// The panel that the display drives.
pub fn screen_dimensions() -> (d: Dimensions)
    ensures
        d.width == 2560,
        d.height == 1600,
{
    Dimensions { width: 2560, height: 1600 }
}

impl From<Dimensions> for (u32, u32) {
    fn from(val: Dimensions) -> (r: (u32, u32)) {
        (val.width as u32, val.height as u32)
    }
}

impl vstd::std_specs::convert::FromSpecImpl<Dimensions> for (u32, u32) {
    open spec fn obeys_from_spec() -> bool {
        true
    }

    open spec fn from_spec(val: Dimensions) -> (u32, u32) {
        (val.width as u32, val.height as u32)
    }
}

impl From<Dimensions> for (i32, i32) {
    fn from(val: Dimensions) -> (r: (i32, i32)) {
        (val.width as i32, val.height as i32)
    }
}

impl vstd::std_specs::convert::FromSpecImpl<Dimensions> for (i32, i32) {
    open spec fn obeys_from_spec() -> bool {
        true
    }

    open spec fn from_spec(val: Dimensions) -> (i32, i32) {
        (val.width as i32, val.height as i32)
    }
}

impl From<Dimensions> for (u16, u16) {
    fn from(val: Dimensions) -> (r: (u16, u16)) {
        (val.width, val.height)
    }
}

impl vstd::std_specs::convert::FromSpecImpl<Dimensions> for (u16, u16) {
    open spec fn obeys_from_spec() -> bool {
        true
    }

    open spec fn from_spec(val: Dimensions) -> (u16, u16) {
        (val.width, val.height)
    }
}

} // verus!
