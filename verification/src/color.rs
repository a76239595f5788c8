use vstd::prelude::*;

verus! {

/// An opaque RGB colour, as drawn on screen.
#[derive(Clone, Copy, PartialEq, Eq, Structural, Debug)]
pub struct Color {
    pub r: u8,
    pub g: u8,
    pub b: u8,
}

/// The colour whose three components are `r`, `g` and `b`.
pub open spec fn rgb(r: u8, g: u8, b: u8) -> Color {
    Color { r, g, b }
}

/// Default foreground: light grey.
pub open spec fn spec_default_fg() -> Color {
    rgb(204, 204, 204)
}

/// Default background: near black.
pub open spec fn spec_default_bg() -> Color {
    rgb(30, 30, 30)
}

/// Default foreground colour of the terminal.
pub fn default_fg() -> (c: Color)
    ensures
        c == spec_default_fg(),
{
    Color { r: 204, g: 204, b: 204 }
}

/// Default background colour of the terminal.
pub fn default_bg() -> (c: Color)
    ensures
        c == spec_default_bg(),
{
    Color { r: 30, g: 30, b: 30 }
}

/// The 16 standard ANSI colours (8 normal followed by 8 bright).
pub open spec fn standard_color(i: int) -> Color {
    if i == 0 {
        rgb(0, 0, 0)
    } else if i == 1 {
        rgb(205, 49, 49)
    } else if i == 2 {
        rgb(13, 188, 121)
    } else if i == 3 {
        rgb(229, 229, 16)
    } else if i == 4 {
        rgb(36, 114, 200)
    } else if i == 5 {
        rgb(188, 63, 188)
    } else if i == 6 {
        rgb(17, 168, 205)
    } else if i == 7 {
        rgb(204, 204, 204)
    } else if i == 8 {
        rgb(118, 118, 118)
    } else if i == 9 {
        rgb(241, 76, 76)
    } else if i == 10 {
        rgb(35, 209, 139)
    } else if i == 11 {
        rgb(245, 245, 67)
    } else if i == 12 {
        rgb(59, 142, 234)
    } else if i == 13 {
        rgb(214, 112, 214)
    } else if i == 14 {
        rgb(41, 184, 219)
    } else {
        rgb(229, 229, 229)
    }
}

/// Intensity of one axis of the 6x6x6 colour cube: 0, 95, 135, 175, 215, 255.
pub open spec fn cube_level(c: int) -> u8 {
    if c == 0 {
        0
    } else {
        (55 + 40 * c) as u8
    }
}

/// The grey level of palette entry `idx >= 232`. The entry number past 232
/// is reduced to a byte before it is scaled, so entries past 255 wrap.
pub open spec fn gray_level(idx: u16) -> int {
    8 + 10 * ((idx - 232) % 256)
}

/// `color_256` is defined on `idx` (the grey computation stays within a byte).
pub open spec fn color_256_defined(idx: u16) -> bool {
    idx < 232 || gray_level(idx) <= 255
}

/// Entry `idx` of the xterm 256-colour palette.
pub open spec fn spec_color_256(idx: u16) -> Color {
    if idx < 16 {
        standard_color(idx as int)
    } else if idx < 232 {
        let i = idx - 16;
        rgb(cube_level(i / 36), cube_level((i % 36) / 6), cube_level(i % 6))
    } else {
        let v = gray_level(idx) as u8;
        rgb(v, v, v)
    }
}

/// Whether `color_256` is defined on `idx`.
pub fn color_256_is_defined(idx: u16) -> (ok: bool)
    ensures
        ok == color_256_defined(idx),
{
    if idx < 232 {
        true
    } else {
        let d: u32 = ((idx - 232) % 256) as u32;
        8 + 10 * d <= 255
    }
}

fn standard_color_exec(i: u16) -> (c: Color)
    requires
        i < 16,
    ensures
        c == standard_color(i as int),
{
    match i {
        0 => Color { r: 0, g: 0, b: 0 },
        1 => Color { r: 205, g: 49, b: 49 },
        2 => Color { r: 13, g: 188, b: 121 },
        3 => Color { r: 229, g: 229, b: 16 },
        4 => Color { r: 36, g: 114, b: 200 },
        5 => Color { r: 188, g: 63, b: 188 },
        6 => Color { r: 17, g: 168, b: 205 },
        7 => Color { r: 204, g: 204, b: 204 },
        8 => Color { r: 118, g: 118, b: 118 },
        9 => Color { r: 241, g: 76, b: 76 },
        10 => Color { r: 35, g: 209, b: 139 },
        11 => Color { r: 245, g: 245, b: 67 },
        12 => Color { r: 59, g: 142, b: 234 },
        13 => Color { r: 214, g: 112, b: 214 },
        14 => Color { r: 41, g: 184, b: 219 },
        _ => Color { r: 229, g: 229, b: 229 },
    }
}

fn cube_level_exec(c: u8) -> (v: u8)
    requires
        c < 6,
    ensures
        v == cube_level(c as int),
{
    if c == 0 {
        0
    } else {
        55 + 40 * c
    }
}

/// Maps an index of the 256-colour palette to its colour: the 16 standard
/// colours, then the 6x6x6 colour cube, then the 24-step grey ramp.
pub fn color_256(idx: u16) -> (c: Color)
    requires
        color_256_defined(idx),
    ensures
        c == spec_color_256(idx),
{
    if idx < 16 {
        standard_color_exec(idx)
    } else if idx < 232 {
        let i = idx - 16;
        let r = (i / 36) as u8;
        let g = ((i % 36) / 6) as u8;
        let b = (i % 6) as u8;
        Color { r: cube_level_exec(r), g: cube_level_exec(g), b: cube_level_exec(b) }
    } else {
        let d = (idx - 232) as u8;
        assert(d as int == (idx - 232) % 256) by (bit_vector)
            requires
                idx >= 232,
                d == (idx - 232) as u8,
        ;
        let v = 8 + 10 * d;
        Color { r: v, g: v, b: v }
    }
}

} // verus!
