use vstd::prelude::*;
use crate::color::{
    color_256, color_256_defined, color_256_is_defined, default_bg, default_fg, rgb, spec_color_256, spec_default_bg,
    spec_default_fg, standard_color, Color,
};
use super::{GridState, TerminalGrid};

verus! {

/// Parameter `i` of `ps` is `38` or `48` followed by `5` and a palette index.
pub open spec fn is_indexed_color(ps: Seq<u16>, i: int) -> bool {
    &&& (ps[i] == 38 || ps[i] == 48)
    &&& i + 1 < ps.len()
    &&& ps[i + 1] == 5
}

/// Parameter `i` of `ps` is `38` or `48` followed by `2` (and not by `5`).
pub open spec fn is_direct_color(ps: Seq<u16>, i: int) -> bool {
    &&& (ps[i] == 38 || ps[i] == 48)
    &&& i + 1 < ps.len()
    &&& ps[i + 1] == 2
}

/// Where the SGR walk goes on after parameter `i`: past the arguments of an
/// extended colour that has all of them, else to the next parameter.
pub open spec fn sgr_next(ps: Seq<u16>, i: int) -> int {
    if is_indexed_color(ps, i) {
        if ps.len() - i > 2 {
            i + 3
        } else {
            i + 1
        }
    } else if is_direct_color(ps, i) {
        if ps.len() - i > 4 {
            i + 5
        } else {
            i + 1
        }
    } else {
        i + 1
    }
}

/// The colours `(fg, bg)` after the SGR parameter at `i`: `0` resets both,
/// `30`-`37`/`90`-`97` set the foreground and `40`-`47`/`100`-`107` the
/// background to a standard colour, `39`/`49` restore the defaults,
/// `38`/`48` with `5;n` take palette entry `n` and with `2;r;g;b` take the
/// colour `(r, g, b)` (each reduced to a byte); anything else changes nothing.
pub open spec fn sgr_colors(fg: Color, bg: Color, ps: Seq<u16>, i: int) -> (Color, Color) {
    let p = ps[i];
    if p == 0 {
        (spec_default_fg(), spec_default_bg())
    } else if 30 <= p <= 36 {
        (standard_color(p - 30), bg)
    } else if p == 37 || p == 39 {
        (spec_default_fg(), bg)
    } else if 40 <= p <= 47 {
        (fg, standard_color(p - 40))
    } else if p == 49 {
        (fg, spec_default_bg())
    } else if 90 <= p <= 97 {
        (standard_color(p - 82), bg)
    } else if 100 <= p <= 107 {
        (fg, standard_color(p - 92))
    } else if is_indexed_color(ps, i) {
        if ps.len() - i > 2 {
            let c = spec_color_256(ps[i + 2]);
            if p == 38 {
                (c, bg)
            } else {
                (fg, c)
            }
        } else {
            (fg, bg)
        }
    } else if is_direct_color(ps, i) {
        if ps.len() - i > 4 {
            let c = rgb(ps[i + 2] as u8, ps[i + 3] as u8, ps[i + 4] as u8);
            if p == 38 {
                (c, bg)
            } else {
                (fg, c)
            }
        } else {
            (fg, bg)
        }
    } else {
        (fg, bg)
    }
}

/// The colours after the SGR parameters of `ps` from index `i` on.
pub open spec fn sgr_from(fg: Color, bg: Color, ps: Seq<u16>, i: int) -> (Color, Color)
    decreases ps.len() - i,
{
    if 0 <= i < ps.len() {
        let (f, b) = sgr_colors(fg, bg, ps, i);
        sgr_from(f, b, ps, sgr_next(ps, i))
    } else {
        (fg, bg)
    }
}

/// Every palette index that the SGR walk from `i` looks up is one on which
/// `color_256` is defined.
pub open spec fn sgr_defined_from(ps: Seq<u16>, i: int) -> bool
    decreases ps.len() - i,
{
    0 <= i < ps.len() ==> {
        &&& (is_indexed_color(ps, i) && i + 2 < ps.len() ==> color_256_defined(ps[i + 2]))
        &&& sgr_defined_from(ps, sgr_next(ps, i))
    }
}

/// Applying the SGR parameters `ps` is defined.
pub open spec fn sgr_defined(ps: Seq<u16>) -> bool {
    sgr_defined_from(ps, 0)
}

/// The colours `(fg, bg)` after "select graphic rendition" with parameters
/// `ps`, starting from `(fg, bg)`; no parameter at all resets both.
pub open spec fn apply_sgr_spec(fg: Color, bg: Color, ps: Seq<u16>) -> (Color, Color) {
    if ps.len() == 0 {
        (spec_default_fg(), spec_default_bg())
    } else {
        sgr_from(fg, bg, ps, 0)
    }
}

/// `g` after "select graphic rendition" with parameters `ps`.
pub open spec fn sgr_state(g: GridState, ps: Seq<u16>) -> GridState {
    let (fg, bg) = apply_sgr_spec(g.fg, g.bg, ps);
    GridState { fg, bg, ..g }
}

/// Whether applying the SGR parameters `ps` is defined.
pub fn sgr_is_defined(ps: &[u16]) -> (ok: bool)
    ensures
        ok == sgr_defined(ps@),
{
    let mut i: usize = 0;
    while i < ps.len()
        invariant
            i <= ps@.len(),
            sgr_defined(ps@) == sgr_defined_from(ps@, i as int),
        decreases ps@.len() - i,
    {
        let p = ps[i];
        let mut next_is_5 = false;
        let mut next_is_2 = false;
        if p == 38 || p == 48 {
            if ps.len() - i > 1 {
                next_is_5 = ps[i + 1] == 5;
                next_is_2 = ps[i + 1] == 2;
            }
        }
        if next_is_5 {
            if ps.len() - i > 2 {
                if !color_256_is_defined(ps[i + 2]) {
                    return false;
                }
                i = i + 2;
            }
        } else if next_is_2 {
            if ps.len() - i > 4 {
                i = i + 4;
            }
        }
        i = i + 1;
    }
    true
}

impl TerminalGrid {
    /// Select graphic rendition: updates the current foreground and
    /// background colours from the parameters `ps`.
    pub(crate) fn apply_sgr(&mut self, ps: &[u16])
        requires
            sgr_defined(ps@),
        ensures
            final(self)@ == sgr_state(old(self)@, ps@),
    {
        if ps.len() == 0 {
            self.fg = default_fg();
            self.bg = default_bg();
            return;
        }
        let ghost target = apply_sgr_spec(self.fg, self.bg, ps@);
        let mut i: usize = 0;
        while i < ps.len()
            invariant
                i <= ps@.len(),
                sgr_from(self.fg, self.bg, ps@, i as int) == target,
                sgr_defined_from(ps@, i as int),
                target == apply_sgr_spec(old(self)@.fg, old(self)@.bg, ps@),
                ps@.len() > 0,
                self@ == (GridState { fg: self.fg, bg: self.bg, ..old(self)@ }),
            decreases ps@.len() - i,
        {
            let p = ps[i];
            let mut next_is_5 = false;
            let mut next_is_2 = false;
            if p == 38 || p == 48 {
                if ps.len() - i > 1 {
                    next_is_5 = ps[i + 1] == 5;
                    next_is_2 = ps[i + 1] == 2;
                }
            }
            if next_is_5 {
                if ps.len() - i > 2 {
                    let c = color_256(ps[i + 2]);
                    if p == 38 {
                        self.fg = c;
                    } else {
                        self.bg = c;
                    }
                    i = i + 2;
                }
            } else if next_is_2 {
                if ps.len() - i > 4 {
                    let c = Color { r: #[verifier::truncate] (ps[i + 2] as u8), g: #[verifier::truncate] (ps[i + 3] as u8), b: #[verifier::truncate] (ps[i + 4] as u8) };
                    if p == 38 {
                        self.fg = c;
                    } else {
                        self.bg = c;
                    }
                    i = i + 4;
                }
            } else {
            match p {
                0 => {
                    self.fg = default_fg();
                    self.bg = default_bg();
                },
                1 | 22 => {},
                30 => self.fg = Color { r: 0, g: 0, b: 0 },
                31 => self.fg = Color { r: 205, g: 49, b: 49 },
                32 => self.fg = Color { r: 13, g: 188, b: 121 },
                33 => self.fg = Color { r: 229, g: 229, b: 16 },
                34 => self.fg = Color { r: 36, g: 114, b: 200 },
                35 => self.fg = Color { r: 188, g: 63, b: 188 },
                36 => self.fg = Color { r: 17, g: 168, b: 205 },
                37 | 39 => self.fg = default_fg(),
                40 => self.bg = Color { r: 0, g: 0, b: 0 },
                41 => self.bg = Color { r: 205, g: 49, b: 49 },
                42 => self.bg = Color { r: 13, g: 188, b: 121 },
                43 => self.bg = Color { r: 229, g: 229, b: 16 },
                44 => self.bg = Color { r: 36, g: 114, b: 200 },
                45 => self.bg = Color { r: 188, g: 63, b: 188 },
                46 => self.bg = Color { r: 17, g: 168, b: 205 },
                47 => self.bg = Color { r: 204, g: 204, b: 204 },
                49 => self.bg = default_bg(),
                90 => self.fg = Color { r: 118, g: 118, b: 118 },
                91 => self.fg = Color { r: 241, g: 76, b: 76 },
                92 => self.fg = Color { r: 35, g: 209, b: 139 },
                93 => self.fg = Color { r: 245, g: 245, b: 67 },
                94 => self.fg = Color { r: 59, g: 142, b: 234 },
                95 => self.fg = Color { r: 214, g: 112, b: 214 },
                96 => self.fg = Color { r: 41, g: 184, b: 219 },
                97 => self.fg = Color { r: 229, g: 229, b: 229 },
                100 => self.bg = Color { r: 118, g: 118, b: 118 },
                101 => self.bg = Color { r: 241, g: 76, b: 76 },
                102 => self.bg = Color { r: 35, g: 209, b: 139 },
                103 => self.bg = Color { r: 245, g: 245, b: 67 },
                104 => self.bg = Color { r: 59, g: 142, b: 234 },
                105 => self.bg = Color { r: 214, g: 112, b: 214 },
                106 => self.bg = Color { r: 41, g: 184, b: 219 },
                107 => self.bg = Color { r: 229, g: 229, b: 229 },
                _ => {},
            }
            }
            i = i + 1;
        }
    }
}

} // verus!
