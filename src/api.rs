use vstd::prelude::*;

use std::str::FromStr;

use crate::error::ChipError;

verus! {

// Window sizes
/// Minimum width
pub const WINDOW_MIN_W: u32 = 320;
/// Minimum height
pub const WINDOW_MIN_H: u32 = 160;
/// Maximum width
pub const WINDOW_MAX_W: u32 = 1280;
/// Maximum height
pub const WINDOW_MAX_H: u32 = 640;

// Number of pixels on each axis of the CHIP-8 screen
/// X-axis
pub const RECTS_X: u32 = 64;
/// Y-axis
pub const RECTS_Y: u32 = 32;

/// Graphical apis a front-end can run on
#[derive(Debug, Clone, Copy, PartialEq, Eq, Structural)]
pub enum ApiKind {
    Sdl,
    Sfml,
}

impl Default for ApiKind {
    fn default() -> (r: Self)
        ensures
            r == ApiKind::Sdl,
    {
        Self::Sdl
    }
}

impl ApiKind {
    /// The api of this name: "sdl" or "sfml"
    pub fn parse(s: &str) -> (r: Result<Self, ChipError>)
        ensures
            s@ == "sdl"@ ==> r == Ok::<Self, ChipError>(ApiKind::Sdl),
            s@ == "sfml"@ ==> r == Ok::<Self, ChipError>(ApiKind::Sfml),
            s@ != "sdl"@ && s@ != "sfml"@ ==> r == Err::<Self, ChipError>(ChipError::UseApi),
    {
        proof {
            reveal_strlit("sdl");
            reveal_strlit("sfml");
            assert("sdl"@.len() != "sfml"@.len());
        }
        let owned = s.to_owned();
        if owned == "sdl".to_owned() {
            Ok(Self::Sdl)
        } else if owned == "sfml".to_owned() {
            Ok(Self::Sfml)
        } else {
            Err(ChipError::UseApi)
        }
    }
}

impl FromStr for ApiKind {
    type Err = ChipError;

    fn from_str(s: &str) -> Result<Self, Self::Err> {
        Self::parse(s)
    }
}

/// What a front-end needs to open its window
#[derive(Debug)]
pub struct GraphicProp {
    /// Api type
    pub api: ApiKind,
    /// Window title
    pub title: String,
    /// Window size
    pub size: (u32, u32),
}

/// Scale of the default window: screen pixels per CHIP-8 pixel
pub const DEFAULT_SCALE: u32 = 20;
/// Fewest cycles per second
pub const MIN_CYCLES: u64 = 500;
/// Most cycles per second
pub const MAX_CYCLES: u64 = 2000;

/// The window width asked for, or 64 times the default scale.
pub fn window_width(asked: Option<u32>) -> (r: u32)
    ensures
        r == match asked {
            Some(w) => w as int,
            None => RECTS_X * DEFAULT_SCALE,
        },
{
    match asked {
        Some(w) => w,
        None => RECTS_X * DEFAULT_SCALE,
    }
}

/// The window height asked for, or 32 times the default scale.
pub fn window_height(asked: Option<u32>) -> (r: u32)
    ensures
        r == match asked {
            Some(h) => h as int,
            None => RECTS_Y * DEFAULT_SCALE,
        },
{
    match asked {
        Some(h) => h,
        None => RECTS_Y * DEFAULT_SCALE,
    }
}

/// The cycles per second asked for, kept between 500 and 2000; 500 when none
/// was asked for.
pub fn clamp_cycles(asked: Option<u64>) -> (r: u64)
    ensures
        MIN_CYCLES <= r <= MAX_CYCLES,
        asked is None ==> r == MIN_CYCLES,
        asked is Some ==> r == if asked->0 < MIN_CYCLES {
            MIN_CYCLES
        } else if asked->0 > MAX_CYCLES {
            MAX_CYCLES
        } else {
            asked->0
        },
{
    let ret = match asked {
        Some(c) => c,
        None => MIN_CYCLES,
    };
    if ret <= MIN_CYCLES {
        MIN_CYCLES
    } else if ret > MAX_CYCLES {
        MAX_CYCLES
    } else {
        ret
    }
}

} // verus!
