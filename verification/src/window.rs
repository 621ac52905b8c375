//! Plain values of the window layer: where a window sits, how its text is
//! drawn, and what a message handler answers.

use vstd::prelude::*;
use vstd::string::StringExecFns;

verus! {

/// How the text of a control is drawn.
#[derive(Clone, Debug)]
pub struct Font {
    pub height: u32,
    pub bold: bool,
    pub italics: bool,
    pub face: String,
}

impl Font {
    /// An upright font of regular weight with the given height and face.
    pub fn new(height: u32, face: &str) -> (font: Font)
        ensures
            font.height == height,
            !font.bold,
            !font.italics,
            font.face@ == face@,
    {
        Font { height, bold: false, italics: false, face: String::from_str(face) }
    }
}

/// Position and size of a window; what is `None` is left to the system.
#[derive(Clone, Copy, Debug)]
pub struct WindowGeometry {
    pub x: Option<i32>,
    pub y: Option<i32>,
    pub width: Option<i32>,
    pub height: Option<i32>,
}

/// The value of `field`, or `default` where it is left open.
pub open spec fn or_default(field: Option<i32>, default: i32) -> i32 {
    match field {
        Some(value) => value,
        None => default,
    }
}

/// Bits 0 to 15 of a message parameter, where a size message carries the
/// width of the client area.
pub open spec fn low_word(lparam: isize) -> int {
    (lparam as int) % 0x1_0000
}

/// Bits 16 to 31 of a message parameter, where a size message carries the
/// height of the client area.
pub open spec fn high_word(lparam: isize) -> int {
    ((lparam as int) / 0x1_0000) % 0x1_0000
}

/// The width and height that the parameter of a size message carries.
pub fn client_size(lparam: isize) -> (size: (u16, u16))
    ensures
        size.0 == low_word(lparam),
        size.1 == high_word(lparam),
{
    let raised: i128 = lparam as i128 + 0x8000_0000_0000_0000;
    let bits: u128 = raised as u128;
    let low: u128 = bits % 0x1_0000;
    let high: u128 = (bits / 0x1_0000) % 0x1_0000;
    (low as u16, high as u16)
}

impl WindowGeometry {
    /// A window of no extent at the origin.
    pub fn zero() -> (g: WindowGeometry)
        ensures
            g == (WindowGeometry { x: Some(0), y: Some(0), width: Some(0), height: Some(0) }),
    {
        WindowGeometry { x: Some(0), y: Some(0), width: Some(0), height: Some(0) }
    }

    /// The four fields in the order x, y, width, height, with `default` for
    /// each that is left open.
    pub fn unwrap_or(&self, default: i32) -> (r: (i32, i32, i32, i32))
        ensures
            r == (
                or_default(self.x, default),
                or_default(self.y, default),
                or_default(self.width, default),
                or_default(self.height, default),
            ),
    {
        (
            self.x.unwrap_or(default),
            self.y.unwrap_or(default),
            self.width.unwrap_or(default),
            self.height.unwrap_or(default),
        )
    }

    /// Where a child sits that fills a client area of the given size but for
    /// a margin on every side.
    pub fn inset(width: u16, height: u16, margin: u16) -> (g: WindowGeometry)
        ensures
            g == (WindowGeometry {
                x: Some(margin as i32),
                y: Some(margin as i32),
                width: Some((width - 2 * margin) as i32),
                height: Some((height - 2 * margin) as i32),
            }),
    {
        let m: i32 = margin as i32;
        WindowGeometry {
            x: Some(m),
            y: Some(m),
            width: Some(width as i32 - 2 * m),
            height: Some(height as i32 - 2 * m),
        }
    }
}

impl Default for WindowGeometry {
    /// A geometry that leaves everything to the system.
    fn default() -> (g: WindowGeometry)
        ensures
            g == (WindowGeometry { x: None, y: None, width: None, height: None }),
    {
        WindowGeometry { x: None, y: None, width: None, height: None }
    }
}

/// What a handler answers to a window message.
#[derive(Clone, Copy, Debug, PartialEq, Eq, Structural)]
pub enum MessageResult {
    /// The message was dealt with.
    Processed,
    /// The message is left to the default procedure.
    Ignored,
    /// The message was dealt with and this is its result.
    Value(isize),
}

impl MessageResult {
    /// The result to hand to the system, or `None` where the default
    /// procedure is to give it.
    pub fn reply(&self) -> (r: Option<isize>)
        ensures
            r == (match *self {
                MessageResult::Processed => Some(0isize),
                MessageResult::Ignored => None,
                MessageResult::Value(value) => Some(value),
            }),
    {
        match self {
            MessageResult::Processed => Some(0),
            MessageResult::Ignored => None,
            MessageResult::Value(value) => Some(*value),
        }
    }
}

} // verus!
