//! Font resource logic: the template that describes a font, the exact
//! parameter list it expands to for the OS font constructor, and the outcome
//! decision on the handle the constructor returns.
//!
//! The OS call itself is platform glue; everything it is handed, and what is
//! made of what it gives back, is computed and checked here.

use vstd::prelude::*;

use crate::error::{Error, SystemError};
use crate::wide_string::{to_utf16, utf16_encode};

verus! {

/// Font weight: let the OS pick.
pub const FONT_WEIGHT_DONTCARE: i32 = 0;

/// Font weight: thin.
pub const FONT_WEIGHT_THIN: i32 = 100;

/// Font weight: extra light.
pub const FONT_WEIGHT_EXTRALIGHT: i32 = 200;

/// Font weight: light.
pub const FONT_WEIGHT_LIGHT: i32 = 300;

/// Font weight: normal.
pub const FONT_WEIGHT_NORMAL: i32 = 400;

/// Font weight: medium.
pub const FONT_WEIGHT_MEDIUM: i32 = 500;

/// Font weight: semibold.
pub const FONT_WEIGHT_SEMIBOLD: i32 = 600;

/// Font weight: bold.
pub const FONT_WEIGHT_BOLD: i32 = 700;

/// Font weight: extra bold.
pub const FONT_WEIGHT_EXTRABOLD: i32 = 800;

/// Font weight: black.
pub const FONT_WEIGHT_BLACK: i32 = 900;

/// Font decoration: none.
pub const FONT_DECO_NORMAL: u32 = 0x00;

/// Font decoration bit: italic.
pub const FONT_DECO_ITALIC: u32 = 0x01;

/// Font decoration bit: underline.
pub const FONT_DECO_UNDERLINE: u32 = 0x02;

/// Font decoration bit: strikeout.
pub const FONT_DECO_STRIKEOUT: u32 = 0x04;

/// Character set request handed to the OS: the default character set.
pub const DEFAULT_CHARSET: u32 = 1;

/// Output precision handed to the OS: the default precision.
pub const OUT_DEFAULT_PRECIS: u32 = 0;

/// Clipping precision handed to the OS: the default precision.
pub const CLIP_DEFAULT_PRECIS: u32 = 0;

/// Rendering quality handed to the OS: cleartype.
pub const CLEARTYPE_QUALITY: u32 = 5;

/// Pitch handed to the OS: variable pitch.
pub const VARIABLE_PITCH: u32 = 2;

/// A template that describes a font resource.
///
/// `size` is the height of the character cell in logical units, `0` for the
/// default height. `weight` ranges over 0 through 1000, `400` being normal
/// and `700` bold; the `FONT_WEIGHT_*` constants name the usual steps.
/// `decoration` is a bitwise combination of the `FONT_DECO_*` constants.
#[derive(Clone)]
pub struct FontT {
    pub family: String,
    pub size: i32,
    pub weight: i32,
    pub decoration: u32,
}

/// The full argument list of the OS font constructor, as plain values. The
/// face name is already in its null-terminated UTF-16 form.
pub struct FontParams {
    pub height: i32,
    pub width: i32,
    pub escapement: i32,
    pub orientation: i32,
    pub weight: i32,
    pub italic: u32,
    pub underline: u32,
    pub strikeout: u32,
    pub char_set: u32,
    pub output_precision: u32,
    pub clip_precision: u32,
    pub quality: u32,
    pub pitch_and_family: u32,
    pub face_name: Vec<u16>,
}

/// `1` when the decoration bits include the given style bit, `0` otherwise:
/// the boolean-as-integer form the OS font constructor takes.
pub open spec fn deco_flag(decoration: u32, mask: u32) -> u32 {
    if decoration & mask != 0 {
        1u32
    } else {
        0u32
    }
}

impl FontT {
    /// Expands the template into the argument list of the OS font
    /// constructor: the requested height and weight, each decoration bit as
    /// a separate flag, the fixed charset, precision, quality and pitch
    /// choices of the toolkit, and the family name encoded for the
    /// wide-character entry point.
    pub fn creation_params(&self) -> (r: FontParams)
        ensures
            r.height == self.size,
            r.width == 0,
            r.escapement == 0,
            r.orientation == 0,
            r.weight == self.weight,
            r.italic == deco_flag(self.decoration, FONT_DECO_ITALIC),
            r.underline == deco_flag(self.decoration, FONT_DECO_UNDERLINE),
            r.strikeout == deco_flag(self.decoration, FONT_DECO_STRIKEOUT),
            r.char_set == DEFAULT_CHARSET,
            r.output_precision == OUT_DEFAULT_PRECIS,
            r.clip_precision == CLIP_DEFAULT_PRECIS,
            r.quality == CLEARTYPE_QUALITY,
            r.pitch_and_family == VARIABLE_PITCH,
            r.face_name@ == utf16_encode(self.family@).push(0u16),
    {
        let use_italic: u32 = if self.decoration & FONT_DECO_ITALIC != 0 {
            1
        } else {
            0
        };
        let use_underline: u32 = if self.decoration & FONT_DECO_UNDERLINE != 0 {
            1
        } else {
            0
        };
        let use_strikeout: u32 = if self.decoration & FONT_DECO_STRIKEOUT != 0 {
            1
        } else {
            0
        };
        let family_name = to_utf16(self.family.as_str());
        FontParams {
            height: self.size,
            width: 0,
            escapement: 0,
            orientation: 0,
            weight: self.weight,
            italic: use_italic,
            underline: use_underline,
            strikeout: use_strikeout,
            char_set: DEFAULT_CHARSET,
            output_precision: OUT_DEFAULT_PRECIS,
            clip_precision: CLIP_DEFAULT_PRECIS,
            quality: CLEARTYPE_QUALITY,
            pitch_and_family: VARIABLE_PITCH,
            face_name: family_name,
        }
    }
}

/// A font resource: a live OS font handle, carried as its plain address
/// value. A handle of a built font is never null.
pub struct Font {
    handle: usize,
}

impl Font {
    /// The handle value this font carries.
    pub closed spec fn raw(self) -> usize {
        self.handle
    }

    /// Judges the handle the OS font constructor returned: a null handle
    /// means the construction failed and becomes the font creation error;
    /// any other handle becomes a font resource carrying it.
    pub fn from_raw_handle(handle: usize) -> (r: Result<Font, Error>)
        ensures
            r is Ok <==> handle != 0,
            handle == 0 ==> r == Err::<Font, Error>(Error::System(SystemError::FontCreation)),
            handle != 0 ==> (r matches Ok(f) && f.raw() == handle),
    {
        if handle == 0 {
            Err(Error::System(SystemError::FontCreation))
        } else {
            Ok(Font { handle })
        }
    }

    /// The OS handle of the font, for the platform layer to hand back to the
    /// OS when the font is used or freed.
    pub fn handle(&self) -> (h: usize)
        ensures
            h == self.raw(),
    {
        self.handle
    }
}

} // verus!
