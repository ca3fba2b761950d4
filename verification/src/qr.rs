//! Reading a QR code out of a camera frame.
//!
//! Finding the squares in a frame and decoding them is the work of a reader
//! that stands outside this library and comes in as a function. What goes to
//! the reader, and which of several squares in one frame counts, is decided
//! here.

use vstd::prelude::*;

verus! {

/// A pixel position in a frame.
#[derive(Debug, Clone, Copy, PartialEq, Eq)]
pub struct Point {
    pub x: i32,
    pub y: i32,
}

/// One still frame: `height` rows of `width` pixels, three bytes for each
/// pixel, red, green and blue.
#[derive(Debug, Clone)]
pub struct Frame {
    pub width: u32,
    pub height: u32,
    pub pixels: Vec<u8>,
}

/// A frame in shades of grey, as the reader takes it: `height` rows of
/// `width` pixels, one byte of luminance for each pixel.
#[derive(Debug, Clone)]
pub struct GrayFrame {
    pub width: u32,
    pub height: u32,
    pub luma: Vec<u8>,
}

/// A square in a frame that looks like a QR code: its four corners, from the
/// top left clockwise, and its text where it could be decoded.
#[derive(Debug, Clone)]
pub struct GridReading {
    pub bounds: [Point; 4],
    pub content: Option<String>,
}

/// A `GridReading` as plain values.
pub struct Reading {
    pub bounds: Seq<Point>,
    pub content: Option<Seq<char>>,
}

impl View for GridReading {
    type V = Reading;

    open spec fn view(&self) -> Reading {
        Reading {
            bounds: self.bounds@,
            content: match self.content {
                Some(text) => Some(text@),
                None => None,
            },
        }
    }
}

/// The readings as plain values.
pub open spec fn readings_view(found: Seq<GridReading>) -> Seq<Reading> {
    found.map_values(|g: GridReading| g@)
}

/// What `image::DynamicImage::to_luma8` makes of an RGB image of the given
/// size: one byte of luminance for each pixel, row by row.
pub uninterp spec fn luma8(pixels: Seq<u8>, width: nat, height: nat) -> Seq<u8>;

/// `image::DynamicImage::to_luma8` on the RGB image that
/// `image::RgbImage::from_raw` makes of the bytes; `into_raw` gives the
/// luminance bytes out. The bytes fill the image exactly, so that `from_raw`
/// accepts them; the result is `luma8` of the arguments and has one byte for
/// each pixel.
#[verifier::external_body]
fn rgb_to_luma(width: u32, height: u32, pixels: &Vec<u8>) -> (luma: Vec<u8>)
    requires
        pixels.len() == 3 * width * height,
    ensures
        luma@ == luma8(pixels@, width as nat, height as nat),
        luma.len() == width * height,
{
    image::RgbImage::from_raw(width, height, pixels.clone()).map(
        |rgb| image::DynamicImage::ImageRgb8(rgb).to_luma8().into_raw(),
    ).unwrap_or_default()
}

/// `code` is the first of `found` that could be decoded, or `None` where
/// none could.
pub open spec fn is_first_decoded(code: Option<([Point; 4], String)>, found: Seq<Reading>) -> bool {
    match code {
        Some((bounds, content)) => exists|i: int|
            0 <= i < found.len() && #[trigger] found[i].content == Some(content@) && found[i].bounds
                == bounds@ && forall|j: int| 0 <= j < i ==> (#[trigger] found[j]).content is None,
        None => forall|j: int| 0 <= j < found.len() ==> (#[trigger] found[j]).content is None,
    }
}

impl Frame {
    /// The pixel bytes fill the frame exactly.
    pub open spec fn spec_is_well_formed(&self) -> bool {
        self.pixels.len() == 3 * self.width * self.height
    }

    /// The pixel bytes fill the frame exactly.
    #[verifier::when_used_as_spec(spec_is_well_formed)]
    pub fn is_well_formed(&self) -> (ok: bool)
        ensures
            ok == self.spec_is_well_formed(),
    {
        let width = self.width as u128;
        let height = self.height as u128;
        assert(width * height <= 0xFFFF_FFFF * 0xFFFF_FFFF) by (nonlinear_arith)
            requires
                width <= 0xFFFF_FFFF,
                height <= 0xFFFF_FFFF,
        ;
        let wanted: u128 = 3 * (width * height);
        assert(wanted == 3 * self.width * self.height) by (nonlinear_arith)
            requires
                wanted == 3 * (width * height),
                width == self.width,
                height == self.height,
        ;
        self.pixels.len() as u128 == wanted
    }
}

/// Picks the first square that could be decoded.
pub fn first_decoded(found: &Vec<GridReading>) -> (code: Option<([Point; 4], String)>)
    ensures
        is_first_decoded(code, readings_view(found@)),
{
    let mut i: usize = 0;
    while i < found.len()
        invariant
            i <= found.len(),
            forall|j: int| 0 <= j < i ==> (#[trigger] readings_view(found@)[j]).content is None,
        decreases found.len() - i,
    {
        match &found[i].content {
            Some(text) => {
                let code = (found[i].bounds, text.clone());
                assert(readings_view(found@)[i as int].content == Some(code.1@));
                assert(readings_view(found@)[i as int].bounds == code.0@);
                return Some(code);
            },
            None => {},
        }
        i = i + 1;
    }
    None
}

impl GrayFrame {
    /// The luminance bytes fill the frame exactly.
    pub open spec fn is_well_formed(&self) -> bool {
        self.luma.len() == self.width * self.height
    }
}

/// `code` is what looking for a code in `frame` comes to with the reader
/// `scan`: where the bytes fill the frame, the first decoded square among
/// those that `scan` found in the frame's luminance; nothing otherwise.
pub open spec fn is_frame_decoded<S: Fn(GrayFrame) -> Vec<GridReading>>(
    frame: Frame,
    scan: S,
    code: Option<([Point; 4], String)>,
) -> bool {
    if frame.spec_is_well_formed() {
        exists|gray: GrayFrame, found: Vec<GridReading>|
            gray.width == frame.width && gray.height == frame.height && gray.luma@ == luma8(
                frame.pixels@,
                frame.width as nat,
                frame.height as nat,
            ) && #[trigger] scan.ensures((gray,), found) && is_first_decoded(
                code,
                readings_view(found@),
            )
    } else {
        code is None
    }
}

/// Looks for a QR code in a frame: turns the frame to shades of grey, has
/// the reader `scan` find and decode the squares in it, and gives the
/// corners and the text of the first square that could be decoded, in the
/// order in which the reader found them. `None` where the reader found no
/// readable code; `None` without asking the reader where the frame's bytes
/// do not fill it.
pub fn decode_frame<S: Fn(GrayFrame) -> Vec<GridReading>>(frame: &Frame, scan: S) -> (code: Option<
    ([Point; 4], String),
>)
    requires
        forall|gray: GrayFrame| gray.is_well_formed() ==> scan.requires((gray,)),
    ensures
        is_frame_decoded(*frame, scan, code),
{
    if !frame.is_well_formed() {
        return None;
    }
    let luma = rgb_to_luma(frame.width, frame.height, &frame.pixels);
    let gray = GrayFrame { width: frame.width, height: frame.height, luma };
    let ghost asked = gray;
    assert(gray.is_well_formed());
    let found = scan(gray);
    let code = first_decoded(&found);
    assert(scan.ensures((asked,), found) && is_first_decoded(code, readings_view(found@)));
    code
}

} // verus!
