use vstd::prelude::*;
use std::io::Cursor;

verus! {

/// How the pixels of a PNG frame are encoded, one variant for each of the
/// `png` crate's `ColorType`.
#[derive(Debug, PartialEq, Eq, Clone, Copy, Structural)]
pub enum PngColor {
    Grayscale,
    Rgb,
    Indexed,
    GrayscaleAlpha,
    Rgba,
}

/// The first frame of a PNG image: the buffer the decoder filled (of the
/// size it asked for), how many of its bytes the frame takes, how its
/// pixels are encoded, and its width and height in pixels. `None` when the
/// bytes do not decode.
pub uninterp spec fn png_first_frame(data: Seq<u8>) -> Option<(Seq<u8>, nat, PngColor, u32, u32)>;

/// What the PNG decoder gives of the first frame of an image.
pub struct PngFrame {
    pub buffer: Vec<u8>,
    pub used: usize,
    pub color: PngColor,
    pub width: u32,
    pub height: u32,
}

/// Decodes the first frame of a PNG image held in memory with the `png`
/// crate: `Decoder::new` over the bytes, `read_info`, a buffer of
/// `output_buffer_size` bytes filled by `next_frame`, and the frame's
/// `color_type`, `buffer_size`, `width` and `height`. A decoding error gives
/// `None`. Decoding bytes in memory depends on those bytes alone, so the
/// result is named; what it is, is left to the name. The decoder and its
/// reader are generic over a `std::io::Read` source, so the steps are taken
/// together here, over a cursor on the bytes.
#[verifier::external_body]
fn decode_first_frame(data: &[u8]) -> (r: Option<PngFrame>)
    ensures
        match r {
            Some(f) => png_first_frame(data@) == Some(
                (f.buffer@, f.used as nat, f.color, f.width, f.height),
            ),
            None => png_first_frame(data@) is None,
        },
{
    let mut reader = png::Decoder::new(Cursor::new(data)).read_info().ok()?;
    let mut buffer = vec![0; reader.output_buffer_size()];
    let info = reader.next_frame(&mut buffer).ok()?;
    let color = match info.color_type {
        png::ColorType::Grayscale => PngColor::Grayscale,
        png::ColorType::Rgb => PngColor::Rgb,
        png::ColorType::Indexed => PngColor::Indexed,
        png::ColorType::GrayscaleAlpha => PngColor::GrayscaleAlpha,
        png::ColorType::Rgba => PngColor::Rgba,
    };
    Some(PngFrame { used: info.buffer_size(), color, width: info.width, height: info.height, buffer })
}

/// The icon a PNG image gives: the pixels, width and height of its first
/// frame when that frame is RGBA (the bytes of the buffer that the frame
/// takes); none otherwise, or when the bytes do not decode.
pub open spec fn icon_of(data: Seq<u8>) -> Option<(Seq<u8>, u32, u32)> {
    match png_first_frame(data) {
        Some((buffer, used, color, width, height)) => if color == PngColor::Rgba && used
            <= buffer.len() {
            Some((buffer.take(used as int), width, height))
        } else {
            None
        },
        None => None,
    }
}

/// The pixels of the window icon.
#[derive(Debug, PartialEq, Eq)]
pub struct IconImage {
    pub rgba: Vec<u8>,
    pub width: u32,
    pub height: u32,
}

/// The icon a decoded frame makes: only an RGBA frame does, and its pixels
/// are the bytes of the buffer that the frame fills.
pub fn icon_from_frame(buffer: &[u8], used: usize, color: PngColor, width: u32, height: u32) -> (r:
    Option<IconImage>)
    ensures
        color == PngColor::Rgba && used <= buffer@.len() ==> (r matches Some(icon) && icon.rgba@
            == buffer@.take(used as int) && icon.width == width && icon.height == height),
        !(color == PngColor::Rgba && used <= buffer@.len()) ==> r is None,
{
    let is_rgba = match color {
        PngColor::Rgba => true,
        _ => false,
    };
    if !is_rgba || used > buffer.len() {
        return None;
    }
    let mut rgba: Vec<u8> = Vec::new();
    let mut i: usize = 0;
    while i < used
        invariant
            used <= buffer@.len(),
            i <= used,
            rgba@ == buffer@.take(i as int),
        decreases used - i,
    {
        rgba.push(buffer[i]);
        assert(buffer@.take(i + 1) =~= buffer@.take(i as int).push(buffer@[i as int]));
        i = i + 1;
    }
    Some(IconImage { rgba, width, height })
}

/// Decodes the window icon from PNG bytes (see `icon_of`).
pub fn app_icon_image(png_bytes: &[u8]) -> (r: Option<IconImage>)
    ensures
        match r {
            Some(icon) => icon_of(png_bytes@) == Some((icon.rgba@, icon.width, icon.height)),
            None => icon_of(png_bytes@) is None,
        },
{
    let frame = match decode_first_frame(png_bytes) {
        Some(frame) => frame,
        None => return None,
    };
    icon_from_frame(frame.buffer.as_slice(), frame.used, frame.color, frame.width, frame.height)
}

} // verus!
