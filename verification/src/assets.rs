//! Image assets: the content-addressed file names of an entry's full image
//! and thumbnail, and the preparation of both payloads from a raw pixel
//! buffer.
//!
//! The engine only prepares the bytes and the names; the host writes the
//! files into its cache directory and deletes them when an entry goes.

use vstd::prelude::*;
use vstd::string::StringExecFns;
use crate::text::push_char;

verus! {

/// The decimal digit `d` as a character.
pub open spec fn digit_char(d: nat) -> char {
    if d == 0 {
        '0'
    } else if d == 1 {
        '1'
    } else if d == 2 {
        '2'
    } else if d == 3 {
        '3'
    } else if d == 4 {
        '4'
    } else if d == 5 {
        '5'
    } else if d == 6 {
        '6'
    } else if d == 7 {
        '7'
    } else if d == 8 {
        '8'
    } else {
        '9'
    }
}

/// The decimal digits of `n`, most significant first.
pub open spec fn dec_digits(n: nat) -> Seq<char>
    decreases n,
{
    if n < 10 {
        seq![digit_char(n)]
    } else {
        dec_digits(n / 10).push(digit_char(n % 10))
    }
}

/// The decimal digit `d` (below ten) as a character.
fn digit_char_of(d: u64) -> (r: char)
    requires
        d < 10,
    ensures
        r == digit_char(d as nat),
{
    if d == 0 {
        '0'
    } else if d == 1 {
        '1'
    } else if d == 2 {
        '2'
    } else if d == 3 {
        '3'
    } else if d == 4 {
        '4'
    } else if d == 5 {
        '5'
    } else if d == 6 {
        '6'
    } else if d == 7 {
        '7'
    } else if d == 8 {
        '8'
    } else {
        '9'
    }
}

/// Appends the decimal digits of `n` to `s`.
fn push_decimal(s: &mut String, n: u64)
    ensures
        final(s)@ == old(s)@ + dec_digits(n as nat),
    decreases n,
{
    if n >= 10 {
        push_decimal(s, n / 10);
        push_char(s, digit_char_of(n % 10));
        proof {
            assert(final(s)@ =~= old(s)@ + dec_digits(n as nat));
        }
    } else {
        push_char(s, digit_char_of(n));
        proof {
            assert(final(s)@ =~= old(s)@ + dec_digits(n as nat));
        }
    }
}

/// Formats `n` in decimal.
pub fn u64_decimal(n: u64) -> (r: String)
    ensures
        r@ == dec_digits(n as nat),
{
    let mut s = String::new();
    push_decimal(&mut s, n);
    proof {
        assert(s@ =~= dec_digits(n as nat));
    }
    s
}

/// The file name of an entry's full image: its id in decimal, then `.png`.
pub open spec fn full_name_spec(id: u64) -> Seq<char> {
    dec_digits(id as nat) + ".png"@
}

/// The file name of an entry's thumbnail: its id in decimal, then
/// `.thumb.png`.
pub open spec fn thumb_name_spec(id: u64) -> Seq<char> {
    dec_digits(id as nat) + ".thumb.png"@
}

/// The content-addressed file names of an entry's image assets, relative to
/// the host's cache directory.
pub fn asset_file_names(id: u64) -> (r: (String, String))
    ensures
        r.0@ == full_name_spec(id),
        r.1@ == thumb_name_spec(id),
{
    let mut full = u64_decimal(id);
    full.append(".png");
    let mut thumb = u64_decimal(id);
    thumb.append(".thumb.png");
    (full, thumb)
}

/// The display title of an image entry: `Image (`, the width in decimal,
/// `x`, the height in decimal, `)`.
pub open spec fn image_title_spec(width: u32, height: u32) -> Seq<char> {
    "Image ("@ + dec_digits(width as nat) + "x"@ + dec_digits(height as nat) + ")"@
}

/// Builds the display title of an image entry.
pub fn image_title(width: u32, height: u32) -> (r: String)
    ensures
        r@ == image_title_spec(width, height),
{
    let mut s = String::new();
    s.append("Image (");
    push_decimal(&mut s, width as u64);
    s.append("x");
    push_decimal(&mut s, height as u64);
    s.append(")");
    proof {
        assert(s@ =~= image_title_spec(width, height));
    }
    s
}

/// The PNG encoding of an RGBA pixel buffer, as the image crate writes it.
pub uninterp spec fn png_of(width: u32, height: u32, pixels: Seq<u8>) -> Seq<u8>;

/// The thumbnail the image crate computes for an RGBA pixel buffer within
/// the given bounds: its RGBA bytes, width and height.
pub uninterp spec fn thumb_of(width: u32, height: u32, pixels: Seq<u8>, maxw: u32, maxh: u32) -> (
    Seq<u8>,
    u32,
    u32,
);

/// Relies on the image crate's PNG encoding (`RgbaImage::from_raw`, then
/// `DynamicImage::write_to` with the PNG format): the bytes written are a
/// function of the dimensions and pixel buffer alone, and encoding a
/// non-empty image into an in-memory buffer succeeds.
#[verifier::external_body]
fn encode_png_rgba(width: u32, height: u32, pixels: &Vec<u8>) -> (r: Option<Vec<u8>>)
    requires
        pixels@.len() == 4 * width * height,
    ensures
        r matches Some(b) ==> b@ == png_of(width, height, pixels@),
        width >= 1 && height >= 1 ==> r is Some,
{
    let buf = match image::RgbaImage::from_raw(width, height, pixels.clone()) {
        Some(b) => b,
        None => return None,
    };
    let img = image::DynamicImage::ImageRgba8(buf);
    let mut out = std::io::Cursor::new(Vec::new());
    match img.write_to(&mut out, image::ImageOutputFormat::Png) {
        Ok(()) => Some(out.into_inner()),
        Err(_) => None,
    }
}

/// Relies on the image crate's `DynamicImage::thumbnail`: an
/// aspect-preserving scale that fits within the given bounds (as its
/// documentation states), computed from the pixel buffer alone; the result
/// is at least one pixel on each side.
#[verifier::external_body]
fn thumbnail_rgba(width: u32, height: u32, pixels: &Vec<u8>, maxw: u32, maxh: u32) -> (r: Option<
    (Vec<u8>, u32, u32),
>)
    requires
        pixels@.len() == 4 * width * height,
        1 <= maxw,
        1 <= maxh,
    ensures
        r matches Some(t) ==> (t.0@, t.1, t.2) == thumb_of(width, height, pixels@, maxw, maxh),
        r matches Some(t) ==> 1 <= t.1 <= maxw && 1 <= t.2 <= maxh && t.0@.len() == 4 * t.1
            * t.2,
        width >= 1 && height >= 1 ==> r is Some,
{
    let buf = match image::RgbaImage::from_raw(width, height, pixels.clone()) {
        Some(b) => b,
        None => return None,
    };
    let img = image::DynamicImage::ImageRgba8(buf);
    let t = img.thumbnail(maxw, maxh);
    let (tw, th) = (t.width(), t.height());
    Some((t.into_rgba8().into_raw(), tw, th))
}

/// A prepared image asset: both file names and both file payloads, ready for
/// the host to write.
pub struct ImageAsset {
    /// The name of the full image file.
    pub full_name: String,
    /// The name of the thumbnail file.
    pub thumb_name: String,
    /// The PNG payload of the full image file.
    pub png: Vec<u8>,
    /// The PNG payload of the thumbnail file.
    pub thumb_png: Vec<u8>,
    /// The thumbnail's width in pixels.
    pub thumb_width: u32,
    /// The thumbnail's height in pixels.
    pub thumb_height: u32,
}

/// Whether `width`, `height` and a buffer of `len` bytes form a well-formed
/// RGBA image: at least one pixel, and four bytes for each pixel.
pub open spec fn valid_rgba(width: u32, height: u32, len: nat) -> bool {
    width >= 1 && height >= 1 && len == 4 * width * height
}

/// What `save_image` promises of a prepared asset.
pub open spec fn asset_ok(
    a: ImageAsset,
    id: u64,
    width: u32,
    height: u32,
    pixels: Seq<u8>,
    max_dim: u32,
) -> bool {
    &&& a.full_name@ == full_name_spec(id)
    &&& a.thumb_name@ == thumb_name_spec(id)
    &&& a.png@ == png_of(width, height, pixels)
    &&& a.thumb_width == thumb_of(width, height, pixels, max_dim, max_dim).1
    &&& a.thumb_height == thumb_of(width, height, pixels, max_dim, max_dim).2
    &&& a.thumb_png@ == png_of(
        a.thumb_width,
        a.thumb_height,
        thumb_of(width, height, pixels, max_dim, max_dim).0,
    )
    &&& 1 <= a.thumb_width <= max_dim
    &&& 1 <= a.thumb_height <= max_dim
}

/// Prepares the image assets of a new entry: the full PNG and a thumbnail
/// bounded by `max_dim` on both sides, aspect ratio preserved, under the
/// entry's content-addressed file names. Succeeds exactly on well-formed
/// RGBA buffers.
pub fn save_image(id: u64, width: u32, height: u32, pixels: &Vec<u8>, max_dim: u32) -> (r: Option<
    ImageAsset,
>)
    requires
        max_dim >= 1,
    ensures
        r is Some <==> valid_rgba(width, height, pixels@.len()),
        r matches Some(a) ==> asset_ok(a, id, width, height, pixels@, max_dim),
{
    if width < 1 || height < 1 {
        return None;
    }
    let w: u128 = width as u128;
    let h: u128 = height as u128;
    proof {
        assert(4 * w * h <= 4 * 0xffffffffu128 * 0xffffffffu128) by (nonlinear_arith)
            requires
                w <= 0xffffffffu128,
                h <= 0xffffffffu128,
        ;
    }
    let need: u128 = 4u128 * w * h;
    if (pixels.len() as u128) != need {
        return None;
    }
    let png = match encode_png_rgba(width, height, pixels) {
        Some(b) => b,
        None => {
            proof {
                assert(false);
            }
            return None;
        },
    };
    let thumb = match thumbnail_rgba(width, height, pixels, max_dim, max_dim) {
        Some(t) => t,
        None => {
            proof {
                assert(false);
            }
            return None;
        },
    };
    let thumb_png = match encode_png_rgba(thumb.1, thumb.2, &thumb.0) {
        Some(b) => b,
        None => {
            proof {
                assert(false);
            }
            return None;
        },
    };
    let (full_name, thumb_name) = asset_file_names(id);
    Some(
        ImageAsset {
            full_name,
            thumb_name,
            png,
            thumb_png,
            thumb_width: thumb.1,
            thumb_height: thumb.2,
        },
    )
}

} // verus!
