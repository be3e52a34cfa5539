//! Icons of capture targets: the key under which an executable's icon is
//! cached, how the icon's pixels are recovered from two renderings, and how
//! they become a PNG data URL.
use crate::text::{ascii_lower_seq, chars_of, push_str, string_from_chars};
use base64::Engine;
use vstd::prelude::*;

verus! {

/// Width and height of a rendered icon.
pub const ICON_SIZE: u32 = 32;

// ---------------------------------------------------------------------------
// Cache keys
// ---------------------------------------------------------------------------

/// What `str::to_lowercase` gives for `s` (Unicode lower-case mapping).
pub uninterp spec fn unicode_lowercase(s: Seq<char>) -> Seq<char>;

pub open spec fn is_ascii_text(s: Seq<char>) -> bool {
    forall|i: int| 0 <= i < s.len() ==> (s[i] as u32) < 0x80
}

/// `str::to_lowercase`; on ASCII text it lowers `A`–`Z` and keeps the rest.
#[verifier::external_body]
fn to_lowercase(s: &str) -> (r: String)
    ensures
        r@ == unicode_lowercase(s@),
        is_ascii_text(s@) ==> r@ == ascii_lower_seq(s@),
{
    s.to_lowercase()
}

pub open spec fn forward_to_backslash(s: Seq<char>) -> Seq<char> {
    s.map_values(|c: char| if c == '/' { '\\' } else { c })
}

/// The same executable gives the same key however its path is spelt:
/// forward slashes become backslashes and the text is lower-cased.
pub open spec fn cache_key_spec(path: Seq<char>) -> Seq<char> {
    unicode_lowercase(forward_to_backslash(path))
}

pub fn normalize_cache_key(path: &str) -> (r: String)
    ensures
        r@ == cache_key_spec(path@),
        is_ascii_text(path@) ==> r@ == ascii_lower_seq(forward_to_backslash(path@)),
{
    let chars = chars_of(path);
    let mut out: Vec<char> = Vec::new();
    let mut i: usize = 0;
    while i < chars.len()
        invariant
            i <= chars@.len(),
            chars@ == path@,
            out@ == forward_to_backslash(chars@.take(i as int)),
        decreases chars@.len() - i,
    {
        let c = chars[i];
        out.push(if c == '/' { '\\' } else { c });
        i = i + 1;
        assert(out@ =~= forward_to_backslash(chars@.take(i as int)));
    }
    assert(chars@.take(chars@.len() as int) =~= chars@);
    let replaced = string_from_chars(&out);
    assert(is_ascii_text(path@) ==> is_ascii_text(replaced@));
    to_lowercase(replaced.as_str())
}

// ---------------------------------------------------------------------------
// Pixels
// ---------------------------------------------------------------------------

pub open spec fn sat_sub(a: u8, b: u8) -> u8 {
    if a >= b {
        (a - b) as u8
    } else {
        0
    }
}

pub open spec fn min3(a: u8, b: u8, c: u8) -> u8 {
    let ab = if a <= b {
        a
    } else {
        b
    };
    if ab <= c {
        ab
    } else {
        c
    }
}

/// Opacity of pixel `p`: a pixel that looks the same on black and on white
/// is opaque; the more white shows through, the more transparent it is.
pub open spec fn pixel_alpha(black: Seq<u8>, white: Seq<u8>, p: int) -> u8 {
    min3(
        sat_sub(255, sat_sub(white[4 * p], black[4 * p])),
        sat_sub(255, sat_sub(white[4 * p + 1], black[4 * p + 1])),
        sat_sub(255, sat_sub(white[4 * p + 2], black[4 * p + 2])),
    )
}

/// A colour channel drawn on black, with the opacity divided out (rounded).
pub open spec fn unpremultiplied(channel: u8, alpha: u8) -> u8 {
    if alpha == 0 {
        0
    } else {
        let v = (channel * 255 + alpha / 2) / (alpha as int);
        if v > 255 {
            255
        } else {
            v as u8
        }
    }
}

/// Pixel `p` as red, green, blue, alpha (the renderings are blue, green, red
/// first).
pub open spec fn pixel_rgba(black: Seq<u8>, white: Seq<u8>, p: int) -> Seq<u8> {
    let alpha = pixel_alpha(black, white, p);
    seq![
        unpremultiplied(black[4 * p + 2], alpha),
        unpremultiplied(black[4 * p + 1], alpha),
        unpremultiplied(black[4 * p], alpha),
        alpha,
    ]
}

pub open spec fn icon_rgba(black: Seq<u8>, white: Seq<u8>, pixels: nat) -> Seq<u8>
    decreases pixels,
{
    if pixels == 0 {
        seq![]
    } else {
        icon_rgba(black, white, (pixels - 1) as nat) + pixel_rgba(black, white, pixels - 1)
    }
}

pub open spec fn pixel_count(black: Seq<u8>, white: Seq<u8>) -> nat {
    let a = black.len() / 4;
    let b = white.len() / 4;
    if a <= b {
        a
    } else {
        b
    }
}

fn sat_sub_exec(a: u8, b: u8) -> (r: u8)
    ensures
        r == sat_sub(a, b),
{
    if a >= b {
        a - b
    } else {
        0
    }
}

fn unpremultiply_channel(channel: u8, alpha: u8) -> (r: u8)
    ensures
        r == unpremultiplied(channel, alpha),
{
    if alpha == 0 {
        return 0;
    }
    assert(channel as u16 * 255 + alpha as u16 / 2 <= 65152) by (nonlinear_arith)
        requires
            channel <= 255,
            alpha <= 255,
    ;
    let v = (channel as u16 * 255 + alpha as u16 / 2) / (alpha as u16);
    if v > 255 {
        255
    } else {
        v as u8
    }
}

/// The icon's straight RGBA pixels from its renderings on black and on
/// white (four bytes per pixel, blue first).
pub fn unpremultiply_icon(black: &[u8], white: &[u8]) -> (r: Vec<u8>)
    ensures
        r@ == icon_rgba(black@, white@, pixel_count(black@, white@)),
{
    let a = black.len() / 4;
    let b = white.len() / 4;
    let n = if a <= b {
        a
    } else {
        b
    };
    let mut out: Vec<u8> = Vec::new();
    let mut p: usize = 0;
    let mut base: usize = 0;
    while p < n
        invariant
            n == pixel_count(black@, white@),
            p <= n,
            base == 4 * p,
            4 * n <= black@.len(),
            4 * n <= white@.len(),
            out@ == icon_rgba(black@, white@, p as nat),
        decreases n - p,
    {
        let c0 = sat_sub_exec(255, sat_sub_exec(white[base], black[base]));
        let c1 = sat_sub_exec(255, sat_sub_exec(white[base + 1], black[base + 1]));
        let c2 = sat_sub_exec(255, sat_sub_exec(white[base + 2], black[base + 2]));
        let ab = if c0 <= c1 {
            c0
        } else {
            c1
        };
        let alpha = if ab <= c2 {
            ab
        } else {
            c2
        };
        out.push(unpremultiply_channel(black[base + 2], alpha));
        out.push(unpremultiply_channel(black[base + 1], alpha));
        out.push(unpremultiply_channel(black[base], alpha));
        out.push(alpha);
        assert(out@ =~= icon_rgba(black@, white@, p as nat) + pixel_rgba(black@, white@, p as int));
        p = p + 1;
        base = base + 4;
    }
    out
}

// ---------------------------------------------------------------------------
// PNG data URLs
// ---------------------------------------------------------------------------

/// The bytes the `png` encoder writes for an 8-bit RGBA image of the given
/// size, or the text of the error it reports when it refuses the image.
pub uninterp spec fn png_rgba8(width: u32, height: u32, rgba: Seq<u8>) -> Result<Seq<u8>, Seq<char>>;

/// `png::Encoder` with RGBA colour and 8-bit depth: the header, then the
/// image data, written to memory; on an error, the encoder's own message.
/// The encoder multiplies the row length by the height in a `usize`, so the
/// image's byte size is kept within `u32`.
#[verifier::external_body]
fn encode_png_rgba8(width: u32, height: u32, rgba: &[u8]) -> (r: Result<Vec<u8>, String>)
    requires
        width * height * 4 <= u32::MAX,
    ensures
        match png_rgba8(width, height, rgba@) {
            Ok(bytes) => r is Ok && r->Ok_0@ == bytes,
            Err(message) => r is Err && r->Err_0@ == message,
        },
{
    let mut encoded = Vec::new();
    let mut encoder = png::Encoder::new(&mut encoded, width, height);
    encoder.set_color(png::ColorType::Rgba);
    encoder.set_depth(png::BitDepth::Eight);
    let written = match encoder.write_header() {
        Ok(mut writer) => writer.write_image_data(rgba),
        Err(error) => Err(error),
    };
    match written {
        Ok(()) => Ok(encoded),
        Err(error) => Err(error.to_string()),
    }
}

/// The standard base64 alphabet.
pub open spec fn base64_char(v: int) -> char {
    if v < 26 {
        (('A' as u32) + v) as char
    } else if v < 52 {
        (('a' as u32) + v - 26) as char
    } else if v < 62 {
        (('0' as u32) + v - 52) as char
    } else if v == 62 {
        '+'
    } else {
        '/'
    }
}

/// Standard base64 with `=` padding: three bytes become four characters.
pub open spec fn base64_spec(bytes: Seq<u8>) -> Seq<char>
    decreases bytes.len(),
{
    if bytes.len() == 0 {
        seq![]
    } else {
        let b0 = bytes[0] as int;
        let b1 = if bytes.len() > 1 {
            bytes[1] as int
        } else {
            0
        };
        let b2 = if bytes.len() > 2 {
            bytes[2] as int
        } else {
            0
        };
        let first = base64_char(b0 / 4);
        let second = base64_char((b0 % 4) * 16 + b1 / 16);
        let third = base64_char((b1 % 16) * 4 + b2 / 64);
        let fourth = base64_char(b2 % 64);
        if bytes.len() == 1 {
            seq![first, second, '=', '=']
        } else if bytes.len() == 2 {
            seq![first, second, third, '=']
        } else {
            seq![first, second, third, fourth] + base64_spec(bytes.skip(3))
        }
    }
}

/// `base64::engine::general_purpose::STANDARD.encode`: standard alphabet,
/// padded.
#[verifier::external_body]
fn base64_standard(bytes: &[u8]) -> (r: String)
    ensures
        r@ == base64_spec(bytes@),
{
    base64::engine::general_purpose::STANDARD.encode(bytes)
}

#[derive(Debug, Clone, PartialEq, Eq)]
pub enum IconError {
    /// The pixel buffer does not hold four bytes per pixel.
    InvalidBufferLength,
    /// The PNG encoder refused the image, with its message.
    Encoding(String),
}

impl IconError {
    /// The error's text: a fixed one for a wrong buffer length, the
    /// encoder's own for a refused image.
    pub fn message(&self) -> (r: String)
        ensures
            match self {
                IconError::InvalidBufferLength => r@ == "invalid RGBA icon buffer length"@,
                IconError::Encoding(m) => r@ == m@,
            },
    {
        match self {
            IconError::InvalidBufferLength => String::from_str("invalid RGBA icon buffer length"),
            IconError::Encoding(m) => m.clone(),
        }
    }
}

/// The icon as a `data:` URL of a base64 PNG.
pub fn encode_png_data_url(width: u32, height: u32, rgba: &[u8]) -> (r: Result<String, IconError>)
    requires
        width * height * 4 <= u32::MAX,
    ensures
        rgba@.len() != width * height * 4 ==> r == Err::<String, IconError>(
            IconError::InvalidBufferLength,
        ),
        rgba@.len() == width * height * 4 ==> match png_rgba8(width, height, rgba@) {
            Ok(png) => r is Ok && r->Ok_0@ == "data:image/png;base64,"@ + base64_spec(png),
            Err(message) => r matches Err(IconError::Encoding(m)) && m@ == message,
        },
{
    assert(width * height <= u32::MAX) by (nonlinear_arith)
        requires
            width * height * 4 <= u32::MAX,
    ;
    let expected = (width * height * 4) as usize;
    if rgba.len() != expected {
        return Err(IconError::InvalidBufferLength);
    }
    let png = match encode_png_rgba8(width, height, rgba) {
        Ok(png) => png,
        Err(message) => return Err(IconError::Encoding(message)),
    };
    let encoded = base64_standard(&png);
    let mut out = chars_of("data:image/png;base64,");
    push_str(&mut out, encoded.as_str());
    Ok(string_from_chars(&out))
}

} // verus!
