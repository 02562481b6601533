//! Turning a bitmap from the clipboard into a JPEG data URL that a chat request
//! can carry.

use base64::Engine;
use vstd::prelude::*;

verus! {

/// The character of the standard Base64 alphabet for a 6-bit value.
pub open spec fn base64_char(v: u8) -> char {
    if v < 26 {
        (65 + v) as char
    } else if v < 52 {
        (97 + (v - 26)) as char
    } else if v < 62 {
        (48 + (v - 52)) as char
    } else if v == 62 {
        '+'
    } else {
        '/'
    }
}

/// Standard Base64 with padding (RFC 4648, section 4): each group of three bytes
/// becomes four characters of six bits each; a last group of one or two bytes is
/// padded with `=` to four characters.
pub open spec fn base64_encode(data: Seq<u8>) -> Seq<char>
    decreases data.len(),
{
    if data.len() == 0 {
        Seq::empty()
    } else if data.len() == 1 {
        seq![base64_char(data[0] >> 2), base64_char((data[0] & 3) << 4), '=', '=']
    } else if data.len() == 2 {
        seq![
            base64_char(data[0] >> 2),
            base64_char(((data[0] & 3) << 4) | (data[1] >> 4)),
            base64_char((data[1] & 15) << 2),
            '=',
        ]
    } else {
        seq![
            base64_char(data[0] >> 2),
            base64_char(((data[0] & 3) << 4) | (data[1] >> 4)),
            base64_char(((data[1] & 15) << 2) | (data[2] >> 6)),
            base64_char(data[2] & 63),
        ] + base64_encode(data.subrange(3, data.len() as int))
    }
}

/// The length of the padded Base64 encoding of `n` bytes.
pub open spec fn base64_len(n: nat) -> nat {
    4 * ((n + 2) / 3)
}

/// The padded Base64 text of `n` bytes has `4 * ceil(n / 3)` characters.
pub proof fn lemma_base64_length(data: Seq<u8>)
    ensures
        base64_encode(data).len() == base64_len(data.len()),
    decreases data.len(),
{
    if data.len() > 2 {
        lemma_base64_length(data.subrange(3, data.len() as int));
    }
}

/// Calls `base64::Engine::encode` on the engine built from the standard alphabet
/// with the default configuration, which pads. The crate's `encode` panics where the
/// encoded length overflows `usize`, so `requires` leaves such inputs out.
#[verifier::external_body]
fn encode_base64(data: &[u8]) -> (encoded: String)
    requires
        base64_len(data@.len()) <= usize::MAX,
    ensures
        encoded@ == base64_encode(data@),
{
    base64::engine::GeneralPurpose::new(&base64::alphabet::STANDARD, Default::default()).encode(
        data,
    )
}

/// The JPEG encoding of the image in a BMP file, `None` where the bytes are no BMP
/// that the `image` crate reads or the image cannot be written as JPEG.
pub uninterp spec fn jpeg_of_bmp(bmp: Seq<u8>) -> Option<Seq<u8>>;

/// Calls `image::load_from_memory_with_format` with `ImageFormat::Bmp` and writes
/// the image with `DynamicImage::write_to` as `ImageFormat::Jpeg` into a buffer. The
/// contract names the result: both steps depend on the bytes alone, and either may
/// fail, which gives `None`. Nothing more of the encoding is stated.
#[verifier::external_body]
fn bmp_to_jpeg(bmp: &[u8]) -> (jpeg: Option<Vec<u8>>)
    ensures
        match jpeg {
            Some(bytes) => jpeg_of_bmp(bmp@) == Some(bytes@),
            None => jpeg_of_bmp(bmp@) is None,
        },
{
    let image = image::load_from_memory_with_format(bmp, image::ImageFormat::Bmp).ok()?;
    let mut jpeg = std::io::Cursor::new(Vec::new());
    image.write_to(&mut jpeg, image::ImageFormat::Jpeg).ok()?;
    Some(jpeg.into_inner())
}

/// Why a bitmap could not be turned into a data URL.
#[derive(Debug, Clone, Copy, PartialEq, Eq, Structural)]
pub enum ImageUrlError {
    /// The bitmap could not be read or written as JPEG.
    Conversion,
    /// The Base64 text of the JPEG would not fit in memory.
    TooLarge,
}

/// The text before the Base64 payload of a JPEG data URL.
pub open spec fn jpeg_url_prefix() -> Seq<char> {
    "data:image/jpeg;base64,"@
}

/// The data URL of a JPEG.
pub open spec fn jpeg_data_url(jpeg: Seq<u8>) -> Seq<char> {
    jpeg_url_prefix() + base64_encode(jpeg)
}

/// The data URL for a JPEG given as bytes: the prefix, then the Base64 text.
pub fn jpeg_url(jpeg: &[u8]) -> (url: Result<String, ImageUrlError>)
    ensures
        match url {
            Ok(s) => base64_len(jpeg@.len()) <= usize::MAX && s@ == jpeg_data_url(jpeg@),
            Err(e) => base64_len(jpeg@.len()) > usize::MAX && e == ImageUrlError::TooLarge,
        },
{
    let n = jpeg.len();
    let groups: usize = n / 3 + if n % 3 > 0 {
        1
    } else {
        0
    };
    assert(groups == (n + 2) / 3) by (nonlinear_arith)
        requires
            groups == n / 3 + if n % 3 > 0 {
                1int
            } else {
                0int
            },
    ;
    assert((4 * groups <= usize::MAX) == (groups <= usize::MAX / 4)) by (nonlinear_arith);
    if groups > usize::MAX / 4 {
        return Err(ImageUrlError::TooLarge);
    }
    let encoded = encode_base64(jpeg);
    let mut url = String::from_str("data:image/jpeg;base64,");
    url.append(encoded.as_str());
    Ok(url)
}

/// The data URL for a bitmap read from the clipboard, given what the conversion to
/// JPEG gave: nothing for an empty bitmap, an error where the conversion failed.
pub fn image_url_from_jpeg(bmp_len: usize, jpeg: Option<Vec<u8>>) -> (url: Result<
    Option<String>,
    ImageUrlError,
>)
    ensures
        bmp_len == 0 ==> url == Ok::<Option<String>, ImageUrlError>(None),
        bmp_len > 0 ==> match jpeg {
            None => url == Err::<Option<String>, ImageUrlError>(ImageUrlError::Conversion),
            Some(bytes) => if base64_len(bytes@.len()) <= usize::MAX {
                url matches Ok(Some(s)) && s@ == jpeg_data_url(bytes@)
            } else {
                url == Err::<Option<String>, ImageUrlError>(ImageUrlError::TooLarge)
            },
        },
{
    if bmp_len == 0 {
        return Ok(None);
    }
    match jpeg {
        None => Err(ImageUrlError::Conversion),
        Some(bytes) => match jpeg_url(bytes.as_slice()) {
            Ok(s) => Ok(Some(s)),
            Err(e) => Err(e),
        },
    }
}

/// The data URL for a bitmap read from the clipboard: nothing for an empty bitmap;
/// otherwise the JPEG data URL of the image, or an error where the bitmap cannot be
/// converted.
pub fn clipboard_image_url(bmp: &[u8]) -> (url: Result<Option<String>, ImageUrlError>)
    ensures
        bmp@.len() == 0 ==> url == Ok::<Option<String>, ImageUrlError>(None),
        bmp@.len() > 0 ==> match jpeg_of_bmp(bmp@) {
            None => url == Err::<Option<String>, ImageUrlError>(ImageUrlError::Conversion),
            Some(bytes) => if base64_len(bytes.len()) <= usize::MAX {
                url matches Ok(Some(s)) && s@ == jpeg_data_url(bytes)
            } else {
                url == Err::<Option<String>, ImageUrlError>(ImageUrlError::TooLarge)
            },
        },
{
    if bmp.len() == 0 {
        return Ok(None);
    }
    let jpeg = bmp_to_jpeg(bmp);
    image_url_from_jpeg(bmp.len(), jpeg)
}

} // verus!
