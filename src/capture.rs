use vstd::prelude::*;
use vstd::string::StringSliceAdditionalSpecFns;

use base64::Engine;
use image::DynamicImage;

use crate::text::{decimal, decimal_text};

verus! {

#[verifier::external_type_specification]
#[verifier::external_body]
pub struct ExDynamicImage(image::DynamicImage);

/// Why a frame could not be had or cut.
#[derive(Clone, Debug, PartialEq, Eq)]
pub enum CaptureError {
    ObsConnection(String),
    ObsCapture(String),
    Base64Decode(String),
    ImageDecode(String),
    InvalidCrop(String),
}

/// The text that describes an error of each kind.
pub open spec fn capture_error_text(e: CaptureError) -> Seq<char> {
    match e {
        CaptureError::ObsConnection(m) => "OBS connection error: "@ + m@,
        CaptureError::ObsCapture(m) => "OBS capture error: "@ + m@,
        CaptureError::Base64Decode(m) => "Base64 decode error: "@ + m@,
        CaptureError::ImageDecode(m) => "Image decode error: "@ + m@,
        CaptureError::InvalidCrop(m) => "Invalid crop parameters: "@ + m@,
    }
}

impl CaptureError {
    /// A sentence for logs and for people.
    pub fn message(&self) -> (r: String)
        ensures
            r@ == capture_error_text(*self),
    {
        match self {
            CaptureError::ObsConnection(m) => String::from_str("OBS connection error: ").concat(
                m.as_str(),
            ),
            CaptureError::ObsCapture(m) => String::from_str("OBS capture error: ").concat(
                m.as_str(),
            ),
            CaptureError::Base64Decode(m) => String::from_str("Base64 decode error: ").concat(
                m.as_str(),
            ),
            CaptureError::ImageDecode(m) => String::from_str("Image decode error: ").concat(
                m.as_str(),
            ),
            CaptureError::InvalidCrop(m) => String::from_str("Invalid crop parameters: ").concat(
                m.as_str(),
            ),
        }
    }
}

/// Whether the region `(x, y, width, height)` lies inside a frame of the
/// given size.
pub open spec fn crop_fits(rect: (u32, u32, u32, u32), frame_width: u32, frame_height: u32) -> bool {
    &&& rect.0 + rect.2 <= frame_width
    &&& rect.1 + rect.3 <= frame_height
}

/// The explanation carried by the error for a region that does not fit.
pub open spec fn crop_error_text(rect: (u32, u32, u32, u32), frame_width: u32, frame_height: u32) -> Seq<
    char,
> {
    "Crop region ("@ + decimal_text(rect.2 as nat) + "x"@ + decimal_text(rect.3 as nat) + " at "@
        + decimal_text(rect.0 as nat) + ","@ + decimal_text(rect.1 as nat)
        + ") exceeds image dimensions ("@ + decimal_text(frame_width as nat) + "x"@ + decimal_text(
        frame_height as nat,
    ) + ")"@
}

/// Accepts a region that lies inside the frame; a region that exceeds it is
/// an `InvalidCrop` error, never clamped.
pub fn check_crop(rect: (u32, u32, u32, u32), frame_width: u32, frame_height: u32) -> (r: Result<
    (),
    CaptureError,
>)
    ensures
        r is Ok <==> crop_fits(rect, frame_width, frame_height),
        r matches Err(e) ==> e matches CaptureError::InvalidCrop(m) && m@ == crop_error_text(
            rect,
            frame_width,
            frame_height,
        ),
{
    let (x, y, width, height) = rect;
    if x as u64 + width as u64 > frame_width as u64 || y as u64 + height as u64 > frame_height as u64 {
        let m = String::from_str("Crop region (").concat(decimal(width as u64).as_str()).concat(
            "x",
        ).concat(decimal(height as u64).as_str()).concat(" at ").concat(
            decimal(x as u64).as_str(),
        ).concat(",").concat(decimal(y as u64).as_str()).concat(
            ") exceeds image dimensions (",
        ).concat(decimal(frame_width as u64).as_str()).concat("x").concat(
            decimal(frame_height as u64).as_str(),
        ).concat(")");
        Err(CaptureError::InvalidCrop(m))
    } else {
        Ok(())
    }
}

/// The width in pixels of an image.
pub uninterp spec fn image_width(i: DynamicImage) -> u32;

/// The height in pixels of an image.
pub uninterp spec fn image_height(i: DynamicImage) -> u32;

/// What `DynamicImage::crop_imm` cuts out of an image at `(x, y)` with the
/// given size.
pub uninterp spec fn cropped_image(i: DynamicImage, x: u32, y: u32, width: u32, height: u32) -> DynamicImage;

/// Relies on `DynamicImage::width`: the frame's width in pixels.
#[verifier::external_body]
fn frame_width(image: &DynamicImage) -> (r: u32)
    ensures
        r == image_width(*image),
{
    image.width()
}

/// Relies on `DynamicImage::height`: the frame's height in pixels.
#[verifier::external_body]
fn frame_height(image: &DynamicImage) -> (r: u32)
    ensures
        r == image_height(*image),
{
    image.height()
}

/// Relies on `DynamicImage::crop_imm`: the cut-out of the frame at
/// `(x, y)` of the given size; it depends on its arguments alone. It clamps
/// the region to the frame, so a region that fits keeps its size.
#[verifier::external_body]
fn crop_frame(image: &DynamicImage, x: u32, y: u32, width: u32, height: u32) -> (r: DynamicImage)
    ensures
        r == cropped_image(*image, x, y, width, height),
        crop_fits((x, y, width, height), image_width(*image), image_height(*image)) ==> image_width(
            r,
        ) == width && image_height(r) == height,
{
    image.crop_imm(x, y, width, height)
}

/// Cuts the region `(x, y, width, height)` out of a frame; a region that
/// does not lie inside the frame is an `InvalidCrop` error.
pub fn preprocess(image: DynamicImage, crop_rect: (u32, u32, u32, u32)) -> (r: Result<
    DynamicImage,
    CaptureError,
>)
    ensures
        r is Ok <==> crop_fits(crop_rect, image_width(image), image_height(image)),
        r matches Ok(c) ==> c == cropped_image(
            image,
            crop_rect.0,
            crop_rect.1,
            crop_rect.2,
            crop_rect.3,
        ),
        r matches Ok(c) ==> image_width(c) == crop_rect.2 && image_height(c) == crop_rect.3,
        r matches Err(e) ==> e matches CaptureError::InvalidCrop(m) && m@ == crop_error_text(
            crop_rect,
            image_width(image),
            image_height(image),
        ),
{
    let w = frame_width(&image);
    let h = frame_height(&image);
    match check_crop(crop_rect, w, h) {
        Ok(()) => {
            let (x, y, width, height) = crop_rect;
            Ok(crop_frame(&image, x, y, width, height))
        },
        Err(e) => Err(e),
    }
}

/// The byte `,` that separates the fields of a data URL.
pub const COMMA: u8 = 0x2c;

/// Whether the text starts with `data:`, as a data URL does.
pub open spec fn is_data_url(s: Seq<u8>) -> bool {
    s.len() >= 5 && s.subrange(0, 5) == seq![0x64u8, 0x61u8, 0x74u8, 0x61u8, 0x3au8]
}

/// The position of the first comma at or after `from`, or the length when
/// there is none.
pub open spec fn next_comma(s: Seq<u8>, from: int) -> int
    decreases s.len() - from,
{
    if from < 0 || from >= s.len() {
        s.len() as int
    } else if s[from] == COMMA {
        from
    } else {
        next_comma(s, from + 1)
    }
}

/// Where the base64 text of a screenshot lies in what the source sent, as
/// `(start, end)`: for a data URL the field after its first comma (up to the
/// next comma), none when it has no comma; otherwise all of it.
pub open spec fn payload_bounds(s: Seq<u8>) -> Option<(int, int)> {
    if is_data_url(s) {
        let i = next_comma(s, 0);
        if i >= s.len() {
            None
        } else {
            Some((i + 1, next_comma(s, i + 1)))
        }
    } else {
        Some((0, s.len() as int))
    }
}

/// The first comma at or after `from`, or the length when there is none.
pub fn find_comma(data: &[u8], from: usize) -> (r: usize)
    requires
        from <= data@.len(),
    ensures
        r == next_comma(data@, from as int),
        from <= r <= data@.len(),
{
    let mut i = from;
    while i < data.len() && data[i] != COMMA
        invariant
            from <= i <= data@.len(),
            next_comma(data@, i as int) == next_comma(data@, from as int),
        decreases data@.len() - i,
    {
        i = i + 1;
    }
    i
}

/// Where the base64 text of a screenshot lies in what the source sent; `None`
/// for a data URL without a comma.
pub fn screenshot_payload_bounds(data: &[u8]) -> (r: Option<(usize, usize)>)
    ensures
        match r {
            Some((a, b)) => payload_bounds(data@) == Some((a as int, b as int)) && a <= b
                <= data@.len(),
            None => payload_bounds(data@) is None,
        },
{
    let prefixed = data.len() >= 5 && data[0] == 0x64u8 && data[1] == 0x61u8 && data[2] == 0x74u8
        && data[3] == 0x61u8 && data[4] == 0x3au8;
    proof {
        if data@.len() >= 5 {
            assert(prefixed == (data@.subrange(0, 5) =~= seq![0x64u8, 0x61u8, 0x74u8, 0x61u8, 0x3au8]));
        }
    }
    if !prefixed {
        return Some((0, data.len()));
    }
    let i = find_comma(data, 0);
    if i >= data.len() {
        return None;
    }
    let j = find_comma(data, i + 1);
    Some((i + 1, j))
}

/// What base64 with the standard alphabet and padding decodes a text to;
/// `None` for a text that is no such encoding.
pub uninterp spec fn base64_decoded(s: Seq<u8>) -> Option<Seq<u8>>;

/// Relies on `base64::engine::general_purpose::STANDARD.decode`: the bytes
/// that the text encodes, or why it encodes none.
#[verifier::external_body]
fn decode_base64(text: &[u8]) -> (r: Result<Vec<u8>, String>)
    ensures
        match r {
            Ok(v) => base64_decoded(text@) == Some(v@),
            Err(_) => base64_decoded(text@) is None,
        },
{
    match base64::engine::general_purpose::STANDARD.decode(text) {
        Ok(v) => Ok(v),
        Err(e) => Err(e.to_string()),
    }
}

/// The image that PNG bytes hold; `None` for bytes that are no PNG image.
pub uninterp spec fn png_image(b: Seq<u8>) -> Option<DynamicImage>;

/// Relies on `image::load_from_memory_with_format` with the PNG format: the
/// image that the bytes hold, or why they hold none; it depends on the bytes
/// alone.
#[verifier::external_body]
fn decode_png(bytes: &[u8]) -> (r: Result<DynamicImage, String>)
    ensures
        match r {
            Ok(img) => png_image(bytes@) == Some(img),
            Err(_) => png_image(bytes@) is None,
        },
{
    match image::load_from_memory_with_format(bytes, image::ImageFormat::Png) {
        Ok(img) => Ok(img),
        Err(e) => Err(e.to_string()),
    }
}

/// The base64 text of a screenshot within what the source sent.
pub open spec fn screenshot_text(s: Seq<u8>) -> Option<Seq<u8>> {
    match payload_bounds(s) {
        Some((a, b)) => Some(s.subrange(a, b)),
        None => None,
    }
}

/// The PNG bytes that the base64 text of a screenshot encodes, if it is
/// valid base64.
pub open spec fn screenshot_png_bytes(s: Seq<u8>) -> Option<Seq<u8>> {
    match screenshot_text(s) {
        Some(t) => base64_decoded(t),
        None => None,
    }
}

/// Turns what the source sent for a screenshot (base64 PNG, bare or as a
/// data URL) into an image: a data URL without a comma and text that is no
/// base64 are `Base64Decode` errors, bytes that are no PNG image are an
/// `ImageDecode` error, and otherwise the PNG's image comes back.
pub fn decode_screenshot(image_data: &str) -> (r: Result<DynamicImage, CaptureError>)
    ensures
        screenshot_text(image_data.spec_bytes()) is None ==> (r matches Err(
            CaptureError::Base64Decode(m),
        ) && m@ == "Invalid data URL format"@),
        screenshot_text(image_data.spec_bytes()) is Some && screenshot_png_bytes(
            image_data.spec_bytes(),
        ) is None ==> (r matches Err(CaptureError::Base64Decode(_))),
        screenshot_png_bytes(image_data.spec_bytes()) is Some && png_image(
            screenshot_png_bytes(image_data.spec_bytes())->0,
        ) is Some ==> r == Ok::<DynamicImage, CaptureError>(
            png_image(screenshot_png_bytes(image_data.spec_bytes())->0)->0,
        ),
        screenshot_png_bytes(image_data.spec_bytes()) is Some && png_image(
            screenshot_png_bytes(image_data.spec_bytes())->0,
        ) is None ==> (r matches Err(CaptureError::ImageDecode(_))),
{
    let data = image_data.as_bytes();
    match screenshot_payload_bounds(data) {
        None => Err(CaptureError::Base64Decode(String::from_str("Invalid data URL format"))),
        Some((a, b)) => {
            let payload = &data[a..b];
            match decode_base64(payload) {
                Err(e) => Err(CaptureError::Base64Decode(e)),
                Ok(bytes) => match decode_png(bytes.as_slice()) {
                    Ok(img) => Ok(img),
                    Err(e) => Err(CaptureError::ImageDecode(e)),
                },
            }
        },
    }
}

} // verus!
