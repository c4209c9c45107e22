use vstd::prelude::*;
use crate::config::BoxSize;
use crate::errors::CodecError;

verus! {

// ---------------------------------------------------------------------------
// The opaque codec, and names for what it computes
// ---------------------------------------------------------------------------
// The image codec is an outside collaborator: decoding, resampling and
// encoding are consumed as operations on in-memory values. Each one is a
// deterministic function of its arguments alone, so each result is given an
// uninterpreted name, and the library's contracts are exact over those names:
// which bytes are a resample of which decode, and which rendition is a
// verbatim copy.

/// Declares image::DynamicImage, the codec's decoded pixel buffer; its
/// values only pass through, opaque, between the codec calls below.
#[verifier::external_type_specification]
#[verifier::external_body]
pub struct ExDynamicImage(image::DynamicImage);

/// Declares image::ImageFormat, the codec's encoding-format token; values
/// come from the extension lookup below and go back into the encoder.
#[verifier::external_type_specification]
#[verifier::external_body]
pub struct ExImageFormat(image::ImageFormat);

/// What image::load_from_memory returns for given bytes: the decoded image,
/// or nothing when the bytes are not a supported image.
pub uninterp spec fn decoded_image(bytes: Seq<u8>) -> Option<image::DynamicImage>;

/// What image::DynamicImage::resize_exact returns: the image resampled to
/// exactly the given dimensions with the Lanczos3 filter.
pub uninterp spec fn resampled_image(
    img: image::DynamicImage,
    width: u32,
    height: u32,
) -> image::DynamicImage;

/// What image::ImageFormat::from_extension returns for a file-name extension.
pub uninterp spec fn format_of_extension(ext: Seq<char>) -> Option<image::ImageFormat>;

/// What image::DynamicImage::write_to writes for an image and a format: its
/// encoded bytes, or nothing when that encode fails.
pub uninterp spec fn encoded_bytes(
    img: image::DynamicImage,
    format: image::ImageFormat,
) -> Option<Seq<u8>>;

/// The pixel width that image::GenericImageView::width reports for an image.
pub uninterp spec fn image_width(img: image::DynamicImage) -> u32;

/// The pixel height that image::GenericImageView::height reports for an
/// image.
pub uninterp spec fn image_height(img: image::DynamicImage) -> u32;

/// Relies on image::load_from_memory: decodes an image from its encoded
/// bytes, guessing the format from their content; the outcome is a function
/// of the bytes alone, and bytes that are not a supported image fail.
#[verifier::external_body]
fn decode_image(bytes: &Vec<u8>) -> (r: Result<image::DynamicImage, CodecError>)
    ensures
        match r {
            Ok(img) => decoded_image(bytes@) == Some(img),
            Err(_) => decoded_image(bytes@) is None,
        },
{
    match image::load_from_memory(bytes.as_slice()) {
        Ok(img) => Ok(img),
        Err(_) => Err(CodecError),
    }
}

/// Relies on image::DynamicImage::resize_exact: resamples to exactly the
/// given dimensions with the Lanczos3 filter, not preserving aspect ratio;
/// its source shows the result buffer is exactly `width` by `height`, and
/// the result depends on the image and the dimensions alone.
#[verifier::external_body]
fn resample_image(img: &image::DynamicImage, width: u32, height: u32) -> (r: image::DynamicImage)
    ensures
        r == resampled_image(*img, width, height),
        image_width(r) == width,
        image_height(r) == height,
{
    img.resize_exact(width, height, image::imageops::FilterType::Lanczos3)
}

/// Relies on image::ImageFormat::from_extension: the format the codec knows
/// for a file-name extension, if any, by a fixed lookup; `jpg` is documented
/// to have one.
#[verifier::external_body]
fn format_for_extension(ext: &String) -> (r: Option<image::ImageFormat>)
    ensures
        r == format_of_extension(ext@),
        ext@ == "jpg"@ ==> r is Some,
{
    image::ImageFormat::from_extension(ext.as_str())
}

/// Relies on image::DynamicImage::write_to: encodes the image into in-memory
/// bytes of the given format; the outcome is a function of the image and the
/// format alone, and unsupported formats or dimensions fail as errors.
#[verifier::external_body]
fn encode_image(img: &image::DynamicImage, format: &image::ImageFormat) -> (r: Result<
    Vec<u8>,
    CodecError,
>)
    ensures
        match r {
            Ok(b) => encoded_bytes(*img, *format) == Some(b@),
            Err(_) => encoded_bytes(*img, *format) is None,
        },
{
    let mut cursor = std::io::Cursor::new(Vec::new());
    match img.write_to(&mut cursor, *format) {
        Ok(()) => Ok(cursor.into_inner()),
        Err(_) => Err(CodecError),
    }
}

// ---------------------------------------------------------------------------
// One task's codec work
// ---------------------------------------------------------------------------

/// The two renditions one conversion task writes, as encoded bytes: the
/// thumbnail, and the main rendition beside which it lives.
pub struct TranscodeOutput {
    pub thumbnail: Vec<u8>,
    pub main: Vec<u8>,
}

/// The thumbnail an accepted source yields: the source decoded, resampled
/// into the thumbnail box, and encoded in the extension's format; absent
/// exactly when the extension has no format, the bytes do not decode, or
/// that encode fails.
pub open spec fn spec_thumbnail_bytes(
    source: Seq<u8>,
    ext: Seq<char>,
    thumbnail_box: BoxSize,
) -> Option<Seq<u8>> {
    match format_of_extension(ext) {
        Some(format) => match decoded_image(source) {
            Some(img) => encoded_bytes(
                resampled_image(img, thumbnail_box.width, thumbnail_box.height),
                format,
            ),
            None => None,
        },
        None => None,
    }
}

/// The main rendition an accepted source yields: with no resize box, the
/// source bytes themselves, verbatim; with one, the same single decode
/// resampled into that box and re-encoded. Absent exactly when a needed
/// codec step fails.
pub open spec fn spec_main_bytes(
    source: Seq<u8>,
    ext: Seq<char>,
    resize: Option<BoxSize>,
) -> Option<Seq<u8>> {
    match format_of_extension(ext) {
        Some(format) => match decoded_image(source) {
            Some(img) => match resize {
                Some(resize_box) => encoded_bytes(
                    resampled_image(img, resize_box.width, resize_box.height),
                    format,
                ),
                None => Some(source),
            },
            None => None,
        },
        None => None,
    }
}

/// The bytes of the main rendition, from the already decoded image: a
/// resample into the configured box when one is set; otherwise the source
/// bytes verbatim, never re-encoded, and then the function cannot fail.
pub fn main_rendition(
    source: &Vec<u8>,
    img: &image::DynamicImage,
    resize: &Option<BoxSize>,
    format: &image::ImageFormat,
) -> (r: Result<Vec<u8>, CodecError>)
    ensures
        resize is None ==> (r matches Ok(b) && b@ == source@),
        resize matches Some(resize_box) ==> (match r {
            Ok(b) => encoded_bytes(
                resampled_image(*img, resize_box.width, resize_box.height),
                *format,
            ) == Some(b@),
            Err(_) => encoded_bytes(
                resampled_image(*img, resize_box.width, resize_box.height),
                *format,
            ) is None,
        }),
{
    match resize {
        Some(b) => {
            let resized = resample_image(img, b.width, b.height);
            encode_image(&resized, format)
        },
        None => {
            let copy = source.clone();
            assert(copy@ =~= source@);
            Ok(copy)
        },
    }
}

/// Runs the codec work of one conversion task: decodes the source once,
/// resamples that one decode into the thumbnail box and encodes it for the
/// thumbnail, and makes the main rendition by the configured rule, so with
/// no resize box configured a returned main rendition is byte-identical to
/// the source. It succeeds exactly when every needed codec step does, and
/// a failure stays a per-conversion `CodecError` and nothing more.
pub fn transcode_task(
    source: &Vec<u8>,
    ext: &String,
    thumbnail_box: &BoxSize,
    resize: &Option<BoxSize>,
) -> (r: Result<TranscodeOutput, CodecError>)
    ensures
        r matches Ok(out) ==> spec_thumbnail_bytes(source@, ext@, *thumbnail_box) == Some(
            out.thumbnail@,
        ),
        r matches Ok(out) ==> spec_main_bytes(source@, ext@, *resize) == Some(out.main@),
        r is Err ==> spec_thumbnail_bytes(source@, ext@, *thumbnail_box) is None
            || spec_main_bytes(source@, ext@, *resize) is None,
        resize is None ==> (r matches Ok(out) ==> out.main@ == source@),
        r is Ok ==> image_width(
            resampled_image(
                decoded_image(source@)->0,
                thumbnail_box.width,
                thumbnail_box.height,
            ),
        ) == thumbnail_box.width,
        r is Ok ==> image_height(
            resampled_image(
                decoded_image(source@)->0,
                thumbnail_box.width,
                thumbnail_box.height,
            ),
        ) == thumbnail_box.height,
{
    let format = match format_for_extension(ext) {
        Some(f) => f,
        None => {
            return Err(CodecError);
        },
    };
    let img = match decode_image(source) {
        Ok(img) => img,
        Err(e) => {
            return Err(e);
        },
    };
    let thumb_img = resample_image(&img, thumbnail_box.width, thumbnail_box.height);
    let thumbnail = match encode_image(&thumb_img, &format) {
        Ok(b) => b,
        Err(e) => {
            return Err(e);
        },
    };
    let main = match main_rendition(source, &img, resize, &format) {
        Ok(b) => b,
        Err(e) => {
            return Err(e);
        },
    };
    Ok(TranscodeOutput { thumbnail, main })
}

} // verus!
