//! The calls into the video and image crates. Verus takes the contracts in
//! this file on trust; each says what it claims of the function it calls.

use vstd::prelude::*;
use crate::frame::{reads_as, too_large, Header, Layout, Picture, RawImage, Samples};
use crate::target::Capability;
use image::codecs::jpeg::JpegDecoder;
use image::{ColorType, DynamicImage, ImageBuffer, ImageDecoder, ImageError};
use linux_video::types::{CapabilityFlag, FourCc};
use std::io::Read;

verus! {

/// `CapabilityFlag::bits` of `linux_video`, on the flag of the same name:
/// the bit that the driver interface assigns to the capability.
#[verifier::external_body]
pub(crate) fn capability_bits(capability: Capability) -> (bits: u32)
    ensures
        bits == capability.mask(),
{
    match capability {
        Capability::VideoCapture => CapabilityFlag::VideoCapture.bits(),
        Capability::ExtPixFormat => CapabilityFlag::ExtPixFormat.bits(),
        Capability::Streaming => CapabilityFlag::Streaming.bits(),
    }
}

/// The number of `FourCc::Mjpeg` of `linux_video`: the characters `M`, `J`,
/// `P`, `G`, the first in the lowest byte.
#[verifier::external_body]
pub(crate) fn mjpeg_code() -> (code: u32)
    ensures
        code == 0x4750_4A4Du32,
{
    FourCc::Mjpeg as u32
}

/// The error of the `image` crate. Nothing is known of a value but what
/// `to_string` makes of it.
#[verifier::external_type_specification]
#[verifier::external_body]
pub struct ExImageError(image::ImageError);

/// The JPEG decoder of the `image` crate, on the reader that it decodes from.
#[verifier::external_type_specification]
#[verifier::external_body]
#[verifier::reject_recursive_types(R)]
pub struct ExJpegDecoder<R>(image::codecs::jpeg::JpegDecoder<R>);

/// Width and height that the `image` crate reads from the header of a JPEG
/// stream, as `JpegDecoder::new` and `ImageDecoder::dimensions` give them;
/// `None` for a stream whose header it refuses. Reading the header is
/// parsing and nothing else: it starts no thread and takes no path by the
/// processor.
pub uninterp spec fn jpeg_size(data: Seq<u8>) -> Option<(u32, u32)>;

/// A JPEG decoder that has read the header of its stream, with what it read.
/// Only `jpeg_header` makes one, so that width, height and layout are those
/// of the decoder beside them.
pub struct JpegHeader<'a> {
    decoder: JpegDecoder<&'a [u8]>,
    header: Header,
}

impl<'a> View for JpegHeader<'a> {
    type V = Header;

    closed spec fn view(&self) -> Header {
        self.header
    }
}

impl<'a> JpegHeader<'a> {
    /// What the decoder read from the header.
    pub(crate) fn header(&self) -> (header: Header)
        ensures
            header == self@,
    {
        self.header
    }
}

/// `JpegDecoder::new` of `image` on the bytes of one frame: it reads the
/// stream's header. The decoder is taken together with what
/// `ImageDecoder::dimensions` and `ImageDecoder::color_type` say of it. The
/// contract claims that width and height are a function of the bytes, and
/// that a header is refused every time or never. It claims nothing of which
/// bytes are taken, nor of the layout.
#[verifier::external_body]
pub(crate) fn jpeg_header<'a>(data: &'a [u8]) -> (res: Result<JpegHeader<'a>, ImageError>)
    ensures
        match res {
            Ok(read) => jpeg_size(data@) == Some((read@.width, read@.height)),
            Err(_) => jpeg_size(data@) is None,
        },
{
    let decoder = JpegDecoder::new(data)?;
    let (width, height) = decoder.dimensions();
    let layout = match decoder.color_type() {
        ColorType::L8 => Layout::Gray8,
        ColorType::L16 => Layout::Gray16,
        ColorType::Rgb8 => Layout::Rgb8,
        _ => Layout::Other,
    };
    Ok(JpegHeader { decoder, header: Header { width, height, layout } })
}

/// `ImageDecoder::into_reader` of `image` on the JPEG decoder: it decodes
/// the stream, and the reader that it returns is emptied with `read_to_end`.
/// The decoder counts block rows and columns, eight lines or samples each,
/// in 16 bits, which a picture with an edge above `LONGEST_EDGE` overflows,
/// and it sizes its vectors by the picture filled up to whole blocks:
/// `requires` leaves the pictures out that are too large for either. Nothing
/// is claimed of which streams are taken, nor of the bytes, not even of
/// their number: the decoder works with the threads and the processor that
/// it finds, and it hands out what it decoded as it is.
#[verifier::external_body]
#[allow(deprecated)]
pub(crate) fn decoded_bytes(read: JpegHeader) -> Result<Vec<u8>, ImageError>
    requires
        !too_large(read@.width, read@.height),
{
    let mut reader = read.decoder.into_reader()?;
    let mut bytes = Vec::new();
    reader.read_to_end(&mut bytes)?;
    Ok(bytes)
}

/// `u16::from_ne_bytes` of std: the two bytes of a sample put together in
/// the byte order of this machine, which is one of two: the first byte is
/// the low one, or the high one.
#[verifier::external_body]
pub(crate) fn native_word(first: u8, second: u8) -> (word: u16)
    ensures
        reads_as(word, first, second),
{
    u16::from_ne_bytes([first, second])
}

/// `DynamicImage::to_rgba8` of `image` on the picture, which is handed over
/// as an `ImageBuffer` made by `from_raw`, and the result taken apart into
/// width, height and samples. Allocating the result panics where four bytes
/// for each pixel are more than a vector can hold: `requires` leaves those
/// pictures out. For the others `from_raw` has samples enough, and the
/// result has the size of the picture and four samples for each pixel.
/// Nothing is claimed of the samples themselves.
#[verifier::external_body]
pub(crate) fn rgba8(picture: Picture) -> (res: Option<RawImage>)
    requires
        picture.well_formed(),
    ensures
        res is Some,
        res matches Some(image) ==> image.width == picture.width,
        res matches Some(image) ==> image.height == picture.height,
        res matches Some(image) ==> image.pixels@.len() == 4 * (picture.width * picture.height),
{
    let Picture { width, height, samples } = picture;
    let picture = match samples {
        Samples::Gray8(bytes) => DynamicImage::ImageLuma8(ImageBuffer::from_raw(width, height, bytes)?),
        Samples::Gray16(words) => DynamicImage::ImageLuma16(ImageBuffer::from_raw(width, height, words)?),
        Samples::Rgb8(bytes) => DynamicImage::ImageRgb8(ImageBuffer::from_raw(width, height, bytes)?),
    };
    let pixels = picture.to_rgba8();
    Some(RawImage { width: pixels.width(), height: pixels.height(), pixels: pixels.into_raw() })
}

} // verus!
