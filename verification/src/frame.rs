//! Decoding one compressed frame into pixels of the negotiated size.

use vstd::prelude::*;
use crate::bindings::{decoded_bytes, jpeg_header, jpeg_size, native_word, rgba8};
use crate::target::{CaptureConfiguration, FrameSize};

verus! {

/// A picture as plain values: width, height and samples. Nothing holds them
/// together; `DecodedFrame::from_image` checks what the decoder handed back.
#[derive(Clone, Debug, PartialEq, Eq)]
pub struct RawImage {
    pub width: u32,
    pub height: u32,
    pub pixels: Vec<u8>,
}

/// Why a redraw shows no frame.
#[derive(Clone, Debug, PartialEq, Eq)]
pub enum FrameError {
    /// The stream handed out no buffer; the cause is in words.
    Acquire(String),
    /// The decoder refused the buffer's bytes; the cause is in words.
    Decode(String),
    /// The decoded picture does not have the negotiated size, or not four
    /// samples for each of its pixels.
    DimensionMismatch { expected: FrameSize, found: FrameSize },
}

impl FrameError {
    /// The failure and its cause, in words.
    pub open spec fn message_spec(self) -> Seq<char> {
        match self {
            FrameError::Acquire(cause) => "cannot get frame: "@ + cause@,
            FrameError::Decode(cause) => "cannot get decoder: "@ + cause@,
            FrameError::DimensionMismatch { .. } => "cannot get decoder: dimension mismatch"@,
        }
    }

    /// The line that reports a redraw without a frame.
    pub open spec fn log_line_spec(self) -> Seq<char> {
        "error displaying frame: "@ + self.message_spec()
    }

    /// The failure and its cause, in words.
    pub fn message(&self) -> (text: String)
        ensures
            text@ == self.message_spec(),
    {
        match self {
            FrameError::Acquire(cause) => {
                let mut text = String::from_str("cannot get frame: ");
                text.append(cause.as_str());
                text
            },
            FrameError::Decode(cause) => {
                let mut text = String::from_str("cannot get decoder: ");
                text.append(cause.as_str());
                text
            },
            FrameError::DimensionMismatch { .. } => String::from_str(
                "cannot get decoder: dimension mismatch",
            ),
        }
    }

    /// The line that reports a redraw without a frame.
    pub fn log_line(&self) -> (line: String)
        ensures
            line@ == self.log_line_spec(),
    {
        let mut line = String::from_str("error displaying frame: ");
        let text = self.message();
        line.append(text.as_str());
        line
    }
}

/// How a decoder lays out the samples that it hands out.
#[derive(Clone, Copy, Debug, PartialEq, Eq, Structural)]
pub enum Layout {
    /// One byte for each pixel: its brightness.
    Gray8,
    /// Two bytes for each pixel: its brightness, in the byte order of the
    /// machine.
    Gray16,
    /// Three bytes for each pixel: red, green, blue.
    Rgb8,
    /// A layout that a JPEG decoder does not hand out.
    Other,
}

impl Layout {
    /// The number of bytes that the decoder hands out for each pixel; zero
    /// for a layout that it does not hand out.
    pub open spec fn bytes_per_pixel(self) -> nat {
        match self {
            Layout::Gray8 => 1,
            Layout::Gray16 => 2,
            Layout::Rgb8 => 3,
            Layout::Other => 0,
        }
    }
}

/// What the header of a stream says of its picture.
#[derive(Clone, Copy, Debug, PartialEq, Eq, Structural)]
pub struct Header {
    pub width: u32,
    pub height: u32,
    pub layout: Layout,
}

/// The longest edge, in pixels, of a picture that is handed to the decoder.
/// The decoder counts rows and columns of blocks, eight pixels each, in 16
/// bits; above this edge its count no longer fits.
pub const LONGEST_EDGE: u32 = 65528;

/// Whether a picture of this size is too large to be handed to the decoder:
/// an edge is longer than `LONGEST_EDGE`, or four bytes for each pixel of
/// the picture, filled up to whole blocks of at most 32 pixels each way, are
/// more than a vector holds.
pub open spec fn too_large(width: u32, height: u32) -> bool {
    ||| width > LONGEST_EDGE
    ||| height > LONGEST_EDGE
    ||| 4 * ((width + 31) * (height + 31)) > isize::MAX
}

/// Whether a picture of this size is too large to be handed to the decoder.
pub fn is_too_large(width: u32, height: u32) -> (large: bool)
    ensures
        large == too_large(width, height),
{
    if width > LONGEST_EDGE || height > LONGEST_EDGE {
        return true;
    }
    assert((width + 31) * (height + 31) <= 65559 * 65559) by (nonlinear_arith)
        requires
            width <= 65528,
            height <= 65528,
    ;
    let filled: u64 = (width as u64 + 31) * (height as u64 + 31);
    4 * filled > isize::MAX as u64
}

/// `word` is the 16-bit sample that the two bytes hold, in one byte order
/// or the other.
pub open spec fn reads_as(word: u16, first: u8, second: u8) -> bool {
    word == first + 256 * second || word == 256 * first + second
}

/// The samples of a picture, by layout.
#[derive(Clone, Debug, PartialEq, Eq)]
pub enum Samples {
    /// One sample for each pixel.
    Gray8(Vec<u8>),
    /// One sample for each pixel.
    Gray16(Vec<u16>),
    /// Three samples for each pixel.
    Rgb8(Vec<u8>),
}

/// A picture as the decoder handed it out, before it is turned into red,
/// green, blue and alpha.
#[derive(Clone, Debug, PartialEq, Eq)]
pub struct Picture {
    pub width: u32,
    pub height: u32,
    pub samples: Samples,
}

/// Whether `count` bytes in `layout` are a picture of this size that can be
/// turned into four bytes for each pixel: the layout is one of the three,
/// the bytes are exactly those of all pixels, and four for each pixel are
/// not more than a vector holds.
pub open spec fn is_picture(layout: Layout, width: u32, height: u32, count: nat) -> bool {
    &&& layout != Layout::Other
    &&& 4 * (width * height) <= isize::MAX
    &&& count == layout.bytes_per_pixel() * (width * height)
}

/// Why bytes that are no picture are none, in words.
pub open spec fn refusal(layout: Layout, width: u32, height: u32) -> Seq<char> {
    if layout == Layout::Other {
        "unsupported sample layout"@
    } else if 4 * (width * height) > isize::MAX {
        "picture is too large"@
    } else {
        "decoded data does not fit the size of the picture"@
    }
}

/// `words` are the 16-bit samples that `bytes` hold, two bytes each: every
/// one of them is its two bytes in one byte order or the other.
pub open spec fn holds_words(words: Seq<u16>, bytes: Seq<u8>) -> bool {
    &&& 2 * words.len() == bytes.len()
    &&& forall|i: int|
        0 <= i < words.len() ==> reads_as(#[trigger] words[i], bytes[2 * i], bytes[2 * i + 1])
}

impl Picture {
    /// The layout in which the decoder handed the samples out.
    pub open spec fn layout(self) -> Layout {
        match self.samples {
            Samples::Gray8(_) => Layout::Gray8,
            Samples::Gray16(_) => Layout::Gray16,
            Samples::Rgb8(_) => Layout::Rgb8,
        }
    }

    /// The picture has the samples of all its pixels and no more, and four
    /// bytes for each pixel are not more than a vector holds.
    pub open spec fn well_formed(self) -> bool {
        &&& 4 * (self.width * self.height) <= isize::MAX
        &&& match self.samples {
            Samples::Gray8(bytes) => bytes@.len() == self.width * self.height,
            Samples::Gray16(words) => words@.len() == self.width * self.height,
            Samples::Rgb8(bytes) => bytes@.len() == 3 * (self.width * self.height),
        }
    }

    /// Puts the bytes of 16-bit samples together, two for each sample, in
    /// the byte order of the machine.
    fn words(bytes: &Vec<u8>) -> (words: Vec<u16>)
        requires
            bytes@.len() % 2 == 0,
        ensures
            holds_words(words@, bytes@),
    {
        let mut words: Vec<u16> = Vec::new();
        let mut at: usize = 0;
        while at < bytes.len()
            invariant
                at <= bytes@.len(),
                at % 2 == 0,
                bytes@.len() % 2 == 0,
                2 * words@.len() == at,
                forall|i: int|
                    0 <= i < words@.len() ==> reads_as(
                        #[trigger] words@[i],
                        bytes@[2 * i],
                        bytes@[2 * i + 1],
                    ),
            decreases bytes@.len() - at,
        {
            words.push(native_word(bytes[at], bytes[at + 1]));
            at += 2;
        }
        words
    }

    /// Takes what the decoder handed out as a picture, if it is one: the
    /// layout is known, and the bytes are exactly those of `width` times
    /// `height` pixels. Bytes that are more or fewer, as a decoder hands out
    /// for a stream whose samples are wider than its header says, are
    /// refused with `FrameError::Decode`.
    pub fn assemble(layout: Layout, width: u32, height: u32, bytes: Vec<u8>) -> (res: Result<
        Picture,
        FrameError,
    >)
        ensures
            match res {
                Ok(picture) => {
                    &&& is_picture(layout, width, height, bytes@.len())
                    &&& picture.width == width
                    &&& picture.height == height
                    &&& picture.layout() == layout
                    &&& picture.well_formed()
                    &&& picture.samples matches Samples::Gray8(samples) ==> samples@ == bytes@
                    &&& picture.samples matches Samples::Rgb8(samples) ==> samples@ == bytes@
                    &&& picture.samples matches Samples::Gray16(words) ==> holds_words(
                        words@,
                        bytes@,
                    )
                },
                Err(error) => {
                    &&& !is_picture(layout, width, height, bytes@.len())
                    &&& error matches FrameError::Decode(text)
                    &&& text@ == refusal(layout, width, height)
                },
            },
    {
        assert(width * height <= 0xFFFF_FFFF * 0xFFFF_FFFF) by (nonlinear_arith)
            requires
                width <= 0xFFFF_FFFF,
                height <= 0xFFFF_FFFF,
        ;
        let area: u64 = (width as u64) * (height as u64);
        let count: u128 = bytes.len() as u128;
        if 4u128 * (area as u128) > isize::MAX as u128 {
            return Err(
                FrameError::Decode(
                    match layout {
                        Layout::Other => String::from_str("unsupported sample layout"),
                        _ => String::from_str("picture is too large"),
                    },
                ),
            );
        }
        match layout {
            Layout::Gray8 if count == area as u128 => Ok(
                Picture { width, height, samples: Samples::Gray8(bytes) },
            ),
            Layout::Gray16 if count == 2u128 * (area as u128) => Ok(
                Picture { width, height, samples: Samples::Gray16(Picture::words(&bytes)) },
            ),
            Layout::Rgb8 if count == 3u128 * (area as u128) => Ok(
                Picture { width, height, samples: Samples::Rgb8(bytes) },
            ),
            Layout::Other => Err(FrameError::Decode(String::from_str("unsupported sample layout"))),
            _ => Err(
                FrameError::Decode(
                    String::from_str("decoded data does not fit the size of the picture"),
                ),
            ),
        }
    }
}

/// What a decoded frame is: its size and its samples, row by row, four per
/// pixel (red, green, blue, alpha; alpha not multiplied in).
pub struct FrameView {
    pub size: FrameSize,
    pub pixels: Seq<u8>,
}

/// One decoded frame. It owns its samples, and there are exactly four for
/// each pixel of its size.
#[derive(Debug, PartialEq, Eq)]
pub struct DecodedFrame {
    size: FrameSize,
    pixels: Vec<u8>,
}

impl View for DecodedFrame {
    type V = FrameView;

    closed spec fn view(&self) -> FrameView {
        FrameView { size: self.size, pixels: self.pixels@ }
    }
}

/// The frame that a decoded picture makes under `configuration`: the picture
/// itself if it has the negotiated size and four samples per pixel, else no
/// frame.
pub open spec fn framed(
    width: u32,
    height: u32,
    pixels: Seq<u8>,
    configuration: CaptureConfiguration,
) -> Result<FrameView, FrameError> {
    if width == configuration.width && height == configuration.height && pixels.len()
        == configuration.size().rgba_len() {
        Ok(FrameView { size: configuration.size(), pixels })
    } else {
        Err(
            FrameError::DimensionMismatch {
                expected: configuration.size(),
                found: FrameSize { width, height },
            },
        )
    }
}

/// `res` is `expected`, the frame taken by its view.
pub open spec fn frame_is(
    res: Result<DecodedFrame, FrameError>,
    expected: Result<FrameView, FrameError>,
) -> bool {
    match res {
        Ok(frame) => expected == Ok::<FrameView, FrameError>(frame@),
        Err(error) => expected == Err::<FrameView, FrameError>(error),
    }
}

impl DecodedFrame {
    #[verifier::type_invariant]
    spec fn well_formed(self) -> bool {
        self.pixels@.len() == self.size.rgba_len()
    }

    /// Takes a decoded picture as the frame of a stream with
    /// `configuration`, if it has the negotiated size.
    pub fn from_image(image: RawImage, configuration: &CaptureConfiguration) -> (res: Result<
        DecodedFrame,
        FrameError,
    >)
        ensures
            frame_is(res, framed(image.width, image.height, image.pixels@, *configuration)),
    {
        let expected = FrameSize { width: configuration.width, height: configuration.height };
        let found = FrameSize { width: image.width, height: image.height };
        assert(configuration.width * configuration.height <= 0xFFFF_FFFF * 0xFFFF_FFFF)
            by (nonlinear_arith)
            requires
                configuration.width <= 0xFFFF_FFFF,
                configuration.height <= 0xFFFF_FFFF,
        ;
        let area: u64 = (configuration.width as u64) * (configuration.height as u64);
        let samples: u128 = 4u128 * (area as u128);
        if found == expected && image.pixels.len() as u128 == samples {
            Ok(DecodedFrame { size: expected, pixels: image.pixels })
        } else {
            Err(FrameError::DimensionMismatch { expected, found })
        }
    }

    /// The size of the frame: the negotiated one.
    pub fn size(&self) -> (size: FrameSize)
        ensures
            size == self@.size,
    {
        self.size
    }

    /// The samples, exactly four for each pixel.
    pub fn pixels(&self) -> (pixels: &Vec<u8>)
        ensures
            pixels@ == self@.pixels,
            pixels@.len() == self@.size.rgba_len(),
    {
        proof {
            use_type_invariant(self);
        }
        &self.pixels
    }
}

/// What `decode_frame` makes of `data` under `configuration`.
///
/// - A stream whose header the decoder refuses is a decode error.
/// - A stream whose header gives another size than the negotiated one is a
///   dimension mismatch, with both sizes; it is not decoded.
/// - A stream of the negotiated size that is too large for the decoder is a
///   decode error, "picture is too large"; it is not decoded either.
/// - Any other stream is a frame of the negotiated size with four samples
///   for each pixel, or a decode error: that is the decoder's matter.
pub open spec fn is_decoded(
    res: Result<DecodedFrame, FrameError>,
    data: Seq<u8>,
    configuration: CaptureConfiguration,
) -> bool {
    match jpeg_size(data) {
        None => res matches Err(FrameError::Decode(_)),
        Some((width, height)) => {
            let found = FrameSize { width, height };
            if found != configuration.size() {
                res == Err::<DecodedFrame, FrameError>(
                    FrameError::DimensionMismatch { expected: configuration.size(), found },
                )
            } else if too_large(width, height) {
                res matches Err(FrameError::Decode(text)) && text@ == "picture is too large"@
            } else {
                match res {
                    Ok(frame) => frame@.size == configuration.size() && frame@.pixels.len()
                        == configuration.size().rgba_len(),
                    Err(error) => error is Decode,
                }
            }
        },
    }
}

/// Decodes the bytes of one buffer, a motion-JPEG frame, into a frame of the
/// negotiated size. The header is read first: a stream of another size is a
/// `FrameError::DimensionMismatch` and is not decoded. A stream that the
/// decoder refuses, at its header or later, gives `FrameError::Decode` with
/// the decoder's words, and so does one of which the decoder hands out other
/// bytes than its header promised. Which streams the decoder takes, and what
/// it makes of one, is the decoder's matter; `Picture::assemble` and
/// `DecodedFrame::from_image` say what becomes of what it hands out.
pub fn decode_frame(data: &[u8], configuration: &CaptureConfiguration) -> (res: Result<
    DecodedFrame,
    FrameError,
>)
    ensures
        is_decoded(res, data@, *configuration),
{
    let read = match jpeg_header(data) {
        Ok(read) => read,
        Err(error) => {
            return Err(FrameError::Decode(error.to_string()));
        },
    };
    let header = read.header();
    let expected = FrameSize { width: configuration.width, height: configuration.height };
    let found = FrameSize { width: header.width, height: header.height };
    if found != expected {
        return Err(FrameError::DimensionMismatch { expected, found });
    }
    if is_too_large(header.width, header.height) {
        return Err(FrameError::Decode(String::from_str("picture is too large")));
    }
    let bytes = match decoded_bytes(read) {
        Ok(bytes) => bytes,
        Err(error) => {
            return Err(FrameError::Decode(error.to_string()));
        },
    };
    let picture = match Picture::assemble(header.layout, header.width, header.height, bytes) {
        Ok(picture) => picture,
        Err(error) => {
            return Err(error);
        },
    };
    let image = rgba8(picture).unwrap();
    DecodedFrame::from_image(image, configuration)
}

} // verus!
