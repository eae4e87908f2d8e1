//! Reading frames out of a GIF byte stream.
//!
//! The container is parsed by the `gif` crate. What its decoder makes of a
//! byte stream takes the whole format to say, so this module only gives that
//! result a name, [`parsed`], and describes a decoder by the frames it has
//! still to hand out, [`pending`]. The statements below about the decoder's
//! methods are taken on trust from its source; nothing here proves them.

use gif::ColorOutput;
use gif::DecodeOptions;
use gif::Decoder;
use gif::DecodingError;
use gif::DisposalMethod;
use gif::Repeat;
use std::io::Cursor;
use vstd::prelude::*;

verus! {

/// `gif::DecodingError`, the decoder's account of why it failed. It is
/// carried to the caller as it is.
#[verifier::external_type_specification]
#[verifier::external_body]
pub struct ExDecodingError(DecodingError);

/// How often an animation repeats after its first play.
#[derive(Debug, Clone, Copy, PartialEq, Eq, Structural)]
pub enum RepeatPolicy {
    /// It repeats for ever.
    Infinite,
    /// It repeats this many times, and so plays once more than that.
    RepeatCount(u16),
}

/// What becomes of a frame's part of the screen before the next frame is
/// drawn.
#[derive(Debug, Clone, Copy, PartialEq, Eq, Structural)]
pub enum Disposal {
    /// The container does not say.
    Any,
    /// The frame stays.
    Keep,
    /// The frame's part of the screen is cleared.
    Background,
    /// The screen goes back to what it showed before the frame.
    Previous,
}

/// A frame as the container holds it: the part of the screen it covers, its
/// delay in hundredths of a second, what becomes of it afterwards, and its
/// pixels as decoded, four bytes each, row by row.
#[derive(Debug)]
pub struct RawFrame {
    pub left: u16,
    pub top: u16,
    pub width: u16,
    pub height: u16,
    pub delay: u16,
    pub dispose: Disposal,
    pub buffer: Vec<u8>,
}

/// A raw frame as the contracts see it.
pub struct RawFrameView {
    pub left: u16,
    pub top: u16,
    pub width: u16,
    pub height: u16,
    pub delay: u16,
    pub dispose: Disposal,
    pub buffer: Seq<u8>,
}

impl View for RawFrame {
    type V = RawFrameView;

    open spec fn view(&self) -> RawFrameView {
        RawFrameView {
            left: self.left,
            top: self.top,
            width: self.width,
            height: self.height,
            delay: self.delay,
            dispose: self.dispose,
            buffer: self.buffer@,
        }
    }
}

/// What a decoder will yield from where it stands.
pub struct Stream {
    /// The width of the logical screen, read from the stream's head.
    pub width: u16,
    /// The height of the logical screen, read from the stream's head.
    pub height: u16,
    /// The frames it hands out before it reports the end or fails.
    pub frames: Seq<RawFrameView>,
    /// Whether it reports the end after those frames, rather than an error.
    pub ends: bool,
    /// The repeat policy it read from the stream's head.
    pub repeat: RepeatPolicy,
}

/// A decoder of the `gif` crate, set to RGBA output, over bytes in memory.
#[verifier::external_body]
pub struct FrameReader {
    inner: Decoder<Cursor<Vec<u8>>>,
}

/// What `DecodeOptions::read_info` makes of a byte stream when RGBA output
/// is asked for: nothing where it rejects the stream's head, else what the
/// decoder it returns will yield.
pub uninterp spec fn parsed(bytes: Seq<u8>) -> Option<Stream>;

/// What a decoder has still to yield.
pub uninterp spec fn pending(reader: FrameReader) -> Stream;

/// `DecodeOptions::read_info` with RGBA output, on `bytes`: it succeeds where
/// [`parsed`] is something, and the decoder then has exactly that to yield.
#[verifier::external_body]
pub(crate) fn open_stream(bytes: Vec<u8>) -> (r: Result<FrameReader, DecodingError>)
    ensures
        match r {
            Ok(reader) => parsed(bytes@) == Some(pending(reader)),
            Err(_) => parsed(bytes@) is None,
        },
{
    let mut options = DecodeOptions::new();
    options.set_color_output(ColorOutput::RGBA);
    match options.read_info(Cursor::new(bytes)) {
        Ok(inner) => Ok(FrameReader { inner }),
        Err(e) => Err(e),
    }
}

/// `Decoder::read_next_frame`: while frames are pending it hands out the
/// first of them and the others stay pending; after the last it reports the
/// end, again and again, or fails, as [`Stream::ends`] says. The screen's
/// size and the repeat policy are not touched.
#[verifier::external_body]
pub(crate) fn next_raw_frame(reader: &mut FrameReader) -> (r: Result<
    Option<RawFrame>,
    DecodingError,
>)
    ensures
        match r {
            Ok(Some(frame)) => {
                &&& pending(*old(reader)).frames.len() > 0
                &&& frame@ == pending(*old(reader)).frames[0]
                &&& pending(*final(reader)) == (Stream {
                    frames: pending(*old(reader)).frames.drop_first(),
                    ..pending(*old(reader))
                })
            },
            Ok(None) => {
                &&& pending(*old(reader)).frames.len() == 0
                &&& pending(*old(reader)).ends
                &&& pending(*final(reader)) == pending(*old(reader))
            },
            Err(_) => {
                &&& pending(*old(reader)).frames.len() == 0
                &&& !pending(*old(reader)).ends
            },
        },
{
    let f = match reader.inner.read_next_frame() {
        Ok(Some(frame)) => frame,
        Ok(None) => return Ok(None),
        Err(e) => return Err(e),
    };
    let (left, top, width, height, delay) = (f.left, f.top, f.width, f.height, f.delay);
    let dispose = match f.dispose {
        DisposalMethod::Any => Disposal::Any,
        DisposalMethod::Keep => Disposal::Keep,
        DisposalMethod::Background => Disposal::Background,
        DisposalMethod::Previous => Disposal::Previous,
    };
    Ok(Some(RawFrame { left, top, width, height, delay, dispose, buffer: f.buffer.to_vec() }))
}

/// `DecodingError::from` an `std::io::Error` of the kind `InvalidData` that
/// holds `message`: an error of the decoder's own type, for a stream that
/// the decoder reads to its end and that is of no use all the same.
#[verifier::external_body]
pub(crate) fn invalid_data(message: &'static str) -> DecodingError {
    DecodingError::from(std::io::Error::new(std::io::ErrorKind::InvalidData, message))
}

/// `Decoder::width`: the width of the logical screen.
#[verifier::external_body]
pub(crate) fn screen_width(reader: &FrameReader) -> (width: u16)
    ensures
        width == pending(*reader).width,
{
    reader.inner.width()
}

/// `Decoder::height`: the height of the logical screen.
#[verifier::external_body]
pub(crate) fn screen_height(reader: &FrameReader) -> (height: u16)
    ensures
        height == pending(*reader).height,
{
    reader.inner.height()
}

/// `Decoder::repeat`: the repeat policy read from the stream's head.
#[verifier::external_body]
pub(crate) fn repeat_policy(reader: &FrameReader) -> (policy: RepeatPolicy)
    ensures
        policy == pending(*reader).repeat,
{
    match reader.inner.repeat() {
        Repeat::Infinite => RepeatPolicy::Infinite,
        Repeat::Finite(n) => RepeatPolicy::RepeatCount(n),
    }
}

} // verus!
