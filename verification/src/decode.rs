//! From the bytes of a GIF file to its frames.
//!
//! Every frame of the stream becomes a complete RGBA image of the size of
//! the screen, with a display time: the frame as the file holds it is laid
//! over what the frames before it left on the screen, so that each image
//! can be shown without any other. A frame whose pixel buffer is not four
//! bytes for each pixel stops the decoding: nothing is cut or filled up. So
//! does a stream that the container format rejects, one that holds no frame
//! at all, and one whose screen this machine cannot address. Only a stream
//! that is read to its end gives a result, and that result has a frame to
//! show.

use crate::asset::frame_views;
use crate::asset::FrameView;
use crate::asset::GifFrame;
use crate::canvas::blank;
use crate::canvas::blank_canvas;
use crate::canvas::canvas_len;
use crate::canvas::compose_frame;
use crate::canvas::drawn;
use crate::canvas::expected_len;
use crate::canvas::lemma_lengths_fit;
use crate::canvas::next_canvas;
use crate::canvas::settled;
use crate::canvas::sized;
use crate::stream::invalid_data;
use crate::stream::next_raw_frame;
use crate::stream::open_stream;
use crate::stream::parsed;
use crate::stream::pending;
use crate::stream::repeat_policy;
use crate::stream::screen_height;
use crate::stream::screen_width;
use crate::stream::RawFrame;
use crate::stream::RawFrameView;
use crate::stream::RepeatPolicy;
use crate::stream::Stream;
use gif::DecodingError;
use vstd::prelude::*;

verus! {

/// `std::io::Error`, carried as it is.
#[verifier::external_type_specification]
#[verifier::external_body]
pub struct ExIoError(std::io::Error);

/// Why no frames came out of a byte source.
#[derive(Debug)]
pub enum GifLoaderError {
    /// The bytes could not be read from their source.
    Io(std::io::Error),
    /// The container format rejects the stream, the stream holds no frame,
    /// or its screen is larger than this machine can address.
    Decode(DecodingError),
    /// A frame's pixel buffer has the first length where its size asks for
    /// the second.
    SizeMismatch(usize, u64),
}

/// The frames of a GIF file, in order, and its repeat policy. What
/// [`decode`] returns has one frame at least.
#[derive(Debug)]
pub struct DecodedGif {
    pub frames: Vec<GifFrame>,
    pub repeat: RepeatPolicy,
}

/// The display time, in milliseconds, of a frame with a delay of `delay`
/// hundredths of a second: ten times the delay, and 1 ms where the delay is
/// zero.
pub open spec fn duration_of(delay: u16) -> nat {
    if delay == 0 {
        1
    } else {
        delay as nat * 10
    }
}

/// The frame that a well sized raw frame becomes on a screen of this width
/// and height that shows `canvas`: the whole screen with the raw frame laid
/// over it.
pub open spec fn frame_on(
    canvas: Seq<u8>,
    width: u16,
    height: u16,
    raw: RawFrameView,
) -> FrameView {
    FrameView {
        width: width as u32,
        height: height as u32,
        rgba: drawn(canvas, width, raw),
        duration_ms: duration_of(raw.delay) as u64,
    }
}

/// The screen on which frame `i` of the stream is drawn: nothing for the
/// first, and for every other what its predecessor left.
pub open spec fn canvas_before(stream: Stream, i: nat) -> Seq<u8>
    decreases i,
{
    if i == 0 {
        blank(canvas_len(stream.width, stream.height))
    } else {
        let raw = stream.frames[i - 1];
        let before = canvas_before(stream, (i - 1) as nat);
        settled(before, drawn(before, stream.width, raw), stream.width, raw)
    }
}

/// The frames that the stream's frames become, each on the screen as its
/// predecessors left it.
pub open spec fn frames_of(stream: Stream) -> Seq<FrameView> {
    Seq::new(
        stream.frames.len(),
        |i: int|
            frame_on(
                canvas_before(stream, i as nat),
                stream.width,
                stream.height,
                stream.frames[i],
            ),
    )
}

/// Whether this machine can address the bytes of the stream's screen.
pub open spec fn fits(stream: Stream) -> bool {
    canvas_len(stream.width, stream.height) <= usize::MAX
}

/// Whether the frame at `i` is the first whose buffer has the wrong length.
pub open spec fn first_missized(frames: Seq<RawFrameView>, i: int) -> bool {
    &&& 0 <= i < frames.len()
    &&& !sized(frames[i])
    &&& forall|j: int| 0 <= j < i ==> sized(#[trigger] frames[j])
}

/// Whether every frame's buffer has the length its size asks for.
pub open spec fn all_sized(frames: Seq<RawFrameView>) -> bool {
    forall|j: int| 0 <= j < frames.len() ==> sized(#[trigger] frames[j])
}

/// Whether `r` is what decoding makes of a stream that yields `stream`.
///
/// A screen that cannot be addressed gives `Decode`. Else the first frame
/// with a wrong buffer length gives `SizeMismatch` with the two lengths.
/// Where there is none, a stream that fails or has no frame gives `Decode`,
/// and one that ends gives all its frames, each laid over the screen, and
/// its repeat policy.
pub open spec fn outcome_of(stream: Stream, r: Result<DecodedGif, GifLoaderError>) -> bool {
    match r {
        Ok(gif) => {
            &&& fits(stream)
            &&& all_sized(stream.frames)
            &&& stream.ends
            &&& stream.frames.len() > 0
            &&& frame_views(gif.frames@) == frames_of(stream)
            &&& gif.repeat == stream.repeat
        },
        Err(GifLoaderError::SizeMismatch(actual, expected)) => fits(stream) && exists|i: int|
            {
                &&& #[trigger] first_missized(stream.frames, i)
                &&& actual == stream.frames[i].buffer.len()
                &&& expected == expected_len(stream.frames[i])
            },
        Err(GifLoaderError::Decode(_)) => !fits(stream) || (all_sized(stream.frames) && (
        !stream.ends || stream.frames.len() == 0)),
        Err(GifLoaderError::Io(_)) => false,
    }
}

/// Whether `r` is what decoding makes of `bytes`: `Decode` where the
/// stream's head is rejected, else as [`outcome_of`] says.
pub open spec fn decodes_to(bytes: Seq<u8>, r: Result<DecodedGif, GifLoaderError>) -> bool {
    match parsed(bytes) {
        None => r matches Err(GifLoaderError::Decode(_)),
        Some(stream) => outcome_of(stream, r),
    }
}

/// The display time in milliseconds for a delay in hundredths of a second.
pub fn frame_duration_ms(delay: u16) -> (ms: u64)
    ensures
        ms == duration_of(delay),
        ms >= 1,
{
    let ms: u64 = (delay as u64) * 10;
    if ms == 0 {
        1
    } else {
        ms
    }
}

/// Turns a raw frame into a frame on a screen of this width and height that
/// shows `canvas`, or refuses it for its buffer's length.
pub fn frame_from_raw(canvas: &Vec<u8>, width: u16, height: u16, raw: &RawFrame) -> (r: Result<
    GifFrame,
    GifLoaderError,
>)
    requires
        canvas@.len() == canvas_len(width, height),
    ensures
        match r {
            Ok(frame) => sized(raw@) && frame@ == frame_on(canvas@, width, height, raw@)
                && frame.wf(),
            Err(e) => !sized(raw@) && e == GifLoaderError::SizeMismatch(
                raw.buffer.len(),
                expected_len(raw@) as u64,
            ),
        },
{
    proof {
        lemma_lengths_fit(raw.width, raw.height);
    }
    let expected: u64 = (raw.width as u64) * (raw.height as u64) * 4;
    if raw.buffer.len() as u64 != expected {
        return Err(GifLoaderError::SizeMismatch(raw.buffer.len(), expected));
    }
    Ok(
        GifFrame {
            width: width as u32,
            height: height as u32,
            rgba: compose_frame(canvas, width, height, raw),
            duration_ms: frame_duration_ms(raw.delay),
        },
    )
}

/// Decodes the bytes of a GIF file into its frames and its repeat policy.
///
/// The result depends on the bytes alone: it is the one that [`decodes_to`]
/// describes. There is a frame in it, and every frame is well formed.
pub fn decode(bytes: Vec<u8>) -> (r: Result<DecodedGif, GifLoaderError>)
    ensures
        decodes_to(bytes@, r),
        r matches Ok(gif) ==> gif.frames@.len() > 0 && forall|i: int|
            0 <= i < gif.frames@.len() ==> (#[trigger] gif.frames@[i]).wf(),
{
    let mut reader = match open_stream(bytes) {
        Ok(reader) => reader,
        Err(e) => {
            return Err(GifLoaderError::Decode(e));
        },
    };
    let ghost stream = pending(reader);
    let width = screen_width(&reader);
    let height = screen_height(&reader);
    let mut canvas = match blank_canvas(width, height) {
        Some(canvas) => canvas,
        None => {
            return Err(GifLoaderError::Decode(invalid_data("screen is too large")));
        },
    };
    let mut frames: Vec<GifFrame> = Vec::new();
    assert(stream.frames.skip(0) == stream.frames);
    loop
        invariant
            parsed(bytes@) == Some(stream),
            fits(stream),
            width == stream.width,
            height == stream.height,
            frames@.len() <= stream.frames.len(),
            canvas@ == canvas_before(stream, frames@.len() as nat),
            canvas@.len() == canvas_len(width, height),
            pending(reader) == (Stream {
                frames: stream.frames.skip(frames@.len() as int),
                ..stream
            }),
            forall|j: int| 0 <= j < frames@.len() ==> sized(#[trigger] stream.frames[j]),
            forall|j: int|
                0 <= j < frames@.len() ==> (#[trigger] frames@[j])@ == frame_on(
                    canvas_before(stream, j as nat),
                    width,
                    height,
                    stream.frames[j],
                ),
            forall|j: int| 0 <= j < frames@.len() ==> (#[trigger] frames@[j]).wf(),
        ensures
            frames@.len() == stream.frames.len(),
            stream.ends,
            pending(reader).repeat == stream.repeat,
        decreases stream.frames.len() - frames@.len(),
    {
        let ghost done = frames@.len() as int;
        match next_raw_frame(&mut reader) {
            Err(e) => {
                return Err(GifLoaderError::Decode(e));
            },
            Ok(None) => {
                break ;
            },
            Ok(Some(raw)) => {
                assert(raw@ == stream.frames[done]);
                assert(stream.frames.skip(done).drop_first() == stream.frames.skip(done + 1));
                match frame_from_raw(&canvas, width, height, &raw) {
                    Err(e) => {
                        proof {
                            lemma_lengths_fit(raw.width, raw.height);
                        }
                        assert(first_missized(stream.frames, done));
                        return Err(e);
                    },
                    Ok(frame) => {
                        canvas = next_canvas(canvas, &frame.rgba, width, height, &raw);
                        frames.push(frame);
                    },
                }
            },
        }
    }
    if frames.len() == 0 {
        return Err(GifLoaderError::Decode(invalid_data("file does not contain any image data")));
    }
    let repeat = repeat_policy(&reader);
    assert(frame_views(frames@) == frames_of(stream));
    Ok(DecodedGif { frames, repeat })
}

/// Whether two results say the same: the same frames and policy, the same
/// mismatch, or both that the container format rejects the stream.
pub open spec fn agree(
    a: Result<DecodedGif, GifLoaderError>,
    b: Result<DecodedGif, GifLoaderError>,
) -> bool {
    match a {
        Ok(x) => b matches Ok(y) && frame_views(x.frames@) == frame_views(y.frames@) && x.repeat
            == y.repeat,
        Err(GifLoaderError::SizeMismatch(actual, expected)) => b == a,
        Err(GifLoaderError::Decode(_)) => b matches Err(GifLoaderError::Decode(_)),
        Err(GifLoaderError::Io(_)) => b matches Err(GifLoaderError::Io(_)),
    }
}

/// Decoding depends on the bytes alone: any two results for the same bytes
/// agree.
pub proof fn lemma_decode_deterministic(
    bytes: Seq<u8>,
    a: Result<DecodedGif, GifLoaderError>,
    b: Result<DecodedGif, GifLoaderError>,
)
    requires
        decodes_to(bytes, a),
        decodes_to(bytes, b),
    ensures
        agree(a, b),
{
}

} // verus!
