//! Decoded frames and the store that holds them with their registered images.

use crate::decode::DecodedGif;
use crate::stream::RepeatPolicy;
use vstd::prelude::*;

verus! {

/// One frame of an animation: a complete RGBA8 image, row by row, and the
/// time for which it is shown.
#[derive(Debug, Clone)]
pub struct GifFrame {
    pub width: u32,
    pub height: u32,
    pub rgba: Vec<u8>,
    /// Display time in milliseconds.
    pub duration_ms: u64,
}

/// A frame as the contracts see it.
pub struct FrameView {
    pub width: u32,
    pub height: u32,
    pub rgba: Seq<u8>,
    pub duration_ms: u64,
}

impl View for GifFrame {
    type V = FrameView;

    open spec fn view(&self) -> FrameView {
        FrameView {
            width: self.width,
            height: self.height,
            rgba: self.rgba@,
            duration_ms: self.duration_ms,
        }
    }
}

/// The frames of `frames` as the contracts see them.
pub open spec fn frame_views(frames: Seq<GifFrame>) -> Seq<FrameView> {
    Seq::new(frames.len(), |i: int| frames[i]@)
}

impl GifFrame {
    /// The pixel buffer holds four bytes for each pixel and the frame is
    /// shown for some time.
    pub open spec fn wf(&self) -> bool {
        &&& self.rgba@.len() == self.width as nat * self.height as nat * 4
        &&& self.duration_ms > 0
    }
}

/// The frames of one animation, the images registered for them, and how
/// often the animation repeats.
///
/// `times` counts repetitions after the first play: `Some(4)` plays five
/// times in all, `None` plays for ever. `handles` is empty until the store
/// has been populated and then holds one image for each frame, in order.
/// The store does not look into a handle: `H` is whatever the image store of
/// the host hands out.
#[derive(Debug, Clone)]
pub struct GifAsset<H> {
    pub frames: Vec<GifFrame>,
    pub handles: Vec<H>,
    pub times: Option<u16>,
}

/// The repetitions that a player has before it when it starts on an
/// animation with this policy: none to count for one that repeats for ever,
/// else the number the policy gives.
pub open spec fn loops_after_first(policy: RepeatPolicy) -> Option<u16> {
    match policy {
        RepeatPolicy::Infinite => None,
        RepeatPolicy::RepeatCount(n) => Some(n),
    }
}

/// The repetitions that follow the first play under `policy`.
pub fn remaining_loops(policy: RepeatPolicy) -> (times: Option<u16>)
    ensures
        times == loops_after_first(policy),
{
    match policy {
        RepeatPolicy::Infinite => None,
        RepeatPolicy::RepeatCount(n) => Some(n),
    }
}

/// Whether `after` is `before` once it has been populated by `register`.
///
/// A store that holds images already is left as it is. One that holds none
/// gets, for each frame and in the frames' order, an image that `register`
/// returned for that frame. Frames and repetitions stay.
pub open spec fn populates<H, F: Fn(&GifFrame) -> H>(
    register: F,
    before: GifAsset<H>,
    after: GifAsset<H>,
) -> bool {
    if before.handles@.len() != 0 {
        after == before
    } else {
        &&& after.frames == before.frames
        &&& after.times == before.times
        &&& after.handles@.len() == before.frames@.len()
        &&& forall|i: int|
            0 <= i < before.frames@.len() ==> call_ensures(
                register,
                (&before.frames@[i],),
                #[trigger] after.handles@[i],
            )
    }
}

impl<H> GifAsset<H> {
    /// The display time of each frame, in milliseconds.
    pub open spec fn durations(&self) -> Seq<nat> {
        Seq::new(self.frames@.len(), |i: int| self.frames@[i].duration_ms as nat)
    }

    /// A store for decoded frames, with no image registered yet.
    pub fn new(decoded: DecodedGif) -> (asset: Self)
        ensures
            asset.frames == decoded.frames,
            asset.handles@.len() == 0,
            asset.times == loops_after_first(decoded.repeat),
    {
        GifAsset {
            frames: decoded.frames,
            handles: Vec::new(),
            times: remaining_loops(decoded.repeat),
        }
    }

    /// Whether the store holds registered images.
    pub fn is_populated(&self) -> (b: bool)
        ensures
            b == (self.handles@.len() != 0),
    {
        self.handles.len() != 0
    }

    /// Registers an image for every frame, unless the store holds images
    /// already.
    ///
    /// `register` is called once for each frame, first to last, and what it
    /// returns is kept in that order. On a populated store it is not called
    /// at all.
    pub fn populate<F: Fn(&GifFrame) -> H>(&mut self, register: F)
        requires
            old(self).handles@.len() == 0 ==> forall|i: int|
                0 <= i < old(self).frames@.len() ==> call_requires(
                    register,
                    (&#[trigger] old(self).frames@[i],),
                ),
        ensures
            populates(register, *old(self), *final(self)),
    {
        if self.handles.len() != 0 {
            return ;
        }
        let mut i: usize = 0;
        while i < self.frames.len()
            invariant
                i <= self.frames@.len(),
                self.frames == old(self).frames,
                self.times == old(self).times,
                self.handles@.len() == i,
                forall|j: int|
                    0 <= j < self.frames@.len() ==> call_requires(
                        register,
                        (&#[trigger] self.frames@[j],),
                    ),
                forall|j: int|
                    0 <= j < i ==> call_ensures(
                        register,
                        (&self.frames@[j],),
                        #[trigger] self.handles@[j],
                    ),
            decreases self.frames@.len() - i,
        {
            let image = register(&self.frames[i]);
            self.handles.push(image);
            i += 1;
        }
    }

    /// The image registered for the frame at `index`.
    pub fn handle_at(&self, index: usize) -> (image: &H)
        requires
            index < self.handles@.len(),
        ensures
            *image == self.handles@[index as int],
    {
        &self.handles[index]
    }
}

/// Populating a store a second time changes nothing: the images are those
/// that the first time left.
pub proof fn lemma_populate_twice<H, F: Fn(&GifFrame) -> H>(
    register: F,
    before: GifAsset<H>,
    once: GifAsset<H>,
    twice: GifAsset<H>,
)
    requires
        populates(register, before, once),
        populates(register, once, twice),
    ensures
        twice.handles@ == once.handles@,
{
}

} // verus!
