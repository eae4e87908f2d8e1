//! What happens to one instance on a tick of the host.
//!
//! The host runs three steps in turn on every tick. The first sets up the
//! instances whose animation has been decoded: it registers an image for
//! every frame, unless that has been done, and puts at the start of the
//! animation every instance that has no player yet or whose store had no
//! images so far. The second lets time pass for every player and shows the
//! frame it has moved to. The third removes the instances whose animation
//! has completed; it is in [`crate::instance`]. The steps here take one
//! instance each; the host goes through its instances and hands in what
//! belongs to each.

use crate::asset::populates;
use crate::asset::GifAsset;
use crate::asset::GifFrame;
use crate::player::reported;
use crate::player::started;
use crate::player::step;
use crate::player::GifPlayer;
use crate::player::Tick;
use vstd::pervasive::cloned;
use vstd::prelude::*;

verus! {

/// The places where an instance shows its frame. Each is either absent or
/// holds the image that it shows.
#[derive(Debug)]
pub struct RenderTargets<H> {
    /// The image of a sprite.
    pub sprite: Option<H>,
    /// The image of a node of the user interface.
    pub ui_image: Option<H>,
    /// The texture of a mesh's material.
    pub material: Option<H>,
}

/// Whether `after` is the target `before` once it shows `image`: an absent
/// target stays absent, a present one holds a copy of the image.
pub open spec fn shows<H: Clone>(before: Option<H>, after: Option<H>, image: H) -> bool {
    match before {
        None => after is None,
        Some(_) => after matches Some(held) && cloned(image, held),
    }
}

impl<H: Clone> RenderTargets<H> {
    /// Shows `image` on every target that is present: all of them get a
    /// copy of the same image, however many there are.
    pub fn apply_frame(&mut self, image: &H)
        ensures
            shows(old(self).sprite, final(self).sprite, *image),
            shows(old(self).ui_image, final(self).ui_image, *image),
            shows(old(self).material, final(self).material, *image),
    {
        if self.sprite.is_some() {
            self.sprite = Some(image.clone());
        }
        if self.ui_image.is_some() {
            self.ui_image = Some(image.clone());
        }
        if self.material.is_some() {
            self.material = Some(image.clone());
        }
    }
}

/// Sets up an instance whose animation has been decoded.
///
/// The store is populated by `register`, unless it holds images already. An
/// instance on a store that held no images so far is started, whether it
/// has a player or not, and so is an instance without a player on any store:
/// it gets a player at the start of the animation, and the result is `true`.
/// The first image is then to be shown. An instance that has a player on a
/// store that held its images already keeps the player as it is.
///
/// An animation without frames cannot be set up: the caller sees to it that
/// there is a frame.
pub fn initialize_gif<H, F: Fn(&GifFrame) -> H>(
    asset: &mut GifAsset<H>,
    player: &mut Option<GifPlayer>,
    register: F,
) -> (begun: bool)
    requires
        old(asset).frames@.len() > 0,
        old(asset).handles@.len() == 0 ==> forall|i: int|
            0 <= i < old(asset).frames@.len() ==> call_requires(
                register,
                (&#[trigger] old(asset).frames@[i],),
            ),
    ensures
        populates(register, *old(asset), *final(asset)),
        begun == (*old(player) is None || old(asset).handles@.len() == 0),
        begun ==> (*final(player) matches Some(p) && p@ == started(
            old(asset).durations()[0],
            old(asset).times,
        )),
        !begun ==> *final(player) == *old(player),
{
    let populated = asset.is_populated();
    asset.populate(register);
    if populated && player.is_some() {
        return false;
    }
    let mut fresh = GifPlayer::default();
    fresh.start(asset);
    *player = Some(fresh);
    true
}

/// Lets `delta_ns` nanoseconds pass for an instance.
///
/// The player takes its step. Where it has moved to another frame, the
/// result is that frame's image, to be shown on every target of the
/// instance, and whether the animation has completed with this step.
pub fn animate_gif<'a, H>(asset: &'a GifAsset<H>, player: &mut GifPlayer, delta_ns: u64) -> (shown:
    Option<(&'a H, bool)>)
    requires
        asset.frames@.len() > 0,
        asset.handles@.len() == asset.frames@.len(),
    ensures
        final(player)@ == step(old(player)@, asset.durations(), delta_ns as nat),
        match reported(old(player)@, asset.durations().len(), delta_ns as nat) {
            Tick::Waiting => shown is None,
            Tick::Advanced(frame) => shown == Some((&asset.handles@[frame as int], false)),
            Tick::Completed(frame) => shown == Some((&asset.handles@[frame as int], true)),
        },
{
    match player.tick(asset, delta_ns) {
        Tick::Waiting => None,
        Tick::Advanced(frame) => Some((asset.handle_at(frame), false)),
        Tick::Completed(frame) => Some((asset.handle_at(frame), true)),
    }
}

} // verus!
