//! Instances: the things in a scene that display an animation.
//!
//! An instance shows its animation on a sprite, on an image of the user
//! interface or on the material of a mesh, and names the animation by the
//! key of its store. An instance may ask to be removed when its animation
//! has completed. Completion is announced for an animation, not for an
//! instance: every instance that shows the animation and asked for removal
//! goes, and an announcement that finds none is no fault.

use vstd::prelude::*;

verus! {

/// The identity of a stored animation.
#[derive(Debug, Clone, Copy, PartialEq, Eq, Structural)]
pub enum AssetKey {
    /// A slot in the host's storage, with its generation.
    Index(u64),
    /// A fixed identifier.
    Uuid(u128),
}

/// Shows an animation on a sprite.
#[derive(Debug, Clone, Copy, PartialEq, Eq, Structural)]
pub struct Gif {
    pub handle: AssetKey,
}

/// Shows an animation on an image of the user interface.
#[derive(Debug, Clone, Copy, PartialEq, Eq, Structural)]
pub struct GifNode {
    pub handle: AssetKey,
}

/// Shows an animation on the material of a mesh.
#[derive(Debug, Clone, Copy, PartialEq, Eq, Structural)]
pub struct Gif3d {
    pub handle: AssetKey,
}

/// Asks for the instance to be removed when its animation has completed.
/// It has no effect on an animation that repeats for ever.
#[derive(Debug, Clone, Copy, PartialEq, Eq, Structural)]
pub struct GifDespawn;

/// An instance: its entity, the ways in which it shows an animation, and
/// whether it asked for removal.
#[derive(Debug, Clone, Copy, PartialEq, Eq, Structural)]
pub struct Instance {
    pub entity: u64,
    pub gif: Option<Gif>,
    pub node: Option<GifNode>,
    pub mesh: Option<Gif3d>,
    pub despawn: Option<GifDespawn>,
}

/// Whether at least one way of showing an animation is present.
pub open spec fn has_role(gif: Option<Gif>, node: Option<GifNode>, mesh: Option<Gif3d>) -> bool {
    gif is Some || node is Some || mesh is Some
}

/// The animation that an instance is bound to: that of its sprite if it has
/// one, else that of its interface image, else that of its mesh.
pub open spec fn bound_to(gif: Option<Gif>, node: Option<GifNode>, mesh: Option<Gif3d>) -> AssetKey
    recommends
        has_role(gif, node, mesh),
{
    match gif {
        Some(g) => g.handle,
        None => match node {
            Some(n) => n.handle,
            None => mesh->Some_0.handle,
        },
    }
}

/// The animation that an instance is bound to. An instance with no way of
/// showing one is a mistake of the caller's.
pub fn bound_asset(gif: Option<Gif>, node: Option<GifNode>, mesh: Option<Gif3d>) -> (key: AssetKey)
    requires
        has_role(gif, node, mesh),
    ensures
        key == bound_to(gif, node, mesh),
{
    match gif {
        Some(g) => g.handle,
        None => match node {
            Some(n) => n.handle,
            None => match mesh {
                Some(m) => m.handle,
                None => vstd::pervasive::unreached(),
            },
        },
    }
}

impl Instance {
    /// An instance that asked for removal shows an animation in one way at
    /// least.
    pub open spec fn wf(&self) -> bool {
        self.despawn is Some ==> has_role(self.gif, self.node, self.mesh)
    }

    /// Whether the completion of `signal` removes this instance: it asked
    /// for removal and is bound to that animation.
    pub open spec fn doomed(&self, signal: AssetKey) -> bool {
        self.despawn is Some && bound_to(self.gif, self.node, self.mesh) == signal
    }
}

/// The instances of `all` that the completion of `signal` leaves, in order.
pub open spec fn survivors(all: Seq<Instance>, signal: AssetKey) -> Seq<Instance>
    decreases all.len(),
{
    if all.len() == 0 {
        all
    } else if all.last().doomed(signal) {
        survivors(all.drop_last(), signal)
    } else {
        survivors(all.drop_last(), signal).push(all.last())
    }
}

/// The entities of the instances of `all` that the completion of `signal`
/// removes, in order.
pub open spec fn casualties(all: Seq<Instance>, signal: AssetKey) -> Seq<u64>
    decreases all.len(),
{
    if all.len() == 0 {
        Seq::empty()
    } else if all.last().doomed(signal) {
        casualties(all.drop_last(), signal).push(all.last().entity)
    } else {
        casualties(all.drop_last(), signal)
    }
}

/// Removes from `instances` those that asked for removal and are bound to
/// the completed animation `signal`, and returns their entities. The others
/// stay, in order.
pub fn despawn_gifs(signal: AssetKey, instances: &mut Vec<Instance>) -> (gone: Vec<u64>)
    requires
        forall|i: int| 0 <= i < old(instances)@.len() ==> (#[trigger] old(instances)@[i]).wf(),
    ensures
        final(instances)@ == survivors(old(instances)@, signal),
        gone@ == casualties(old(instances)@, signal),
{
    let mut kept: Vec<Instance> = Vec::new();
    let mut gone: Vec<u64> = Vec::new();
    let mut i: usize = 0;
    while i < instances.len()
        invariant
            i <= instances@.len(),
            instances@ == old(instances)@,
            forall|j: int| 0 <= j < instances@.len() ==> (#[trigger] instances@[j]).wf(),
            kept@ == survivors(instances@.take(i as int), signal),
            gone@ == casualties(instances@.take(i as int), signal),
        decreases instances@.len() - i,
    {
        let instance = instances[i];
        assert(instances@.take(i + 1).drop_last() == instances@.take(i as int));
        if instance.despawn.is_some() && bound_asset(instance.gif, instance.node, instance.mesh)
            == signal {
            gone.push(instance.entity);
        } else {
            kept.push(instance);
        }
        i += 1;
    }
    assert(instances@.take(i as int) == instances@);
    *instances = kept;
    gone
}

/// No survivor of a completion is one that the completion removes.
pub proof fn lemma_survivors_are_spared(all: Seq<Instance>, signal: AssetKey)
    ensures
        forall|i: int|
            0 <= i < survivors(all, signal).len() ==> !(#[trigger] survivors(
                all,
                signal,
            )[i]).doomed(signal),
    decreases all.len(),
{
    if all.len() > 0 {
        let before = survivors(all.drop_last(), signal);
        let now = survivors(all, signal);
        lemma_survivors_are_spared(all.drop_last(), signal);
        assert forall|i: int| 0 <= i < now.len() implies !(#[trigger] now[i]).doomed(signal) by {
            if i < before.len() {
                assert(now[i] == before[i]);
            }
        }
    }
}

/// Where the completion removes no instance, all stay.
pub proof fn lemma_nothing_to_remove(all: Seq<Instance>, signal: AssetKey)
    requires
        forall|i: int| 0 <= i < all.len() ==> !(#[trigger] all[i]).doomed(signal),
    ensures
        survivors(all, signal) == all,
        casualties(all, signal) == Seq::<u64>::empty(),
    decreases all.len(),
{
    if all.len() > 0 {
        lemma_nothing_to_remove(all.drop_last(), signal);
        assert(all.drop_last().push(all.last()) == all);
    }
}

/// A completion that is announced a second time does nothing: the instances
/// that the first left all stay, and none is removed.
pub proof fn lemma_second_signal_is_idle(all: Seq<Instance>, signal: AssetKey)
    ensures
        survivors(survivors(all, signal), signal) == survivors(all, signal),
        casualties(survivors(all, signal), signal) == Seq::<u64>::empty(),
{
    lemma_survivors_are_spared(all, signal);
    lemma_nothing_to_remove(survivors(all, signal), signal);
}

} // verus!
