//! Handles: who owns which generator.
//!
//! A registry issues a handle for every generator it creates and gives the
//! generator up when the handle is disposed. Handles are never issued twice,
//! so a disposed handle stays dead for the rest of the registry's life. Every
//! operation on a handle asks, as a precondition, that the handle be live:
//! the caller's side of the ownership discipline is proved where the call is
//! verified and costs nothing when it runs. Unverified callers ask
//! [`Registry::is_live`] first.

use vstd::prelude::*;
use crate::generator::NoiseGenerator;
use crate::variant::NoiseType;

verus! {

/// The generators that are alive, each under the handle that denotes it.
pub struct Registry {
    slots: Vec<Option<NoiseGenerator>>,
}

impl View for Registry {
    type V = Map<usize, NoiseGenerator>;

    /// The live handles and the generator each one owns.
    closed spec fn view(&self) -> Map<usize, NoiseGenerator> {
        Map::new(
            |h: usize| h < self.slots@.len() && self.slots@[h as int] is Some,
            |h: usize| self.slots@[h as int]->Some_0,
        )
    }
}

impl Registry {
    /// How many handles have been issued so far, disposed ones counted.
    pub closed spec fn issued(&self) -> nat {
        self.slots@.len()
    }

    /// Whether `handle` denotes a generator that has not been disposed.
    pub open spec fn live(&self, handle: usize) -> bool {
        self@.contains_key(handle)
    }

    /// A live handle is one of those issued so far.
    pub proof fn lemma_live_was_issued(&self, handle: usize)
        requires
            self.live(handle),
        ensures
            handle < self.issued(),
    {
    }

    /// A registry that has issued no handle.
    pub fn new() -> (reg: Registry)
        ensures
            reg@ == Map::<usize, NoiseGenerator>::empty(),
            reg.issued() == 0,
    {
        let reg = Registry { slots: Vec::new() };
        assert(reg@ =~= Map::<usize, NoiseGenerator>::empty());
        reg
    }

    /// Reports whether `handle` is live.
    pub fn is_live(&self, handle: usize) -> (b: bool)
        ensures
            b == self.live(handle),
    {
        handle < self.slots.len() && self.slots[handle].is_some()
    }

    /// The number of handles issued so far.
    pub fn issued_count(&self) -> (n: usize)
        ensures
            n == self.issued(),
    {
        self.slots.len()
    }

    /// Lends the generator that `handle` owns. Nothing changes.
    pub fn get(&self, handle: usize) -> (g: &NoiseGenerator)
        requires
            self.live(handle),
        ensures
            *g == self@[handle],
    {
        self.slots[handle].as_ref().unwrap()
    }

    /// Puts `g` in the place of the generator that `handle` owns.
    fn store(&mut self, handle: usize, g: NoiseGenerator)
        requires
            old(self).live(handle),
        ensures
            final(self)@ == old(self)@.insert(handle, g),
            final(self).issued() == old(self).issued(),
    {
        self.slots.set(handle, Some(g));
        assert(self@ =~= old(self)@.insert(handle, g));
    }
}

/// Creates the generator that `noise_type` names and issues a handle for it.
/// The handle is new: it was never live before. Every other handle keeps its
/// generator.
pub fn generator_new(reg: &mut Registry, noise_type: u8) -> (handle: usize)
    requires
        NoiseType::valid_selector(noise_type),
    ensures
        handle == old(reg).issued(),
        !old(reg).live(handle),
        final(reg)@ == old(reg)@.insert(handle, NoiseGenerator::initial(noise_type)),
        final(reg).live(handle),
        final(reg).issued() == old(reg).issued() + 1,
{
    let noise = NoiseGenerator::new(noise_type);
    let handle: usize = reg.slots.len();
    reg.slots.push(Some(noise));
    assert(reg@ =~= old(reg)@.insert(handle, NoiseGenerator::initial(noise_type)));
    handle
}

/// Disposes `handle`: it is live no more, and never will be again. Every
/// other handle keeps its generator.
pub fn generator_dispose(reg: &mut Registry, handle: usize)
    requires
        old(reg).live(handle),
    ensures
        final(reg)@ == old(reg)@.remove(handle),
        !final(reg).live(handle),
        final(reg).issued() == old(reg).issued(),
{
    reg.slots.set(handle, None);
    assert(reg@ =~= old(reg)@.remove(handle));
}

/// Replaces the frequency of the generator that `handle` owns. The handle
/// stays live, and nothing else changes.
pub fn generator_set_frequency(reg: &mut Registry, handle: usize, frequency: u64)
    requires
        old(reg).live(handle),
    ensures
        final(reg)@ == old(reg)@.insert(
            handle,
            old(reg)@[handle].with_params(old(reg)@[handle].params().with_frequency(frequency)),
        ),
        final(reg).live(handle),
        final(reg).issued() == old(reg).issued(),
{
    let mut noise = *reg.get(handle);
    noise.set_frequency(frequency);
    reg.store(handle, noise);
}

/// Replaces the octave count of the generator that `handle` owns. The handle
/// stays live, and nothing else changes.
pub fn generator_set_octaves(reg: &mut Registry, handle: usize, octaves: u32)
    requires
        old(reg).live(handle),
    ensures
        final(reg)@ == old(reg)@.insert(
            handle,
            old(reg)@[handle].with_params(
                old(reg)@[handle].params().with_octaves(octaves as usize),
            ),
        ),
        final(reg)@[handle].params().octaves == octaves,
        final(reg).live(handle),
        final(reg).issued() == old(reg).issued(),
{
    let mut noise = *reg.get(handle);
    noise.set_octaves(octaves as usize);
    reg.store(handle, noise);
}

/// Replaces the lacunarity of the generator that `handle` owns. The handle
/// stays live, and nothing else changes.
pub fn generator_set_lacunarity(reg: &mut Registry, handle: usize, lacunarity: u64)
    requires
        old(reg).live(handle),
    ensures
        final(reg)@ == old(reg)@.insert(
            handle,
            old(reg)@[handle].with_params(
                old(reg)@[handle].params().with_lacunarity(lacunarity),
            ),
        ),
        final(reg).live(handle),
        final(reg).issued() == old(reg).issued(),
{
    let mut noise = *reg.get(handle);
    noise.set_lacunarity(lacunarity);
    reg.store(handle, noise);
}

/// Replaces the persistence of the generator that `handle` owns. The handle
/// stays live, and nothing else changes.
pub fn generator_set_persistence(reg: &mut Registry, handle: usize, persistence: u64)
    requires
        old(reg).live(handle),
    ensures
        final(reg)@ == old(reg)@.insert(
            handle,
            old(reg)@[handle].with_params(
                old(reg)@[handle].params().with_persistence(persistence),
            ),
        ),
        final(reg).live(handle),
        final(reg).issued() == old(reg).issued(),
{
    let mut noise = *reg.get(handle);
    noise.set_persistence(persistence);
    reg.store(handle, noise);
}

/// Replaces the period along x of the generator that `handle` owns. The
/// handle stays live, and nothing else changes.
pub fn generator_set_period_x(reg: &mut Registry, handle: usize, period_x: u64)
    requires
        old(reg).live(handle),
    ensures
        final(reg)@ == old(reg)@.insert(
            handle,
            (NoiseGenerator { period_x, ..old(reg)@[handle] }),
        ),
        final(reg).live(handle),
        final(reg).issued() == old(reg).issued(),
{
    let mut noise = *reg.get(handle);
    noise.set_period_x(period_x);
    reg.store(handle, noise);
}

/// Replaces the period along y of the generator that `handle` owns. The
/// handle stays live, and nothing else changes.
pub fn generator_set_period_y(reg: &mut Registry, handle: usize, period_y: u64)
    requires
        old(reg).live(handle),
    ensures
        final(reg)@ == old(reg)@.insert(
            handle,
            (NoiseGenerator { period_y, ..old(reg)@[handle] }),
        ),
        final(reg).live(handle),
        final(reg).issued() == old(reg).issued(),
{
    let mut noise = *reg.get(handle);
    noise.set_period_y(period_y);
    reg.store(handle, noise);
}

/// Replaces the seed of the generator that `handle` owns. The handle stays
/// live, and nothing else changes.
pub fn generator_set_seed(reg: &mut Registry, handle: usize, seed: u32)
    requires
        old(reg).live(handle),
    ensures
        final(reg)@ == old(reg)@.insert(
            handle,
            old(reg)@[handle].with_params(old(reg)@[handle].params().with_seed(seed)),
        ),
        final(reg).live(handle),
        final(reg).issued() == old(reg).issued(),
{
    let mut noise = *reg.get(handle);
    noise.set_seed(seed);
    reg.store(handle, noise);
}

} // verus!
