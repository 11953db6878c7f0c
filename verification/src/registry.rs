//! The handle registry: the only process-wide shared state of the bridge.
//!
//! A handle is a non-zero integer that packs a slot index and a generation
//! counter.  Releasing a handle bumps its slot's generation, so a released
//! handle can never again resolve, whatever is registered afterwards: slot
//! generations only grow, and a handle is only live while its generation
//! equals its slot's.

use vstd::prelude::*;
use crate::store::Store;

verus! {

/// Generations run from 1 up to (and excluding) this bound; the bound packs
/// a slot index into the high half of a handle.
pub const GEN_SPAN: u64 = 0x1_0000_0000;

/// One registry slot: its current generation and, while registered, the
/// store instance owned by the live handle.
pub(crate) struct Slot {
    pub(crate) gen: u64,
    pub(crate) store: Option<Store>,
}

/// The registry of live store instances, addressed by handle.
pub struct Registry {
    pub(crate) slots: Vec<Slot>,
}

impl Registry {
    /// The slot index packed into a handle.
    pub closed spec fn h_idx(h: u64) -> int {
        h as int / GEN_SPAN as int
    }

    /// The generation packed into a handle.
    pub closed spec fn h_gen(h: u64) -> int {
        h as int % GEN_SPAN as int
    }

    /// The number of slots the registry has ever used.
    pub closed spec fn slot_count(self) -> int {
        self.slots@.len() as int
    }

    /// Structural invariant: bounded slot count, and generations in range,
    /// with an occupied slot always able to mint its current handle.
    pub closed spec fn wf(self) -> bool {
        &&& self.slots@.len() <= GEN_SPAN
        &&& forall|i: int|
            0 <= i < self.slots@.len() ==> {
                &&& 1 <= #[trigger] self.slots@[i].gen <= GEN_SPAN
                &&& (self.slots@[i].store is Some ==> self.slots@[i].gen < GEN_SPAN)
            }
    }

    /// A handle is live when its slot is occupied at its own generation.
    pub closed spec fn live(self, h: u64) -> bool {
        &&& 0 <= Self::h_idx(h) < self.slots@.len()
        &&& self.slots@[Self::h_idx(h)].store is Some
        &&& self.slots@[Self::h_idx(h)].gen == Self::h_gen(h)
    }

    /// A handle is retired when its slot has moved past its generation; a
    /// retired handle can never become live again.
    pub closed spec fn retired(self, h: u64) -> bool {
        &&& 0 <= Self::h_idx(h) < self.slots@.len()
        &&& Self::h_gen(h) < self.slots@[Self::h_idx(h)].gen
    }

    /// Retirement is permanent exclusion: a retired handle is not live.
    pub proof fn lemma_retired_not_live(self, h: u64)
        ensures
            self.retired(h) ==> !self.live(h),
    {
    }

    /// A live handle is never the zero sentinel.
    pub proof fn lemma_live_nonzero(self, h: u64)
        requires
            self.wf(),
            self.live(h),
        ensures
            h != 0,
    {
        assert(h as int == Self::h_idx(h) * GEN_SPAN as int + Self::h_gen(h)) by {
            vstd::arithmetic::div_mod::lemma_fundamental_div_mod(h as int, GEN_SPAN as int);
        }
    }

    /// An empty registry, with no live handle.
    pub fn new() -> (r: Registry)
        ensures
            r.wf(),
            forall|h: u64| !r.live(h),
            forall|h: u64| !r.retired(h),
    {
        Registry { slots: Vec::new() }
    }

    /// Register a store instance, minting a fresh handle for it, or return
    /// the zero sentinel (registering nothing) if the registry is exhausted.
    pub fn register(&mut self, st: Store) -> (h: u64)
        requires
            old(self).wf(),
        ensures
            final(self).wf(),
            h != 0 ==> final(self).live(h) && !old(self).live(h) && !old(self).retired(h)
                && !final(self).retired(h),
            h == 0 ==> forall|h2: u64| final(self).live(h2) <==> old(self).live(h2),
            h == 0 ==> old(self).slot_count() == GEN_SPAN,
            forall|h2: u64| h2 != h ==> (final(self).live(h2) <==> old(self).live(h2)),
            forall|h2: u64| old(self).retired(h2) ==> final(self).retired(h2),
    {
        let n = self.slots.len();
        let mut i: usize = 0;
        while i < n
            invariant
                self == old(self),
                n == self.slots@.len(),
                0 <= i <= n,
                self.wf(),
            decreases n - i,
        {
            if self.slots[i].store.is_none() && self.slots[i].gen < GEN_SPAN {
                let g = self.slots[i].gen;
                let h: u64 = (i as u64) * GEN_SPAN + g;
                proof {
                    assert(Self::h_idx(h) == i && Self::h_gen(h) == g) by {
                        vstd::arithmetic::div_mod::lemma_fundamental_div_mod_converse(
                            h as int,
                            GEN_SPAN as int,
                            i as int,
                            g as int,
                        );
                    }
                }
                let slot = &mut self.slots[i];
                slot.store = Some(st);
                proof {
                    assert(forall|h2: u64|
                        h2 != h && Self::h_idx(h2) == i as int ==> Self::h_gen(h2) != g as int)
                        by {
                        assert forall|h2: u64|
                            Self::h_idx(h2) == i as int && Self::h_gen(h2) == g as int implies h2
                            == h by {
                            vstd::arithmetic::div_mod::lemma_fundamental_div_mod(
                                h2 as int,
                                GEN_SPAN as int,
                            );
                        }
                    }
                }
                return h;
            }
            i = i + 1;
        }
        if (n as u64) < GEN_SPAN {
            let h: u64 = (n as u64) * GEN_SPAN + 1;
            proof {
                assert(Self::h_idx(h) == n && Self::h_gen(h) == 1) by {
                    vstd::arithmetic::div_mod::lemma_fundamental_div_mod_converse(
                        h as int,
                        GEN_SPAN as int,
                        n as int,
                        1,
                    );
                }
            }
            self.slots.push(Slot { gen: 1, store: Some(st) });
            proof {
                assert(forall|h2: u64|
                    h2 != h && Self::h_idx(h2) == n as int ==> Self::h_gen(h2) != 1) by {
                    assert forall|h2: u64|
                        Self::h_idx(h2) == n as int && Self::h_gen(h2) == 1 implies h2 == h by {
                        vstd::arithmetic::div_mod::lemma_fundamental_div_mod(
                            h2 as int,
                            GEN_SPAN as int,
                        );
                    }
                }
            }
            return h;
        }
        0
    }

    /// The slot index behind a handle, when the handle is live.
    pub(crate) fn locate(&self, h: u64) -> (r: Option<usize>)
        requires
            self.wf(),
        ensures
            match r {
                Some(i) => self.live(h) && i as int == Self::h_idx(h) && i < self.slots@.len()
                    && self.slots@[i as int].store is Some,
                None => !self.live(h),
            },
    {
        let idx = h / GEN_SPAN;
        let g = h % GEN_SPAN;
        if (idx as usize) < self.slots.len() {
            let i = idx as usize;
            if self.slots[i].gen == g && self.slots[i].store.is_some() {
                Some(i)
            } else {
                None
            }
        } else {
            None
        }
    }

    /// Borrow the store held in an occupied slot.  The borrow can change the
    /// store's contents but never the slot structure, so handle liveness and
    /// retirement are untouched.
    pub(crate) fn borrow_store(&mut self, i: usize) -> (st: &mut Store)
        requires
            old(self).wf(),
            i < old(self).slots@.len(),
            old(self).slots@[i as int].store is Some,
        ensures
            final(self).wf(),
            forall|h2: u64| final(self).live(h2) <==> old(self).live(h2),
            forall|h2: u64| final(self).retired(h2) <==> old(self).retired(h2),
    {
        let slot = &mut self.slots[i];
        match &mut slot.store {
            Some(st) => st,
            None => vstd::pervasive::unreached(),
        }
    }

    /// Release a handle, retiring it for ever; the store it owned is handed
    /// back.  Releasing an unknown or already-released handle is a no-op.
    pub fn release(&mut self, h: u64) -> (r: Option<Store>)
        requires
            old(self).wf(),
        ensures
            final(self).wf(),
            r is Some <==> old(self).live(h),
            old(self).live(h) ==> final(self).retired(h),
            !old(self).live(h) ==> *final(self) == *old(self),
            !final(self).live(h),
            forall|h2: u64| h2 != h ==> (final(self).live(h2) <==> old(self).live(h2)),
            forall|h2: u64| old(self).retired(h2) ==> final(self).retired(h2),
    {
        match self.locate(h) {
            None => None,
            Some(i) => {
                let slot = &mut self.slots[i];
                let st = slot.store.take();
                slot.gen = slot.gen + 1;
                proof {
                    assert(forall|h2: u64|
                        h2 != h && Self::h_idx(h2) == i as int ==> Self::h_gen(h2) != Self::h_gen(
                            h,
                        )) by {
                        assert forall|h2: u64|
                            Self::h_idx(h2) == Self::h_idx(h) && Self::h_gen(h2) == Self::h_gen(
                                h,
                            ) implies h2 == h by {
                            vstd::arithmetic::div_mod::lemma_fundamental_div_mod(
                                h2 as int,
                                GEN_SPAN as int,
                            );
                            vstd::arithmetic::div_mod::lemma_fundamental_div_mod(
                                h as int,
                                GEN_SPAN as int,
                            );
                        }
                    }
                }
                st
            },
        }
    }
}

} // verus!
