//! Per-thread flag words that keep the observer from observing itself.
//!
//! Each thread owns one word of flag bits. A hook that takes a bit which was
//! clear may observe; a hook that finds it set is running inside another
//! observation and must stay silent.

use vstd::prelude::*;

verus! {

/// The bits of `mask` that are clear in `word`: what an acquisition newly takes.
pub open spec fn newly_taken(word: usize, mask: usize) -> usize {
    !word & mask
}

/// The word after the bits of `mask` were set.
pub open spec fn after_acquire(word: usize, mask: usize) -> usize {
    word | mask
}

/// The word after the bits of `mask` were cleared.
pub open spec fn after_release(word: usize, mask: usize) -> usize {
    word & !mask
}

/// The word with every bit set.
pub open spec fn full_mask() -> usize {
    !0usize
}

/// The flags of the detour engine.
#[derive(Debug, Clone, Copy, PartialEq, Eq, Structural)]
pub enum DetourFlag {
    /// Set while an allocation is being observed.
    Alloc,
    /// Set while a deallocation is being observed.
    Free,
    /// Every bit at once: while it is held, no detour on the thread is handled.
    Lock,
}

impl DetourFlag {
    /// The bits that the flag stands for.
    pub open spec fn spec_mask(self) -> usize {
        match self {
            DetourFlag::Alloc => 1,
            DetourFlag::Free => 2,
            DetourFlag::Lock => full_mask(),
        }
    }

    /// The bits that the flag stands for.
    #[verifier::when_used_as_spec(spec_mask)]
    pub fn mask(self) -> (m: usize)
        ensures
            m == self.spec_mask(),
            m != 0,
    {
        assert(!0usize != 0) by (bit_vector);
        match self {
            DetourFlag::Alloc => 1,
            DetourFlag::Free => 2,
            DetourFlag::Lock => !0usize,
        }
    }
}

/// One thread's flag word. A fresh thread starts with every bit clear.
pub struct TlsSlotAcquisition {
    word: usize,
}

impl TlsSlotAcquisition {
    /// The flag word as a plain value.
    pub closed spec fn value(&self) -> usize {
        self.word
    }

    /// The slot of a fresh thread.
    pub fn new() -> (slot: Self)
        ensures
            slot.value() == 0,
    {
        Self { word: 0 }
    }

    /// The slot of a thread whose flag word is `word`, as read from the
    /// thread's own storage.
    pub fn from_word(word: usize) -> (slot: Self)
        ensures
            slot.value() == word,
    {
        Self { word }
    }

    /// The current flag word.
    pub fn get(&self) -> (word: usize)
        ensures
            word == self.value(),
    {
        self.word
    }

    /// Sets the bits of `acquisition` and returns those among them that were
    /// clear before: the bits that the caller now owns.
    pub fn acquire(&mut self, acquisition: usize) -> (newly: usize)
        ensures
            newly == newly_taken(old(self).value(), acquisition),
            final(self).value() == after_acquire(old(self).value(), acquisition),
    {
        let val = self.get();
        self.word = val | acquisition;
        !val & acquisition
    }

    /// Clears the bits of `acquisition`.
    pub fn release(&mut self, acquisition: usize)
        ensures
            final(self).value() == after_release(old(self).value(), acquisition),
    {
        self.word = self.get() & !acquisition;
    }
}

/// Proof of ownership of flag bits. Handing it back to
/// [`DetourFlagSet::release`] clears exactly the bits it stands for;
/// [`AcquisitionGuard::forget`] gives it up and leaves them set for good.
pub struct AcquisitionGuard {
    acquisition: usize,
}

impl AcquisitionGuard {
    /// The owned bits. There is always at least one.
    pub closed spec fn bits(&self) -> usize {
        self.acquisition
    }

    /// The owned bits.
    pub fn acquisition(&self) -> (bits: usize)
        ensures
            bits == self.bits(),
    {
        self.acquisition
    }

    /// Gives the guard up without releasing: the bits stay set on the thread,
    /// which marks it as permanently non-observing.
    pub fn forget(self) {
    }
}

/// The flag set of one thread.
pub struct DetourFlagSet {
    tls_slot_acquisition: TlsSlotAcquisition,
}

impl DetourFlagSet {
    /// The thread's flag word.
    pub closed spec fn word(&self) -> usize {
        self.tls_slot_acquisition.value()
    }

    /// The flag set of a fresh thread: nothing is held.
    pub fn new() -> (set: Self)
        ensures
            set.word() == 0,
    {
        Self { tls_slot_acquisition: TlsSlotAcquisition::new() }
    }

    /// The flag set of a thread whose flag word is `word`.
    pub fn from_word(word: usize) -> (set: Self)
        ensures
            set.word() == word,
    {
        Self { tls_slot_acquisition: TlsSlotAcquisition::from_word(word) }
    }

    /// The thread's flag word, to be kept in the thread's own storage.
    pub fn get(&self) -> (word: usize)
        ensures
            word == self.word(),
    {
        self.tls_slot_acquisition.get()
    }

    /// Takes the bits of `flag`. Returns a guard for the bits that were clear,
    /// and `None` when every one of them was already set.
    pub fn acquire(&mut self, flag: DetourFlag) -> (guard: Option<AcquisitionGuard>)
        ensures
            final(self).word() == after_acquire(old(self).word(), flag.spec_mask()),
            guard is Some <==> newly_taken(old(self).word(), flag.spec_mask()) != 0,
            guard matches Some(g) ==> g.bits() == newly_taken(old(self).word(), flag.spec_mask()),
    {
        let mask = flag.mask();
        let acquisition = self.tls_slot_acquisition.acquire(mask);
        if acquisition != 0 {
            Some(AcquisitionGuard { acquisition })
        } else {
            None
        }
    }

    /// Takes every bit: the bootstrap of a thread that must not be observed.
    pub fn acquire_all(&mut self) -> (guard: Option<AcquisitionGuard>)
        ensures
            final(self).word() == full_mask(),
            guard is Some <==> old(self).word() != full_mask(),
            guard matches Some(g) ==> g.bits() == newly_taken(old(self).word(), full_mask()),
    {
        let ghost before = self.word();
        assert(before | !0usize == !0usize) by (bit_vector);
        assert((!before & !0usize) != 0 <==> before != !0usize) by (bit_vector);
        self.acquire(DetourFlag::Lock)
    }

    /// Marks the thread as one that is never observed: takes every bit and
    /// gives the guard up, so that nothing releases them. Says whether the
    /// thread was still free to be marked, as a fresh thread is.
    pub fn mark_non_observing(&mut self) -> (marked: bool)
        ensures
            final(self).word() == full_mask(),
            marked <==> old(self).word() != full_mask(),
    {
        match self.acquire_all() {
            Some(guard) => {
                guard.forget();
                true
            },
            None => false,
        }
    }

    /// Ends the acquisition that `guard` stands for.
    pub fn release(&mut self, guard: AcquisitionGuard)
        ensures
            final(self).word() == after_release(old(self).word(), guard.bits()),
    {
        self.tls_slot_acquisition.release(guard.acquisition);
    }

    /// Whether any bit of `flag` is set on this thread.
    pub fn is_acquired(&self, flag: DetourFlag) -> (held: bool)
        ensures
            held == (self.word() & flag.spec_mask() != 0),
    {
        self.tls_slot_acquisition.get() & flag.mask() != 0
    }
}

/// Releasing what an acquisition newly took restores the word that the
/// thread had before it: a scoped acquisition leaves no trace.
pub proof fn law_release_restores(word: usize, mask: usize)
    ensures
        after_release(after_acquire(word, mask), newly_taken(word, mask)) == word,
{
    assert((word | mask) & !(!word & mask) == word) by (bit_vector);
}

/// While an acquisition of `mask` is outstanding, a second one takes nothing:
/// a nested attempt finds every bit set.
pub proof fn law_nested_acquire_takes_nothing(word: usize, mask: usize)
    ensures
        newly_taken(after_acquire(word, mask), mask) == 0,
        after_acquire(after_acquire(word, mask), mask) == after_acquire(word, mask),
{
    assert(!(word | mask) & mask == 0) by (bit_vector);
    assert((word | mask) | mask == word | mask) by (bit_vector);
}

/// Once every bit is set and the guard forgotten, no flag can be acquired
/// on the thread again.
pub proof fn law_full_word_blocks(flag: DetourFlag)
    ensures
        newly_taken(full_mask(), flag.spec_mask()) == 0,
        after_acquire(full_mask(), flag.spec_mask()) == full_mask(),
{
    let mask = flag.spec_mask();
    assert(!(!0usize) & mask == 0) by (bit_vector);
    assert(!0usize | mask == !0usize) by (bit_vector);
}

/// On a thread that holds nothing, the first acquisition of a flag succeeds
/// and takes exactly the flag's bits.
pub proof fn law_first_acquire_takes_mask(flag: DetourFlag)
    ensures
        newly_taken(0, flag.spec_mask()) == flag.spec_mask(),
        newly_taken(0, flag.spec_mask()) != 0,
        after_acquire(0, flag.spec_mask()) == flag.spec_mask(),
{
    let mask = flag.spec_mask();
    assert(!0usize != 0) by (bit_vector);
    assert(!0usize & mask == mask) by (bit_vector);
    assert(0usize | mask == mask) by (bit_vector);
}

} // verus!
