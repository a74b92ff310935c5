//! The rules of the detour engine: what a hooked heap call reports, when it
//! reports it, and how the three hooks are found, installed and switched.
//!
//! Patching machine code and forwarding to the routines themselves is the
//! embedding program's part. It asks the functions here what to do and tells
//! them what happened.

use crate::flag::{after_acquire, after_release, newly_taken, AcquisitionGuard};
use crate::flag::{DetourFlag, DetourFlagSet};
use crate::storage::StackTrace;
use vstd::prelude::*;

verus! {

/// What can go wrong while the hooks are set up or switched.
#[derive(Debug, Clone, Copy, PartialEq, Eq, Structural)]
pub enum Error {
    CouldNotFindModule,
    CouldNotFindProc,
    HookInitializeFailed,
    HookEnableFailed,
    HookDisableFailed,
}

/// Identifier of a heap arena.
pub type HeapHandle = usize;

/// The heap flag with which a caller declares that it does its own locking.
pub const HEAP_NO_SERIALIZE: u32 = 0x1;

/// Where a hooked call came from.
#[derive(Debug, Clone, Copy)]
pub struct Base {
    pub heap_handle: HeapHandle,
    pub return_address: Option<usize>,
    pub address_of_return_address: Option<usize>,
    pub stack_frame_address: Option<usize>,
}

/// A call of the allocation routine. `allocated_base_address` is `None`
/// exactly when the allocator returned null.
#[derive(Debug, Clone, Copy)]
pub struct Allocation {
    pub base: Base,
    pub size: usize,
    pub allocated_base_address: Option<usize>,
}

/// A call of the reallocation routine on the block at `base_address`.
#[derive(Debug, Clone, Copy)]
pub struct Reallocation {
    pub base_address: usize,
    pub allocation: Allocation,
}

/// A call of the release routine on the block at `base_address`.
#[derive(Debug, Clone, Copy)]
pub struct Deallocation {
    pub base: Base,
    pub base_address: usize,
    pub success: bool,
}

/// The stack words that a handler wants read for an event: `size` words
/// starting at `address`.
#[derive(Debug, Clone, Copy)]
pub struct StackRequest {
    pub address: usize,
    pub size: usize,
}

/// A sink for the events of the hooked routines.
///
/// Before an allocation or reallocation is delivered, the engine asks the
/// handler which stack words it wants, reads them, and hands them over with
/// the event. A handler must not be replaced while the hooks are enabled.
pub trait AllocationHandler {
    /// The part of the caller's stack to snapshot for an event at `base`,
    /// or `None` when the handler wants none.
    fn stack_request(&self, base: &Base) -> Option<StackRequest>;

    fn on_allocation(&mut self, allocation: Allocation, stack_trace: Option<StackTrace>);

    fn on_deallocation(&mut self, deallocation: Deallocation);

    fn on_reallocation(&mut self, reallocation: Reallocation, stack_trace: Option<StackTrace>);
}

/// The handler that ignores every event.
pub struct NoopAllocationHandler;

impl AllocationHandler for NoopAllocationHandler {
    fn stack_request(&self, _base: &Base) -> (request: Option<StackRequest>)
        ensures
            request is None,
    {
        None
    }

    fn on_allocation(&mut self, _allocation: Allocation, _stack_trace: Option<StackTrace>) {
    }

    fn on_deallocation(&mut self, _deallocation: Deallocation) {
    }

    fn on_reallocation(&mut self, _reallocation: Reallocation, _stack_trace: Option<StackTrace>) {
    }
}

/// `None` for the null address, the address otherwise.
pub open spec fn non_null(address: usize) -> Option<usize> {
    if address == 0 {
        None
    } else {
        Some(address)
    }
}

/// The event for a call of the allocation routine that returned `result`.
pub fn allocation_event(base: Base, size: usize, result: usize) -> (event: Allocation)
    ensures
        event == (Allocation { base, size, allocated_base_address: non_null(result) }),
{
    Allocation { base, size, allocated_base_address: if result == 0 { None } else { Some(result) } }
}

/// The event for a call of the reallocation routine on `base_address` that
/// returned `result`.
pub fn reallocation_event(base: Base, base_address: usize, size: usize, result: usize) -> (event:
    Reallocation)
    ensures
        event == (Reallocation {
            base_address,
            allocation: Allocation { base, size, allocated_base_address: non_null(result) },
        }),
{
    Reallocation { base_address, allocation: allocation_event(base, size, result) }
}

/// The event for a call of the release routine on `base_address` that
/// returned `result`: any value but zero means success.
pub fn deallocation_event(base: Base, base_address: usize, result: i32) -> (event: Deallocation)
    ensures
        event == (Deallocation { base, base_address, success: result != 0 }),
{
    Deallocation { base, base_address, success: result != 0 }
}

/// Whether a hooked call is reported to the handler: only when the call took
/// the thread's lock itself, and only when the caller left heap serialising
/// on. A nested call would observe the observer; a call with
/// `HEAP_NO_SERIALIZE` may hold the heap lock while the handler waits for a
/// thread that waits for the heap.
pub open spec fn dispatches(lock_taken: bool, flags: u32) -> bool {
    lock_taken && flags & HEAP_NO_SERIALIZE == 0
}

/// One hooked call: holds what the call took of the thread's lock until the
/// call is over.
pub struct DetourCall {
    recursion_lock: Option<AcquisitionGuard>,
}

impl DetourCall {
    /// Whether this call took the thread's lock, and so is the outermost
    /// hooked call on its thread.
    pub closed spec fn lock_taken(&self) -> bool {
        self.recursion_lock is Some
    }

    /// The bits of the flag word that this call took.
    pub closed spec fn bits(&self) -> usize {
        match self.recursion_lock {
            Some(guard) => guard.bits(),
            None => 0,
        }
    }

    /// Starts a hooked call on the thread that owns `flags`: tries to take
    /// the lock, before the hooked routine itself runs.
    pub fn enter(flags: &mut DetourFlagSet) -> (call: DetourCall)
        ensures
            final(flags).word() == after_acquire(old(flags).word(), DetourFlag::Lock.spec_mask()),
            call.bits() == newly_taken(old(flags).word(), DetourFlag::Lock.spec_mask()),
            call.lock_taken() <==> call.bits() != 0,
    {
        DetourCall { recursion_lock: flags.acquire(DetourFlag::Lock) }
    }

    /// Whether the handler is to hear of this call, which was made with the
    /// heap flags `flags`.
    pub fn should_handle(&self, flags: u32) -> (handle: bool)
        ensures
            handle == dispatches(self.lock_taken(), flags),
    {
        self.recursion_lock.is_some() && (flags & HEAP_NO_SERIALIZE) == 0
    }

    /// Ends the call: gives back what it took of the lock, on every path.
    pub fn leave(self, flags: &mut DetourFlagSet)
        ensures
            final(flags).word() == after_release(old(flags).word(), self.bits()),
    {
        let ghost word = flags.word();
        match self.recursion_lock {
            Some(guard) => flags.release(guard),
            None => {
                assert(word & !0usize == word) by (bit_vector);
            },
        }
    }
}

/// A hooked call that starts while another is under way on the same thread
/// is never reported, whatever its heap flags.
pub proof fn law_nested_call_is_silent(word: usize, flags: u32)
    ensures
        !dispatches(
            newly_taken(after_acquire(word, DetourFlag::Lock.spec_mask()), DetourFlag::Lock.spec_mask())
                != 0,
            flags,
        ),
{
    crate::flag::law_nested_acquire_takes_nothing(word, DetourFlag::Lock.spec_mask());
}

/// A call made with `HEAP_NO_SERIALIZE` is never reported.
pub proof fn law_no_serialize_is_silent(lock_taken: bool, flags: u32)
    requires
        flags & HEAP_NO_SERIALIZE != 0,
    ensures
        !dispatches(lock_taken, flags),
{
}

/// The outermost call on a thread that holds nothing is reported when heap
/// serialising is on, and after it the thread holds nothing again.
pub proof fn law_outermost_call_is_reported(flags: u32)
    requires
        flags & HEAP_NO_SERIALIZE == 0,
    ensures
        dispatches(newly_taken(0, DetourFlag::Lock.spec_mask()) != 0, flags),
        after_release(
            after_acquire(0, DetourFlag::Lock.spec_mask()),
            newly_taken(0, DetourFlag::Lock.spec_mask()),
        ) == 0,
{
    crate::flag::law_first_acquire_takes_mask(DetourFlag::Lock);
    crate::flag::law_release_restores(0, DetourFlag::Lock.spec_mask());
}

/// What the search for the routines to hook came to: `CouldNotFindModule`
/// when the module was not found, `CouldNotFindProc` when it was but one
/// of the three routines was not. An address of 0 stands for "not found".
pub open spec fn located(module: usize, allocate: usize, reallocate: usize, free: usize) -> Result<
    (),
    Error,
> {
    if module == 0 {
        Err(Error::CouldNotFindModule)
    } else if allocate == 0 || reallocate == 0 || free == 0 {
        Err(Error::CouldNotFindProc)
    } else {
        Ok(())
    }
}

/// Judges the search for the module and its three routines.
pub fn check_located(module: usize, allocate: usize, reallocate: usize, free: usize) -> (outcome:
    Result<(), Error>)
    ensures
        outcome == located(module, allocate, reallocate, free),
{
    if module == 0 {
        return Err(Error::CouldNotFindModule);
    }
    if allocate == 0 || reallocate == 0 || free == 0 {
        return Err(Error::CouldNotFindProc);
    }
    Ok(())
}

/// What the installation of the three hooks came to: all of them or
/// `HookInitializeFailed`.
pub open spec fn installed(allocate: bool, reallocate: bool, free: bool) -> Result<(), Error> {
    if allocate && reallocate && free {
        Ok(())
    } else {
        Err(Error::HookInitializeFailed)
    }
}

/// Judges the installation of the three hooks.
pub fn check_installed(allocate: bool, reallocate: bool, free: bool) -> (outcome: Result<
    (),
    Error,
>)
    ensures
        outcome == installed(allocate, reallocate, free),
{
    if allocate && reallocate && free {
        Ok(())
    } else {
        Err(Error::HookInitializeFailed)
    }
}

/// The number of hooks.
pub const HOOKS: usize = 3;

/// One of the hooked routines. They are switched in this order.
#[derive(Debug, Clone, Copy, PartialEq, Eq, Structural)]
pub enum Hook {
    Allocate,
    Reallocate,
    Free,
}

impl Hook {
    /// The hook's place in the order of switching.
    pub open spec fn index(self) -> int {
        match self {
            Hook::Allocate => 0,
            Hook::Reallocate => 1,
            Hook::Free => 2,
        }
    }

    /// The hook at place `index`.
    fn at(index: usize) -> (hook: Hook)
        requires
            index < HOOKS,
        ensures
            hook.index() == index,
    {
        if index == 0 {
            Hook::Allocate
        } else if index == 1 {
            Hook::Reallocate
        } else {
            Hook::Free
        }
    }
}

/// What the engine is to do next while the hooks are switched.
#[derive(Debug, Clone, Copy, PartialEq, Eq, Structural)]
pub enum HookStep {
    /// Switch this hook the way that was asked for, and report how it went.
    Apply(Hook),
    /// Switch this hook back, and report when that was tried.
    Revert(Hook),
    /// Nothing is left to do: every hook stands switched as asked.
    Succeeded,
    /// Nothing is left to do: no hook stands switched, and this is why.
    Failed(Error),
}

impl HookStep {
    /// Whether the switching is over.
    pub open spec fn is_done(self) -> bool {
        self is Succeeded || self is Failed
    }
}

/// The switching of the three hooks as plain values: which way, how many
/// hooks stand switched, and whether one has failed.
pub struct HookSwitchView {
    pub enable: bool,
    pub applied: nat,
    pub failed: bool,
}

/// The error that a failed switching ends in.
pub open spec fn switch_failure(enable: bool) -> Error {
    if enable {
        Error::HookEnableFailed
    } else {
        Error::HookDisableFailed
    }
}

/// The step that is due in the state `v`.
pub open spec fn due(v: HookSwitchView) -> HookStep {
    if !v.failed {
        if v.applied == 0 {
            HookStep::Apply(Hook::Allocate)
        } else if v.applied == 1 {
            HookStep::Apply(Hook::Reallocate)
        } else if v.applied == 2 {
            HookStep::Apply(Hook::Free)
        } else {
            HookStep::Succeeded
        }
    } else {
        if v.applied == 0 {
            HookStep::Failed(switch_failure(v.enable))
        } else if v.applied == 1 {
            HookStep::Revert(Hook::Allocate)
        } else {
            HookStep::Revert(Hook::Reallocate)
        }
    }
}

/// The state after the step that was due in `v` was tried, with success if
/// `ok`. A hook that switched counts; one that did not ends the way
/// forward; on the way back each hook is counted off, whether it switched
/// back or not.
pub open spec fn after_report(v: HookSwitchView, ok: bool) -> HookSwitchView {
    if v.failed {
        HookSwitchView { applied: (v.applied - 1) as nat, ..v }
    } else if ok {
        HookSwitchView { applied: v.applied + 1, ..v }
    } else {
        HookSwitchView { failed: true, ..v }
    }
}

/// The state after the outcomes of `reports` were reported in order.
pub open spec fn after_reports(v: HookSwitchView, reports: Seq<bool>) -> HookSwitchView
    decreases reports.len(),
{
    if reports.len() == 0 {
        v
    } else {
        after_report(after_reports(v, reports.drop_last()), reports.last())
    }
}

/// An upper bound on the number of steps that are still to come.
pub open spec fn steps_left(v: HookSwitchView) -> int {
    if v.failed {
        v.applied as int
    } else {
        2 * HOOKS - v.applied
    }
}

/// The switching of the three hooks, all on or all off. The hooks are
/// switched in order. When one fails, those switched before it are
/// switched back, last one first, and the switching fails as a whole.
pub struct HookSwitch {
    enable: bool,
    applied: usize,
    failed: bool,
}

impl View for HookSwitch {
    type V = HookSwitchView;

    closed spec fn view(&self) -> HookSwitchView {
        HookSwitchView { enable: self.enable, applied: self.applied as nat, failed: self.failed }
    }
}

impl HookSwitch {
    /// No more hooks are switched than there are, and at least one is not
    /// when one has failed.
    pub open spec fn wf(&self) -> bool {
        self@.applied <= HOOKS && (self@.failed ==> self@.applied < HOOKS)
    }

    /// Starts switching the hooks on (`enable`) or off.
    pub fn start(enable: bool) -> (switch: Self)
        ensures
            switch@ == (HookSwitchView { enable, applied: 0, failed: false }),
            switch.wf(),
    {
        Self { enable, applied: 0, failed: false }
    }

    /// Says what to do next.
    pub fn step(&self) -> (step: HookStep)
        requires
            self.wf(),
        ensures
            step == due(self@),
    {
        if !self.failed {
            if self.applied < HOOKS {
                HookStep::Apply(Hook::at(self.applied))
            } else {
                HookStep::Succeeded
            }
        } else if self.applied == 0 {
            HookStep::Failed(
                if self.enable {
                    Error::HookEnableFailed
                } else {
                    Error::HookDisableFailed
                },
            )
        } else {
            HookStep::Revert(Hook::at(self.applied - 1))
        }
    }

    /// Takes note of how the step that was due went: `ok` says whether the
    /// hook switched. A hook that fails to switch back is given up on.
    pub fn report(&mut self, ok: bool)
        requires
            old(self).wf(),
            !due(old(self)@).is_done(),
        ensures
            final(self)@ == after_report(old(self)@, ok),
            final(self).wf(),
    {
        if !self.failed {
            if ok {
                self.applied = self.applied + 1;
            } else {
                self.failed = true;
            }
        } else {
            self.applied = self.applied - 1;
        }
    }
}

/// When every hook switches, they are switched in order and the switching
/// ends well after the third.
pub proof fn law_switch_succeeds(enable: bool)
    ensures
        ({
            let start = HookSwitchView { enable, applied: 0, failed: false };
            &&& due(start) == HookStep::Apply(Hook::Allocate)
            &&& due(after_reports(start, seq![true])) == HookStep::Apply(Hook::Reallocate)
            &&& due(after_reports(start, seq![true, true])) == HookStep::Apply(Hook::Free)
            &&& due(after_reports(start, seq![true, true, true])) == HookStep::Succeeded
        }),
{
    let start = HookSwitchView { enable, applied: 0, failed: false };
    let one = seq![true];
    let two = seq![true, true];
    let three = seq![true, true, true];
    assert(one.drop_last() =~= Seq::<bool>::empty());
    assert(two.drop_last() =~= one);
    assert(three.drop_last() =~= two);
    assert(after_reports(start, Seq::<bool>::empty()) == start);
    assert(after_reports(start, one) == after_report(start, true));
    assert(after_reports(start, two) == after_report(after_reports(start, one), true));
    assert(after_reports(start, three) == after_report(after_reports(start, two), true));
}

/// Once a hook has failed, the hooks that stand switched are switched back,
/// the last one first, whether or not each of them obeys, and then the
/// switching ends in its error.
pub proof fn law_switch_rolls_back(v: HookSwitchView, ok: bool)
    requires
        v.failed,
        v.applied < HOOKS,
    ensures
        v.applied == 2 ==> due(v) == HookStep::Revert(Hook::Reallocate) && due(after_report(v, ok))
            == HookStep::Revert(Hook::Allocate),
        v.applied == 1 ==> due(v) == HookStep::Revert(Hook::Allocate) && due(after_report(v, ok))
            == HookStep::Failed(switch_failure(v.enable)),
        v.applied == 0 ==> due(v) == HookStep::Failed(switch_failure(v.enable)),
{
}

/// A failure on the way forward turns the switching round at once: the
/// failed hook is not counted as switched.
pub proof fn law_switch_turns_round(v: HookSwitchView)
    requires
        !v.failed,
        v.applied < HOOKS,
    ensures
        after_report(v, false).failed,
        after_report(v, false).applied == v.applied,
        due(after_report(v, false)) is Revert || due(after_report(v, false)) == HookStep::Failed(
            switch_failure(v.enable),
        ),
{
}

/// The switching comes to an end: every report brings it closer, and it
/// takes six steps at most.
pub proof fn law_switch_terminates(v: HookSwitchView, ok: bool)
    requires
        v.applied <= HOOKS,
        v.failed ==> v.applied < HOOKS,
        !due(v).is_done(),
    ensures
        0 <= steps_left(after_report(v, ok)) < steps_left(v) <= 2 * HOOKS,
{
}

} // verus!
