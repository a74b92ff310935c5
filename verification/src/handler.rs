//! The handler that keeps the store and the statistics up to date with the
//! events of the hooked routines.

use crate::detour;
use crate::detour::{AllocationHandler, Base, StackRequest};
use crate::state::{bump, Configuration, State, StateView, Statistics};
use crate::storage::{Address, Allocation, AllocationsStorage, BackTrace, StackTrace};
use crate::trace::{back_trace_meets, create_back_trace};
use crate::wordsize;
use vstd::prelude::*;

verus! {

/// The stack address from which an event at `base` is snapshot: the address
/// of the return address where it is known, else the frame address. A null
/// address gives no snapshot.
pub open spec fn chosen_stack_base(base: Base) -> Option<usize> {
    let chosen = match base.address_of_return_address {
        Some(address) => Some(address),
        None => base.stack_frame_address,
    };
    match chosen {
        Some(address) => if address == 0 {
            None
        } else {
            Some(address)
        },
        None => None,
    }
}

/// The words to snapshot for a stack at `address`: `size` words, starting
/// `offset` words above `address`. None when no word is wanted, or when the
/// words would reach beyond the address space.
pub open spec fn stack_request_at(address: usize, size: usize, offset: usize) -> Option<
    StackRequest,
> {
    if size == 0 || address + crate::spec_wordsize() * offset + crate::spec_wordsize() * size
        > usize::MAX {
        None
    } else {
        Some(
            StackRequest {
                address: (address + crate::spec_wordsize() * offset) as usize,
                size,
            },
        )
    }
}

/// The words to snapshot for an event at `base` under `configuration`.
pub open spec fn stack_request_for(base: Base, configuration: Configuration) -> Option<
    StackRequest,
> {
    match chosen_stack_base(base) {
        Some(address) => stack_request_at(
            address,
            configuration.stack_trace_size,
            configuration.stack_trace_offset,
        ),
        None => None,
    }
}

/// Says which words to read for a stack snapshot: `size` machine words
/// starting `offset` words above `address`.
pub fn create_stack_trace(address: usize, size: usize, offset: usize) -> (request: Option<
    StackRequest,
>)
    ensures
        request == stack_request_at(address, size, offset),
{
    if size == 0 {
        return None;
    }
    let word: usize = wordsize() as usize;
    let start = match word.checked_mul(offset) {
        Some(distance) => match address.checked_add(distance) {
            Some(start) => start,
            None => {
                return None;
            },
        },
        None => {
            return None;
        },
    };
    match word.checked_mul(size) {
        Some(length) => match start.checked_add(length) {
            Some(_end) => Some(StackRequest { address: start, size }),
            None => None,
        },
        None => None,
    }
}

/// Says which words to read for the stack snapshot of an event at `base`.
pub fn create_stack_request(base: &Base, configuration: &Configuration) -> (request: Option<
    StackRequest,
>)
    ensures
        request == stack_request_for(*base, *configuration),
{
    let stack_base = match base.address_of_return_address {
        Some(address) => Some(address),
        None => base.stack_frame_address,
    };
    match stack_base {
        Some(address) => {
            if address == 0 {
                None
            } else {
                create_stack_trace(
                    address,
                    configuration.stack_trace_size,
                    configuration.stack_trace_offset,
                )
            }
        },
        None => None,
    }
}

/// The snapshot made of the words read for `request`: the words as they
/// were read, with the address they were read from.
pub fn complete_stack_trace(request: StackRequest, words: Vec<usize>) -> (trace: StackTrace)
    ensures
        trace.base == request.address,
        trace.trace == words,
{
    StackTrace { base: request.address, trace: words }
}

/// The state after `allocation` was recorded as newly allocated.
pub open spec fn after_allocation(before: StateView, allocation: Allocation) -> StateView {
    StateView {
        allocations: before.allocations.insert(allocation.base_address, allocation),
        statistics: Statistics {
            total_allocations: bump(before.statistics.total_allocations),
            ..before.statistics
        },
        ..before
    }
}

/// The state after the block at `old_address` was recorded as reallocated
/// to `allocation`: the old record is gone, if there was one, and the new
/// one is there.
pub open spec fn after_reallocation(
    before: StateView,
    old_address: Address,
    allocation: Allocation,
) -> StateView {
    StateView {
        allocations: before.allocations.remove(old_address).insert(
            allocation.base_address,
            allocation,
        ),
        statistics: Statistics {
            total_reallocations: bump(before.statistics.total_reallocations),
            ..before.statistics
        },
        ..before
    }
}

/// The state after the block at `address` was recorded as released. A
/// release of a block that the store does not know is counted apart.
pub open spec fn after_deallocation(before: StateView, address: Address) -> StateView {
    StateView {
        allocations: before.allocations.remove(address),
        statistics: Statistics {
            total_deallocations: bump(before.statistics.total_deallocations),
            total_deallocations_non_allocated: if before.allocations.contains_key(address) {
                before.statistics.total_deallocations_non_allocated
            } else {
                bump(before.statistics.total_deallocations_non_allocated)
            },
            ..before.statistics
        },
        ..before
    }
}

/// `record` is what the handler files for the event `event` at
/// `base_address`, with the stack snapshot `stack_trace`, under
/// `configuration`.
pub open spec fn records_event(
    record: Allocation,
    event: detour::Allocation,
    base_address: Address,
    stack_trace: Option<StackTrace>,
    configuration: Configuration,
) -> bool {
    &&& record.base_address == base_address
    &&& record.size == event.size
    &&& record.heap_handle == event.base.heap_handle
    &&& record.stack_trace == stack_trace
    &&& back_trace_meets(
        record.back_trace,
        configuration.backtrace_frames_count as usize,
        configuration.backtrace_resolve_symbols_count as usize,
    )
}

/// One step of a counter that stops at the largest value.
fn bumped(counter: usize) -> (next: usize)
    ensures
        next == bump(counter),
{
    if counter < usize::MAX {
        counter + 1
    } else {
        counter
    }
}

/// The handler that records every event in a shared state.
pub struct StorageAllocationHandler<S: AllocationsStorage> {
    state: State<S>,
}

impl<S: AllocationsStorage> View for StorageAllocationHandler<S> {
    type V = StateView;

    closed spec fn view(&self) -> StateView {
        self.state@
    }
}

impl<S: AllocationsStorage> StorageAllocationHandler<S> {
    /// A handler that records into `state`.
    pub fn new(state: State<S>) -> (handler: Self)
        ensures
            handler@ == state@,
    {
        Self { state }
    }

    /// The state that the handler records into.
    pub fn state(&self) -> (state: &State<S>)
        ensures
            state@ == self@,
    {
        &self.state
    }

    /// Exclusive access to the state, for requests that change it.
    pub fn state_mut(&mut self) -> (state: &mut State<S>)
        ensures
            state@ == old(self)@,
            final(self)@ == final(state)@,
    {
        &mut self.state
    }

    /// Files `allocation` and counts it as an allocation.
    pub fn record_allocation(&mut self, allocation: Allocation)
        ensures
            final(self)@ == after_allocation(old(self)@, allocation),
    {
        self.state.lock_storage().store(allocation);
        let statistics = self.state.lock_statistics();
        statistics.total_allocations = bumped(statistics.total_allocations);
    }

    /// Replaces the record at `old_address` by `allocation`, in one step on
    /// the store, and counts a reallocation.
    pub fn record_reallocation(&mut self, old_address: Address, allocation: Allocation)
        ensures
            final(self)@ == after_reallocation(old(self)@, old_address, allocation),
    {
        let storage = self.state.lock_storage();
        let _ = storage.remove(old_address);
        storage.store(allocation);
        let statistics = self.state.lock_statistics();
        statistics.total_reallocations = bumped(statistics.total_reallocations);
    }

    /// Drops the record at `address` and counts a deallocation; when there
    /// was no record, counts that too.
    pub fn record_deallocation(&mut self, address: Address)
        ensures
            final(self)@ == after_deallocation(old(self)@, address),
    {
        let removed = self.state.lock_storage().remove(address).is_ok();
        let statistics = self.state.lock_statistics();
        statistics.total_deallocations = bumped(statistics.total_deallocations);
        if !removed {
            statistics.total_deallocations_non_allocated = bumped(
                statistics.total_deallocations_non_allocated,
            );
        }
    }
}

impl<S: AllocationsStorage> AllocationHandler for StorageAllocationHandler<S> {
    fn stack_request(&self, base: &Base) -> (request: Option<StackRequest>)
        ensures
            request == stack_request_for(*base, self@.configuration),
    {
        let configuration = self.state.get_configuration();
        create_stack_request(base, &configuration)
    }

    /// Records a successful allocation with its traces; a failed one
    /// changes nothing.
    fn on_allocation(&mut self, allocation: detour::Allocation, stack_trace: Option<StackTrace>)
        ensures
            match allocation.allocated_base_address {
                Some(base_address) => {
                    let record = final(self)@.allocations[base_address];
                    &&& records_event(
                        record,
                        allocation,
                        base_address,
                        stack_trace,
                        old(self)@.configuration,
                    )
                    &&& final(self)@ == after_allocation(old(self)@, record)
                },
                None => final(self)@ == old(self)@,
            },
    {
        if let Some(base_address) = allocation.allocated_base_address {
            let configuration = self.state.get_configuration();
            let back_trace = create_back_trace(
                configuration.backtrace_frames_skip as usize,
                configuration.backtrace_frames_count as usize,
                configuration.backtrace_resolve_symbols_count as usize,
            );
            self.record_allocation(
                Allocation {
                    base_address,
                    size: allocation.size,
                    heap_handle: allocation.base.heap_handle,
                    stack_trace,
                    back_trace,
                },
            );
        }
    }

    /// Records a successful reallocation with its traces: the record of the
    /// old block goes, that of the new one comes. A failed one changes
    /// nothing.
    fn on_reallocation(&mut self, reallocation: detour::Reallocation, stack_trace: Option<StackTrace>)
        ensures
            match reallocation.allocation.allocated_base_address {
                Some(base_address) => {
                    let record = final(self)@.allocations[base_address];
                    &&& records_event(
                        record,
                        reallocation.allocation,
                        base_address,
                        stack_trace,
                        old(self)@.configuration,
                    )
                    &&& final(self)@ == after_reallocation(
                        old(self)@,
                        reallocation.base_address,
                        record,
                    )
                },
                None => final(self)@ == old(self)@,
            },
    {
        if let Some(base_address) = reallocation.allocation.allocated_base_address {
            let configuration = self.state.get_configuration();
            let back_trace = create_back_trace(
                configuration.backtrace_frames_skip as usize,
                configuration.backtrace_frames_count as usize,
                configuration.backtrace_resolve_symbols_count as usize,
            );
            self.record_reallocation(
                reallocation.base_address,
                Allocation {
                    base_address,
                    size: reallocation.allocation.size,
                    heap_handle: reallocation.allocation.base.heap_handle,
                    stack_trace,
                    back_trace,
                },
            );
        }
    }

    /// Records a successful release: the record goes, the release is
    /// counted, and it is counted apart when there was no record. A failed
    /// release changes nothing and is not counted.
    fn on_deallocation(&mut self, deallocation: detour::Deallocation)
        ensures
            final(self)@ == if deallocation.success {
                after_deallocation(old(self)@, deallocation.base_address)
            } else {
                old(self)@
            },
    {
        if deallocation.success {
            self.record_deallocation(deallocation.base_address);
        }
    }
}

/// A successful event, as the handler records it.
pub enum Event {
    /// A block was allocated and is recorded as given.
    Allocated(Allocation),
    /// The block at the address was reallocated to the record given.
    Reallocated(Address, Allocation),
    /// The block at the address was released.
    Released(Address),
}

/// The state after `event` was recorded.
pub open spec fn after_event(before: StateView, event: Event) -> StateView {
    match event {
        Event::Allocated(allocation) => after_allocation(before, allocation),
        Event::Reallocated(old_address, allocation) => after_reallocation(
            before,
            old_address,
            allocation,
        ),
        Event::Released(address) => after_deallocation(before, address),
    }
}

/// The state after the events of `events` were recorded in order.
pub open spec fn after_events(start: StateView, events: Seq<Event>) -> StateView
    decreases events.len(),
{
    if events.len() == 0 {
        start
    } else {
        after_event(after_events(start, events.drop_last()), events.last())
    }
}

/// The number of allocations among `events`.
pub open spec fn allocations_in(events: Seq<Event>) -> nat
    decreases events.len(),
{
    if events.len() == 0 {
        0
    } else {
        allocations_in(events.drop_last()) + if events.last() is Allocated {
            1nat
        } else {
            0
        }
    }
}

/// The number of reallocations among `events`.
pub open spec fn reallocations_in(events: Seq<Event>) -> nat
    decreases events.len(),
{
    if events.len() == 0 {
        0
    } else {
        reallocations_in(events.drop_last()) + if events.last() is Reallocated {
            1nat
        } else {
            0
        }
    }
}

/// The number of releases among `events`.
pub open spec fn releases_in(events: Seq<Event>) -> nat
    decreases events.len(),
{
    if events.len() == 0 {
        0
    } else {
        releases_in(events.drop_last()) + if events.last() is Released {
            1nat
        } else {
            0
        }
    }
}

/// The number of releases among `events` that met no record: the block was
/// not in the store when its release was recorded.
pub open spec fn unknown_releases_in(start: StateView, events: Seq<Event>) -> nat
    decreases events.len(),
{
    if events.len() == 0 {
        0
    } else {
        unknown_releases_in(start, events.drop_last()) + match events.last() {
            Event::Released(address) => if after_events(
                start,
                events.drop_last(),
            ).allocations.contains_key(address) {
                0nat
            } else {
                1nat
            },
            _ => 0nat,
        }
    }
}

/// Starting from counters at zero, each counter holds the number of events
/// of its kind: no event is lost or counted twice. The configuration is not
/// touched.
pub proof fn law_statistics_count_events(start: StateView, events: Seq<Event>)
    requires
        start.statistics == Statistics::zero(),
        events.len() <= usize::MAX,
    ensures
        after_events(start, events).statistics.total_allocations == allocations_in(events),
        after_events(start, events).statistics.total_reallocations == reallocations_in(events),
        after_events(start, events).statistics.total_deallocations == releases_in(events),
        after_events(start, events).statistics.total_deallocations_non_allocated
            == unknown_releases_in(start, events),
        after_events(start, events).configuration == start.configuration,
        allocations_in(events) + reallocations_in(events) + releases_in(events) == events.len(),
        unknown_releases_in(start, events) <= releases_in(events),
    decreases events.len(),
{
    if events.len() > 0 {
        law_statistics_count_events(start, events.drop_last());
    }
}

/// A successful reallocation of a recorded block to another address leaves
/// the new record in the store and the old one out of it, and counts one
/// reallocation.
pub proof fn law_reallocation_moves_record(
    before: StateView,
    old_address: Address,
    allocation: Allocation,
)
    requires
        before.allocations.contains_key(old_address),
        old_address != allocation.base_address,
        before.statistics.total_reallocations < usize::MAX,
    ensures
        after_reallocation(before, old_address, allocation).allocations.contains_key(
            allocation.base_address,
        ),
        after_reallocation(before, old_address, allocation).allocations[allocation.base_address]
            == allocation,
        !after_reallocation(before, old_address, allocation).allocations.contains_key(old_address),
        after_reallocation(before, old_address, allocation).statistics.total_reallocations
            == before.statistics.total_reallocations + 1,
{
}

/// A reallocation in place replaces the record at the address.
pub proof fn law_reallocation_in_place(before: StateView, allocation: Allocation)
    ensures
        after_reallocation(before, allocation.base_address, allocation).allocations
            == before.allocations.insert(allocation.base_address, allocation),
{
    assert(before.allocations.remove(allocation.base_address).insert(
        allocation.base_address,
        allocation,
    ) =~= before.allocations.insert(allocation.base_address, allocation));
}

/// No event makes a counter smaller.
pub proof fn law_counters_never_decrease(before: StateView, event: Event)
    ensures
        before.statistics.total_allocations <= after_event(
            before,
            event,
        ).statistics.total_allocations,
        before.statistics.total_reallocations <= after_event(
            before,
            event,
        ).statistics.total_reallocations,
        before.statistics.total_deallocations <= after_event(
            before,
            event,
        ).statistics.total_deallocations,
        before.statistics.total_deallocations_non_allocated <= after_event(
            before,
            event,
        ).statistics.total_deallocations_non_allocated,
{
}

/// Every allocation among `events` came to an address that the store did
/// not hold at the time, as it is when no release goes unseen.
pub open spec fn allocations_are_fresh(start: StateView, events: Seq<Event>) -> bool
    decreases events.len(),
{
    if events.len() == 0 {
        true
    } else {
        &&& allocations_are_fresh(start, events.drop_last())
        &&& events.last() matches Event::Allocated(allocation) ==> !after_events(
            start,
            events.drop_last(),
        ).allocations.contains_key(allocation.base_address)
    }
}

/// By how many records one reallocation changes the store: one more when
/// the new address was free, one less when the old block was recorded.
pub open spec fn reallocation_net(
    before: StateView,
    old_address: Address,
    allocation: Allocation,
) -> int {
    (if before.allocations.remove(old_address).contains_key(allocation.base_address) {
        0int
    } else {
        1int
    }) - (if before.allocations.contains_key(old_address) {
        1int
    } else {
        0int
    })
}

/// By how many records the reallocations among `events` changed the store.
pub open spec fn reallocations_net_in(start: StateView, events: Seq<Event>) -> int
    decreases events.len(),
{
    if events.len() == 0 {
        0
    } else {
        reallocations_net_in(start, events.drop_last()) + match events.last() {
            Event::Reallocated(old_address, allocation) => reallocation_net(
                after_events(start, events.drop_last()),
                old_address,
                allocation,
            ),
            _ => 0int,
        }
    }
}

/// Records are conserved. Starting from an empty store and counters at
/// zero, and with every allocation at a fresh address, the records in the
/// store together with the releases that met a record make up the
/// allocations and the net effect of the reallocations: nothing is lost in
/// whatever order the events are recorded.
pub proof fn law_records_are_conserved(start: StateView, events: Seq<Event>)
    requires
        start.statistics == Statistics::zero(),
        start.allocations == Map::<Address, Allocation>::empty(),
        events.len() <= usize::MAX,
        allocations_are_fresh(start, events),
    ensures
        after_events(start, events).allocations.dom().finite(),
        after_events(start, events).allocations.len() + (after_events(
            start,
            events,
        ).statistics.total_deallocations - after_events(
            start,
            events,
        ).statistics.total_deallocations_non_allocated) == after_events(
            start,
            events,
        ).statistics.total_allocations + reallocations_net_in(start, events),
    decreases events.len(),
{
    law_statistics_count_events(start, events);
    if events.len() > 0 {
        let earlier = events.drop_last();
        law_records_are_conserved(start, earlier);
        law_statistics_count_events(start, earlier);
        let before = after_events(start, earlier);
        let after = after_events(start, events);
        assert(after == after_event(before, events.last()));
        match events.last() {
            Event::Allocated(allocation) => {
                assert(after.allocations.len() == before.allocations.len() + 1);
            },
            Event::Reallocated(old_address, allocation) => {
                let between = before.allocations.remove(old_address);
                assert(between.dom().finite());
                assert(between.len() == before.allocations.len() - if before.allocations.contains_key(
                    old_address,
                ) {
                    1int
                } else {
                    0int
                });
                assert(after.allocations.len() == between.len() + if between.contains_key(
                    allocation.base_address,
                ) {
                    0int
                } else {
                    1int
                });
            },
            Event::Released(address) => {
                assert(after.allocations.len() == before.allocations.len() - if before.allocations.contains_key(
                    address,
                ) {
                    1int
                } else {
                    0int
                });
            },
        }
    }
}

} // verus!
