//! The shared state: tracing configuration, allocation store and statistics.

use crate::proto;
use crate::storage::{Address, Allocation, AllocationsStorage};
use vstd::prelude::*;

verus! {

/// What to capture with each recorded allocation. All zero means no tracing.
#[derive(Debug, Clone, Copy, PartialEq, Eq, Structural)]
pub struct Configuration {
    /// Words to skip above the chosen stack base before the snapshot starts.
    pub stack_trace_offset: usize,
    /// Words of raw stack to snapshot; 0 disables the snapshot.
    pub stack_trace_size: usize,
    /// Innermost frames to leave out of the back trace.
    pub backtrace_frames_skip: u32,
    /// Frames to collect at most; 0 disables the back trace.
    pub backtrace_frames_count: u32,
    /// Symbols to resolve at most for each frame.
    pub backtrace_resolve_symbols_count: u32,
}

impl Configuration {
    /// The configuration with every field zero.
    pub open spec fn zero() -> Configuration {
        Configuration {
            stack_trace_offset: 0,
            stack_trace_size: 0,
            backtrace_frames_skip: 0,
            backtrace_frames_count: 0,
            backtrace_resolve_symbols_count: 0,
        }
    }
}

impl Default for Configuration {
    fn default() -> (c: Self)
        ensures
            c == Configuration::zero(),
    {
        Self {
            stack_trace_offset: 0x0,
            stack_trace_size: 0x0,
            backtrace_frames_count: 0x0,
            backtrace_frames_skip: 0x0,
            backtrace_resolve_symbols_count: 0x0,
        }
    }
}

/// One step of a counter that stops at the largest value instead of
/// wrapping, so that it never decreases.
pub open spec fn bump(counter: usize) -> usize {
    if counter < usize::MAX {
        (counter + 1) as usize
    } else {
        counter
    }
}

/// Event counters. They only grow, except on `reset`.
#[derive(Debug, Clone, Copy, PartialEq, Eq, Structural)]
pub struct Statistics {
    pub total_allocations: usize,
    pub total_reallocations: usize,
    pub total_deallocations: usize,
    pub total_deallocations_non_allocated: usize,
}

impl Statistics {
    /// Counters that are all zero.
    pub open spec fn zero() -> Statistics {
        Statistics {
            total_allocations: 0,
            total_reallocations: 0,
            total_deallocations: 0,
            total_deallocations_non_allocated: 0,
        }
    }

    /// Sets every counter back to zero.
    pub fn reset(&mut self)
        ensures
            *final(self) == Statistics::zero(),
    {
        *self = Self::default();
    }
}

impl Default for Statistics {
    fn default() -> (s: Self)
        ensures
            s == Statistics::zero(),
    {
        Self {
            total_allocations: 0,
            total_reallocations: 0,
            total_deallocations: 0,
            total_deallocations_non_allocated: 0,
        }
    }
}

/// The shared state as plain mathematical values.
pub struct StateView {
    pub configuration: Configuration,
    pub allocations: Map<Address, Allocation>,
    pub statistics: Statistics,
}

/// Configuration, store and statistics of one observed process.
pub struct State<S: AllocationsStorage> {
    configuration: Configuration,
    storage: S,
    statistics: Statistics,
}

impl<S: AllocationsStorage> View for State<S> {
    type V = StateView;

    closed spec fn view(&self) -> StateView {
        StateView {
            configuration: self.configuration,
            allocations: self.storage.contents(),
            statistics: self.statistics,
        }
    }
}

impl<S: AllocationsStorage> State<S> {
    /// A state with the given configuration and store, and all counters zero.
    pub fn new(configuration: Configuration, storage: S) -> (s: Self)
        ensures
            s@.configuration == configuration,
            s@.allocations == storage.contents(),
            s@.statistics == Statistics::zero(),
    {
        Self { configuration, storage, statistics: Statistics::default() }
    }

    /// Replaces the configuration; store and counters stay as they are.
    pub fn set_configuration(&mut self, configuration: Configuration)
        ensures
            final(self)@ == (StateView { configuration, ..old(self)@ }),
    {
        self.configuration = configuration;
    }

    /// A snapshot of the configuration.
    pub fn get_configuration(&self) -> (c: Configuration)
        ensures
            c == self@.configuration,
    {
        self.configuration
    }

    /// Exclusive access to the store. Whatever the caller does to the store
    /// is what happens to the state's allocations, and to nothing else.
    pub fn lock_storage(&mut self) -> (storage: &mut S)
        ensures
            storage.contents() == old(self)@.allocations,
            final(self)@ == (StateView {
                allocations: final(storage).contents(),
                ..old(self)@
            }),
    {
        &mut self.storage
    }

    /// Exclusive access to the counters.
    pub fn lock_statistics(&mut self) -> (statistics: &mut Statistics)
        ensures
            *statistics == old(self)@.statistics,
            final(self)@ == (StateView { statistics: *final(statistics), ..old(self)@ }),
    {
        &mut self.statistics
    }

    /// Read access to the store.
    pub fn storage(&self) -> (storage: &S)
        ensures
            storage.contents() == self@.allocations,
    {
        &self.storage
    }

    /// A snapshot of the counters.
    pub fn statistics(&self) -> (statistics: Statistics)
        ensures
            statistics == self@.statistics,
    {
        self.statistics
    }
}

/// The configuration that a message carries. A word count that does not fit
/// a machine word keeps its low bits.
pub open spec fn read_configuration(wire: proto::Configuration) -> Configuration {
    Configuration {
        stack_trace_offset: wire.stack_trace_offset as usize,
        stack_trace_size: wire.stack_trace_size as usize,
        backtrace_frames_count: wire.backtrace_frames_count,
        backtrace_frames_skip: wire.backtrace_frames_skip,
        backtrace_resolve_symbols_count: wire.backtrace_resolve_symbols_count,
    }
}

/// The message that carries a configuration.
pub open spec fn written_configuration(configuration: Configuration) -> proto::Configuration {
    proto::Configuration {
        stack_trace_offset: configuration.stack_trace_offset as u64,
        stack_trace_size: configuration.stack_trace_size as u64,
        backtrace_frames_count: configuration.backtrace_frames_count,
        backtrace_frames_skip: configuration.backtrace_frames_skip,
        backtrace_resolve_symbols_count: configuration.backtrace_resolve_symbols_count,
    }
}

impl From<proto::Configuration> for Configuration {
    /// Reads a configuration off the wire. A word count that does not fit a
    /// machine word keeps its low bits.
    fn from(value: proto::Configuration) -> (c: Self) {
        Self {
            stack_trace_offset: #[verifier::truncate]
            (value.stack_trace_offset as usize),
            stack_trace_size: #[verifier::truncate]
            (value.stack_trace_size as usize),
            backtrace_frames_count: value.backtrace_frames_count,
            backtrace_frames_skip: value.backtrace_frames_skip,
            backtrace_resolve_symbols_count: value.backtrace_resolve_symbols_count,
        }
    }
}

impl vstd::std_specs::convert::FromSpecImpl<proto::Configuration> for Configuration {
    open spec fn obeys_from_spec() -> bool {
        true
    }

    open spec fn from_spec(value: proto::Configuration) -> Self {
        read_configuration(value)
    }
}

impl From<Configuration> for proto::Configuration {
    /// Writes a configuration for the wire.
    fn from(value: Configuration) -> (c: Self) {
        Self {
            stack_trace_offset: value.stack_trace_offset as u64,
            stack_trace_size: value.stack_trace_size as u64,
            backtrace_frames_count: value.backtrace_frames_count,
            backtrace_frames_skip: value.backtrace_frames_skip,
            backtrace_resolve_symbols_count: value.backtrace_resolve_symbols_count,
        }
    }
}

impl vstd::std_specs::convert::FromSpecImpl<Configuration> for proto::Configuration {
    open spec fn obeys_from_spec() -> bool {
        true
    }

    open spec fn from_spec(value: Configuration) -> Self {
        written_configuration(value)
    }
}

/// A configuration that went out over the wire comes back unchanged.
pub proof fn law_configuration_round_trip(configuration: Configuration)
    ensures
        read_configuration(written_configuration(configuration)) == configuration,
{
}

} // verus!
