//! The messages of the request protocol, as plain values, and how the
//! library's records are written into them.
//!
//! Addresses and sizes travel as 64-bit numbers whatever the word size of the
//! observed process; `wordsize` tells the client how to read raw stack words.

use crate::spec_wordsize;
use crate::storage;
use crate::wordsize;
use vstd::prelude::*;

verus! {

/// The protocol version that a ping answers with.
pub const PROTOCOL_VERSION: u32 = 1;

#[derive(Debug, Clone, Copy, PartialEq, Eq, Structural)]
pub struct PingRequest {
    pub num: u32,
}

#[derive(Debug, Clone, Copy, PartialEq, Eq, Structural)]
pub struct PingResponse {
    pub version: u32,
    pub num: u32,
    pub wordsize: u32,
}

#[derive(Debug, Clone, Copy, PartialEq, Eq, Structural)]
pub struct Configuration {
    pub stack_trace_offset: u64,
    pub stack_trace_size: u64,
    pub backtrace_frames_skip: u32,
    pub backtrace_frames_count: u32,
    pub backtrace_resolve_symbols_count: u32,
}

#[derive(Debug, Clone, Copy, PartialEq, Eq, Structural)]
pub struct SetConfigurationRequest {
    pub configuration: Option<Configuration>,
}

#[derive(Debug, Clone, Copy, PartialEq, Eq, Structural)]
pub struct SetConfigurationResponse {}

#[derive(Debug, Clone, Copy, PartialEq, Eq, Structural)]
pub struct GetConfigurationRequest {}

#[derive(Debug, Clone, Copy, PartialEq, Eq, Structural)]
pub struct GetConfigurationResponse {
    pub configuration: Option<Configuration>,
}

#[derive(Debug, Clone, Copy, PartialEq, Eq, Structural)]
pub struct ClearStorageRequest {}

#[derive(Debug, Clone, Copy, PartialEq, Eq, Structural)]
pub struct ClearStorageResponse {}

/// The half-open interval of addresses from `lower` up to `upper`.
#[derive(Debug, Clone, Copy, PartialEq, Eq, Structural)]
pub struct Range {
    pub lower: u64,
    pub upper: u64,
}

/// Where to look: at one address, or in an interval.
#[derive(Debug, Clone, Copy, PartialEq, Eq, Structural)]
pub enum Location {
    Address(u64),
    Range(Range),
}

/// A filter must name a location; one without is a protocol error.
#[derive(Debug, Clone, Copy, PartialEq, Eq, Structural)]
pub struct Filter {
    pub location: Option<Location>,
}

/// One query of a find request. Without a filter it asks for every record.
#[derive(Debug, Clone, Copy, PartialEq, Eq, Structural)]
pub struct FindRecord {
    pub id: u64,
    pub filter: Option<Filter>,
}

#[derive(Debug, Clone, PartialEq)]
pub struct FindRequest {
    pub records: Vec<FindRecord>,
}

#[derive(Debug, Clone, PartialEq)]
pub struct StackTrace {
    pub stack_pointer: u64,
    pub wordsize: u32,
    pub trace: Vec<u64>,
}

#[derive(Debug, Clone, PartialEq)]
pub struct BackTraceSymbol {
    pub name: Option<String>,
    pub address: Option<u64>,
}

#[derive(Debug, Clone, PartialEq)]
pub struct BackTraceFrame {
    pub instruction_pointer: u64,
    pub stack_pointer: u64,
    pub module_base: Option<u64>,
    pub resolved_symbols: Vec<BackTraceSymbol>,
}

#[derive(Debug, Clone, PartialEq)]
pub struct BackTrace {
    pub frames: Vec<BackTraceFrame>,
}

#[derive(Debug, Clone, PartialEq)]
pub struct Allocation {
    pub base_address: u64,
    pub size: u64,
    pub heap_handle: u64,
    pub stack_trace: Option<StackTrace>,
    pub back_trace: Option<BackTrace>,
}

/// The answer to one query: its `id`, and the records it found.
#[derive(Debug, Clone, PartialEq)]
pub struct FoundAllocation {
    pub id: u64,
    pub allocations: Vec<Allocation>,
}

#[derive(Debug, Clone, PartialEq)]
pub struct FindResponse {
    pub allocations: Vec<FoundAllocation>,
}

/// The counters, and `allocated`: the number of records in the store.
#[derive(Debug, Clone, Copy, PartialEq, Eq, Structural)]
pub struct Statistics {
    pub total_allocations: u64,
    pub total_reallocations: u64,
    pub total_deallocations: u64,
    pub total_deallocations_non_allocated: u64,
    pub allocated: u64,
}

#[derive(Debug, Clone, Copy, PartialEq, Eq, Structural)]
pub struct GetStatisticsRequest {}

#[derive(Debug, Clone, Copy, PartialEq, Eq, Structural)]
pub struct GetStatisticsResponse {
    pub statistics: Option<Statistics>,
}

#[derive(Debug, Clone, Copy, PartialEq, Eq, Structural)]
pub struct ResetStatisticsRequest {}

#[derive(Debug, Clone, Copy, PartialEq, Eq, Structural)]
pub struct ResetStatisticsResponse {}

/// An address as it travels.
pub open spec fn wide(word: usize) -> u64 {
    word as u64
}

/// An optional address as it travels.
pub open spec fn wide_option(word: Option<usize>) -> Option<u64> {
    match word {
        Some(w) => Some(wide(w)),
        None => None,
    }
}

/// `wire` carries the stack snapshot `trace`.
pub open spec fn stack_trace_encodes(wire: StackTrace, trace: storage::StackTrace) -> bool {
    &&& wire.stack_pointer == wide(trace.base)
    &&& wire.wordsize == spec_wordsize()
    &&& wire.trace@ == trace.trace@.map_values(|word: usize| wide(word))
}

/// `wire` carries `symbol`.
pub open spec fn symbol_encodes(wire: BackTraceSymbol, symbol: storage::BackTraceSymbol) -> bool {
    &&& wire.name == symbol.name
    &&& wire.address == wide_option(symbol.address)
}

/// `wire` carries `frame`, symbol by symbol.
pub open spec fn frame_encodes(wire: BackTraceFrame, frame: storage::BackTraceFrame) -> bool {
    &&& wire.instruction_pointer == wide(frame.instruction_pointer)
    &&& wire.stack_pointer == wide(frame.stack_pointer)
    &&& wire.module_base == wide_option(frame.module_base)
    &&& wire.resolved_symbols@.len() == frame.resolved_symbols@.len()
    &&& forall|i: int|
        0 <= i < frame.resolved_symbols@.len() ==> symbol_encodes(
            #[trigger] wire.resolved_symbols@[i],
            frame.resolved_symbols@[i],
        )
}

/// `wire` carries `trace`, frame by frame.
pub open spec fn back_trace_encodes(wire: BackTrace, trace: storage::BackTrace) -> bool {
    &&& wire.frames@.len() == trace.frames@.len()
    &&& forall|i: int|
        0 <= i < trace.frames@.len() ==> frame_encodes(#[trigger] wire.frames@[i], trace.frames@[i])
}

/// `wire` carries the record `allocation`.
pub open spec fn allocation_encodes(wire: Allocation, allocation: storage::Allocation) -> bool {
    &&& wire.base_address == wide(allocation.base_address)
    &&& wire.size == wide(allocation.size)
    &&& wire.heap_handle == wide(allocation.heap_handle)
    &&& wire.stack_trace is Some <==> allocation.stack_trace is Some
    &&& wire.back_trace is Some <==> allocation.back_trace is Some
    &&& allocation.stack_trace matches Some(trace) ==> stack_trace_encodes(
        wire.stack_trace->0,
        trace,
    )
    &&& allocation.back_trace matches Some(trace) ==> back_trace_encodes(wire.back_trace->0, trace)
}

/// `wire` carries the records of `found`, in the same order.
pub open spec fn allocations_encode(wire: Seq<Allocation>, found: Seq<storage::Allocation>) -> bool {
    &&& wire.len() == found.len()
    &&& forall|i: int| 0 <= i < found.len() ==> allocation_encodes(#[trigger] wire[i], found[i])
}

impl StackTrace {
    pub fn from_record(value: &storage::StackTrace) -> (wire: Self)
        ensures
            stack_trace_encodes(wire, *value),
    {
        let mut trace: Vec<u64> = Vec::new();
        let mut i: usize = 0;
        while i < value.trace.len()
            invariant
                i <= value.trace@.len(),
                trace@.len() == i,
                forall|j: int| 0 <= j < i ==> trace@[j] == wide(value.trace@[j]),
            decreases value.trace@.len() - i,
        {
            trace.push(value.trace[i] as u64);
            i += 1;
        }
        assert(trace@ =~= value.trace@.map_values(|word: usize| wide(word)));
        Self { stack_pointer: value.base as u64, wordsize: wordsize(), trace }
    }
}

/// An optional address, widened for the wire.
pub fn widen(word: Option<usize>) -> (wire: Option<u64>)
    ensures
        wire == wide_option(word),
{
    match word {
        Some(w) => Some(w as u64),
        None => None,
    }
}

impl BackTraceSymbol {
    pub fn from_record(value: &storage::BackTraceSymbol) -> (wire: Self)
        ensures
            symbol_encodes(wire, *value),
    {
        let name = match &value.name {
            Some(name) => Some(name.clone()),
            None => None,
        };
        Self { name, address: widen(value.address) }
    }
}

impl BackTraceFrame {
    pub fn from_record(value: &storage::BackTraceFrame) -> (wire: Self)
        ensures
            frame_encodes(wire, *value),
    {
        let mut resolved_symbols: Vec<BackTraceSymbol> = Vec::new();
        let mut i: usize = 0;
        while i < value.resolved_symbols.len()
            invariant
                i <= value.resolved_symbols@.len(),
                resolved_symbols@.len() == i,
                forall|j: int|
                    0 <= j < i ==> symbol_encodes(
                        #[trigger] resolved_symbols@[j],
                        value.resolved_symbols@[j],
                    ),
            decreases value.resolved_symbols@.len() - i,
        {
            resolved_symbols.push(BackTraceSymbol::from_record(&value.resolved_symbols[i]));
            i += 1;
        }
        Self {
            instruction_pointer: value.instruction_pointer as u64,
            stack_pointer: value.stack_pointer as u64,
            module_base: widen(value.module_base),
            resolved_symbols,
        }
    }
}

impl BackTrace {
    pub fn from_record(value: &storage::BackTrace) -> (wire: Self)
        ensures
            back_trace_encodes(wire, *value),
    {
        let mut frames: Vec<BackTraceFrame> = Vec::new();
        let mut i: usize = 0;
        while i < value.frames.len()
            invariant
                i <= value.frames@.len(),
                frames@.len() == i,
                forall|j: int|
                    0 <= j < i ==> frame_encodes(#[trigger] frames@[j], value.frames@[j]),
            decreases value.frames@.len() - i,
        {
            frames.push(BackTraceFrame::from_record(&value.frames[i]));
            i += 1;
        }
        Self { frames }
    }
}

impl Allocation {
    pub fn from_record(value: &storage::Allocation) -> (wire: Self)
        ensures
            allocation_encodes(wire, *value),
    {
        let stack_trace = match &value.stack_trace {
            Some(trace) => Some(StackTrace::from_record(trace)),
            None => None,
        };
        let back_trace = match &value.back_trace {
            Some(trace) => Some(BackTrace::from_record(trace)),
            None => None,
        };
        Self {
            base_address: value.base_address as u64,
            size: value.size as u64,
            heap_handle: value.heap_handle as u64,
            stack_trace,
            back_trace,
        }
    }
}

/// Writes each record of `found` for the wire, keeping the order.
pub fn encode_allocations(found: &Vec<&storage::Allocation>) -> (wire: Vec<Allocation>)
    ensures
        allocations_encode(wire@, found@.unref()),
{
    let mut wire: Vec<Allocation> = Vec::new();
    let mut i: usize = 0;
    while i < found.len()
        invariant
            i <= found@.len(),
            wire@.len() == i,
            forall|j: int| 0 <= j < i ==> allocation_encodes(#[trigger] wire@[j], *found@[j]),
        decreases found@.len() - i,
    {
        wire.push(Allocation::from_record(found[i]));
        i += 1;
    }
    wire
}

} // verus!
