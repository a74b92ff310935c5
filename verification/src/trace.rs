//! Capturing the back trace of the current call chain.
//!
//! Walking the stack and resolving symbols is the `backtrace` crate's work.
//! Which frames are kept, and how many symbols of each, is decided here.

use crate::storage::{BackTrace, BackTraceFrame, BackTraceSymbol};
use backtrace::{Frame, Symbol, SymbolName};
use vstd::prelude::*;

verus! {

/// `backtrace::Frame`: one frame of a walk. Nothing inside it is known here.
#[verifier::external_type_specification]
#[verifier::external_body]
pub struct ExFrame(Frame);

/// `backtrace::Symbol`: one symbol that the resolver reports. Nothing
/// inside it is known here.
#[verifier::external_type_specification]
#[verifier::external_body]
pub struct ExSymbol(Symbol);

/// `backtrace::SymbolName`: the name of a symbol, as the resolver holds
/// it. Nothing inside it is known here.
#[verifier::external_type_specification]
#[verifier::external_body]
pub struct ExSymbolName<'a>(SymbolName<'a>);

/// `Frame::ip`: the frame's instruction pointer, as a number. Nothing is
/// claimed of its value.
#[verifier::external_body]
fn frame_instruction_pointer(frame: &Frame) -> usize {
    frame.ip() as usize
}

/// `Frame::sp`: the frame's stack pointer, as a number; null where the
/// platform cannot tell. Nothing is claimed of its value.
#[verifier::external_body]
fn frame_stack_pointer(frame: &Frame) -> usize {
    frame.sp() as usize
}

/// `Frame::module_base_address`: the base of the module that the frame
/// belongs to, as a number. Nothing is claimed of its value.
#[verifier::external_body]
fn frame_module_base(frame: &Frame) -> Option<usize> {
    frame.module_base_address().map(|address| address as usize)
}

/// `Symbol::name`: the symbol's name, where it has one.
#[verifier::external_body]
fn symbol_name<'a>(symbol: &'a Symbol) -> Option<SymbolName<'a>> {
    symbol.name()
}

/// `SymbolName::as_str`: the name as text, where it is valid UTF-8.
#[verifier::external_body]
fn symbol_name_text<'a>(name: &SymbolName<'a>) -> Option<&'a str> {
    name.as_str()
}

/// `Symbol::addr`: the address at which the symbol starts, as a number.
/// Nothing is claimed of its value.
#[verifier::external_body]
fn symbol_address(symbol: &Symbol) -> Option<usize> {
    symbol.addr().map(|address| address as usize)
}

/// The symbols resolved for one frame, cut off at a limit.
pub struct SymbolCollector {
    limit: usize,
    symbols: Vec<BackTraceSymbol>,
}

impl SymbolCollector {
    /// The largest number of symbols kept.
    pub closed spec fn limit(&self) -> usize {
        self.limit
    }

    /// The symbols kept so far, in the order in which they were reported.
    pub closed spec fn symbols(&self) -> Seq<BackTraceSymbol> {
        self.symbols@
    }

    /// No more symbols are kept than the limit allows.
    pub open spec fn wf(&self) -> bool {
        self.symbols().len() <= self.limit()
    }

    /// This collector came about from `earlier` by reports of further
    /// symbols: what `earlier` held is still there, in front.
    pub open spec fn extends(&self, earlier: SymbolCollector) -> bool {
        &&& self.limit() == earlier.limit()
        &&& self.wf()
        &&& earlier.symbols().is_prefix_of(self.symbols())
    }

    /// An empty collector that keeps `limit` symbols at most.
    pub fn new(limit: usize) -> (collector: Self)
        ensures
            collector.limit() == limit,
            collector.symbols() == Seq::<BackTraceSymbol>::empty(),
            collector.wf(),
    {
        Self { limit, symbols: Vec::new() }
    }

    /// Whether a further symbol would still be kept.
    pub fn has_room(&self) -> (room: bool)
        ensures
            room == (self.symbols().len() < self.limit()),
    {
        self.symbols.len() < self.limit
    }

    /// Takes note of `symbol`: keeps it while there is room, drops it after.
    pub fn push(&mut self, symbol: BackTraceSymbol)
        ensures
            final(self).limit() == old(self).limit(),
            final(self).symbols() == if old(self).symbols().len() < old(self).limit() {
                old(self).symbols().push(symbol)
            } else {
                old(self).symbols()
            },
    {
        if self.symbols.len() < self.limit {
            self.symbols.push(symbol);
        }
    }

    /// Takes note of a symbol that the resolver reports: while there is
    /// room, the symbol is kept behind those already held, with its name and
    /// address as the resolver gives them; after that, nothing changes. Name
    /// and address are read only while there is room.
    fn visit(&mut self, symbol: &Symbol)
        requires
            old(self).wf(),
        ensures
            final(self).extends(*old(self)),
            final(self).symbols() == if old(self).symbols().len() < old(self).limit() {
                old(self).symbols().push(final(self).symbols().last())
            } else {
                old(self).symbols()
            },
    {
        if self.has_room() {
            let name = match symbol_name(symbol) {
                Some(name) => match symbol_name_text(&name) {
                    Some(text) => Some(text.to_owned()),
                    None => None,
                },
                None => None,
            };
            self.push(BackTraceSymbol { name, address: symbol_address(symbol) });
        }
    }

    /// The symbols kept.
    pub fn into_symbols(self) -> (symbols: Vec<BackTraceSymbol>)
        ensures
            symbols@ == self.symbols(),
    {
        self.symbols
    }
}

/// `backtrace::resolve_frame`: reports the symbols of `frame` to the
/// collector, one call of `visit` for each, in the resolver's order. How
/// many there are depends on the process and its debug information, so the
/// contract states only what every run of reports preserves: the collector's
/// limit and what it already held.
#[verifier::external_body]
fn resolve_frame(frame: &Frame, collector: &mut SymbolCollector)
    requires
        old(collector).wf(),
    ensures
        final(collector).extends(*old(collector)),
{
    backtrace::resolve_frame(frame, |symbol| collector.visit(symbol));
}

/// The frames of a walk as plain values: how many are still to be skipped,
/// how many are wanted, and those kept so far.
pub struct FrameCollectorView {
    pub skip: nat,
    pub count: nat,
    pub frames: Seq<BackTraceFrame>,
}

/// The collector after the walk came upon one more frame, `frame`: a frame
/// still to be skipped is counted off, a wanted one is kept, and one beyond
/// the wanted number is dropped.
pub open spec fn after_frame(c: FrameCollectorView, frame: BackTraceFrame) -> FrameCollectorView {
    if c.skip > 0 {
        FrameCollectorView { skip: (c.skip - 1) as nat, ..c }
    } else if c.frames.len() < c.count {
        FrameCollectorView { frames: c.frames.push(frame), ..c }
    } else {
        c
    }
}

/// The collector after the walk came upon the frames of `walk`, in order.
pub open spec fn after_frames(c: FrameCollectorView, walk: Seq<BackTraceFrame>) -> FrameCollectorView
    decreases walk.len(),
{
    if walk.len() == 0 {
        c
    } else {
        after_frame(after_frames(c, walk.drop_last()), walk.last())
    }
}

/// The frames of one walk: the first `skip` are left out, the next `count`
/// are kept.
pub struct FrameCollector {
    skip: usize,
    count: usize,
    symbols_limit: usize,
    frames: Vec<BackTraceFrame>,
}

impl View for FrameCollector {
    type V = FrameCollectorView;

    closed spec fn view(&self) -> FrameCollectorView {
        FrameCollectorView {
            skip: self.skip as nat,
            count: self.count as nat,
            frames: self.frames@,
        }
    }
}

/// Every frame of `frames` has `limit` symbols at most.
pub open spec fn symbols_within(frames: Seq<BackTraceFrame>, limit: usize) -> bool {
    forall|i: int| 0 <= i < frames.len() ==> (#[trigger] frames[i]).resolved_symbols@.len() <= limit
}

impl FrameCollector {
    /// The largest number of symbols resolved for a frame.
    pub closed spec fn symbols_limit(&self) -> usize {
        self.symbols_limit
    }

    /// No more frames are kept than wanted, and none has more symbols than
    /// the limit allows.
    pub open spec fn wf(&self) -> bool {
        &&& self@.frames.len() <= self@.count
        &&& symbols_within(self@.frames, self.symbols_limit())
    }

    /// This collector came about from `earlier` by a walk over further
    /// frames: what `earlier` held is still there, in front.
    pub open spec fn extends(&self, earlier: FrameCollector) -> bool {
        &&& self@.count == earlier@.count
        &&& self.symbols_limit() == earlier.symbols_limit()
        &&& self@.skip <= earlier@.skip
        &&& self.wf()
        &&& earlier@.frames.is_prefix_of(self@.frames)
    }

    /// A collector at the start of a walk.
    pub fn new(skip: usize, count: usize, symbols_limit: usize) -> (collector: Self)
        ensures
            collector@ == (FrameCollectorView {
                skip: skip as nat,
                count: count as nat,
                frames: Seq::empty(),
            }),
            collector.symbols_limit() == symbols_limit,
            collector.wf(),
    {
        Self { skip, count, symbols_limit, frames: Vec::new() }
    }

    /// Whether the next frame of the walk would be kept.
    pub fn wants_frame(&self) -> (wanted: bool)
        ensures
            wanted == (self@.skip == 0 && self@.frames.len() < self@.count),
    {
        self.skip == 0 && self.frames.len() < self.count
    }

    /// Takes note of the next frame of the walk, and says whether the walk is
    /// to go on: while fewer frames are kept than wanted.
    pub fn offer(&mut self, frame: BackTraceFrame) -> (go_on: bool)
        ensures
            final(self)@ == after_frame(old(self)@, frame),
            final(self).symbols_limit() == old(self).symbols_limit(),
            go_on == (final(self)@.frames.len() < final(self)@.count),
    {
        if self.skip > 0 {
            self.skip = self.skip - 1;
        } else if self.frames.len() < self.count {
            self.frames.push(frame);
        }
        self.frames.len() < self.count
    }

    /// Counts off a frame that is not kept, and says whether the walk is to
    /// go on.
    fn pass(&mut self) -> (go_on: bool)
        requires
            !(old(self)@.skip == 0 && old(self)@.frames.len() < old(self)@.count),
        ensures
            final(self)@ == (FrameCollectorView {
                skip: if old(self)@.skip > 0 {
                    (old(self)@.skip - 1) as nat
                } else {
                    0
                },
                ..old(self)@
            }),
            final(self).symbols_limit() == old(self).symbols_limit(),
            go_on == (final(self)@.frames.len() < final(self)@.count),
    {
        if self.skip > 0 {
            self.skip = self.skip - 1;
        }
        self.frames.len() < self.count
    }

    /// Takes note of a frame that the walk came upon, and says whether the
    /// walk is to go on: while fewer frames are kept than wanted. A frame
    /// still to be skipped is counted off, a wanted one is kept behind those
    /// already held, with its pointers and symbols as the walk gives them,
    /// and one beyond the wanted number is dropped. Pointers and symbols are
    /// read only when the frame is kept.
    fn visit(&mut self, frame: &Frame) -> (go_on: bool)
        requires
            old(self).wf(),
        ensures
            final(self).extends(*old(self)),
            final(self)@ == after_frame(old(self)@, final(self)@.frames.last()),
            go_on == (final(self)@.frames.len() < final(self)@.count),
    {
        if self.wants_frame() {
            let resolved_symbols = if self.symbols_limit > 0 {
                let mut symbols = SymbolCollector::new(self.symbols_limit);
                resolve_frame(frame, &mut symbols);
                symbols.into_symbols()
            } else {
                Vec::new()
            };
            let kept = BackTraceFrame {
                instruction_pointer: frame_instruction_pointer(frame),
                stack_pointer: frame_stack_pointer(frame),
                module_base: frame_module_base(frame),
                resolved_symbols,
            };
            let go_on = self.offer(kept);
            assert(self@.frames == old(self)@.frames.push(kept));
            assert forall|i: int| 0 <= i < self@.frames.len() implies (#[trigger] self@.frames[i]).resolved_symbols@.len()
                <= self.symbols_limit() by {
                if i < old(self)@.frames.len() {
                    assert(self@.frames[i] == old(self)@.frames[i]);
                }
            }
            go_on
        } else {
            self.pass()
        }
    }

    /// The frames kept.
    pub fn into_frames(self) -> (frames: Vec<BackTraceFrame>)
        ensures
            frames@ == self@.frames,
    {
        self.frames
    }
}

/// `backtrace::trace`: walks the frames of the current call chain, innermost
/// first, with one call of `visit` for each, until `visit` returns false or
/// the chain ends. Which frames there are depends on the process, so the
/// contract states only what every walk preserves: the collector's limits
/// and what it already held, with at most as many frames left to skip.
#[verifier::external_body]
fn trace(collector: &mut FrameCollector)
    requires
        old(collector).wf(),
    ensures
        final(collector).extends(*old(collector)),
{
    backtrace::trace(|frame| collector.visit(frame));
}

/// `trace` has `count` frames at most, each with `symbols_limit` symbols
/// at most.
pub open spec fn back_trace_within(trace: BackTrace, count: usize, symbols_limit: usize) -> bool {
    &&& trace.frames@.len() <= count
    &&& symbols_within(trace.frames@, symbols_limit)
}

/// The part of a back trace configuration that `trace` meets: none when no
/// frame is wanted, else a trace within the limits.
pub open spec fn back_trace_meets(
    trace: Option<BackTrace>,
    count: usize,
    symbols_limit: usize,
) -> bool {
    match trace {
        None => count == 0,
        Some(trace) => count > 0 && back_trace_within(trace, count, symbols_limit),
    }
}

/// Captures the back trace of the caller: leaves out the innermost `skip`
/// frames, then keeps up to `count` frames, each with up to
/// `resolve_symbols_count` resolved symbols. `None` when no frame is wanted.
pub fn create_back_trace(skip: usize, count: usize, resolve_symbols_count: usize) -> (back_trace:
    Option<BackTrace>)
    ensures
        back_trace_meets(back_trace, count, resolve_symbols_count),
{
    if count == 0 {
        return None;
    }
    let mut collector = FrameCollector::new(skip, count, resolve_symbols_count);
    trace(&mut collector);
    Some(BackTrace { frames: collector.into_frames() })
}

/// The smaller of two numbers.
pub open spec fn least(a: int, b: int) -> int {
    if a <= b {
        a
    } else {
        b
    }
}

/// A walk keeps a window of the frames it comes upon: it leaves out the
/// first `skip` of them and keeps the `count` that follow, or as many as
/// there are. Frames beyond the window change nothing, so it makes no
/// difference where the walk stops once the window is full.
pub proof fn law_walk_keeps_window(skip: nat, count: nat, walk: Seq<BackTraceFrame>)
    ensures
        after_frames(FrameCollectorView { skip, count, frames: Seq::empty() }, walk).frames
            == walk.subrange(
            least(skip as int, walk.len() as int),
            least((skip + count) as int, walk.len() as int),
        ),
        after_frames(FrameCollectorView { skip, count, frames: Seq::empty() }, walk).skip == skip
            - least(skip as int, walk.len() as int),
        after_frames(FrameCollectorView { skip, count, frames: Seq::empty() }, walk).count
            == count,
    decreases walk.len(),
{
    let start = FrameCollectorView { skip, count, frames: Seq::empty() };
    if walk.len() == 0 {
        assert(after_frames(start, walk).frames =~= walk.subrange(0, 0));
    } else {
        let before = walk.drop_last();
        law_walk_keeps_window(skip, count, before);
        let n = before.len() as int;
        let mid = after_frames(start, before);
        let end = after_frame(mid, walk.last());
        assert(after_frames(start, walk) == end);
        assert(mid.frames == before.subrange(least(skip as int, n), least((skip + count) as int, n)));
        assert(end.frames =~= walk.subrange(
            least(skip as int, n + 1),
            least((skip + count) as int, n + 1),
        ));
    }
}

} // verus!
