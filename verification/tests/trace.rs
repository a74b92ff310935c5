use allocation_catcher::storage::{BackTraceFrame, BackTraceSymbol};
use allocation_catcher::trace::{create_back_trace, FrameCollector, SymbolCollector};

fn frame(ip: usize) -> BackTraceFrame {
    BackTraceFrame {
        instruction_pointer: ip,
        stack_pointer: 0,
        module_base: None,
        resolved_symbols: Vec::new(),
    }
}

fn ips(frames: &[BackTraceFrame]) -> Vec<usize> {
    frames.iter().map(|f| f.instruction_pointer).collect()
}

#[test]
fn walk_skips_then_keeps_up_to_count() {
    let mut collector = FrameCollector::new(2, 3, 0);
    assert!(!collector.wants_frame());
    assert!(collector.offer(frame(1)));
    assert!(collector.offer(frame(2)));
    assert!(collector.wants_frame());
    assert!(collector.offer(frame(3)));
    assert!(collector.offer(frame(4)));
    assert!(!collector.offer(frame(5)));
    assert!(!collector.wants_frame());
    assert!(!collector.offer(frame(6)));
    assert_eq!(ips(&collector.into_frames()), vec![3, 4, 5]);
}

#[test]
fn walk_that_ends_early_keeps_what_there_was() {
    let mut collector = FrameCollector::new(1, 10, 0);
    assert!(collector.offer(frame(1)));
    assert!(collector.offer(frame(2)));
    assert_eq!(ips(&collector.into_frames()), vec![2]);
    let mut collector = FrameCollector::new(5, 10, 0);
    assert!(collector.offer(frame(1)));
    assert!(collector.into_frames().is_empty());
}

#[test]
fn symbols_are_cut_off_at_the_limit() {
    let mut symbols = SymbolCollector::new(2);
    assert!(symbols.has_room());
    symbols.push(BackTraceSymbol { name: Some("a".to_owned()), address: Some(1) });
    symbols.push(BackTraceSymbol { name: Some("b".to_owned()), address: None });
    assert!(!symbols.has_room());
    symbols.push(BackTraceSymbol { name: Some("c".to_owned()), address: Some(3) });
    let kept = symbols.into_symbols();
    assert_eq!(kept.len(), 2);
    assert_eq!(kept[0].name.as_deref(), Some("a"));
    assert_eq!(kept[0].address, Some(1));
    assert_eq!(kept[1].name.as_deref(), Some("b"));
    let mut none = SymbolCollector::new(0);
    none.push(BackTraceSymbol { name: None, address: None });
    assert!(none.into_symbols().is_empty());
}

#[test]
fn back_trace_of_the_caller_stays_within_its_limits() {
    assert!(create_back_trace(0, 0, 3).is_none());
    assert!(create_back_trace(5, 0, 0).is_none());
    let trace = create_back_trace(0, 4, 0).expect("frames are wanted");
    assert!(!trace.frames.is_empty());
    assert!(trace.frames.len() <= 4);
    for frame in &trace.frames {
        assert_ne!(frame.instruction_pointer, 0);
        assert!(frame.resolved_symbols.is_empty());
    }
    let one = create_back_trace(0, 1, 2).expect("frames are wanted");
    assert_eq!(one.frames.len(), 1);
    assert!(one.frames[0].resolved_symbols.len() <= 2);
    let far = create_back_trace(100_000, 4, 0).expect("frames are wanted");
    assert!(far.frames.is_empty());
}

#[test]
fn back_trace_skips_the_innermost_frames() {
    let whole = create_back_trace(0, 64, 0).expect("frames are wanted");
    let tail = create_back_trace(2, 64, 0).expect("frames are wanted");
    assert!(whole.frames.len() >= 3);
    assert!(tail.frames.len() + 2 >= whole.frames.len().min(64));
    assert!(tail.frames.len() <= whole.frames.len());
}

#[test]
fn back_trace_resolves_symbols_of_kept_frames() {
    let trace = create_back_trace(0, 32, 3).expect("frames are wanted");
    assert!(!trace.frames.is_empty());
    let resolved: usize = trace.frames.iter().map(|f| f.resolved_symbols.len()).sum();
    assert!(resolved > 0);
    for frame in &trace.frames {
        assert!(frame.resolved_symbols.len() <= 3);
    }
    let named = trace
        .frames
        .iter()
        .flat_map(|f| f.resolved_symbols.iter())
        .filter(|s| s.name.as_deref().map(|n| !n.is_empty()).unwrap_or(false))
        .count();
    assert!(named > 0);
}
