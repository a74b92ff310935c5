use allocation_catcher::detour::{
    allocation_event, deallocation_event, reallocation_event, AllocationHandler, Base,
};
use allocation_catcher::handler::{
    complete_stack_trace, create_stack_request, create_stack_trace, StorageAllocationHandler,
};
use allocation_catcher::packet::PacketId;
use allocation_catcher::proto;
use allocation_catcher::server::{Request, Response, SimpleServer};
use allocation_catcher::state::{Configuration, State};
use allocation_catcher::storage::{
    Allocation, AllocationsStorage, BackTrace, BackTraceFrame, BackTraceSymbol, BtreeMapStorage,
    StackTrace,
};

fn record(base_address: usize) -> Allocation {
    Allocation { base_address, size: 16, heap_handle: 3, stack_trace: None, back_trace: None }
}

fn seeded() -> State<BtreeMapStorage> {
    let mut storage = BtreeMapStorage::new();
    storage.store(record(0x1000));
    storage.store(record(0x2000));
    storage.store(record(0x3000));
    State::new(Configuration::default(), storage)
}

fn base() -> Base {
    Base {
        heap_handle: 0x77,
        return_address: Some(0x4010),
        address_of_return_address: Some(0x7000),
        stack_frame_address: Some(0x7100),
    }
}

fn find(state: &mut State<BtreeMapStorage>, records: Vec<proto::FindRecord>) -> Option<Vec<proto::FoundAllocation>> {
    match SimpleServer::new().request_inner(state, Request::Find(proto::FindRequest { records })) {
        Some(Response::Find(response)) => Some(response.allocations),
        Some(other) => panic!("wrong kind of response: {:?}", other),
        None => None,
    }
}

fn bases(found: &proto::FoundAllocation) -> Vec<u64> {
    found.allocations.iter().map(|a| a.base_address).collect()
}

fn address(id: u64, address: u64) -> proto::FindRecord {
    proto::FindRecord {
        id,
        filter: Some(proto::Filter { location: Some(proto::Location::Address(address)) }),
    }
}

fn range(id: u64, lower: u64, upper: u64) -> proto::FindRecord {
    proto::FindRecord {
        id,
        filter: Some(proto::Filter {
            location: Some(proto::Location::Range(proto::Range { lower, upper })),
        }),
    }
}

fn statistics(state: &mut State<BtreeMapStorage>) -> proto::Statistics {
    match SimpleServer::new()
        .request_inner(state, Request::GetStatistics(proto::GetStatisticsRequest {}))
    {
        Some(Response::GetStatistics(r)) => r.statistics.expect("statistics are present"),
        other => panic!("wrong response: {:?}", other),
    }
}

#[test]
fn ping_echoes_the_number() {
    let mut state = seeded();
    let response = SimpleServer::new()
        .request_inner(&mut state, Request::Ping(proto::PingRequest { num: 0xDEAD_BEEF }));
    match response {
        Some(Response::Ping(pong)) => {
            assert_eq!(pong.version, 1);
            assert_eq!(pong.num, 0xDEAD_BEEF);
            assert_eq!(pong.wordsize as usize, std::mem::size_of::<usize>());
        }
        other => panic!("wrong response: {:?}", other),
    }
    assert_eq!(state.storage().count(), 3);
}

#[test]
fn point_find_miss_on_empty_store() {
    let mut state = State::new(Configuration::default(), BtreeMapStorage::new());
    let found = find(&mut state, vec![address(7, 0x1000)]).expect("served");
    assert_eq!(found.len(), 1);
    assert_eq!(found[0].id, 7);
    assert!(found[0].allocations.is_empty());
}

#[test]
fn point_find_hit() {
    let mut state = seeded();
    let found = find(&mut state, vec![address(1, 0x2000), address(2, 0x2001)]).expect("served");
    assert_eq!(found.len(), 2);
    assert_eq!(found[0].id, 1);
    assert_eq!(bases(&found[0]), vec![0x2000]);
    assert_eq!(found[0].allocations[0].size, 16);
    assert_eq!(found[0].allocations[0].heap_handle, 3);
    assert_eq!(found[1].id, 2);
    assert!(found[1].allocations.is_empty());
}

#[test]
fn range_find() {
    let mut state = seeded();
    let found = find(&mut state, vec![range(0, 0x1500, 0x2500)]).expect("served");
    assert_eq!(found.len(), 1);
    assert_eq!(bases(&found[0]), vec![0x2000]);
    let found = find(&mut state, vec![range(0, 0x1000, 0x3000)]).expect("served");
    assert_eq!(bases(&found[0]), vec![0x1000, 0x2000]);
}

#[test]
fn inverted_range_is_empty_without_error() {
    let mut state = seeded();
    let found = find(&mut state, vec![range(4, 0x3000, 0x1000)]).expect("served");
    assert_eq!(found.len(), 1);
    assert_eq!(found[0].id, 4);
    assert!(found[0].allocations.is_empty());
}

#[test]
fn find_without_filter_dumps_in_ascending_order() {
    let mut state = seeded();
    let found =
        find(&mut state, vec![proto::FindRecord { id: 9, filter: None }]).expect("served");
    assert_eq!(found.len(), 1);
    assert_eq!(found[0].id, 9);
    assert_eq!(bases(&found[0]), vec![0x1000, 0x2000, 0x3000]);
}

#[test]
fn find_answers_keep_the_order_and_ids_of_the_queries() {
    let mut state = seeded();
    let found = find(
        &mut state,
        vec![
            range(30, 0x2000, 0x4000),
            proto::FindRecord { id: 10, filter: None },
            address(20, 0x1000),
        ],
    )
    .expect("served");
    assert_eq!(found.iter().map(|f| f.id).collect::<Vec<_>>(), vec![30, 10, 20]);
    assert_eq!(bases(&found[0]), vec![0x2000, 0x3000]);
    assert_eq!(bases(&found[1]), vec![0x1000, 0x2000, 0x3000]);
    assert_eq!(bases(&found[2]), vec![0x1000]);
    assert_eq!(find(&mut state, vec![]).expect("served").len(), 0);
}

#[test]
fn filter_without_location_is_refused() {
    let mut state = seeded();
    let bad = proto::FindRecord { id: 1, filter: Some(proto::Filter { location: None }) };
    assert!(find(&mut state, vec![bad]).is_none());
    assert!(find(&mut state, vec![address(0, 0x1000), bad]).is_none());
    assert!(find(&mut state, vec![bad, address(0, 0x1000)]).is_none());
    assert_eq!(state.storage().count(), 3);
    let server = SimpleServer::new();
    assert!(server.handle_find(&state, &proto::FindRequest { records: vec![bad] }).is_none());
    assert!(server.handle_find(&state, &proto::FindRequest { records: vec![] }).is_some());
}

#[test]
fn configuration_is_zero_at_start_and_follows_set() {
    let mut state = State::new(Configuration::default(), BtreeMapStorage::new());
    let server = SimpleServer::new();
    match server
        .request_inner(&mut state, Request::GetConfiguration(proto::GetConfigurationRequest {}))
    {
        Some(Response::GetConfiguration(r)) => assert_eq!(
            r.configuration,
            Some(proto::Configuration {
                stack_trace_offset: 0,
                stack_trace_size: 0,
                backtrace_frames_skip: 0,
                backtrace_frames_count: 0,
                backtrace_resolve_symbols_count: 0,
            })
        ),
        other => panic!("wrong response: {:?}", other),
    }
    let wanted = proto::Configuration {
        stack_trace_offset: 2,
        stack_trace_size: 8,
        backtrace_frames_skip: 1,
        backtrace_frames_count: 16,
        backtrace_resolve_symbols_count: 1,
    };
    let response = server.request_inner(
        &mut state,
        Request::SetConfiguration(proto::SetConfigurationRequest { configuration: Some(wanted) }),
    );
    assert!(matches!(response, Some(Response::SetConfiguration(_))));
    assert_eq!(state.get_configuration().stack_trace_size, 8);
    match server
        .request_inner(&mut state, Request::GetConfiguration(proto::GetConfigurationRequest {}))
    {
        Some(Response::GetConfiguration(r)) => assert_eq!(r.configuration, Some(wanted)),
        other => panic!("wrong response: {:?}", other),
    }
}

#[test]
fn set_configuration_without_a_configuration_is_refused() {
    let mut state = seeded();
    let mut configuration = Configuration::default();
    configuration.stack_trace_size = 5;
    state.set_configuration(configuration);
    let response = SimpleServer::new().request_inner(
        &mut state,
        Request::SetConfiguration(proto::SetConfigurationRequest { configuration: None }),
    );
    assert!(response.is_none());
    assert_eq!(state.get_configuration().stack_trace_size, 5);
}

#[test]
fn clear_storage_empties_the_store_and_keeps_the_counters() {
    let mut state = seeded();
    state.lock_statistics().total_allocations = 3;
    let response = SimpleServer::new()
        .request_inner(&mut state, Request::ClearStorage(proto::ClearStorageRequest {}));
    assert!(matches!(response, Some(Response::ClearStorage(_))));
    assert_eq!(state.storage().count(), 0);
    let s = statistics(&mut state);
    assert_eq!(s.total_allocations, 3);
    assert_eq!(s.allocated, 0);
}

#[test]
fn statistics_count_every_event() {
    let mut handler =
        StorageAllocationHandler::new(State::new(Configuration::default(), BtreeMapStorage::new()));
    // Five successful allocations, one failed.
    for i in 1..=5usize {
        handler.on_allocation(allocation_event(base(), 8, i * 0x100), None);
    }
    handler.on_allocation(allocation_event(base(), 8, 0), None);
    // Three successful frees, one of a block that was never recorded, and a failed one.
    handler.on_deallocation(deallocation_event(base(), 0x100, 1));
    handler.on_deallocation(deallocation_event(base(), 0x200, 1));
    handler.on_deallocation(deallocation_event(base(), 0x900, 1));
    handler.on_deallocation(deallocation_event(base(), 0x300, 0));
    // A block freed twice is unknown the second time.
    handler.on_deallocation(deallocation_event(base(), 0x100, 1));
    let s = statistics(handler.state_mut());
    assert_eq!(
        s,
        proto::Statistics {
            total_allocations: 5,
            total_reallocations: 0,
            total_deallocations: 4,
            total_deallocations_non_allocated: 2,
            allocated: 3,
        }
    );
}

#[test]
fn reset_statistics_then_get_statistics() {
    let mut handler =
        StorageAllocationHandler::new(State::new(Configuration::default(), BtreeMapStorage::new()));
    handler.on_allocation(allocation_event(base(), 8, 0x100), None);
    handler.on_allocation(allocation_event(base(), 8, 0x200), None);
    handler.on_deallocation(deallocation_event(base(), 0x300, 1));
    handler.on_reallocation(reallocation_event(base(), 0x100, 16, 0x400), None);
    let response = SimpleServer::new()
        .request_inner(handler.state_mut(), Request::ResetStatistics(proto::ResetStatisticsRequest {}));
    assert!(matches!(response, Some(Response::ResetStatistics(_))));
    assert_eq!(
        statistics(handler.state_mut()),
        proto::Statistics {
            total_allocations: 0,
            total_reallocations: 0,
            total_deallocations: 0,
            total_deallocations_non_allocated: 0,
            allocated: 2,
        }
    );
}

#[test]
fn reallocation_moves_the_record() {
    let mut handler =
        StorageAllocationHandler::new(State::new(Configuration::default(), BtreeMapStorage::new()));
    handler.on_allocation(allocation_event(base(), 8, 0x100), None);
    handler.on_reallocation(reallocation_event(base(), 0x100, 64, 0x500), None);
    assert!(handler.state().storage().find(0x100).is_none());
    let moved = handler.state().storage().find(0x500).expect("new record");
    assert_eq!(moved.size, 64);
    assert_eq!(moved.heap_handle, 0x77);
    assert_eq!(handler.state().statistics().total_reallocations, 1);
    assert_eq!(handler.state().statistics().total_allocations, 1);
    assert_eq!(handler.state().storage().count(), 1);

    // In place: the record is replaced.
    handler.on_reallocation(reallocation_event(base(), 0x500, 128, 0x500), None);
    assert_eq!(handler.state().storage().find(0x500).unwrap().size, 128);
    assert_eq!(handler.state().storage().count(), 1);
    assert_eq!(handler.state().statistics().total_reallocations, 2);

    // Of a block that was never recorded: the new record comes all the same.
    handler.on_reallocation(reallocation_event(base(), 0x900, 32, 0x600), None);
    assert_eq!(handler.state().storage().count(), 2);
    assert_eq!(handler.state().statistics().total_reallocations, 3);

    // Failed: nothing changes.
    handler.on_reallocation(reallocation_event(base(), 0x600, 32, 0), None);
    assert!(handler.state().storage().find(0x600).is_some());
    assert_eq!(handler.state().statistics().total_reallocations, 3);
}

#[test]
fn counters_stop_at_the_largest_value() {
    let mut state = State::new(Configuration::default(), BtreeMapStorage::new());
    state.lock_statistics().total_allocations = usize::MAX;
    state.lock_statistics().total_deallocations = usize::MAX - 1;
    let mut handler = StorageAllocationHandler::new(state);
    handler.on_allocation(allocation_event(base(), 8, 0x100), None);
    handler.on_deallocation(deallocation_event(base(), 0x100, 1));
    handler.on_deallocation(deallocation_event(base(), 0x100, 1));
    assert_eq!(handler.state().statistics().total_allocations, usize::MAX);
    assert_eq!(handler.state().statistics().total_deallocations, usize::MAX);
    assert_eq!(handler.state().statistics().total_deallocations_non_allocated, 1);
}

#[test]
fn allocation_is_recorded_with_the_traces_that_are_configured() {
    let mut configuration = Configuration::default();
    configuration.stack_trace_size = 8;
    configuration.backtrace_frames_count = 16;
    configuration.backtrace_resolve_symbols_count = 1;
    let mut handler =
        StorageAllocationHandler::new(State::new(configuration, BtreeMapStorage::new()));
    let request = handler.stack_request(&base()).expect("a snapshot is wanted");
    assert_eq!(request.address, 0x7000);
    assert_eq!(request.size, 8);
    let snapshot = complete_stack_trace(request, vec![1, 2, 3, 4, 5, 6, 7, 8]);
    handler.on_allocation(allocation_event(base(), 40, 0xA000), Some(snapshot));
    let stored = handler.state().storage().find(0xA000).expect("recorded");
    assert_eq!(stored.size, 40);
    assert_eq!(stored.heap_handle, 0x77);
    let stack = stored.stack_trace.as_ref().expect("stack snapshot");
    assert_eq!(stack.base, 0x7000);
    assert_eq!(stack.trace, vec![1, 2, 3, 4, 5, 6, 7, 8]);
    let back = stored.back_trace.as_ref().expect("back trace");
    assert!(back.frames.len() <= 16);
    assert!(!back.frames.is_empty());
    for frame in &back.frames {
        assert!(frame.resolved_symbols.len() <= 1);
    }
}

#[test]
fn allocation_without_tracing_has_no_traces() {
    let mut handler =
        StorageAllocationHandler::new(State::new(Configuration::default(), BtreeMapStorage::new()));
    assert!(handler.stack_request(&base()).is_none());
    handler.on_allocation(allocation_event(base(), 40, 0xA000), None);
    let stored = handler.state().storage().find(0xA000).expect("recorded");
    assert!(stored.stack_trace.is_none());
    assert!(stored.back_trace.is_none());
}

#[test]
fn stack_request_starts_offset_words_above_the_base() {
    let word = std::mem::size_of::<usize>();
    let r = create_stack_trace(0x7000, 8, 0).unwrap();
    assert_eq!((r.address, r.size), (0x7000, 8));
    let r = create_stack_trace(0x7000, 3, 4).unwrap();
    assert_eq!((r.address, r.size), (0x7000 + 4 * word, 3));
    assert!(create_stack_trace(0x7000, 0, 4).is_none());
    assert!(create_stack_trace(usize::MAX, 1, 1).is_none());
    assert!(create_stack_trace(0x7000, 1, usize::MAX).is_none());
    let r = create_stack_trace(usize::MAX - 2 * word, 1, 1).unwrap();
    assert_eq!((r.address, r.size), (usize::MAX - word, 1));
    assert!(create_stack_trace(usize::MAX - 2 * word, 2, 1).is_none());
    assert!(create_stack_trace(usize::MAX - word, 1, 1).is_none());
    assert!(create_stack_trace(0x7000, usize::MAX, 0).is_none());
}

#[test]
fn stack_base_prefers_the_address_of_the_return_address() {
    let mut configuration = Configuration::default();
    configuration.stack_trace_size = 2;
    assert_eq!(create_stack_request(&base(), &configuration).unwrap().address, 0x7000);
    let mut b = base();
    b.address_of_return_address = None;
    assert_eq!(create_stack_request(&b, &configuration).unwrap().address, 0x7100);
    b.stack_frame_address = None;
    assert!(create_stack_request(&b, &configuration).is_none());
    let mut b = base();
    b.address_of_return_address = Some(0);
    assert!(create_stack_request(&b, &configuration).is_none());
    assert!(create_stack_request(&base(), &Configuration::default()).is_none());
}

#[test]
fn records_are_written_for_the_wire() {
    let allocation = Allocation {
        base_address: 0x1234,
        size: 0x40,
        heap_handle: 0x99,
        stack_trace: Some(StackTrace { base: 0x7000, trace: vec![0x11, 0x22] }),
        back_trace: Some(BackTrace {
            frames: vec![
                BackTraceFrame {
                    instruction_pointer: 0x401000,
                    stack_pointer: 0x7008,
                    module_base: Some(0x400000),
                    resolved_symbols: vec![
                        BackTraceSymbol { name: Some("main".to_owned()), address: Some(0x400F00) },
                        BackTraceSymbol { name: None, address: None },
                    ],
                },
                BackTraceFrame {
                    instruction_pointer: 0x402000,
                    stack_pointer: 0,
                    module_base: None,
                    resolved_symbols: vec![],
                },
            ],
        }),
    };
    let wire = proto::Allocation::from_record(&allocation);
    assert_eq!(wire.base_address, 0x1234);
    assert_eq!(wire.size, 0x40);
    assert_eq!(wire.heap_handle, 0x99);
    let stack = wire.stack_trace.expect("stack");
    assert_eq!(stack.stack_pointer, 0x7000);
    assert_eq!(stack.wordsize as usize, std::mem::size_of::<usize>());
    assert_eq!(stack.trace, vec![0x11u64, 0x22]);
    let back = wire.back_trace.expect("back trace");
    assert_eq!(back.frames.len(), 2);
    assert_eq!(back.frames[0].instruction_pointer, 0x401000);
    assert_eq!(back.frames[0].stack_pointer, 0x7008);
    assert_eq!(back.frames[0].module_base, Some(0x400000));
    assert_eq!(back.frames[0].resolved_symbols.len(), 2);
    assert_eq!(back.frames[0].resolved_symbols[0].name.as_deref(), Some("main"));
    assert_eq!(back.frames[0].resolved_symbols[0].address, Some(0x400F00));
    assert_eq!(back.frames[0].resolved_symbols[1].name, None);
    assert_eq!(back.frames[0].resolved_symbols[1].address, None);
    assert_eq!(back.frames[1].module_base, None);
    assert!(back.frames[1].resolved_symbols.is_empty());

    let bare = proto::Allocation::from_record(&record(0x10));
    assert!(bare.stack_trace.is_none());
    assert!(bare.back_trace.is_none());
}

#[test]
fn requests_and_responses_know_their_packet_id() {
    assert_eq!(Request::Ping(proto::PingRequest { num: 1 }).packet_id(), PacketId::Ping);
    assert_eq!(
        Request::Find(proto::FindRequest { records: vec![] }).packet_id(),
        PacketId::Find
    );
    assert_eq!(
        Response::GetStatistics(proto::GetStatisticsResponse { statistics: None }).packet_id(),
        PacketId::GetStatistics
    );
    assert_eq!(
        Response::ResetStatistics(proto::ResetStatisticsResponse {}).packet_id(),
        PacketId::ResetStatistics
    );
}
