//! The request dispatcher: what each request does to the shared state and
//! what it is answered with.

use crate::packet::PacketId;
use crate::proto;
use crate::spec_wordsize;
use crate::state::{read_configuration, written_configuration};
use crate::state::{Configuration, State, StateView, Statistics};
use crate::storage::{address_limit, lists_range, Address, Allocation, AllocationsStorage};
use crate::wordsize;
use vstd::prelude::*;

verus! {

/// A decoded request.
#[derive(Debug, Clone, PartialEq)]
pub enum Request {
    Ping(proto::PingRequest),
    SetConfiguration(proto::SetConfigurationRequest),
    GetConfiguration(proto::GetConfigurationRequest),
    ClearStorage(proto::ClearStorageRequest),
    Find(proto::FindRequest),
    GetStatistics(proto::GetStatisticsRequest),
    ResetStatistics(proto::ResetStatisticsRequest),
}

/// The response to a request, before it is encoded.
#[derive(Debug, Clone, PartialEq)]
pub enum Response {
    Ping(proto::PingResponse),
    SetConfiguration(proto::SetConfigurationResponse),
    GetConfiguration(proto::GetConfigurationResponse),
    ClearStorage(proto::ClearStorageResponse),
    Find(proto::FindResponse),
    GetStatistics(proto::GetStatisticsResponse),
    ResetStatistics(proto::ResetStatisticsResponse),
}

impl Request {
    /// The kind of packet that carries this request.
    pub open spec fn spec_packet_id(&self) -> PacketId {
        match *self {
            Request::Ping(_) => PacketId::Ping,
            Request::SetConfiguration(_) => PacketId::SetConfiguration,
            Request::GetConfiguration(_) => PacketId::GetConfiguration,
            Request::ClearStorage(_) => PacketId::ClearStorage,
            Request::Find(_) => PacketId::Find,
            Request::GetStatistics(_) => PacketId::GetStatistics,
            Request::ResetStatistics(_) => PacketId::ResetStatistics,
        }
    }

    /// The kind of packet that carries this request.
    #[verifier::when_used_as_spec(spec_packet_id)]
    pub fn packet_id(&self) -> (id: PacketId)
        ensures
            id == self.spec_packet_id(),
    {
        match *self {
            Request::Ping(_) => PacketId::Ping,
            Request::SetConfiguration(_) => PacketId::SetConfiguration,
            Request::GetConfiguration(_) => PacketId::GetConfiguration,
            Request::ClearStorage(_) => PacketId::ClearStorage,
            Request::Find(_) => PacketId::Find,
            Request::GetStatistics(_) => PacketId::GetStatistics,
            Request::ResetStatistics(_) => PacketId::ResetStatistics,
        }
    }
}

impl Response {
    /// The kind of request that this response answers.
    pub open spec fn spec_packet_id(&self) -> PacketId {
        match *self {
            Response::Ping(_) => PacketId::Ping,
            Response::SetConfiguration(_) => PacketId::SetConfiguration,
            Response::GetConfiguration(_) => PacketId::GetConfiguration,
            Response::ClearStorage(_) => PacketId::ClearStorage,
            Response::Find(_) => PacketId::Find,
            Response::GetStatistics(_) => PacketId::GetStatistics,
            Response::ResetStatistics(_) => PacketId::ResetStatistics,
        }
    }

    /// The kind of request that this response answers.
    #[verifier::when_used_as_spec(spec_packet_id)]
    pub fn packet_id(&self) -> (id: PacketId)
        ensures
            id == self.spec_packet_id(),
    {
        match *self {
            Response::Ping(_) => PacketId::Ping,
            Response::SetConfiguration(_) => PacketId::SetConfiguration,
            Response::GetConfiguration(_) => PacketId::GetConfiguration,
            Response::ClearStorage(_) => PacketId::ClearStorage,
            Response::Find(_) => PacketId::Find,
            Response::GetStatistics(_) => PacketId::GetStatistics,
            Response::ResetStatistics(_) => PacketId::ResetStatistics,
        }
    }
}

/// An address read off the wire. On a machine with narrower words the high
/// bits are dropped.
pub open spec fn narrow(address: u64) -> Address {
    address as usize
}

/// A query is well formed unless it has a filter that names no location.
pub open spec fn record_is_valid(record: proto::FindRecord) -> bool {
    record.filter matches Some(filter) ==> filter.location is Some
}

/// Every query of `records` is well formed.
pub open spec fn records_are_valid(records: Seq<proto::FindRecord>) -> bool {
    forall|i: int| 0 <= i < records.len() ==> record_is_valid(#[trigger] records[i])
}

/// `wire` carries, in ascending order of base address and without omission,
/// the records of `m` whose base address lies in the half-open interval from
/// `lower` to `upper`.
pub open spec fn carries_range(
    wire: Seq<proto::Allocation>,
    m: Map<Address, Allocation>,
    lower: int,
    upper: int,
) -> bool {
    exists|found: Seq<Allocation>| #[trigger]
        lists_range(found, m, lower, upper) && proto::allocations_encode(wire, found)
}

/// `found` answers the well-formed query `record` over the table `m`:
/// it echoes the query's id, and carries every record when there is no
/// filter, the record at the address if there is one, or the records of the
/// interval.
pub open spec fn answers_record(
    found: proto::FoundAllocation,
    record: proto::FindRecord,
    m: Map<Address, Allocation>,
) -> bool {
    &&& found.id == record.id
    &&& match record.filter {
        None => carries_range(found.allocations@, m, 0, address_limit()),
        Some(filter) => match filter.location {
            Some(proto::Location::Address(address)) => if m.contains_key(narrow(address)) {
                &&& found.allocations@.len() == 1
                &&& proto::allocation_encodes(found.allocations@[0], m[narrow(address)])
            } else {
                found.allocations@.len() == 0
            },
            Some(proto::Location::Range(range)) => carries_range(
                found.allocations@,
                m,
                narrow(range.lower) as int,
                narrow(range.upper) as int,
            ),
            None => false,
        },
    }
}

/// `found` answers the queries of `records` one by one, in their order.
pub open spec fn answers_records(
    found: Seq<proto::FoundAllocation>,
    records: Seq<proto::FindRecord>,
    m: Map<Address, Allocation>,
) -> bool {
    &&& found.len() == records.len()
    &&& forall|i: int| 0 <= i < records.len() ==> answers_record(#[trigger] found[i], records[i], m)
}

/// The counters as they travel, with the number of live records.
pub open spec fn statistics_report(view: StateView) -> proto::Statistics {
    proto::Statistics {
        total_allocations: view.statistics.total_allocations as u64,
        total_reallocations: view.statistics.total_reallocations as u64,
        total_deallocations: view.statistics.total_deallocations as u64,
        total_deallocations_non_allocated: view.statistics.total_deallocations_non_allocated as u64,
        allocated: view.allocations.len() as u64,
    }
}

/// Whether `request` is served. A request to set no configuration, and a
/// find request with an ill-formed query, are refused; all else is served.
pub open spec fn accepts(request: Request) -> bool {
    match request {
        Request::SetConfiguration(r) => r.configuration is Some,
        Request::Find(r) => records_are_valid(r.records@),
        _ => true,
    }
}

/// The state after `request` was handled in the state `before`. A refused
/// request changes nothing.
pub open spec fn state_after(before: StateView, request: Request) -> StateView {
    match request {
        Request::SetConfiguration(r) => match r.configuration {
            Some(configuration) => StateView {
                configuration: read_configuration(configuration),
                ..before
            },
            None => before,
        },
        Request::ClearStorage(_) => StateView { allocations: Map::empty(), ..before },
        Request::ResetStatistics(_) => StateView { statistics: Statistics::zero(), ..before },
        _ => before,
    }
}

/// `response` is the answer owed to the served `request` in the state `before`.
pub open spec fn answers(response: Response, before: StateView, request: Request) -> bool {
    match request {
        Request::Ping(r) => response == Response::Ping(
            proto::PingResponse {
                version: proto::PROTOCOL_VERSION,
                num: r.num,
                wordsize: spec_wordsize() as u32,
            },
        ),
        Request::SetConfiguration(_) => response == Response::SetConfiguration(
            proto::SetConfigurationResponse {  },
        ),
        Request::GetConfiguration(_) => response == Response::GetConfiguration(
            proto::GetConfigurationResponse {
                configuration: Some(written_configuration(before.configuration)),
            },
        ),
        Request::ClearStorage(_) => response == Response::ClearStorage(
            proto::ClearStorageResponse {  },
        ),
        Request::Find(r) => response matches Response::Find(f) && answers_records(
            f.allocations@,
            r.records@,
            before.allocations,
        ),
        Request::GetStatistics(_) => response == Response::GetStatistics(
            proto::GetStatisticsResponse { statistics: Some(statistics_report(before)) },
        ),
        Request::ResetStatistics(_) => response == Response::ResetStatistics(
            proto::ResetStatisticsResponse {  },
        ),
    }
}

/// The request handler over a shared state.
pub struct SimpleServer {}

impl SimpleServer {
    pub fn new() -> Self {
        Self {  }
    }

    /// Answers one query over the store.
    fn find_record<S: AllocationsStorage>(storage: &S, record: &proto::FindRecord) -> (found:
        Option<proto::FoundAllocation>)
        ensures
            found is Some <==> record_is_valid(*record),
            found matches Some(f) ==> answers_record(f, *record, storage.contents()),
    {
        let allocations = match &record.filter {
            Some(filter) => match &filter.location {
                Some(proto::Location::Address(address)) => {
                    let key = #[verifier::truncate]
                    (*address as Address);
                    match storage.find(key) {
                        Some(allocation) => {
                            let mut one: Vec<proto::Allocation> = Vec::new();
                            one.push(proto::Allocation::from_record(allocation));
                            one
                        },
                        None => Vec::new(),
                    }
                },
                Some(proto::Location::Range(range)) => {
                    let lower = #[verifier::truncate]
                    (range.lower as Address);
                    let upper = #[verifier::truncate]
                    (range.upper as Address);
                    let found = storage.find_range(lower, upper);
                    let wire = proto::encode_allocations(&found);
                    assert(lists_range(
                        found@.unref(),
                        storage.contents(),
                        lower as int,
                        upper as int,
                    ));
                    wire
                },
                None => {
                    return None;
                },
            },
            None => {
                let found = storage.dump();
                let wire = proto::encode_allocations(&found);
                assert(lists_range(found@.unref(), storage.contents(), 0, address_limit()));
                wire
            },
        };
        Some(proto::FoundAllocation { id: record.id, allocations })
    }

    /// Answers the queries of a find request, in their order, over one
    /// consistent view of the store. `None` when a query is ill formed.
    pub fn handle_find<S: AllocationsStorage>(&self, state: &State<S>, req: &proto::FindRequest) -> (found:
        Option<Vec<proto::FoundAllocation>>)
        ensures
            found is Some <==> records_are_valid(req.records@),
            found matches Some(f) ==> answers_records(f@, req.records@, state@.allocations),
    {
        let storage = state.storage();
        let mut found: Vec<proto::FoundAllocation> = Vec::new();
        let mut i: usize = 0;
        while i < req.records.len()
            invariant
                i <= req.records@.len(),
                found@.len() == i,
                storage.contents() == state@.allocations,
                forall|j: int| 0 <= j < i ==> record_is_valid(#[trigger] req.records@[j]),
                forall|j: int|
                    0 <= j < i ==> answers_record(
                        #[trigger] found@[j],
                        req.records@[j],
                        state@.allocations,
                    ),
            decreases req.records@.len() - i,
        {
            match Self::find_record(storage, &req.records[i]) {
                Some(answer) => {
                    found.push(answer);
                },
                None => {
                    assert(!record_is_valid(req.records@[i as int]));
                    return None;
                },
            }
            i += 1;
        }
        Some(found)
    }

    /// Handles one request: updates `state` as the request asks and returns
    /// the response, or `None` when the request is refused.
    pub fn request_inner<S: AllocationsStorage>(&self, state: &mut State<S>, request: Request) -> (response:
        Option<Response>)
        ensures
            response is Some <==> accepts(request),
            response matches Some(r) ==> answers(r, old(state)@, request),
            final(state)@ == state_after(old(state)@, request),
    {
        match request {
            Request::Ping(req) => Some(
                Response::Ping(
                    proto::PingResponse {
                        version: proto::PROTOCOL_VERSION,
                        num: req.num,
                        wordsize: wordsize(),
                    },
                ),
            ),
            Request::SetConfiguration(req) => match req.configuration {
                Some(configuration) => {
                    state.set_configuration(Configuration::from(configuration));
                    Some(Response::SetConfiguration(proto::SetConfigurationResponse {  }))
                },
                None => None,
            },
            Request::GetConfiguration(_req) => Some(
                Response::GetConfiguration(
                    proto::GetConfigurationResponse {
                        configuration: Some(proto::Configuration::from(state.get_configuration())),
                    },
                ),
            ),
            Request::ClearStorage(_req) => {
                state.lock_storage().clear();
                Some(Response::ClearStorage(proto::ClearStorageResponse {  }))
            },
            Request::Find(req) => match self.handle_find(state, &req) {
                Some(allocations) => Some(Response::Find(proto::FindResponse { allocations })),
                None => None,
            },
            Request::GetStatistics(_req) => {
                let statistics = state.statistics();
                let allocated = state.storage().count();
                Some(
                    Response::GetStatistics(
                        proto::GetStatisticsResponse {
                            statistics: Some(
                                proto::Statistics {
                                    total_allocations: statistics.total_allocations as u64,
                                    total_reallocations: statistics.total_reallocations as u64,
                                    total_deallocations: statistics.total_deallocations as u64,
                                    total_deallocations_non_allocated: statistics.total_deallocations_non_allocated as u64,
                                    allocated: allocated as u64,
                                },
                            ),
                        },
                    ),
                )
            },
            Request::ResetStatistics(_req) => {
                state.lock_statistics().reset();
                Some(Response::ResetStatistics(proto::ResetStatisticsResponse {  }))
            },
        }
    }
}

/// A ping is answered with the number it carried and with version 1, and
/// leaves the state as it was.
pub proof fn law_ping_echoes(before: StateView, request: proto::PingRequest, response: Response)
    requires
        answers(response, before, Request::Ping(request)),
    ensures
        response matches Response::Ping(pong) && pong.num == request.num && pong.version == 1,
        accepts(Request::Ping(request)),
        state_after(before, Request::Ping(request)) == before,
{
}

/// Statistics asked for right after a reset are all zero, but for the
/// number of live records, which still is that of the store.
pub proof fn law_reset_then_get_statistics(before: StateView, response: Response)
    requires
        answers(
            response,
            state_after(before, Request::ResetStatistics(proto::ResetStatisticsRequest {  })),
            Request::GetStatistics(proto::GetStatisticsRequest {  }),
        ),
    ensures
        response == Response::GetStatistics(
            proto::GetStatisticsResponse {
                statistics: Some(
                    proto::Statistics {
                        total_allocations: 0,
                        total_reallocations: 0,
                        total_deallocations: 0,
                        total_deallocations_non_allocated: 0,
                        allocated: before.allocations.len() as u64,
                    },
                ),
            },
        ),
{
}

/// The statistics reported are the counters of the state, and `allocated`
/// is the number of records in the store.
pub proof fn law_statistics_report(before: StateView, response: Response)
    requires
        answers(response, before, Request::GetStatistics(proto::GetStatisticsRequest {  })),
        before.allocations.len() <= u64::MAX,
    ensures
        response matches Response::GetStatistics(r) && r.statistics matches Some(s) && {
            &&& s.total_allocations == before.statistics.total_allocations
            &&& s.total_reallocations == before.statistics.total_reallocations
            &&& s.total_deallocations == before.statistics.total_deallocations
            &&& s.total_deallocations_non_allocated
                == before.statistics.total_deallocations_non_allocated
            &&& s.allocated == before.allocations.len()
        },
{
}

/// The configuration that was set is the one that is then reported, with
/// word counts cut to the width of a machine word.
pub proof fn law_set_then_get_configuration(
    before: StateView,
    configuration: proto::Configuration,
    response: Response,
)
    requires
        answers(
            response,
            state_after(
                before,
                Request::SetConfiguration(
                    proto::SetConfigurationRequest { configuration: Some(configuration) },
                ),
            ),
            Request::GetConfiguration(proto::GetConfigurationRequest {  }),
        ),
    ensures
        response == Response::GetConfiguration(
            proto::GetConfigurationResponse {
                configuration: Some(written_configuration(read_configuration(configuration))),
            },
        ),
{
}

/// A response answers a request of its own kind.
pub proof fn law_response_kind(before: StateView, request: Request, response: Response)
    requires
        answers(response, before, request),
    ensures
        response.spec_packet_id() == request.spec_packet_id(),
{
}

/// A record that the store holds is what a query for its address finds.
pub proof fn law_recorded_allocation_is_found(
    m: Map<Address, Allocation>,
    allocation: Allocation,
    id: u64,
    found: proto::FoundAllocation,
)
    requires
        answers_record(
            found,
            proto::FindRecord {
                id,
                filter: Some(
                    proto::Filter {
                        location: Some(
                            proto::Location::Address(proto::wide(allocation.base_address)),
                        ),
                    },
                ),
            },
            crate::storage::stored(m, allocation),
        ),
    ensures
        found.id == id,
        found.allocations@.len() == 1,
        proto::allocation_encodes(found.allocations@[0], allocation),
{
    assert(narrow(proto::wide(allocation.base_address)) == allocation.base_address);
}

/// After the store was cleared, every query finds nothing.
pub proof fn law_cleared_store_answers_nothing(
    before: StateView,
    record: proto::FindRecord,
    found: proto::FoundAllocation,
)
    requires
        answers_record(
            found,
            record,
            state_after(before, Request::ClearStorage(proto::ClearStorageRequest {  })).allocations,
        ),
    ensures
        found.id == record.id,
        found.allocations@.len() == 0,
{
    let m = Map::<Address, Allocation>::empty();
    assert forall|wire: Seq<proto::Allocation>, lower: int, upper: int|
        carries_range(wire, m, lower, upper) implies wire.len() == 0 by {
        let listed = choose|listed: Seq<Allocation>| #[trigger]
            lists_range(listed, m, lower, upper) && proto::allocations_encode(wire, listed);
        if listed.len() > 0 {
            assert(m.contains_key(listed[0].base_address));
        }
    }
}

} // verus!
