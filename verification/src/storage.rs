//! The allocation store: an address-keyed ordered table of live allocations.

use std::collections::BTreeMap;
use vstd::prelude::*;
use vstd::std_specs::iter::IteratorSpec;

verus! {

/// A byte position in the observed process's address space.
pub type Address = usize;

/// Identifier of a heap arena.
pub type HeapHandle = usize;

/// Raw stack contents: `trace` holds the machine words found at `base` and above.
#[derive(Debug, Clone)]
pub struct StackTrace {
    pub base: usize,
    pub trace: Vec<usize>,
}

/// One symbol that a frame resolved to.
#[derive(Debug, Clone)]
pub struct BackTraceSymbol {
    pub name: Option<String>,
    pub address: Option<usize>,
}

/// One frame of a symbolic back trace.
#[derive(Debug, Clone)]
pub struct BackTraceFrame {
    pub instruction_pointer: usize,
    pub stack_pointer: usize,
    pub module_base: Option<usize>,
    pub resolved_symbols: Vec<BackTraceSymbol>,
}

/// The frames of a call chain, innermost first.
#[derive(Debug, Clone)]
pub struct BackTrace {
    pub frames: Vec<BackTraceFrame>,
}

/// A live allocation, keyed in the store by `base_address`.
#[derive(Debug, Clone)]
pub struct Allocation {
    pub base_address: Address,
    pub size: usize,
    pub heap_handle: HeapHandle,
    pub stack_trace: Option<StackTrace>,
    pub back_trace: Option<BackTrace>,
}

/// A table is well keyed when it is finite and files every allocation under
/// its own base address.
pub open spec fn well_keyed(m: Map<Address, Allocation>) -> bool {
    &&& m.dom().finite()
    &&& forall|k: Address| #[trigger] m.contains_key(k) ==> m[k].base_address == k
}

/// `entries` is the ascending enumeration of the entries of `m` whose key lies
/// in the half-open interval from `lower` to `upper`.
pub open spec fn enumerates(
    entries: Seq<(Address, Allocation)>,
    m: Map<Address, Allocation>,
    lower: int,
    upper: int,
) -> bool {
    &&& forall|i: int|
        0 <= i < entries.len() ==> {
            &&& lower <= (#[trigger] entries[i]).0 < upper
            &&& m.contains_key(entries[i].0)
            &&& m[entries[i].0] == entries[i].1
        }
    &&& forall|i: int, j: int|
        0 <= i < j < entries.len() ==> (#[trigger] entries[i]).0 < (#[trigger] entries[j]).0
    &&& forall|k: Address|
        #[trigger] m.contains_key(k) && lower <= k < upper ==> exists|i: int|
            0 <= i < entries.len() && (#[trigger] entries[i]).0 == k
}

/// `found` lists, in ascending order of base address and without omission,
/// the allocations of `m` whose base address lies in the half-open interval
/// from `lower` to `upper`.
pub open spec fn lists_range(
    found: Seq<Allocation>,
    m: Map<Address, Allocation>,
    lower: int,
    upper: int,
) -> bool {
    &&& forall|i: int|
        0 <= i < found.len() ==> {
            &&& lower <= (#[trigger] found[i]).base_address < upper
            &&& m.contains_key(found[i].base_address)
            &&& m[found[i].base_address] == found[i]
        }
    &&& forall|i: int, j: int|
        0 <= i < j < found.len() ==> (#[trigger] found[i]).base_address
            < (#[trigger] found[j]).base_address
    &&& forall|k: Address|
        #[trigger] m.contains_key(k) && lower <= k < upper ==> exists|i: int|
            0 <= i < found.len() && (#[trigger] found[i]).base_address == k
}

/// The table after `allocation` was stored: it is filed under its base
/// address, in place of whatever was filed there.
pub open spec fn stored(m: Map<Address, Allocation>, allocation: Allocation) -> Map<
    Address,
    Allocation,
> {
    m.insert(allocation.base_address, allocation)
}

/// The table after the record at `address` was removed.
pub open spec fn removed(m: Map<Address, Allocation>, address: Address) -> Map<
    Address,
    Allocation,
> {
    m.remove(address)
}

/// The record that the table holds at `address`, if any.
pub open spec fn found(m: Map<Address, Allocation>, address: Address) -> Option<Allocation> {
    if m.contains_key(address) {
        Some(m[address])
    } else {
        None
    }
}

/// Every address, as an exclusive upper bound.
pub open spec fn address_limit() -> int {
    usize::MAX + 1
}

/// A table of live allocations keyed by base address.
///
/// `contents` is the table as a mathematical map. Every operation is stated
/// over it, so any implementation that meets these contracts can stand behind
/// the shared state.
pub trait AllocationsStorage {
    /// The table that this store currently holds.
    spec fn contents(&self) -> Map<Address, Allocation>;

    /// Inserts `allocation` under its base address, replacing any record
    /// already filed there.
    fn store(&mut self, allocation: Allocation)
        ensures
            final(self).contents() == stored(old(self).contents(), allocation),
    ;

    /// Removes the record filed under `address`; `Err` when there is none.
    fn remove(&mut self, address: Address) -> (r: Result<(), ()>)
        ensures
            r is Ok <==> old(self).contents().contains_key(address),
            final(self).contents() == removed(old(self).contents(), address),
    ;

    /// The record filed under `address`, if any.
    fn find(&self, address: Address) -> (r: Option<&Allocation>)
        ensures
            match r {
                Some(a) => found(self.contents(), address) == Some(*a),
                None => found(self.contents(), address) is None,
            },
    ;

    /// The records with `lower <= base_address < upper`, ascending. An
    /// inverted interval yields nothing.
    fn find_range<'a>(&'a self, lower: Address, upper: Address) -> (r: Vec<&'a Allocation>)
        ensures
            lists_range(r@.unref(), self.contents(), lower as int, upper as int),
            lower > upper ==> r@.len() == 0,
    ;

    /// Every record, ascending by base address.
    fn dump<'a>(&'a self) -> (r: Vec<&'a Allocation>)
        ensures
            lists_range(r@.unref(), self.contents(), 0, address_limit()),
            r@.len() == self.contents().len(),
    ;

    /// Drops every record.
    fn clear(&mut self)
        ensures
            final(self).contents() == Map::<Address, Allocation>::empty(),
    ;

    /// The number of records held.
    fn count(&self) -> (n: usize)
        ensures
            n == self.contents().len(),
    ;
}

/// The store kept in an ordered map, which gives point and range lookup in
/// logarithmic time.
pub struct BtreeMapStorage {
    map: BTreeMap<Address, Allocation>,
}

impl BtreeMapStorage {
    /// Every record is filed under its own base address.
    #[verifier::type_invariant]
    spec fn keyed_by_base_address(self) -> bool {
        well_keyed(self.map@)
    }

    /// An empty store.
    pub fn new() -> (s: Self)
        ensures
            s.contents() == Map::<Address, Allocation>::empty(),
    {
        Self { map: BTreeMap::new() }
    }
}

/// `BTreeMap::range` over the keys from `lower` up to but excluding `upper`,
/// collected. The standard library documents that the iterator yields the
/// entries whose key lies within the bounds, in ascending key order, and that
/// it panics when the start of the range lies above its end: the contract
/// states the first and excludes the second.
#[verifier::external_body]
fn range_entries<'a>(
    map: &'a BTreeMap<Address, Allocation>,
    lower: Address,
    upper: Address,
) -> (r: Vec<(&'a Address, &'a Allocation)>)
    requires
        lower <= upper,
    ensures
        enumerates(r@.unref(), map@, lower as int, upper as int),
{
    map.range((std::ops::Bound::Included(lower), std::ops::Bound::Excluded(upper))).collect()
}

impl AllocationsStorage for BtreeMapStorage {
    closed spec fn contents(&self) -> Map<Address, Allocation> {
        self.map@
    }

    fn store(&mut self, allocation: Allocation) {
        proof {
            use_type_invariant(&*self);
        }
        // The map is taken out while it changes and put back when it is
        // well keyed again, so that the store is well keyed at every moment,
        // also should the insertion unwind.
        let mut map = BTreeMap::new();
        core::mem::swap(&mut self.map, &mut map);
        let key = allocation.base_address;
        map.insert(key, allocation);
        core::mem::swap(&mut self.map, &mut map);
    }

    fn remove(&mut self, address: Address) -> (r: Result<(), ()>) {
        proof {
            use_type_invariant(&*self);
        }
        let mut map = BTreeMap::new();
        core::mem::swap(&mut self.map, &mut map);
        let removed = map.remove(&address);
        core::mem::swap(&mut self.map, &mut map);
        if removed.is_some() {
            Ok(())
        } else {
            Err(())
        }
    }

    fn find(&self, address: Address) -> (r: Option<&Allocation>) {
        self.map.get(&address)
    }

    fn find_range<'a>(&'a self, lower: Address, upper: Address) -> (r: Vec<&'a Allocation>) {
        proof {
            use_type_invariant(self);
        }
        let mut found: Vec<&'a Allocation> = Vec::new();
        if lower > upper {
            return found;
        }
        let entries = range_entries(&self.map, lower, upper);
        let mut i: usize = 0;
        while i < entries.len()
            invariant
                i <= entries.len(),
                found@.len() == i,
                forall|j: int| 0 <= j < i ==> *found@[j] == *entries@[j].1,
            decreases entries.len() - i,
        {
            found.push(entries[i].1);
            i += 1;
        }
        proof {
            let es = entries@.unref();
            let fs = found@.unref();
            assert forall|j: int| 0 <= j < fs.len() implies (#[trigger] fs[j]).base_address
                == es[j].0 && fs[j] == es[j].1 by {
                assert(self.map@.contains_key(es[j].0));
            }
            assert forall|k: Address|
                #[trigger] self.map@.contains_key(k) && lower <= k < upper implies exists|j: int|
                0 <= j < fs.len() && (#[trigger] fs[j]).base_address == k by {
                let j = choose|j: int| 0 <= j < es.len() && (#[trigger] es[j]).0 == k;
                assert(fs[j].base_address == k);
            }
        }
        found
    }

    fn dump<'a>(&'a self) -> (r: Vec<&'a Allocation>) {
        proof {
            use_type_invariant(self);
        }
        let mut found: Vec<&'a Allocation> = Vec::new();
        let ghost entries = self.map.iter().remaining();
        for entry in it: self.map.iter()
            invariant
                it.seq() == entries,
                found@.len() == it.index(),
                forall|j: int| 0 <= j < found@.len() ==> *found@[j] == *entries[j].1,
        {
            found.push(entry.1);
        }
        proof {
            let fs = found@.unref();
            let keys = entries.map_values(|kv: (&Address, &Allocation)| *kv.0);
            assert(fs.len() == entries.len());
            assert(vstd::std_specs::btree::increasing_seq(keys));
            assert forall|j: int| 0 <= j < fs.len() implies (#[trigger] fs[j]).base_address
                == *entries[j].0 && self.map@.contains_key(*entries[j].0) && fs[j]
                == self.map@[*entries[j].0] by {
                assert(self.map@.contains_key(*entries[j].0));
            }
            assert forall|i: int, j: int| 0 <= i < j < fs.len() implies (#[trigger] fs[i]).base_address
                < (#[trigger] fs[j]).base_address by {
                assert(keys[i] == *entries[i].0);
                assert(keys[j] == *entries[j].0);
                assert(vstd::std_specs::cmp::OrdSpec::cmp_spec(&keys[i], &keys[j]) is Less);
            }
            assert forall|k: Address| #[trigger] self.map@.contains_key(k) implies exists|j: int|
                0 <= j < fs.len() && (#[trigger] fs[j]).base_address == k by {
                assert(entries.contains((&k, &self.map@[k])));
                let j = choose|j: int| 0 <= j < entries.len() && entries[j] == (&k, &self.map@[k]);
                assert(fs[j].base_address == k);
            }
        }
        found
    }

    fn clear(&mut self) {
        let mut map = BTreeMap::new();
        core::mem::swap(&mut self.map, &mut map);
    }

    fn count(&self) -> (n: usize) {
        self.map.len()
    }
}

/// A record that was stored is found at its base address, whatever the
/// table held before.
pub proof fn law_store_then_find(m: Map<Address, Allocation>, allocation: Allocation)
    ensures
        found(stored(m, allocation), allocation.base_address) == Some(allocation),
{
}

/// After a removal nothing is found at the address, whatever the table
/// held before.
pub proof fn law_remove_then_find(m: Map<Address, Allocation>, address: Address)
    ensures
        found(removed(m, address), address) is None,
{
}

/// Storing and removing leave the records at every other address alone.
pub proof fn law_other_addresses_untouched(
    m: Map<Address, Allocation>,
    allocation: Allocation,
    address: Address,
    other: Address,
)
    ensures
        other != allocation.base_address ==> found(stored(m, allocation), other) == found(m, other),
        other != address ==> found(removed(m, address), other) == found(m, other),
{
}

/// Storing, removing and clearing keep a table well keyed.
pub proof fn law_well_keyed_is_kept(
    m: Map<Address, Allocation>,
    allocation: Allocation,
    address: Address,
)
    requires
        well_keyed(m),
    ensures
        well_keyed(stored(m, allocation)),
        well_keyed(removed(m, address)),
        well_keyed(Map::<Address, Allocation>::empty()),
{
}

/// Two listings of one interval agree on their first `n` records.
proof fn lemma_listings_agree(
    a: Seq<Allocation>,
    b: Seq<Allocation>,
    m: Map<Address, Allocation>,
    lower: int,
    upper: int,
    n: int,
)
    requires
        lists_range(a, m, lower, upper),
        lists_range(b, m, lower, upper),
        0 <= n <= a.len(),
        n <= b.len(),
    ensures
        forall|i: int| 0 <= i < n ==> a[i] == b[i],
    decreases n,
{
    if n > 0 {
        lemma_listings_agree(a, b, m, lower, upper, n - 1);
        let i = n - 1;
        let ka = a[i].base_address;
        let kb = b[i].base_address;
        if ka < kb {
            let j = choose|j: int| 0 <= j < b.len() && (#[trigger] b[j]).base_address == ka;
            if j < i {
                assert(a[j] == b[j]);
            }
        } else if kb < ka {
            let j = choose|j: int| 0 <= j < a.len() && (#[trigger] a[j]).base_address == kb;
            if j < i {
                assert(a[j] == b[j]);
            }
        }
        assert(a[i] == m[ka]);
        assert(b[i] == m[kb]);
    }
}

/// An interval has one listing only: two sequences that both list it are
/// the same sequence.
pub proof fn law_listing_is_unique(
    a: Seq<Allocation>,
    b: Seq<Allocation>,
    m: Map<Address, Allocation>,
    lower: int,
    upper: int,
)
    requires
        lists_range(a, m, lower, upper),
        lists_range(b, m, lower, upper),
    ensures
        a == b,
{
    let n = if a.len() <= b.len() {
        a.len() as int
    } else {
        b.len() as int
    };
    lemma_listings_agree(a, b, m, lower, upper, n);
    if a.len() < b.len() {
        let k = b[n].base_address;
        let j = choose|j: int| 0 <= j < a.len() && (#[trigger] a[j]).base_address == k;
        assert(a[j] == b[j]);
    } else if b.len() < a.len() {
        let k = a[n].base_address;
        let j = choose|j: int| 0 <= j < b.len() && (#[trigger] b[j]).base_address == k;
        assert(a[j] == b[j]);
    }
    assert(a =~= b);
}

/// An interval whose lower bound is not below its upper bound lists nothing.
pub proof fn law_empty_interval_lists_nothing(
    found: Seq<Allocation>,
    m: Map<Address, Allocation>,
    lower: int,
    upper: int,
)
    requires
        lower >= upper,
        lists_range(found, m, lower, upper),
    ensures
        found.len() == 0,
{
    if found.len() > 0 {
        assert(lower <= found[0].base_address < upper);
    }
}

} // verus!
