//! Discovery-side logic: the advertisement name filter, selection of the
//! control service, recovery of the hardware address from manufacturer
//! advertisement data, and the seen-set that deduplicates discovered devices
//! by transport id.
//!
//! The radio enumeration itself is I/O and lives outside the library; it
//! hands these functions the advertised names, service identifiers and
//! manufacturer data entries as plain values.

use vstd::prelude::*;

verus! {

/// The 128-bit identifier of the GATT service that exposes the control
/// characteristic, as one big-endian integer over its sixteen bytes.
pub const SERVICE_UUID: u128 = 0x00010203_04050607_08090a0b_0c0d1910;

/// The exact advertised local name of a compatible fixture.
pub open spec fn spec_target_name() -> Seq<char> {
    "BT_LED"@
}

/// Whether an advertised local name identifies a compatible fixture: it must
/// equal the literal device name exactly.
pub fn is_target_device_name(name: &String) -> (r: bool)
    ensures
        r == (name@ == spec_target_name()),
{
    let target: String = "BT_LED".to_owned();
    *name == target
}

/// Position of the control service in a peripheral's service list: the first
/// entry whose identifier matches the fixed service identifier.
pub fn find_service_index(service_uuids: &Vec<u128>) -> (r: Option<usize>)
    ensures
        match r {
            Some(i) => i < service_uuids@.len() && service_uuids@[i as int] == SERVICE_UUID
                && forall|j: int| 0 <= j < i ==> service_uuids@[j] != SERVICE_UUID,
            None => forall|j: int|
                0 <= j < service_uuids@.len() ==> service_uuids@[j] != SERVICE_UUID,
        },
{
    let mut i: usize = 0;
    while i < service_uuids.len()
        invariant
            i <= service_uuids@.len(),
            forall|j: int| 0 <= j < i ==> service_uuids@[j] != SERVICE_UUID,
        decreases service_uuids@.len() - i,
    {
        if service_uuids[i] == SERVICE_UUID {
            return Some(i);
        }
        i = i + 1;
    }
    None
}

/// Registry of transport ids that discovery has already handled. A given
/// transport id maps to at most one live session: re-advertisement of an
/// already-seen device must not spawn a second connect attempt.
pub struct DeviceRegistry {
    seen: Vec<String>,
}

impl View for DeviceRegistry {
    type V = Set<Seq<char>>;

    /// The set of transport ids marked seen so far.
    closed spec fn view(&self) -> Set<Seq<char>> {
        Set::new(
            |id: Seq<char>|
                exists|i: int| 0 <= i < self.seen@.len() && (#[trigger] self.seen@[i])@ == id,
        )
    }
}

impl DeviceRegistry {
    /// An empty registry: nothing has been seen.
    pub fn new() -> (r: Self)
        ensures
            r@ == Set::<Seq<char>>::empty(),
    {
        let r = DeviceRegistry { seen: Vec::new() };
        proof {
            assert(r@ =~= Set::<Seq<char>>::empty());
        }
        r
    }

    /// Record a transport id as seen. Returns true iff the id was fresh,
    /// i.e. this is the first sighting and a connect attempt is in order.
    pub fn mark_seen(&mut self, id: &String) -> (fresh: bool)
        ensures
            fresh == !old(self)@.contains(id@),
            final(self)@ == old(self)@.insert(id@),
    {
        let mut i: usize = 0;
        while i < self.seen.len()
            invariant
                i <= self.seen@.len(),
                self.seen == old(self).seen,
                forall|j: int| 0 <= j < i ==> (#[trigger] self.seen@[j])@ != id@,
            decreases self.seen@.len() - i,
        {
            if self.seen[i] == *id {
                proof {
                    assert(old(self)@.contains(id@));
                    assert(old(self)@.insert(id@) =~= old(self)@);
                }
                return false;
            }
            i = i + 1;
        }
        proof {
            assert(!old(self)@.contains(id@));
        }
        self.seen.push(id.clone());
        proof {
            assert forall|x: Seq<char>| self@.contains(x) implies old(self)@.insert(
                id@,
            ).contains(x) by {
                let i = choose|i: int| 0 <= i < self.seen@.len() && (#[trigger] self.seen@[i])@
                    == x;
                if i < self.seen@.len() - 1 {
                    assert((old(self).seen@[i])@ == x);
                }
            }
            assert forall|x: Seq<char>| old(self)@.insert(id@).contains(x) implies self@.contains(
                x,
            ) by {
                if x == id@ {
                    assert((self.seen@[self.seen@.len() - 1])@ == x);
                } else {
                    let i = choose|i: int|
                        0 <= i < old(self).seen@.len() && (#[trigger] old(self).seen@[i])@ == x;
                    assert((self.seen@[i])@ == x);
                }
            }
            assert(self@ =~= old(self)@.insert(id@));
        }
        true
    }
}

/// Deduplication: once a transport id has been marked seen, a later check of
/// the same id always finds it in the seen set, so it is never fresh twice
/// and never triggers a second connect attempt.
pub proof fn lemma_seen_twice_not_fresh(ids: Set<Seq<char>>, id: Seq<char>)
    ensures
        ids.insert(id).contains(id),
{
}

} // verus!
