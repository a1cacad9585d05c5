//! The requests that an upstream owes an answer to.

use vstd::prelude::*;

use crate::json::{Json, JsonView};
use crate::jsonrpc::{self, id_key};
use crate::mcp_session::PendingRequestInfo;
use crate::names::{self, NameMap};
use crate::text::{self, same_text};

verus! {

/// A request that was forwarded and not answered yet.
pub struct Owed {
    /// The id it was forwarded under.
    pub pool_id: u64,
    pub client: Seq<char>,
    /// The id that the client gave it.
    pub id: JsonView,
    pub method: Option<Seq<char>>,
    pub at: std::time::Instant,
}

/// Requests that are owed an answer, by the key of the id they were forwarded under.
pub type OwedMap = Map<Seq<char>, Owed>;

/// What is owed for a pending request that was forwarded under `pool_id`.
pub open spec fn owed(pool_id: u64, info: PendingRequestInfo) -> Owed {
    Owed {
        pool_id,
        client: info.client_id@,
        id: info.original_id@,
        method: text::text_of(info.method),
        at: info.inserted_at,
    }
}

/// Whether the request under `key` was forwarded before all others: ids are handed
/// out in order, so it is the one with the smallest.
pub open spec fn is_oldest(requests: OwedMap, key: Seq<char>) -> bool {
    &&& requests.dom().contains(key)
    &&& forall|other: Seq<char>| #[trigger]
        requests.dom().contains(other) ==> requests[key].pool_id <= requests[other].pool_id
}

/// The key of the request that was forwarded before all others.
pub open spec fn oldest_key(requests: OwedMap) -> Seq<char> {
    choose|key: Seq<char>| is_oldest(requests, key)
}

/// The requests of all clients but one.
pub open spec fn without_client(requests: OwedMap, client: Seq<char>) -> OwedMap {
    Map::new(
        |key: Seq<char>| requests.dom().contains(key) && requests[key].client != client,
        |key: Seq<char>| requests[key],
    )
}

/// Where something is owed, one of the requests is the oldest.
pub proof fn oldest_exists(requests: OwedMap, key: Seq<char>)
    requires
        requests.dom().contains(key),
    ensures
        is_oldest(requests, oldest_key(requests)),
    decreases requests[key].pool_id,
{
    if !is_oldest(requests, key) {
        let smaller = choose|other: Seq<char>| #[trigger]
            requests.dom().contains(other) && requests[other].pool_id < requests[key].pool_id;
        oldest_exists(requests, smaller);
    }
}

/// A pending request with the id it was forwarded under.
#[derive(Debug)]
struct OpenRequest {
    pool_id: u64,
    info: PendingRequestInfo,
}

/// Requests that are owed an answer. Each stands under the key of its id.
#[derive(Debug)]
pub struct OpenRequests {
    entries: NameMap<OpenRequest>,
}

spec fn all_owed(entries: Map<Seq<char>, OpenRequest>) -> OwedMap {
    entries.map_values(|request: OpenRequest| owed(request.pool_id, request.info))
}

spec fn keyed_by_id(entries: Map<Seq<char>, OpenRequest>) -> bool {
    forall|key: Seq<char>| #[trigger]
        entries.dom().contains(key) ==> key == jsonrpc::key_of(
            JsonView::Int(entries[key].pool_id as int),
        )
}

impl View for OpenRequests {
    type V = OwedMap;

    closed spec fn view(&self) -> OwedMap {
        all_owed(self.entries@)
    }
}

impl OpenRequests {
    #[verifier::type_invariant]
    spec fn well_keyed(self) -> bool {
        keyed_by_id(self.entries@)
    }

    /// No requests.
    pub fn new() -> (requests: OpenRequests)
        ensures
            requests@ == OwedMap::empty(),
    {
        let requests = OpenRequests { entries: NameMap::new() };
        proof {
            assert(requests@ =~= OwedMap::empty());
        }
        requests
    }

    /// Takes in a request that was forwarded under `pool_id`.
    pub fn open(&mut self, pool_id: u64, info: PendingRequestInfo)
        ensures
            final(self)@ == old(self)@.insert(
                jsonrpc::key_of(JsonView::Int(pool_id as int)),
                owed(pool_id, info),
            ),
    {
        proof {
            use_type_invariant(&*self);
        }
        let ghost before = self.entries@;
        let key = id_key(&Json::Unsigned(pool_id));
        let mut entries: NameMap<OpenRequest> = NameMap::new();
        std::mem::swap(&mut self.entries, &mut entries);
        entries.insert(key, OpenRequest { pool_id, info });
        self.entries = entries;
        proof {
            assert(self@ =~= all_owed(before).insert(key@, owed(pool_id, info)));
        }
    }

    /// Takes out the request under `key`, and hands it back.
    pub fn close(&mut self, key: &str) -> (closed: Option<PendingRequestInfo>)
        ensures
            final(self)@ == old(self)@.remove(key@),
            match closed {
                Some(info) => old(self)@.dom().contains(key@) && old(self)@[key@] == owed(
                    old(self)@[key@].pool_id,
                    info,
                ),
                None => !old(self)@.dom().contains(key@),
            },
    {
        proof {
            use_type_invariant(&*self);
        }
        let ghost before = self.entries@;
        let mut entries: NameMap<OpenRequest> = NameMap::new();
        std::mem::swap(&mut self.entries, &mut entries);
        let removed = entries.remove(key);
        self.entries = entries;
        proof {
            assert(self@ =~= all_owed(before).remove(key@));
        }
        match removed {
            Some(request) => Some(request.info),
            None => None,
        }
    }

    /// The key of the request that was forwarded before all others; `None` where
    /// nothing is owed.
    pub fn oldest(&self) -> (oldest: Option<String>)
        ensures
            match oldest {
                Some(key) => is_oldest(self@, key@) && key@ == oldest_key(self@),
                None => self@ == OwedMap::empty(),
            },
    {
        proof {
            use_type_invariant(self);
        }
        let count = self.entries.len();
        let ghost entries = self.entries.entry_seq();
        if count == 0 {
            proof {
                assert(self@ =~= OwedMap::empty());
            }
            return None;
        }
        let mut best: usize = 0;
        let mut i: usize = 1;
        while i < count
            invariant
                best < i <= count,
                count == entries.len(),
                entries == self.entries.entry_seq(),
                forall|j: int|
                    0 <= j < i ==> entries[best as int].1.pool_id <= (#[trigger] entries[j]).1.pool_id,
            decreases count - i,
        {
            if self.entries.value_at(i).pool_id < self.entries.value_at(best).pool_id {
                best = i;
            }
            i = i + 1;
        }
        let key = self.entries.name_at(best).to_owned();
        proof {
            names::map_of_entry(entries, best as int);
            assert forall|other: Seq<char>| #[trigger] self@.dom().contains(other) implies self@[key@].pool_id
                <= self@[other].pool_id by {
                names::map_of_names(entries, other);
                let j = choose|j: int| 0 <= j < entries.len() && #[trigger] entries[j].0 == other;
                names::map_of_entry(entries, j);
            }
            assert(is_oldest(self@, key@));
            let chosen = oldest_key(self@);
            assert(is_oldest(self@, chosen));
            assert(self@[key@].pool_id <= self@[chosen].pool_id);
            assert(self@[chosen].pool_id <= self@[key@].pool_id);
            assert(self.entries@.dom().contains(chosen));
            assert(self.entries@.dom().contains(key@));
        }
        Some(key)
    }

    /// The keys of the requests that `client_id` waits for.
    fn keys_of(&self, client_id: &str) -> (keys: Vec<String>)
        ensures
            forall|key: Seq<char>| #[trigger]
                self.entries@.dom().contains(key) && self.entries@[key].info.client_id@ == client_id@
                    <==> exists|j: int| 0 <= j < keys@.len() && #[trigger] keys@[j]@ == key,
    {
        let mut keys: Vec<String> = Vec::new();
        let count = self.entries.len();
        let ghost entries = self.entries.entry_seq();
        let mut i: usize = 0;
        while i < count
            invariant
                i <= count,
                count == entries.len(),
                entries == self.entries.entry_seq(),
                forall|j: int|
                    0 <= j < keys@.len() ==> exists|k: int|
                        0 <= k < i && entries[k].0 == (#[trigger] keys@[j])@ && #[trigger] entries[k].1.info.client_id@
                            == client_id@,
                forall|k: int|
                    0 <= k < i && (#[trigger] entries[k]).1.info.client_id@ == client_id@ ==> exists|j: int|
                        0 <= j < keys@.len() && #[trigger] keys@[j]@ == entries[k].0,
            decreases count - i,
        {
            let waits = same_text(self.entries.value_at(i).info.client_id.as_str(), client_id);
            if waits {
                let ghost earlier = keys@;
                keys.push(self.entries.name_at(i).to_owned());
                proof {
                    assert(keys@[earlier.len() as int]@ == entries[i as int].0);
                    assert forall|k: int|
                        0 <= k < i && (#[trigger] entries[k]).1.info.client_id@
                            == client_id@ implies exists|j: int|
                        0 <= j < keys@.len() && #[trigger] keys@[j]@ == entries[k].0 by {
                        let j = choose|j: int|
                            0 <= j < earlier.len() && #[trigger] earlier[j]@ == entries[k].0;
                        assert(keys@[j]@ == entries[k].0);
                    }
                    assert forall|j: int| 0 <= j < keys@.len() implies exists|k: int|
                        0 <= k < i + 1 && entries[k].0 == (#[trigger] keys@[j])@
                            && #[trigger] entries[k].1.info.client_id@ == client_id@ by {
                        if j < earlier.len() {
                            assert(keys@[j] == earlier[j]);
                            let k = choose|k: int|
                                0 <= k < i && entries[k].0 == earlier[j]@
                                    && #[trigger] entries[k].1.info.client_id@ == client_id@;
                            assert(entries[k].1.info.client_id@ == client_id@);
                        } else {
                            assert(entries[i as int].1.info.client_id@ == client_id@);
                        }
                    }
                }
            }
            i = i + 1;
        }
        proof {
            assert forall|key: Seq<char>| #[trigger]
                self.entries@.dom().contains(key) && self.entries@[key].info.client_id@
                    == client_id@ implies exists|j: int|
                0 <= j < keys@.len() && #[trigger] keys@[j]@ == key by {
                names::map_of_names(entries, key);
                let k = choose|k: int| 0 <= k < entries.len() && #[trigger] entries[k].0 == key;
                names::map_of_entry(entries, k);
                assert(entries[k].1.info.client_id@ == client_id@);
            }
            assert forall|key: Seq<char>|
                (exists|j: int| 0 <= j < keys@.len() && #[trigger] keys@[j]@ == key) implies #[trigger]
                self.entries@.dom().contains(key) && self.entries@[key].info.client_id@ == client_id@ by {
                let j = choose|j: int| 0 <= j < keys@.len() && #[trigger] keys@[j]@ == key;
                let k = choose|k: int|
                    0 <= k < entries.len() && entries[k].0 == keys@[j]@
                        && #[trigger] entries[k].1.info.client_id@ == client_id@;
                names::map_of_entry(entries, k);
            }
        }
        keys
    }

    /// Drops the requests of the client `client_id`.
    pub fn close_all_of(&mut self, client_id: &str)
        ensures
            final(self)@ == without_client(old(self)@, client_id@),
    {
        proof {
            use_type_invariant(&*self);
        }
        let ghost before = self.entries@;
        let keys = self.keys_of(client_id);
        let mut entries: NameMap<OpenRequest> = NameMap::new();
        std::mem::swap(&mut self.entries, &mut entries);
        let mut i: usize = 0;
        while i < keys.len()
            invariant
                i <= keys.len(),
                forall|key: Seq<char>| #[trigger]
                    entries@.dom().contains(key) <==> before.dom().contains(key) && forall|j: int|
                        0 <= j < i ==> #[trigger] keys@[j]@ != key,
                forall|key: Seq<char>| #[trigger]
                    entries@.dom().contains(key) ==> entries@[key] == before[key],
            decreases keys.len() - i,
        {
            entries.remove(keys[i].as_str());
            i = i + 1;
        }
        self.entries = entries;
        proof {
            let after = without_client(all_owed(before), client_id@);
            assert forall|key: Seq<char>| self.entries@.dom().contains(
                key,
            ) == after.dom().contains(key) by {
                assert(before.dom().contains(key) == all_owed(before).dom().contains(key));
            }
            assert(self@ =~= after);
        }
    }
}

} // verus!
