//! The session registry: which sessions are live, and for whom.
//!
//! A token is accepted only while the registry holds its session. The
//! registry, not the token, has the last word: a session that is deleted is
//! gone at the very next look, however long the token would still be valid.
//! This registry lives in the process; a deployment that shares sessions
//! between processes keeps them in an outside store with the same three
//! operations.

use std::collections::HashMap;
use vstd::prelude::*;
use vstd::string::*;

use crate::utils::codec::{uuid_text, write_uuid};

verus! {

/// One session: whose it is and the moment from which it no longer counts.
#[derive(Debug)]
pub struct SessionRecord {
    pub subject_id: String,
    pub expires_at: i128,
}

/// The registry of sessions, keyed by session id.
#[derive(Debug)]
pub struct SessionStore {
    records: HashMap<u128, SessionRecord>,
}

/// What a look into a store gives: the subject of a live session, word that
/// there is none, or word that the store could not be asked.
#[derive(Debug)]
pub enum SessionLookup {
    Found(String),
    Absent,
    Unreachable,
}

/// The subject of a session at a given time, where the session is held and
/// has not run out.
pub open spec fn subject_at(records: Map<u128, (Seq<char>, int)>, id: u128, now: int) -> Option<
    Seq<char>,
> {
    if records.contains_key(id) && now < records[id].1 {
        Some(records[id].0)
    } else {
        None
    }
}

/// The ids among `ids` whose sessions are live at a given time.
pub open spec fn live_among(records: Map<u128, (Seq<char>, int)>, ids: Set<u128>, now: int) -> Set<
    u128,
> {
    ids.filter(|id: u128| subject_at(records, id, now) is Some)
}

/// The name of a session in a store that names its entries by text: the
/// session id written as a UUID.
pub fn session_key(session_id: u128) -> (key: String)
    ensures
        key@ == uuid_text(session_id),
{
    write_uuid(session_id)
}

impl View for SessionStore {
    type V = Map<u128, (Seq<char>, int)>;

    /// Each held session with its subject and the moment it runs out.
    closed spec fn view(&self) -> Map<u128, (Seq<char>, int)> {
        self.records@.map_values(|r: SessionRecord| (r.subject_id@, r.expires_at as int))
    }
}

impl SessionStore {
    /// A registry that holds no session.
    pub fn new() -> (store: SessionStore)
        ensures
            store@ == Map::<u128, (Seq<char>, int)>::empty(),
    {
        let store = SessionStore { records: HashMap::new() };
        assert(store@ =~= Map::<u128, (Seq<char>, int)>::empty());
        store
    }

    /// Records a session for `ttl_seconds` seconds from `now`, replacing any
    /// record under the same id.
    pub fn put(&mut self, session_id: u128, subject_id: &str, ttl_seconds: u64, now: i64)
        ensures
            final(self)@ == old(self)@.insert(session_id, (subject_id@, now + ttl_seconds)),
    {
        broadcast use vstd::std_specs::hash::group_hash_axioms;

        let record = SessionRecord {
            subject_id: String::from_str(subject_id),
            expires_at: now as i128 + ttl_seconds as i128,
        };
        self.records.insert(session_id, record);
        assert(self@ =~= old(self)@.insert(session_id, (subject_id@, now + ttl_seconds)));
    }

    /// The subject of a session, where the session is live at `now`.
    pub fn exists_get(&self, session_id: u128, now: i64) -> (subject: Option<String>)
        ensures
            match subject {
                Some(s) => subject_at(self@, session_id, now as int) == Some(s@),
                None => subject_at(self@, session_id, now as int) is None,
            },
    {
        broadcast use vstd::std_specs::hash::group_hash_axioms;

        match self.records.get(&session_id) {
            Some(record) => {
                if (now as i128) < record.expires_at {
                    Some(record.subject_id.clone())
                } else {
                    None
                }
            },
            None => None,
        }
    }

    /// A look for a session, as the answer of a store: found with its
    /// subject, or absent. This store can always be asked.
    pub fn look_up(&self, session_id: u128, now: i64) -> (found: SessionLookup)
        ensures
            match found {
                SessionLookup::Found(s) => subject_at(self@, session_id, now as int) == Some(s@),
                SessionLookup::Absent => subject_at(self@, session_id, now as int) is None,
                SessionLookup::Unreachable => false,
            },
    {
        match self.exists_get(session_id, now) {
            Some(subject) => SessionLookup::Found(subject),
            None => SessionLookup::Absent,
        }
    }

    /// Deletes the sessions with the given ids and returns how many of them
    /// were live at `now`. An id given twice counts once.
    #[verifier::rlimit(40)]
    pub fn delete(&mut self, session_ids: &[u128], now: i64) -> (count: usize)
        ensures
            final(self)@ == old(self)@.remove_keys(session_ids@.to_set()),
            count == live_among(old(self)@, session_ids@.to_set(), now as int).len(),
    {
        broadcast use vstd::std_specs::hash::group_hash_axioms;

        let mut count: usize = 0;
        let mut i: usize = 0;
        let ghost mut counted: Set<u128> = Set::empty();
        assert(session_ids@.take(0).to_set() =~= Set::<u128>::empty());
        assert(self@ =~= old(self)@.remove_keys(session_ids@.take(0).to_set()));
        assert(counted =~= live_among(old(self)@, session_ids@.take(0).to_set(), now as int));
        while i < session_ids.len()
            invariant
                i <= session_ids.len(),
                count <= i,
                counted.finite(),
                count == counted.len(),
                counted == live_among(
                    old(self)@,
                    session_ids@.take(i as int).to_set(),
                    now as int,
                ),
                self@ == old(self)@.remove_keys(session_ids@.take(i as int).to_set()),
            decreases session_ids.len() - i,
        {
            let id: u128 = session_ids[i];
            let ghost before = self@;
            let ghost done = session_ids@.take(i as int).to_set();
            let ghost next = session_ids@.take(i + 1).to_set();
            assert(next =~= done.insert(id)) by {
                assert(session_ids@.take(i + 1) =~= session_ids@.take(i as int).push(id));
                session_ids@.take(i as int).lemma_push_to_set_commute(id);
            }
            let was_live = match self.records.remove(&id) {
                Some(record) => (now as i128) < record.expires_at,
                None => false,
            };
            proof {
                assert(self@ =~= before.remove(id));
                assert(self@ =~= old(self)@.remove_keys(next));
                assert(was_live == (subject_at(before, id, now as int) is Some));
                let live_next = live_among(old(self)@, next, now as int);
                if was_live {
                    assert(!done.contains(id));
                    assert(live_next =~= counted.insert(id));
                } else {
                    assert(live_next =~= counted);
                }
            }
            if was_live {
                proof {
                    counted = counted.insert(id);
                }
                count = count + 1;
            }
            i = i + 1;
        }
        assert(session_ids@.take(i as int) =~= session_ids@);
        count
    }
}

/// Once sessions are deleted, a look for any of them finds nothing, at
/// whatever time it is made: revocation holds from the next look on.
pub proof fn law_deleted_session_is_absent(
    records: Map<u128, (Seq<char>, int)>,
    deleted: Set<u128>,
    id: u128,
    now: int,
)
    requires
        deleted.contains(id),
    ensures
        subject_at(records.remove_keys(deleted), id, now) is None,
{
}

/// A session that is put is found, with its subject, at every time before
/// its lifetime has run out, and at none from then on.
pub proof fn law_put_session_is_found(
    records: Map<u128, (Seq<char>, int)>,
    id: u128,
    subject: Seq<char>,
    ttl_seconds: u64,
    put_at: i64,
    now: int,
)
    ensures
        now < put_at + ttl_seconds ==> subject_at(
            records.insert(id, (subject, put_at + ttl_seconds)),
            id,
            now,
        ) == Some(subject),
        now >= put_at + ttl_seconds ==> subject_at(
            records.insert(id, (subject, put_at + ttl_seconds)),
            id,
            now,
        ) is None,
{
}

/// Putting a session a second time changes nothing: the store after both
/// puts is the store after one.
pub proof fn law_put_is_idempotent(
    records: Map<u128, (Seq<char>, int)>,
    id: u128,
    record: (Seq<char>, int),
)
    ensures
        records.insert(id, record).insert(id, record) == records.insert(id, record),
{
    assert(records.insert(id, record).insert(id, record) =~= records.insert(id, record));
}

} // verus!
