//! A mathematical model of the profile store, and resolution run against
//! it.
//!
//! The store is modelled as a sequence of records with the external subject
//! id unique — the uniqueness constraint the real store enforces.  A lookup
//! answers with the record for the subject; a create appends, or reports a
//! duplicate and leaves the store unchanged.  `resolve_with_model` drives
//! the resolver state machine against this model and is proved to follow
//! `resolve_v`, the one-line mathematical statement of lookup-or-create;
//! the laws at the end are proved of `resolve_v`.

use vstd::prelude::*;
use crate::errors::AuthError;
use crate::resolver::ProfileRecord;
use crate::resolver::Resolver;
use crate::resolver::StoreAction;
use crate::resolver::StoreEvent;
use crate::resolver::hint_display_name;
use crate::user::AuthUser;

verus! {

/// A record reduced to its mathematical content.
pub struct RecordV {
    /// Internal user id.
    pub user_id: Seq<char>,
    /// External subject id.
    pub clerk_id: Seq<char>,
    /// Display name.
    pub display_name: Seq<char>,
}

impl View for ProfileRecord {
    type V = RecordV;

    open spec fn view(&self) -> RecordV {
        RecordV { user_id: self.user_id@, clerk_id: self.clerk_id@, display_name: self.display_name@ }
    }
}

/// No two records share an external subject id.
pub open spec fn subjects_unique(records: Seq<RecordV>) -> bool {
    forall|i: int, j: int|
        0 <= i < j < records.len() ==> records[i].clerk_id != records[j].clerk_id
}

/// The first record for the subject, if any.
pub open spec fn lookup_v(records: Seq<RecordV>, clerk_id: Seq<char>) -> Option<RecordV>
    decreases records.len(),
{
    if records.len() == 0 {
        None
    } else if records[0].clerk_id == clerk_id {
        Some(records[0])
    } else {
        lookup_v(records.drop_first(), clerk_id)
    }
}

/// Lookup-or-create, mathematically: an existing record answers with its
/// internal id and leaves the store as it is; otherwise one record is
/// appended, carrying the fresh id and the given display name, and the
/// fresh id is the answer.
pub open spec fn resolve_v(
    records: Seq<RecordV>,
    clerk_id: Seq<char>,
    display_name: Seq<char>,
    fresh_id: Seq<char>,
) -> (Seq<RecordV>, Seq<char>) {
    match lookup_v(records, clerk_id) {
        Some(r) => (records, r.user_id),
        None => (
            records.push(RecordV { user_id: fresh_id, clerk_id, display_name }),
            fresh_id,
        ),
    }
}

proof fn lemma_lookup_skip(records: Seq<RecordV>, clerk_id: Seq<char>, j: int)
    requires
        0 <= j <= records.len(),
        forall|t: int| 0 <= t < j ==> records[t].clerk_id != clerk_id,
    ensures
        lookup_v(records, clerk_id) == lookup_v(records.skip(j), clerk_id),
    decreases j,
{
    if j == 0 {
        assert(records.skip(0) =~= records);
    } else {
        lemma_lookup_skip(records.drop_first(), clerk_id, j - 1);
        assert(records.drop_first().skip(j - 1) =~= records.skip(j));
    }
}

/// A found record is a record of the store, for the subject asked.
pub proof fn lemma_lookup_found(records: Seq<RecordV>, clerk_id: Seq<char>)
    requires
        lookup_v(records, clerk_id) is Some,
    ensures
        lookup_v(records, clerk_id).unwrap().clerk_id == clerk_id,
        exists|i: int|
            0 <= i < records.len() && records[i] == lookup_v(records, clerk_id).unwrap(),
    decreases records.len(),
{
    if records.len() > 0 {
        if records[0].clerk_id == clerk_id {
            assert(records[0] == lookup_v(records, clerk_id).unwrap());
        } else {
            lemma_lookup_found(records.drop_first(), clerk_id);
            let i = choose|i: int|
                0 <= i < records.drop_first().len() && records.drop_first()[i] == lookup_v(
                    records.drop_first(),
                    clerk_id,
                ).unwrap();
            assert(records[i + 1] == lookup_v(records, clerk_id).unwrap());
        }
    }
}

/// A missed lookup means no record of the store has the subject.
pub proof fn lemma_lookup_missing(records: Seq<RecordV>, clerk_id: Seq<char>)
    requires
        lookup_v(records, clerk_id) is None,
    ensures
        forall|i: int| 0 <= i < records.len() ==> records[i].clerk_id != clerk_id,
    decreases records.len(),
{
    if records.len() > 0 {
        lemma_lookup_missing(records.drop_first(), clerk_id);
        assert(forall|i: int|
            1 <= i < records.len() ==> records[i] == records.drop_first()[i - 1]);
    }
}

/// Looking up in a store with one record appended: the appended record
/// answers for its own subject where no earlier record does; any other
/// subject is answered as before.
pub proof fn lemma_lookup_push(records: Seq<RecordV>, rec: RecordV, clerk_id: Seq<char>)
    ensures
        lookup_v(records.push(rec), clerk_id) == (if lookup_v(records, clerk_id) is Some {
            lookup_v(records, clerk_id)
        } else if rec.clerk_id == clerk_id {
            Some(rec)
        } else {
            None
        }),
    decreases records.len(),
{
    if records.len() == 0 {
        assert(records.push(rec).drop_first() =~= Seq::<RecordV>::empty());
        assert(records.push(rec)[0] == rec);
        if rec.clerk_id != clerk_id {
            assert(lookup_v(Seq::<RecordV>::empty(), clerk_id) is None);
            assert(lookup_v(records.push(rec), clerk_id) is None);
        }
    } else {
        lemma_lookup_push(records.drop_first(), rec, clerk_id);
        assert(records.push(rec).drop_first() =~= records.drop_first().push(rec));
        assert(records.push(rec)[0] == records[0]);
    }
}

/// The in-memory model store: records with unique subjects.
pub struct StoreModel {
    records: Vec<ProfileRecord>,
}

impl View for StoreModel {
    type V = Seq<RecordV>;

    /// The records held, as mathematical records.
    closed spec fn view(&self) -> Seq<RecordV> {
        self.records@.map_values(|r: ProfileRecord| r@)
    }
}

impl StoreModel {
    /// The store's invariant: the uniqueness constraint on subjects.
    pub open spec fn wf(self) -> bool {
        subjects_unique(self@)
    }

    /// An empty store.
    pub fn new() -> (r: Self)
        ensures
            r@ == Seq::<RecordV>::empty(),
            r.wf(),
    {
        let s = Self { records: Vec::new() };
        proof {
            assert(s@ =~= Seq::<RecordV>::empty());
        }
        s
    }

    /// How many records the store holds.
    pub fn len(&self) -> (r: usize)
        ensures
            r == self@.len(),
    {
        self.records.len()
    }

    /// The record for `clerk_id`, if one exists.
    pub fn lookup(&self, clerk_id: &String) -> (r: Option<ProfileRecord>)
        ensures
            match r {
                Some(rec) => lookup_v(self@, clerk_id@) == Some(rec@),
                None => lookup_v(self@, clerk_id@) is None,
            },
    {
        let n = self.records.len();
        let mut j: usize = 0;
        while j < n
            invariant
                j <= n,
                n == self.records@.len(),
                forall|t: int| 0 <= t < j ==> self@[t].clerk_id != clerk_id@,
            decreases n - j,
        {
            proof {
                assert(self@[j as int] == self.records@[j as int]@);
            }
            if self.records[j].clerk_id == *clerk_id {
                let rec = ProfileRecord {
                    user_id: self.records[j].user_id.clone(),
                    clerk_id: self.records[j].clerk_id.clone(),
                    display_name: self.records[j].display_name.clone(),
                };
                proof {
                    lemma_lookup_skip(self@, clerk_id@, j as int);
                    assert(self@.skip(j as int)[0] == self@[j as int]);
                    assert(rec@ == self@[j as int]);
                }
                return Some(rec);
            }
            j = j + 1;
        }
        proof {
            lemma_lookup_skip(self@, clerk_id@, n as int);
            assert(self@.skip(n as int) =~= Seq::<RecordV>::empty());
        }
        None
    }

    /// Insert `record`.  Where a record for the subject already exists the
    /// create loses the uniqueness race: nothing changes and the answer is
    /// false.  Otherwise the record is appended.
    pub fn create(&mut self, record: ProfileRecord) -> (created: bool)
        requires
            old(self).wf(),
        ensures
            final(self).wf(),
            created == (lookup_v(old(self)@, record@.clerk_id) is None),
            created ==> final(self)@ == old(self)@.push(record@),
            !created ==> final(self)@ == old(self)@,
    {
        match self.lookup(&record.clerk_id) {
            Some(_) => false,
            None => {
                proof {
                    lemma_lookup_missing(self@, record@.clerk_id);
                }
                let ghost pre = self@;
                self.records.push(record);
                proof {
                    assert(self@ =~= pre.push(record@));
                    assert(forall|i: int| 0 <= i < pre.len() ==> self@[i] == pre[i]);
                    assert(subjects_unique(self@));
                }
                true
            },
        }
    }
}

/// Drive the resolver against the model store to completion.  The result
/// and the store afterwards are exactly `resolve_v` of the store before:
/// an existing record answers with its internal id and the store is
/// unchanged; otherwise exactly one record is created and its fresh id is
/// the answer.  Against a store that enforces uniqueness and never fails,
/// resolution never fails.
pub fn resolve_with_model(
    store: &mut StoreModel,
    clerk_id: String,
    email: Option<String>,
    name: Option<String>,
    fresh_id: String,
) -> (r: Result<AuthUser, AuthError>)
    requires
        old(store).wf(),
    ensures
        final(store).wf(),
        r is Ok,
        (final(store)@, r->Ok_0.user_id@) == resolve_v(
            old(store)@,
            clerk_id@,
            hint_display_name(name),
            fresh_id@,
        ),
        r->Ok_0.clerk_id == clerk_id,
        r->Ok_0.email == email,
{
    let (mut resolver, first_action) = Resolver::new(clerk_id, email, name, fresh_id);
    let clerk = match first_action {
        StoreAction::Lookup { clerk_id: c } => c,
        StoreAction::Create { record } => record.clerk_id,
    };
    match store.lookup(&clerk) {
        Some(rec) => {
            proof {
                lemma_lookup_found(store@, clerk@);
            }
            let _ = resolver.step(StoreEvent::Found { record: rec });
            resolver.outcome()
        },
        None => {
            let action = resolver.step(StoreEvent::Missing);
            let record = match action {
                Some(StoreAction::Create { record }) => record,
                _ => {
                    proof {
                        assert(false);
                    }
                    ProfileRecord {
                        user_id: String::new(),
                        clerk_id: String::new(),
                        display_name: String::new(),
                    }
                },
            };
            let created = store.create(record);
            proof {
                assert(created);
            }
            let _ = resolver.step(StoreEvent::Created);
            resolver.outcome()
        },
    }
}

/// Resolving the same subject twice in sequence answers with the same
/// internal id both times, and only the first resolution can add a record:
/// the store after the second resolution is the store after the first, and
/// at most one record more than before the first.
pub proof fn lemma_resolve_twice_same_subject(
    records: Seq<RecordV>,
    clerk_id: Seq<char>,
    display1: Seq<char>,
    fresh1: Seq<char>,
    display2: Seq<char>,
    fresh2: Seq<char>,
)
    requires
        subjects_unique(records),
    ensures
        ({
            let (after1, id1) = resolve_v(records, clerk_id, display1, fresh1);
            let (after2, id2) = resolve_v(after1, clerk_id, display2, fresh2);
            id2 == id1 && after2 == after1 && after1.len() <= records.len() + 1
        }),
{
    let (after1, id1) = resolve_v(records, clerk_id, display1, fresh1);
    match lookup_v(records, clerk_id) {
        Some(r) => {
        },
        None => {
            let rec = RecordV { user_id: fresh1, clerk_id, display_name: display1 };
            lemma_lookup_push(records, rec, clerk_id);
            assert(lookup_v(after1, clerk_id) == Some(rec));
        },
    }
}

/// Once a record for the subject is persisted, every resolution of that
/// subject answers with the persisted record's internal id and persists
/// nothing further — whatever display name or fresh id it brings.  With
/// the store's uniqueness constraint, at most one record for a subject is
/// ever created, and every caller receives its id.
pub proof fn lemma_resolution_settles(
    records: Seq<RecordV>,
    clerk_id: Seq<char>,
    display: Seq<char>,
    fresh: Seq<char>,
)
    requires
        subjects_unique(records),
        lookup_v(records, clerk_id) is Some,
    ensures
        resolve_v(records, clerk_id, display, fresh).0 == records,
        resolve_v(records, clerk_id, display, fresh).1 == lookup_v(
            records,
            clerk_id,
        ).unwrap().user_id,
{
}

/// Resolution preserves the store's uniqueness constraint.
pub proof fn lemma_resolve_preserves_unique(
    records: Seq<RecordV>,
    clerk_id: Seq<char>,
    display: Seq<char>,
    fresh: Seq<char>,
)
    requires
        subjects_unique(records),
    ensures
        subjects_unique(resolve_v(records, clerk_id, display, fresh).0),
{
    if lookup_v(records, clerk_id) is None {
        lemma_lookup_missing(records, clerk_id);
        let after = resolve_v(records, clerk_id, display, fresh).0;
        assert(forall|i: int| 0 <= i < records.len() ==> after[i] == records[i]);
    }
}

} // verus!
