//! The two tables of the backend: one state document per resource id, and
//! at most one lock per resource id.
use crate::db::table::{
    as_map, distinct_keys, lemma_absent, lemma_lookup, lemma_push, lemma_remove, lemma_update,
};
use crate::error::DatabaseError;
use crate::text::same_text;
use vstd::prelude::*;
use vstd::std_specs::convert::FromSpecImpl;

verus! {

/// `chrono::NaiveDateTime`: the time a row was last written. The store
/// reads no clock: every write is handed its time by the caller, and the
/// store carries it along without looking at it.
#[verifier::external_type_specification]
#[verifier::external_body]
pub struct ExNaiveDateTime(chrono::NaiveDateTime);

/// What the state table holds for one resource.
pub struct StateRecord {
    pub state: Seq<char>,
    pub updated_at: chrono::NaiveDateTime,
}

/// What the lock table holds for one locked resource.
pub struct LockRecord {
    pub lock_id: Seq<char>,
    pub payload: Seq<char>,
    pub updated_at: chrono::NaiveDateTime,
}

/// The contents of both tables, each keyed by resource id. A resource is
/// locked exactly when `locks` has an entry for it, so no resource ever has
/// two locks.
pub struct Tables {
    pub states: Map<Seq<char>, StateRecord>,
    pub locks: Map<Seq<char>, LockRecord>,
}

impl Tables {
    /// Both tables without a row.
    pub open spec fn empty() -> Tables {
        Tables { states: Map::empty(), locks: Map::empty() }
    }

    /// The state stored for `id`, if any.
    pub open spec fn state_of(self, id: Seq<char>) -> Option<StateRecord> {
        if self.states.contains_key(id) {
            Some(self.states[id])
        } else {
            None
        }
    }

    /// The lock held on `id`, if any.
    pub open spec fn lock_of(self, id: Seq<char>) -> Option<LockRecord> {
        if self.locks.contains_key(id) {
            Some(self.locks[id])
        } else {
            None
        }
    }

    /// The tables after `state` was stored for `id` at time `at`: the row
    /// is created, or its document and time are overwritten.
    pub open spec fn replaced(
        self,
        id: Seq<char>,
        state: Seq<char>,
        at: chrono::NaiveDateTime,
    ) -> Tables {
        Tables {
            states: self.states.insert(id, StateRecord { state, updated_at: at }),
            locks: self.locks,
        }
    }

    /// The tables after an attempt at time `at` to lock `id` under
    /// `lock_id`: a free resource becomes locked, a locked one stays as it
    /// is, whoever holds it.
    pub open spec fn acquired(
        self,
        id: Seq<char>,
        lock_id: Seq<char>,
        payload: Seq<char>,
        at: chrono::NaiveDateTime,
    ) -> Tables {
        if self.locks.contains_key(id) {
            self
        } else {
            Tables {
                states: self.states,
                locks: self.locks.insert(id, LockRecord { lock_id, payload, updated_at: at }),
            }
        }
    }

    /// The tables after a release of `id` under `lock_id`: the lock goes
    /// only if it is held under that very id.
    pub open spec fn released(self, id: Seq<char>, lock_id: Seq<char>) -> Tables {
        if self.locks.contains_key(id) && self.locks[id].lock_id == lock_id {
            Tables { states: self.states, locks: self.locks.remove(id) }
        } else {
            self
        }
    }
}

/// A row of the state table.
#[derive(Debug)]
pub struct TerraformRow {
    pub id: String,
    pub state: String,
    pub last_update_ts: chrono::NaiveDateTime,
}

/// A row of the lock table: `id` names the lock, `terraform_id` the
/// resource it is held on, `state` is the holder's payload.
#[derive(Debug)]
pub struct TerraformLockRow {
    pub id: String,
    pub terraform_id: String,
    pub state: String,
    pub last_update_ts: chrono::NaiveDateTime,
}

impl TerraformRow {
    /// What the row stores under its id.
    pub open spec fn record(&self) -> StateRecord {
        StateRecord { state: self.state@, updated_at: self.last_update_ts }
    }

    /// A copy of the row.
    pub fn duplicate(&self) -> (r: Self)
        ensures
            r == *self,
    {
        TerraformRow {
            id: self.id.clone(),
            state: self.state.clone(),
            last_update_ts: self.last_update_ts,
        }
    }
}

impl TerraformLockRow {
    /// The row is the one of the resource `terraform_id`, and stores
    /// `record`.
    pub open spec fn holds(&self, terraform_id: Seq<char>, record: LockRecord) -> bool {
        self.terraform_id@ == terraform_id && self.record() == record
    }

    /// What the row stores under its resource id.
    pub open spec fn record(&self) -> LockRecord {
        LockRecord { lock_id: self.id@, payload: self.state@, updated_at: self.last_update_ts }
    }

    /// A copy of the row.
    pub fn duplicate(&self) -> (r: Self)
        ensures
            r == *self,
    {
        TerraformLockRow {
            id: self.id.clone(),
            terraform_id: self.terraform_id.clone(),
            state: self.state.clone(),
            last_update_ts: self.last_update_ts,
        }
    }
}

/// Why a lock was not granted: somebody else holds it, or the database
/// failed.
#[derive(Debug)]
pub enum MaybeConflictError {
    Conflict(TerraformLockRow),
    Error(DatabaseError),
}

impl FromSpecImpl<DatabaseError> for MaybeConflictError {
    open spec fn obeys_from_spec() -> bool {
        true
    }

    open spec fn from_spec(e: DatabaseError) -> Self {
        MaybeConflictError::Error(e)
    }
}

impl From<DatabaseError> for MaybeConflictError {
    fn from(e: DatabaseError) -> (r: Self) {
        Self::Error(e)
    }
}

/// The rows of the state table as keyed entries.
spec fn state_entries(rows: Seq<TerraformRow>) -> Seq<(Seq<char>, StateRecord)> {
    Seq::new(rows.len(), |i: int| (rows[i].id@, rows[i].record()))
}

/// The rows of the lock table as entries keyed by the locked resource.
spec fn lock_entries(rows: Seq<TerraformLockRow>) -> Seq<(Seq<char>, LockRecord)> {
    Seq::new(rows.len(), |i: int| (rows[i].terraform_id@, rows[i].record()))
}

/// The index of the state row for `id`, if there is one.
fn find_state(rows: &Vec<TerraformRow>, id: &str) -> (r: Option<usize>)
    ensures
        match r {
            Some(i) => i < rows.len() && rows[i as int].id@ == id@,
            None => forall|j: int| 0 <= j < rows.len() ==> rows[j].id@ != id@,
        },
{
    let mut i: usize = 0;
    while i < rows.len()
        invariant
            i <= rows.len(),
            forall|j: int| 0 <= j < i ==> rows[j].id@ != id@,
        decreases rows.len() - i,
    {
        if same_text(rows[i].id.as_str(), id) {
            return Some(i);
        }
        i += 1;
    }
    None
}

/// The index of the lock row for the resource `terraform_id`, if there is
/// one.
fn find_lock(rows: &Vec<TerraformLockRow>, terraform_id: &str) -> (r: Option<usize>)
    ensures
        match r {
            Some(i) => i < rows.len() && rows[i as int].terraform_id@ == terraform_id@,
            None => forall|j: int| 0 <= j < rows.len() ==> rows[j].terraform_id@ != terraform_id@,
        },
{
    let mut i: usize = 0;
    while i < rows.len()
        invariant
            i <= rows.len(),
            forall|j: int| 0 <= j < i ==> rows[j].terraform_id@ != terraform_id@,
        decreases rows.len() - i,
    {
        if same_text(rows[i].terraform_id.as_str(), terraform_id) {
            return Some(i);
        }
        i += 1;
    }
    None
}

/// The state-and-lock store: both tables, held in memory.
pub struct TerraformQuery {
    states: Vec<TerraformRow>,
    locks: Vec<TerraformLockRow>,
}

impl View for TerraformQuery {
    type V = Tables;

    closed spec fn view(&self) -> Tables {
        Tables {
            states: as_map(state_entries(self.states@)),
            locks: as_map(lock_entries(self.locks@)),
        }
    }
}

impl TerraformQuery {
    /// No resource has two state rows, and none has two locks.
    #[verifier::type_invariant]
    spec fn well_formed(self) -> bool {
        &&& distinct_keys(state_entries(self.states@))
        &&& distinct_keys(lock_entries(self.locks@))
    }

    /// A store with both tables empty.
    pub fn new() -> (r: Self)
        ensures
            r@ == Tables::empty(),
    {
        let r = Self { states: Vec::new(), locks: Vec::new() };
        proof {
            lemma_absent_everywhere(r);
        }
        r
    }

    /// The state row stored for `id`, if there is one. Changes nothing.
    pub fn get(&self, id: &str) -> (r: Option<TerraformRow>)
        ensures
            match r {
                Some(row) => row.id@ == id@ && self@.state_of(id@) == Some(row.record()),
                None => self@.state_of(id@) is None,
            },
    {
        proof {
            use_type_invariant(self);
        }
        match find_state(&self.states, id) {
            Some(i) => {
                proof {
                    lemma_lookup(state_entries(self.states@), i as int);
                }
                Some(self.states[i].duplicate())
            },
            None => {
                proof {
                    lemma_absent(state_entries(self.states@), id@);
                }
                None
            },
        }
    }

    /// Stores `state` for `id` at the time `at`, in one step, whether or
    /// not a row exists: a new row is created, an existing one gets the new
    /// document and the new time. Returns the row as it is now stored.
    pub fn create_or_replace(
        &mut self,
        id: &str,
        state: &str,
        at: chrono::NaiveDateTime,
    ) -> (row: TerraformRow)
        ensures
            row.id@ == id@,
            row.state@ == state@,
            row.last_update_ts == at,
            final(self)@ == old(self)@.replaced(id@, state@, at),
    {
        proof {
            use_type_invariant(&*self);
        }
        let row = TerraformRow { id: id.to_owned(), state: state.to_owned(), last_update_ts: at };
        let stored = row.duplicate();
        let mut rows: Vec<TerraformRow> = Vec::new();
        std::mem::swap(&mut rows, &mut self.states);
        let ghost before = state_entries(rows@);
        let ghost entry = (id@, row.record());
        match find_state(&rows, id) {
            Some(i) => {
                rows.set(i, stored);
                proof {
                    lemma_update(before, i as int, entry);
                    assert(state_entries(rows@) =~= before.update(i as int, entry));
                }
            },
            None => {
                rows.push(stored);
                proof {
                    lemma_push(before, entry);
                    assert(state_entries(rows@) =~= before.push(entry));
                }
            },
        }
        self.states = rows;
        row
    }

    /// The lock row for the resource `terraform_id`, if it is locked.
    /// Changes nothing.
    pub fn get_lock_by_terraform_id(&self, terraform_id: &str) -> (r: Option<TerraformLockRow>)
        ensures
            match r {
                Some(row) => row.terraform_id@ == terraform_id@ && self@.lock_of(terraform_id@)
                    == Some(row.record()),
                None => self@.lock_of(terraform_id@) is None,
            },
    {
        proof {
            use_type_invariant(self);
        }
        match find_lock(&self.locks, terraform_id) {
            Some(i) => {
                proof {
                    lemma_lookup(lock_entries(self.locks@), i as int);
                }
                Some(self.locks[i].duplicate())
            },
            None => {
                proof {
                    lemma_absent(lock_entries(self.locks@), terraform_id@);
                }
                None
            },
        }
    }

    /// Decides an attempt to lock under `lock_id` from the row that the
    /// lock table holds for the resource once the attempt was made: the
    /// caller has the lock if that row carries its lock id, and is told of
    /// the holder if not. A failure of the database is passed on as it is.
    pub fn arbitrate(lock_id: &str, stored: Result<TerraformLockRow, DatabaseError>) -> (r: Result<
        TerraformLockRow,
        MaybeConflictError,
    >)
        ensures
            r == Self::arbitrated(lock_id@, stored),
    {
        match stored {
            Ok(row) => {
                if same_text(lock_id, row.id.as_str()) {
                    Ok(row)
                } else {
                    Err(MaybeConflictError::Conflict(row))
                }
            },
            Err(e) => Err(MaybeConflictError::from(e)),
        }
    }

    /// What `arbitrate` returns.
    pub open spec fn arbitrated(
        lock_id: Seq<char>,
        stored: Result<TerraformLockRow, DatabaseError>,
    ) -> Result<TerraformLockRow, MaybeConflictError> {
        match stored {
            Ok(row) => if row.id@ == lock_id {
                Ok(row)
            } else {
                Err(MaybeConflictError::Conflict(row))
            },
            Err(e) => Err(MaybeConflictError::Error(e)),
        }
    }

    /// `r` is the answer to an attempt to lock `terraform_id` under
    /// `lock_id` that left the resource locked as `held` says: the row of
    /// that lock, granted where it carries `lock_id` and a conflict where
    /// it carries another id.
    pub open spec fn decided(
        r: Result<TerraformLockRow, MaybeConflictError>,
        terraform_id: Seq<char>,
        lock_id: Seq<char>,
        held: LockRecord,
    ) -> bool {
        match r {
            Ok(row) => row.holds(terraform_id, held) && held.lock_id == lock_id,
            Err(MaybeConflictError::Conflict(row)) => row.holds(terraform_id, held) && held.lock_id
                != lock_id,
            Err(MaybeConflictError::Error(_)) => false,
        }
    }

    /// Tries to lock the resource `terraform_id` under `lock_id` at the
    /// time `at`, with `state` as the holder's payload. In one step a lock
    /// row is written unless the resource has one, and the row the resource
    /// then has is read back; `arbitrate` decides on that row. So a free
    /// resource is locked and its new row, with the time `at`, returned; a
    /// resource that `lock_id` already holds is left alone and its row
    /// returned; and a resource that another lock id holds is left alone
    /// and the holder's row returned as a conflict.
    pub fn lock(
        &mut self,
        terraform_id: &str,
        lock_id: &str,
        state: &str,
        at: chrono::NaiveDateTime,
    ) -> (r: Result<TerraformLockRow, MaybeConflictError>)
        ensures
            final(self)@.lock_of(terraform_id@) is Some,
            final(self)@ == old(self)@.acquired(terraform_id@, lock_id@, state@, at),
            Self::decided(r, terraform_id@, lock_id@, final(self)@.locks[terraform_id@]),
    {
        proof {
            use_type_invariant(&*self);
        }
        let mut rows: Vec<TerraformLockRow> = Vec::new();
        std::mem::swap(&mut rows, &mut self.locks);
        let ghost before = lock_entries(rows@);
        let held: usize = match find_lock(&rows, terraform_id) {
            Some(i) => i,
            None => {
                let row = TerraformLockRow {
                    id: lock_id.to_owned(),
                    terraform_id: terraform_id.to_owned(),
                    state: state.to_owned(),
                    last_update_ts: at,
                };
                proof {
                    lemma_absent(before, terraform_id@);
                    lemma_push(before, (terraform_id@, row.record()));
                    assert(lock_entries(rows@.push(row)) =~= before.push(
                        (terraform_id@, row.record()),
                    ));
                }
                rows.push(row);
                rows.len() - 1
            },
        };
        proof {
            lemma_lookup(lock_entries(rows@), held as int);
        }
        let stored = rows[held].duplicate();
        self.locks = rows;
        Self::arbitrate(lock_id, Ok(stored))
    }

    /// Releases the lock on the resource `terraform_id` if it is held under
    /// `lock_id`. A resource that is free, or locked under another id, is
    /// left as it is, and the call returns all the same.
    pub fn unlock(&mut self, terraform_id: &str, lock_id: &str)
        ensures
            final(self)@ == old(self)@.released(terraform_id@, lock_id@),
    {
        proof {
            use_type_invariant(&*self);
        }
        let mut rows: Vec<TerraformLockRow> = Vec::new();
        std::mem::swap(&mut rows, &mut self.locks);
        let ghost before = lock_entries(rows@);
        match find_lock(&rows, terraform_id) {
            Some(i) => {
                proof {
                    lemma_lookup(before, i as int);
                }
                if same_text(rows[i].id.as_str(), lock_id) {
                    rows.remove(i);
                    proof {
                        lemma_remove(before, i as int);
                        assert(lock_entries(rows@) =~= before.remove(i as int));
                    }
                }
            },
            None => {
                proof {
                    lemma_absent(before, terraform_id@);
                }
            },
        }
        self.locks = rows;
    }
}

/// A store without rows holds nothing.
proof fn lemma_absent_everywhere(q: TerraformQuery)
    requires
        q.states@.len() == 0,
        q.locks@.len() == 0,
    ensures
        q@ == Tables::empty(),
{
    assert forall|id: Seq<char>| !as_map(state_entries(q.states@)).contains_key(id) by {
        lemma_absent(state_entries(q.states@), id);
    }
    assert forall|id: Seq<char>| !as_map(lock_entries(q.locks@)).contains_key(id) by {
        lemma_absent(lock_entries(q.locks@), id);
    }
    assert(q@.states =~= Map::empty());
    assert(q@.locks =~= Map::empty());
}

} // verus!
