//! What the tables guarantee across calls: reads after writes, and who
//! wins a lock.
//!
//! Everything here is stated over `Tables`, the view of the store, with
//! the functions that the contracts of `TerraformQuery` use. An answer of
//! `TerraformQuery::lock` enters as a value `answer` of which the contract
//! of `lock` is required to hold. Each write comes with its time, as the
//! store is handed it.
use crate::db::terraform::{
    LockRecord, MaybeConflictError, StateRecord, Tables, TerraformLockRow, TerraformQuery,
};
use vstd::prelude::*;

verus! {

/// One change to the tables.
pub enum Operation {
    /// `create_or_replace` of the state of `id`.
    Replace { id: Seq<char>, state: Seq<char>, at: chrono::NaiveDateTime },
    /// `lock` of `id`, whatever its answer.
    Acquire { id: Seq<char>, lock_id: Seq<char>, payload: Seq<char>, at: chrono::NaiveDateTime },
    /// `unlock` of `id`.
    Release { id: Seq<char>, lock_id: Seq<char> },
}

impl Operation {
    /// The resource that the operation is about.
    pub open spec fn resource(self) -> Seq<char> {
        match self {
            Operation::Replace { id, .. } => id,
            Operation::Acquire { id, .. } => id,
            Operation::Release { id, .. } => id,
        }
    }

    /// The operation writes the state of `id`.
    pub open spec fn writes(self, id: Seq<char>) -> bool {
        self is Replace && self.resource() == id
    }
}

impl Tables {
    /// The tables after `op`.
    pub open spec fn apply(self, op: Operation) -> Tables {
        match op {
            Operation::Replace { id, state, at } => self.replaced(id, state, at),
            Operation::Acquire { id, lock_id, payload, at } => self.acquired(
                id,
                lock_id,
                payload,
                at,
            ),
            Operation::Release { id, lock_id } => self.released(id, lock_id),
        }
    }

    /// The tables after the operations `ops`, first to last.
    pub open spec fn run(self, ops: Seq<Operation>) -> Tables
        decreases ops.len(),
    {
        if ops.len() == 0 {
            self
        } else {
            self.run(ops.drop_last()).apply(ops.last())
        }
    }

    /// The first attempt to lock `id` under `lock_id` is granted: the
    /// resource is free, or `lock_id` holds it already.
    pub open spec fn grants(self, id: Seq<char>, lock_id: Seq<char>) -> bool {
        match self.lock_of(id) {
            Some(held) => held.lock_id == lock_id,
            None => true,
        }
    }
}

/// Whatever is done in between, the state of a resource stays as it is
/// until somebody writes it.
pub proof fn lemma_state_stays_until_written(t: Tables, ops: Seq<Operation>, id: Seq<char>)
    requires
        forall|i: int| 0 <= i < ops.len() ==> !(#[trigger] ops[i]).writes(id),
    ensures
        t.run(ops).state_of(id) == t.state_of(id),
    decreases ops.len(),
{
    if ops.len() > 0 {
        let earlier = ops.drop_last();
        assert forall|i: int| 0 <= i < earlier.len() implies !(#[trigger] earlier[i]).writes(id) by {
            assert(earlier[i] == ops[i]);
        }
        lemma_state_stays_until_written(t, earlier, id);
        assert(!ops[ops.len() - 1].writes(id));
    }
}

/// A resource that was never written has no state: from empty tables, no
/// run of operations that writes no state for `id` makes a read of `id`
/// find one.
pub proof fn lemma_never_written_is_not_found(ops: Seq<Operation>, id: Seq<char>)
    requires
        forall|i: int| 0 <= i < ops.len() ==> !(#[trigger] ops[i]).writes(id),
    ensures
        Tables::empty().run(ops).state_of(id) is None,
{
    lemma_state_stays_until_written(Tables::empty(), ops, id);
}

/// A read returns the document last written: after `state` was stored for
/// `id`, and as long as nobody writes `id` again, the state of `id` is
/// `state`, unchanged and with the time of that write.
pub proof fn lemma_read_returns_last_write(
    t: Tables,
    id: Seq<char>,
    state: Seq<char>,
    at: chrono::NaiveDateTime,
    later: Seq<Operation>,
)
    requires
        forall|i: int| 0 <= i < later.len() ==> !(#[trigger] later[i]).writes(id),
    ensures
        t.replaced(id, state, at).run(later).state_of(id) == Some(
            StateRecord { state, updated_at: at },
        ),
{
    lemma_state_stays_until_written(t.replaced(id, state, at), later, id);
}

/// A second write overwrites the first entirely: the tables are those that
/// the second write alone would have left.
pub proof fn lemma_second_write_overwrites(
    t: Tables,
    id: Seq<char>,
    first: Seq<char>,
    first_at: chrono::NaiveDateTime,
    second: Seq<char>,
    second_at: chrono::NaiveDateTime,
)
    ensures
        t.replaced(id, first, first_at).replaced(id, second, second_at) == t.replaced(
            id,
            second,
            second_at,
        ),
{
    assert(t.states.insert(id, StateRecord { state: first, updated_at: first_at }).insert(
        id,
        StateRecord { state: second, updated_at: second_at },
    ) =~= t.states.insert(id, StateRecord { state: second, updated_at: second_at }));
}

/// After `first_id` locked a resource with `first_payload`, an attempt
/// under another lock id is answered with a conflict that carries the
/// first holder's row, and leaves the lock as it was.
///
/// The first attempt is taken to have stored its payload: the resource was
/// free before it, or was already locked under `first_id` with that
/// payload.
pub proof fn lemma_other_lock_id_conflicts(
    t: Tables,
    id: Seq<char>,
    first_id: Seq<char>,
    first_payload: Seq<char>,
    first_at: chrono::NaiveDateTime,
    second_id: Seq<char>,
    second_payload: Seq<char>,
    second_at: chrono::NaiveDateTime,
    answer: Result<TerraformLockRow, MaybeConflictError>,
)
    requires
        first_id != second_id,
        match t.lock_of(id) {
            Some(held) => held.lock_id == first_id && held.payload == first_payload,
            None => true,
        },
        TerraformQuery::decided(
            answer,
            id,
            second_id,
            t.acquired(id, first_id, first_payload, first_at).acquired(
                id,
                second_id,
                second_payload,
                second_at,
            ).locks[id],
        ),
    ensures
        answer matches Err(MaybeConflictError::Conflict(row)) && row.terraform_id@ == id && row.id@
            == first_id && row.state@ == first_payload,
        t.acquired(id, first_id, first_payload, first_at).acquired(
            id,
            second_id,
            second_payload,
            second_at,
        ) == t.acquired(id, first_id, first_payload, first_at),
        t.acquired(id, first_id, first_payload, first_at).lock_of(id) matches Some(held)
            && held.lock_id == first_id && held.payload == first_payload,
{
}

/// The holder of a lock may ask for it again: a second attempt under the
/// same lock id is granted, returns the row that is held, and changes
/// nothing, whatever payload it brings.
///
/// The first attempt is taken to have been granted.
pub proof fn lemma_holder_locks_again(
    t: Tables,
    id: Seq<char>,
    lock_id: Seq<char>,
    first_payload: Seq<char>,
    first_at: chrono::NaiveDateTime,
    second_payload: Seq<char>,
    second_at: chrono::NaiveDateTime,
    answer: Result<TerraformLockRow, MaybeConflictError>,
)
    requires
        t.grants(id, lock_id),
        TerraformQuery::decided(
            answer,
            id,
            lock_id,
            t.acquired(id, lock_id, first_payload, first_at).acquired(
                id,
                lock_id,
                second_payload,
                second_at,
            ).locks[id],
        ),
    ensures
        answer matches Ok(row) && row.terraform_id@ == id && row.id@ == lock_id && Some(
            row.record(),
        ) == t.acquired(id, lock_id, first_payload, first_at).lock_of(id),
        t.acquired(id, lock_id, first_payload, first_at).acquired(
            id,
            lock_id,
            second_payload,
            second_at,
        ) == t.acquired(id, lock_id, first_payload, first_at),
{
}

/// A release by the holder frees the resource, and the next attempt to
/// lock it is granted under whatever lock id it comes.
///
/// The first attempt is taken to have been granted.
pub proof fn lemma_release_frees_the_resource(
    t: Tables,
    id: Seq<char>,
    first_id: Seq<char>,
    first_payload: Seq<char>,
    first_at: chrono::NaiveDateTime,
    second_id: Seq<char>,
    second_payload: Seq<char>,
    second_at: chrono::NaiveDateTime,
    answer: Result<TerraformLockRow, MaybeConflictError>,
)
    requires
        t.grants(id, first_id),
        TerraformQuery::decided(
            answer,
            id,
            second_id,
            t.acquired(id, first_id, first_payload, first_at).released(id, first_id).acquired(
                id,
                second_id,
                second_payload,
                second_at,
            ).locks[id],
        ),
    ensures
        t.acquired(id, first_id, first_payload, first_at).released(id, first_id).lock_of(id) is None,
        t.acquired(id, first_id, first_payload, first_at).released(id, first_id).acquired(
            id,
            second_id,
            second_payload,
            second_at,
        ).lock_of(id) == Some(
            LockRecord { lock_id: second_id, payload: second_payload, updated_at: second_at },
        ),
        answer matches Ok(row) && row.terraform_id@ == id && row.id@ == second_id && row.state@
            == second_payload,
{
}

/// A release under a lock id that does not hold the resource changes
/// nothing: a locked resource stays locked by its holder.
pub proof fn lemma_release_by_another_keeps_the_lock(t: Tables, id: Seq<char>, lock_id: Seq<char>)
    requires
        !(t.lock_of(id) matches Some(held) && held.lock_id == lock_id),
    ensures
        t.released(id, lock_id) == t,
{
}

/// Of two attempts to lock a free resource under different lock ids,
/// exactly one is granted, whichever of them the tables see first: the
/// first is granted, the second is told of a conflict with it.
pub proof fn lemma_one_attempt_wins(
    t: Tables,
    id: Seq<char>,
    first_id: Seq<char>,
    first_payload: Seq<char>,
    first_at: chrono::NaiveDateTime,
    first_answer: Result<TerraformLockRow, MaybeConflictError>,
    second_id: Seq<char>,
    second_payload: Seq<char>,
    second_at: chrono::NaiveDateTime,
    second_answer: Result<TerraformLockRow, MaybeConflictError>,
)
    requires
        first_id != second_id,
        t.lock_of(id) is None,
        TerraformQuery::decided(
            first_answer,
            id,
            first_id,
            t.acquired(id, first_id, first_payload, first_at).locks[id],
        ),
        TerraformQuery::decided(
            second_answer,
            id,
            second_id,
            t.acquired(id, first_id, first_payload, first_at).acquired(
                id,
                second_id,
                second_payload,
                second_at,
            ).locks[id],
        ),
    ensures
        first_answer is Ok,
        second_answer matches Err(MaybeConflictError::Conflict(row)) && row.id@ == first_id,
{
}

/// Resources do not touch each other: an operation on one resource leaves
/// the state and the lock of every other resource as they were.
pub proof fn lemma_other_resources_untouched(t: Tables, op: Operation, other: Seq<char>)
    requires
        op.resource() != other,
    ensures
        t.apply(op).state_of(other) == t.state_of(other),
        t.apply(op).lock_of(other) == t.lock_of(other),
{
}

} // verus!
