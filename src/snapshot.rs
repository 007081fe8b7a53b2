use vstd::prelude::*;
use vstd::string::*;

verus! {

/// Where a snapshot stands in its lifecycle.
#[derive(Clone, Copy, Debug, PartialEq, Eq)]
pub enum SnapshotState {
    Prepared,
    Mounted,
    Unmounted,
    Removed,
}

/// A lifecycle operation on a snapshot.
#[derive(Clone, Copy, Debug, PartialEq, Eq)]
pub enum SnapshotOp {
    /// The union mount succeeded.
    Mount,
    /// The mount attempt failed and its scratch state was cleaned up.
    MountFailed,
    /// The merged view was unmounted.
    Unmount,
    /// The backing directories were deleted.
    Remove,
}

/// An operation that the snapshot's state does not allow.
#[derive(Clone, Copy, Debug, PartialEq, Eq)]
pub enum StateError {
    /// Mounting needs a prepared snapshot.
    NotPrepared,
    /// Unmounting needs a mounted snapshot.
    NotMounted,
    /// Removal needs a prepared or unmounted snapshot.
    NotRemovable,
}

/// The index allocator has run out of identifiers.
#[derive(Clone, Copy, Debug, PartialEq, Eq)]
pub struct AllocationError;

/// The state that `op` leads to from `s`, or `None` where it is not allowed.
pub open spec fn step(s: SnapshotState, op: SnapshotOp) -> Option<SnapshotState> {
    match (s, op) {
        (SnapshotState::Prepared, SnapshotOp::Mount) => Some(SnapshotState::Mounted),
        (SnapshotState::Prepared, SnapshotOp::MountFailed) => Some(SnapshotState::Removed),
        (SnapshotState::Mounted, SnapshotOp::Unmount) => Some(SnapshotState::Unmounted),
        (SnapshotState::Prepared, SnapshotOp::Remove) => Some(SnapshotState::Removed),
        (SnapshotState::Unmounted, SnapshotOp::Remove) => Some(SnapshotState::Removed),
        _ => None,
    }
}

/// The error for an operation that is not allowed.
pub open spec fn op_error(op: SnapshotOp) -> StateError {
    match op {
        SnapshotOp::Mount | SnapshotOp::MountFailed => StateError::NotPrepared,
        SnapshotOp::Unmount => StateError::NotMounted,
        SnapshotOp::Remove => StateError::NotRemovable,
    }
}

/// The state that `op` leads to from `s`, or the error that refuses it.
pub fn next_state(s: SnapshotState, op: SnapshotOp) -> (r: Result<SnapshotState, StateError>)
    ensures
        match step(s, op) {
            Some(t) => r == Ok::<SnapshotState, StateError>(t),
            None => r == Err::<SnapshotState, StateError>(op_error(op)),
        },
{
    match (s, op) {
        (SnapshotState::Prepared, SnapshotOp::Mount) => Ok(SnapshotState::Mounted),
        (SnapshotState::Prepared, SnapshotOp::MountFailed) => Ok(SnapshotState::Removed),
        (SnapshotState::Mounted, SnapshotOp::Unmount) => Ok(SnapshotState::Unmounted),
        (SnapshotState::Prepared, SnapshotOp::Remove) => Ok(SnapshotState::Removed),
        (SnapshotState::Unmounted, SnapshotOp::Remove) => Ok(SnapshotState::Removed),
        (_, SnapshotOp::Mount) => Err(StateError::NotPrepared),
        (_, SnapshotOp::MountFailed) => Err(StateError::NotPrepared),
        (_, SnapshotOp::Unmount) => Err(StateError::NotMounted),
        (_, SnapshotOp::Remove) => Err(StateError::NotRemovable),
    }
}

/// Unmounting a snapshot that was never mounted and removing a mounted one
/// are refused; prepare, mount, unmount, remove runs through to `Removed`.
pub proof fn lemma_lifecycle()
    ensures
        step(SnapshotState::Prepared, SnapshotOp::Unmount) is None,
        step(SnapshotState::Mounted, SnapshotOp::Remove) is None,
        step(SnapshotState::Prepared, SnapshotOp::Mount) == Some(SnapshotState::Mounted),
        step(SnapshotState::Mounted, SnapshotOp::Unmount) == Some(SnapshotState::Unmounted),
        step(SnapshotState::Unmounted, SnapshotOp::Remove) == Some(SnapshotState::Removed),
        forall|op: SnapshotOp| step(SnapshotState::Removed, op) is None,
{
}

/// One allocation: `id` is handed out when the counter stands at `before`,
/// which then stands at `after`.
pub open spec fn issued(before: nat, id: nat, after: nat) -> bool {
    id == before && after == before + 1
}

/// Successive allocations, each starting where the one before ended.
pub open spec fn chained(calls: Seq<(nat, nat, nat)>) -> bool {
    &&& forall|i: int| 0 <= i < calls.len() ==> issued(calls[i].0, calls[i].1, calls[i].2)
    &&& forall|i: int| 0 <= i < calls.len() - 1 ==> #[trigger] calls[i].2 == calls[i + 1].0
}

proof fn lemma_chained_ids(calls: Seq<(nat, nat, nat)>, i: int)
    requires
        chained(calls),
        0 <= i < calls.len(),
    ensures
        calls[i].1 == calls[0].0 + i,
    decreases i,
{
    if i > 0 {
        lemma_chained_ids(calls, i - 1);
        assert(calls[i - 1].2 == calls[i].0);
    }
}

/// Callers served one after another by the allocator (each call issuing its
/// id as `issued` says, which is what `IndexAllocator::next_id` and
/// `OverLay::prepare` ensure) receive distinct, strictly increasing and
/// contiguous identifiers, and the counter ends past the last of them.
pub proof fn lemma_ids_distinct(calls: Seq<(nat, nat, nat)>)
    requires
        chained(calls),
    ensures
        forall|i: int| 0 <= i < calls.len() ==> #[trigger] calls[i].1 == calls[0].0 + i,
        forall|i: int, j: int| 0 <= i < j < calls.len() ==> #[trigger] calls[i].1 < #[trigger] calls[j].1,
        calls.len() > 0 ==> calls.last().2 == calls[0].0 + calls.len(),
{
    assert forall|i: int| 0 <= i < calls.len() implies #[trigger] calls[i].1 == calls[0].0 + i by {
        lemma_chained_ids(calls, i);
    }
    if calls.len() > 0 {
        lemma_chained_ids(calls, calls.len() - 1);
    }
}

/// Hands out snapshot identifiers: each once, in increasing order.
#[derive(Debug)]
pub struct IndexAllocator {
    next: usize,
}

impl IndexAllocator {
    /// The identifier that the next allocation hands out.
    pub closed spec fn next_spec(&self) -> nat {
        self.next as nat
    }

    /// An allocator that starts at zero.
    pub fn new() -> (r: IndexAllocator)
        ensures
            r.next_spec() == 0,
    {
        IndexAllocator { next: 0 }
    }

    /// Hands out the next identifier; fails only once every identifier is
    /// spent.
    pub fn next_id(&mut self) -> (r: Result<usize, AllocationError>)
        ensures
            old(self).next_spec() < usize::MAX ==> (r matches Ok(id) && issued(
                old(self).next_spec(),
                id as nat,
                final(self).next_spec(),
            )),
            old(self).next_spec() == usize::MAX ==> r is Err && final(self).next_spec() == old(
                self,
            ).next_spec(),
    {
        if self.next == usize::MAX {
            return Err(AllocationError);
        }
        let id = self.next;
        self.next = self.next + 1;
        Ok(id)
    }
}

} // verus!
