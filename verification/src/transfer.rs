//! Moving a finished file to its place: by renaming, and where that is not
//! possible by copying and then removing the source.

use vstd::prelude::*;

verus! {

/// Where a move stands.
#[derive(Debug, Clone, Copy, PartialEq, Eq, Structural)]
pub enum MoveState {
    /// The rename is under way.
    Renaming,
    /// The rename failed; the copy is under way.
    Copying,
    /// The copy is complete; the source is being removed.
    RemovingSource,
    /// The file is in its place.
    Moved,
    /// The move failed; the text of the failure is that of the last file
    /// operation.
    Failed,
}

/// A file operation that moves the file on, or the end of the move.
#[derive(Debug, Clone, Copy, PartialEq, Eq, Structural)]
pub enum MoveAction {
    /// Rename the source to the destination.
    Rename,
    /// Copy the source to the destination.
    Copy,
    /// Remove the source.
    RemoveSource,
    /// Remove what a failed copy left at the destination; a failure to do
    /// so is passed over.
    DiscardDestination,
    /// Nothing is left to do.
    Stop,
}

/// How a move begins.
pub open spec fn move_start() -> (MoveState, MoveAction) {
    (MoveState::Renaming, MoveAction::Rename)
}

/// The state that follows `state` when the file operation it waited for
/// has ended, with success or without, and what to do next. A rename that
/// fails is followed by a copy; a copy that fails leaves the source where
/// it was and nothing valid at the destination; the file counts as moved
/// only when the rename succeeded, or the copy and the removal of the
/// source both did.
pub open spec fn move_after(state: MoveState, succeeded: bool) -> (MoveState, MoveAction) {
    match state {
        MoveState::Renaming => if succeeded {
            (MoveState::Moved, MoveAction::Stop)
        } else {
            (MoveState::Copying, MoveAction::Copy)
        },
        MoveState::Copying => if succeeded {
            (MoveState::RemovingSource, MoveAction::RemoveSource)
        } else {
            (MoveState::Failed, MoveAction::DiscardDestination)
        },
        MoveState::RemovingSource => if succeeded {
            (MoveState::Moved, MoveAction::Stop)
        } else {
            (MoveState::Failed, MoveAction::Stop)
        },
        MoveState::Moved => (MoveState::Moved, MoveAction::Stop),
        MoveState::Failed => (MoveState::Failed, MoveAction::Stop),
    }
}

/// Begins a move.
pub fn begin_move() -> (step: (MoveState, MoveAction))
    ensures
        step == move_start(),
{
    (MoveState::Renaming, MoveAction::Rename)
}

/// Continues a move once the file operation it waited for has ended.
pub fn continue_move(state: MoveState, succeeded: bool) -> (step: (MoveState, MoveAction))
    ensures
        step == move_after(state, succeeded),
{
    match state {
        MoveState::Renaming => if succeeded {
            (MoveState::Moved, MoveAction::Stop)
        } else {
            (MoveState::Copying, MoveAction::Copy)
        },
        MoveState::Copying => if succeeded {
            (MoveState::RemovingSource, MoveAction::RemoveSource)
        } else {
            (MoveState::Failed, MoveAction::DiscardDestination)
        },
        MoveState::RemovingSource => if succeeded {
            (MoveState::Moved, MoveAction::Stop)
        } else {
            (MoveState::Failed, MoveAction::Stop)
        },
        MoveState::Moved => (MoveState::Moved, MoveAction::Stop),
        MoveState::Failed => (MoveState::Failed, MoveAction::Stop),
    }
}

/// True when the move has ended.
pub open spec fn is_settled(state: MoveState) -> bool {
    state is Moved || state is Failed
}

/// The state of a move after the file operations it waited for have ended
/// as `results` tell, in order.
pub open spec fn move_through(results: Seq<bool>) -> MoveState
    decreases results.len(),
{
    if results.len() == 0 {
        move_start().0
    } else {
        move_after(move_through(results.drop_last()), results.last()).0
    }
}

/// A move takes at most three file operations to end, and it ends moved
/// exactly when the rename succeeds, or fails and both the copy and the
/// removal of the source succeed.
pub proof fn lemma_move_settles(first: bool, second: bool, third: bool)
    ensures
        is_settled(move_through(seq![first, second, third])),
        move_through(seq![first, second, third]) is Moved <==> first || (second && third),
        !first && !second ==> move_after(move_through(seq![first]), second).1
            is DiscardDestination,
{
    let one = seq![first];
    let two = seq![first, second];
    let three = seq![first, second, third];
    assert(one.drop_last() =~= Seq::<bool>::empty());
    assert(two.drop_last() =~= one);
    assert(three.drop_last() =~= two);
    assert(move_through(Seq::<bool>::empty()) == MoveState::Renaming);
    assert(move_through(one) == move_after(MoveState::Renaming, first).0);
    assert(move_through(two) == move_after(move_through(one), second).0);
    assert(move_through(three) == move_after(move_through(two), third).0);
}

} // verus!
