//! How the owners of a session account for its native reference count.
//!
//! The native layer counts the references to a session and ends the session
//! when a close call takes the last one. `Connection::open` makes the first
//! owner, for the reference that the native open call set up.
//! `Connection::try_clone` makes one more owner where the native layer has
//! added a reference, and none where it has not. `Connection::close`
//! consumes an owner and asks for the one close call that takes its
//! reference back. A history lists these changes in the order in which they
//! happen.

use crate::connection::retained;
use vstd::prelude::*;

verus! {

/// A change in the owners of one session.
#[derive(Debug, Clone, Copy, PartialEq, Eq, Structural)]
pub enum Change {
    /// An owner was asked for a clone, and the native call that raises the
    /// reference count returned this status.
    Cloned { status: i32 },
    /// An owner was closed.
    Closed,
}

/// What a change adds to the number of owners.
pub open spec fn weight(change: Change) -> int {
    match change {
        Change::Cloned { status } => if retained(status) {
            1
        } else {
            0
        },
        Change::Closed => -1,
    }
}

/// Whether a change made one more owner.
pub open spec fn is_clone(change: Change) -> bool {
    change is Cloned && weight(change) == 1
}

/// The number of owners, and so of native references, after a history that
/// begins with the one owner of an open session.
pub open spec fn owners(history: Seq<Change>) -> int
    decreases history.len(),
{
    if history.len() == 0 {
        1
    } else {
        owners(history.drop_last()) + weight(history.last())
    }
}

/// How many clones a history made.
pub open spec fn clones(history: Seq<Change>) -> int
    decreases history.len(),
{
    if history.len() == 0 {
        0
    } else {
        clones(history.drop_last()) + if is_clone(history.last()) {
            1int
        } else {
            0int
        }
    }
}

/// How many owners a history closed.
pub open spec fn closes(history: Seq<Change>) -> int
    decreases history.len(),
{
    if history.len() == 0 {
        0
    } else {
        closes(history.drop_last()) + if history.last() is Closed {
            1int
        } else {
            0int
        }
    }
}

/// Whether a history can happen: each change is made through an owner that
/// is there to be cloned or closed.
pub open spec fn orderly(history: Seq<Change>) -> bool {
    forall|i: int| 0 <= i < history.len() ==> owners(#[trigger] history.take(i)) >= 1
}

/// How often the native layer ends the session in the course of a history:
/// the number of changes that leave no reference.
pub open spec fn endings(history: Seq<Change>) -> int
    decreases history.len(),
{
    if history.len() == 0 {
        0
    } else {
        endings(history.drop_last()) + if owners(history) == 0 {
            1int
        } else {
            0int
        }
    }
}

/// The number of owners is one more than the clones made, less the owners
/// closed.
pub proof fn lemma_owners_balance(history: Seq<Change>)
    ensures
        owners(history) == 1 + clones(history) - closes(history),
    decreases history.len(),
{
    if history.len() > 0 {
        lemma_owners_balance(history.drop_last());
    }
}

/// As long as an owner is left after every change so far, the session has
/// not been ended.
proof fn lemma_no_ending_while_owned(history: Seq<Change>)
    requires
        forall|i: int| 0 <= i <= history.len() ==> owners(#[trigger] history.take(i)) >= 1,
    ensures
        endings(history) == 0,
    decreases history.len(),
{
    if history.len() > 0 {
        let before = history.drop_last();
        assert forall|i: int| 0 <= i <= before.len() implies owners(#[trigger] before.take(i))
            >= 1 by {
            assert(before.take(i) =~= history.take(i));
        }
        lemma_no_ending_while_owned(before);
        assert(history.take(history.len() as int) =~= history);
    }
}

/// The session is ended exactly once, by the last close. After `made`
/// clones, when all `made + 1` owners have been closed, in whatever order
/// the clones and closes came, no owner is left, the history ends with the
/// close that ended the session, and no earlier change ended it.
pub proof fn lemma_closed_exactly_once(history: Seq<Change>, made: nat)
    requires
        orderly(history),
        clones(history) == made,
        closes(history) == made + 1,
    ensures
        owners(history) == 0,
        endings(history) == 1,
        history.len() > 0,
        history.last() == Change::Closed,
        endings(history.drop_last()) == 0,
{
    lemma_owners_balance(history);
    let before = history.drop_last();
    assert forall|i: int| 0 <= i <= before.len() implies owners(#[trigger] before.take(i))
        >= 1 by {
        assert(before.take(i) =~= history.take(i));
    }
    lemma_no_ending_while_owned(before);
}

/// While fewer owners have been closed than there were, the session has not
/// been ended: a close that is not the last ends nothing.
pub proof fn lemma_open_while_owned(history: Seq<Change>)
    requires
        orderly(history),
        closes(history) <= clones(history),
    ensures
        owners(history) >= 1,
        endings(history) == 0,
{
    lemma_owners_balance(history);
    assert forall|i: int| 0 <= i <= history.len() implies owners(#[trigger] history.take(i))
        >= 1 by {
        if i == history.len() {
            assert(history.take(i) =~= history);
        }
    }
    lemma_no_ending_while_owned(history);
}

} // verus!
