//! The ordered message map as contracts see it, and what holds of it.

use vstd::prelude::*;
use crate::requests::WsChatMessageView;

verus! {

/// A message list as contracts see it: message ids paired with messages, in
/// the order in which the list shows them.
pub type Letters = Seq<(Seq<char>, WsChatMessageView)>;

/// The position of the first pair stored under `key`, or the length of
/// `pairs` when no pair is.
pub open spec fn position(pairs: Letters, key: Seq<char>) -> int
    decreases pairs.len(),
{
    if pairs.len() == 0 {
        0
    } else if pairs[0].0 == key {
        0
    } else {
        1 + position(pairs.drop_first(), key)
    }
}

/// Whether some pair is stored under `key`.
pub open spec fn holds(pairs: Letters, key: Seq<char>) -> bool {
    position(pairs, key) < pairs.len()
}

/// The result of storing `value` under `key`: an existing pair is overwritten
/// where it stands, a new one goes to the end.
pub open spec fn inserted(pairs: Letters, key: Seq<char>, value: WsChatMessageView) -> Letters {
    if holds(pairs, key) {
        pairs.update(position(pairs, key), (key, value))
    } else {
        pairs.push((key, value))
    }
}

/// The result of deleting the pair under `key`: the pairs after it close the
/// gap and keep their order; without such a pair nothing changes.
pub open spec fn removed(pairs: Letters, key: Seq<char>) -> Letters {
    if holds(pairs, key) {
        pairs.remove(position(pairs, key))
    } else {
        pairs
    }
}

/// No two pairs share a key.
pub open spec fn distinct_keys(pairs: Letters) -> bool {
    forall|i: int, j: int| 0 <= i < j < pairs.len() ==> pairs[i].0 != pairs[j].0
}

/// Every message is stored under its own id.
pub open spec fn keyed_by_id(pairs: Letters) -> bool {
    forall|i: int| 0 <= i < pairs.len() ==> (#[trigger] pairs[i]).0 == pairs[i].1.message_id
}

/// `position` finds a pair under `key` before all others, or reports the
/// length exactly when there is none.
pub proof fn lemma_position(pairs: Letters, key: Seq<char>)
    ensures
        0 <= position(pairs, key) <= pairs.len(),
        holds(pairs, key) ==> pairs[position(pairs, key)].0 == key,
        forall|j: int| 0 <= j < position(pairs, key) ==> (#[trigger] pairs[j]).0 != key,
    decreases pairs.len(),
{
    if pairs.len() > 0 && pairs[0].0 != key {
        let rest = pairs.drop_first();
        lemma_position(rest, key);
        assert forall|j: int| 0 <= j < position(pairs, key) implies (#[trigger] pairs[j]).0
            != key by {
            if j > 0 {
                assert(pairs[j] == rest[j - 1]);
            }
        }
    }
}

/// An index at which `key` is stored, with no earlier one, is its position.
pub proof fn lemma_position_is(pairs: Letters, key: Seq<char>, i: int)
    requires
        0 <= i < pairs.len(),
        pairs[i].0 == key,
        forall|j: int| 0 <= j < i ==> (#[trigger] pairs[j]).0 != key,
    ensures
        position(pairs, key) == i,
{
    lemma_position(pairs, key);
    let p = position(pairs, key);
    if p < i {
        assert(pairs[p].0 != key);
    }
}

/// Storing a message under its id keeps the list well formed.
pub proof fn lemma_inserted_wf(pairs: Letters, value: WsChatMessageView)
    requires
        distinct_keys(pairs),
        keyed_by_id(pairs),
    ensures
        distinct_keys(inserted(pairs, value.message_id, value)),
        keyed_by_id(inserted(pairs, value.message_id, value)),
{
    lemma_position(pairs, value.message_id);
}

/// Deleting a pair keeps the list well formed.
pub proof fn lemma_removed_wf(pairs: Letters, key: Seq<char>)
    requires
        distinct_keys(pairs),
        keyed_by_id(pairs),
    ensures
        distinct_keys(removed(pairs, key)),
        keyed_by_id(removed(pairs, key)),
{
    lemma_position(pairs, key);
}

/// One of the two changes that a message list undergoes.
pub enum LetterOp {
    /// A message arrived or was confirmed.
    Upsert(WsChatMessageView),
    /// The message with this id was deleted.
    Remove(Seq<char>),
}

impl LetterOp {
    /// The id of the message that the change is about.
    pub open spec fn id(self) -> Seq<char> {
        match self {
            LetterOp::Upsert(message) => message.message_id,
            LetterOp::Remove(id) => id,
        }
    }
}

/// The list after one change.
pub open spec fn applied(pairs: Letters, op: LetterOp) -> Letters {
    match op {
        LetterOp::Upsert(message) => inserted(pairs, message.message_id, message),
        LetterOp::Remove(id) => removed(pairs, id),
    }
}

/// The list after a series of changes, the first of `ops` applied first.
pub open spec fn applied_all(pairs: Letters, ops: Seq<LetterOp>) -> Letters
    decreases ops.len(),
{
    if ops.len() == 0 {
        pairs
    } else {
        applied(applied_all(pairs, ops.drop_last()), ops.last())
    }
}

/// The most recent change of `ops` that is about the message `id`.
pub open spec fn last_op(ops: Seq<LetterOp>, id: Seq<char>) -> Option<LetterOp>
    decreases ops.len(),
{
    if ops.len() == 0 {
        None
    } else if ops.last().id() == id {
        Some(ops.last())
    } else {
        last_op(ops.drop_last(), id)
    }
}

/// The message stored under `key`.
pub open spec fn stored(pairs: Letters, key: Seq<char>) -> WsChatMessageView
    recommends
        holds(pairs, key),
{
    pairs[position(pairs, key)].1
}

/// The list that a full reload leaves: the history entered message by
/// message into an empty list.
pub open spec fn reloaded(history: Seq<WsChatMessageView>) -> Letters
    decreases history.len(),
{
    if history.len() == 0 {
        Seq::empty()
    } else {
        inserted(reloaded(history.drop_last()), history.last().message_id, history.last())
    }
}

/// After a message is stored, the list holds it under its key, and every
/// other key is held, with its message, exactly as before.
pub proof fn lemma_inserted(pairs: Letters, key: Seq<char>, value: WsChatMessageView, other: Seq<char>)
    ensures
        holds(inserted(pairs, key, value), key),
        stored(inserted(pairs, key, value), key) == value,
        other != key ==> holds(inserted(pairs, key, value), other) == holds(pairs, other),
        other != key && holds(pairs, other) ==> stored(inserted(pairs, key, value), other)
            == stored(pairs, other),
{
    let after = inserted(pairs, key, value);
    lemma_position(pairs, key);
    lemma_position(pairs, other);
    lemma_position(after, key);
    lemma_position(after, other);
    if holds(pairs, key) {
        lemma_position_is(after, key, position(pairs, key));
    } else {
        lemma_position_is(after, key, pairs.len() as int);
    }
    if other != key {
        if holds(pairs, other) {
            lemma_position_is(after, other, position(pairs, other));
        } else if holds(after, other) {
            let p = position(after, other);
            assert(after[p].0 == other);
            assert(pairs[p].0 == other);
        }
    }
}

/// After a delete, a well-formed list no longer holds the key, and every
/// other key is held, with its message, exactly as before.
pub proof fn lemma_removed(pairs: Letters, key: Seq<char>, other: Seq<char>)
    requires
        distinct_keys(pairs),
    ensures
        !holds(removed(pairs, key), key),
        other != key ==> holds(removed(pairs, key), other) == holds(pairs, other),
        other != key && holds(pairs, other) ==> stored(removed(pairs, key), other) == stored(
            pairs,
            other,
        ),
{
    let after = removed(pairs, key);
    lemma_position(pairs, key);
    lemma_position(pairs, other);
    lemma_position(after, key);
    lemma_position(after, other);
    if holds(pairs, key) {
        let at = position(pairs, key);
        if holds(after, key) {
            let p = position(after, key);
            assert(after[p].0 == key);
            if p < at {
                assert(pairs[p].0 == key);
            } else {
                assert(pairs[p + 1].0 == key);
            }
        }
        if other != key {
            if holds(pairs, other) {
                let q = position(pairs, other);
                if q < at {
                    assert forall|j: int| 0 <= j < q implies (#[trigger] after[j]).0 != other by {
                        assert(after[j] == pairs[j]);
                    }
                    lemma_position_is(after, other, q);
                } else {
                    assert forall|j: int| 0 <= j < q - 1 implies (#[trigger] after[j]).0
                        != other by {
                        if j < at {
                            assert(after[j] == pairs[j]);
                        } else {
                            assert(after[j] == pairs[j + 1]);
                        }
                    }
                    assert(after[q - 1] == pairs[q]);
                    lemma_position_is(after, other, q - 1);
                }
            } else if holds(after, other) {
                let p = position(after, other);
                assert(after[p].0 == other);
                if p < at {
                    assert(pairs[p].0 == other);
                } else {
                    assert(pairs[p + 1].0 == other);
                }
            }
        }
    }
}

/// Changes keep a list well formed.
pub proof fn lemma_applied_all_wf(pairs: Letters, ops: Seq<LetterOp>)
    requires
        distinct_keys(pairs),
        keyed_by_id(pairs),
    ensures
        distinct_keys(applied_all(pairs, ops)),
        keyed_by_id(applied_all(pairs, ops)),
    decreases ops.len(),
{
    if ops.len() > 0 {
        lemma_applied_all_wf(pairs, ops.drop_last());
        let before = applied_all(pairs, ops.drop_last());
        match ops.last() {
            LetterOp::Upsert(message) => lemma_inserted_wf(before, message),
            LetterOp::Remove(id) => lemma_removed_wf(before, id),
        }
    }
}

/// The last change decides. After any series of upserts and removes, a
/// message is in the list exactly when the most recent change about its id
/// was an upsert, and then the list holds the message of that upsert; an id
/// that no change was about is held as before. How often a change was
/// repeated makes no difference.
pub proof fn law_last_operation_decides(pairs: Letters, ops: Seq<LetterOp>, id: Seq<char>)
    requires
        distinct_keys(pairs),
        keyed_by_id(pairs),
    ensures
        match last_op(ops, id) {
            Some(LetterOp::Upsert(message)) => holds(applied_all(pairs, ops), id) && stored(
                applied_all(pairs, ops),
                id,
            ) == message,
            Some(LetterOp::Remove(_)) => !holds(applied_all(pairs, ops), id),
            None => holds(applied_all(pairs, ops), id) == holds(pairs, id) && (holds(pairs, id)
                ==> stored(applied_all(pairs, ops), id) == stored(pairs, id)),
        },
    decreases ops.len(),
{
    if ops.len() > 0 {
        let before = applied_all(pairs, ops.drop_last());
        lemma_applied_all_wf(pairs, ops.drop_last());
        law_last_operation_decides(pairs, ops.drop_last(), id);
        match ops.last() {
            LetterOp::Upsert(message) => lemma_inserted(before, message.message_id, message, id),
            LetterOp::Remove(gone) => lemma_removed(before, gone, id),
        }
    }
}

/// Applying a change a second time changes nothing.
pub proof fn law_change_is_idempotent(pairs: Letters, op: LetterOp)
    requires
        distinct_keys(pairs),
    ensures
        applied(applied(pairs, op), op) == applied(pairs, op),
{
    let once = applied(pairs, op);
    match op {
        LetterOp::Upsert(message) => {
            lemma_inserted(pairs, message.message_id, message, message.message_id);
            lemma_position(once, message.message_id);
            assert(applied(once, op) =~= once);
        },
        LetterOp::Remove(id) => {
            lemma_removed(pairs, id, id);
        },
    }
}

/// An upsert of a message that the list holds keeps every message where it
/// stands: the list neither grows nor changes its order of ids.
pub proof fn law_upsert_keeps_place(pairs: Letters, message: WsChatMessageView)
    requires
        holds(pairs, message.message_id),
    ensures
        inserted(pairs, message.message_id, message).len() == pairs.len(),
        forall|i: int|
            0 <= i < pairs.len() ==> (#[trigger] inserted(pairs, message.message_id, message)[i]).0
                == pairs[i].0,
{
    lemma_position(pairs, message.message_id);
}

/// A reload holds exactly the ids of the history.
pub proof fn lemma_reloaded_holds(history: Seq<WsChatMessageView>, id: Seq<char>)
    ensures
        holds(reloaded(history), id) <==> exists|i: int|
            0 <= i < history.len() && (#[trigger] history[i]).message_id == id,
    decreases history.len(),
{
    if history.len() > 0 {
        let rest = history.drop_last();
        lemma_reloaded_holds(rest, id);
        lemma_inserted(reloaded(rest), history.last().message_id, history.last(), id);
        if holds(reloaded(history), id) {
            if history.last().message_id == id {
                assert(history[history.len() - 1].message_id == id);
            } else {
                let i = choose|i: int| 0 <= i < rest.len() && (#[trigger] rest[i]).message_id == id;
                assert(history[i].message_id == id);
            }
        } else {
            assert forall|i: int| 0 <= i < history.len() implies (#[trigger] history[i]).message_id
                != id by {
                if i < rest.len() {
                    assert(rest[i].message_id == id ==> holds(reloaded(rest), id));
                }
            }
        }
    } else {
        lemma_position(reloaded(history), id);
    }
}

/// Delete and reload converge. Once the server has deleted a message, its
/// history no longer lists it. A reload replaces whatever the list held, so a
/// client that learns of the delete and then reloads ends with the reloaded
/// history; one that reloads first and learns of the delete afterwards ends
/// with the same list, and that list does not hold the message.
pub proof fn law_delete_and_reload_converge(history: Seq<WsChatMessageView>, id: Seq<char>)
    requires
        forall|i: int| 0 <= i < history.len() ==> (#[trigger] history[i]).message_id != id,
    ensures
        removed(reloaded(history), id) == reloaded(history),
        !holds(reloaded(history), id),
{
    lemma_reloaded_holds(history, id);
}

} // verus!
