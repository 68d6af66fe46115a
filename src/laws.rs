//! Properties of the session's transitions that hold over whole sequences
//! of operations.
use vstd::prelude::*;

use crate::app::{CurrentlyEditing, CurrentScreen, Session};
use crate::dispatch::{dispatch, Flow, KeyCode, KeyInput, KeyPhase};

verus! {

/// The session after `cs` is typed, one character after another.
pub open spec fn pushed_all(s: Session, cs: Seq<char>) -> Session
    decreases cs.len(),
{
    if cs.len() == 0 {
        s
    } else {
        pushed_all(s, cs.drop_last()).pushed(cs.last())
    }
}

/// Typing characters while the key is edited, then pressing Enter, leaves
/// the key buffer holding what it held followed by the typed characters in
/// order, and moves editing on to the value.
pub proof fn lemma_typed_key_is_concatenation(s: Session, cs: Seq<char>)
    requires
        s.editing == Some(CurrentlyEditing::Key),
    ensures
        pushed_all(s, cs).advanced().key == s.key + cs,
        pushed_all(s, cs).advanced().editing == Some(CurrentlyEditing::Value),
        pushed_all(s, cs).advanced().pairs == s.pairs,
{
    lemma_pushed_all_key(s, cs);
}

proof fn lemma_pushed_all_key(s: Session, cs: Seq<char>)
    requires
        s.editing == Some(CurrentlyEditing::Key),
    ensures
        pushed_all(s, cs).key == s.key + cs,
        pushed_all(s, cs).editing == s.editing,
        pushed_all(s, cs).screen == s.screen,
        pushed_all(s, cs).pairs == s.pairs,
        pushed_all(s, cs).value == s.value,
    decreases cs.len(),
{
    if cs.len() == 0 {
        assert(s.key + cs =~= s.key);
    } else {
        lemma_pushed_all_key(s, cs.drop_last());
        assert(s.key + cs =~= (s.key + cs.drop_last()).push(cs.last()));
    }
}

/// `keys` are presses of the keys that type `cs`, one after another.
pub open spec fn types_chars(keys: Seq<KeyInput>, cs: Seq<char>) -> bool {
    &&& keys.len() == cs.len()
    &&& forall|i: int|
        0 <= i < keys.len() ==> (#[trigger] keys[i]).phase == KeyPhase::Press && keys[i].code
            == KeyCode::Char(cs[i])
}

/// The session after each of `keys` is handled in turn.
pub open spec fn dispatched_all(s: Session, keys: Seq<KeyInput>) -> Session
    decreases keys.len(),
{
    if keys.len() == 0 {
        s
    } else {
        dispatch(dispatched_all(s, keys.drop_last()), keys.last()).0
    }
}

proof fn lemma_typed_keys_push(s: Session, keys: Seq<KeyInput>, cs: Seq<char>)
    requires
        s.screen == CurrentScreen::Editing,
        s.editing == Some(CurrentlyEditing::Key),
        types_chars(keys, cs),
    ensures
        dispatched_all(s, keys) == pushed_all(s, cs),
        forall|i: int|
            0 <= i < keys.len() ==> #[trigger] dispatch(dispatched_all(s, keys.take(i)), keys[i]).1
                == Flow::Running,
    decreases cs.len(),
{
    if cs.len() > 0 {
        let p = cs.drop_last();
        let kp = keys.drop_last();
        assert(types_chars(kp, p)) by {
            assert forall|i: int| 0 <= i < kp.len() implies (#[trigger] kp[i]).phase
                == KeyPhase::Press && kp[i].code == KeyCode::Char(p[i]) by {
                assert(kp[i] == keys[i]);
            }
        }
        lemma_typed_keys_push(s, kp, p);
        lemma_pushed_all_key(s, p);
        assert(keys.last() == keys[keys.len() - 1]);
        assert forall|i: int| 0 <= i < keys.len() implies #[trigger] dispatch(
            dispatched_all(s, keys.take(i)),
            keys[i],
        ).1 == Flow::Running by {
            if i < kp.len() {
                assert(keys.take(i) =~= kp.take(i));
                assert(keys[i] == kp[i]);
            } else {
                assert(keys.take(i) =~= kp);
            }
        }
    }
}

/// On the editing screen with the key being edited, pressing the keys that
/// type `cs` and then Enter leaves the key buffer holding what it held
/// followed by `cs` in order, moves editing on to the value, keeps the value
/// buffer and the pairs, and never ends the loop.
pub proof fn lemma_typed_key_events(s: Session, keys: Seq<KeyInput>, cs: Seq<char>, enter: KeyInput)
    requires
        s.screen == CurrentScreen::Editing,
        s.editing == Some(CurrentlyEditing::Key),
        types_chars(keys, cs),
        enter.code == KeyCode::Enter,
        enter.phase == KeyPhase::Press,
    ensures
        dispatched_all(s, keys.push(enter)).key == s.key + cs,
        dispatched_all(s, keys.push(enter)).editing == Some(CurrentlyEditing::Value),
        dispatched_all(s, keys.push(enter)).screen == CurrentScreen::Editing,
        dispatched_all(s, keys.push(enter)).value == s.value,
        dispatched_all(s, keys.push(enter)).pairs == s.pairs,
        dispatch(dispatched_all(s, keys), enter).1 == Flow::Running,
        forall|i: int|
            0 <= i < keys.len() ==> #[trigger] dispatch(dispatched_all(s, keys.take(i)), keys[i]).1
                == Flow::Running,
{
    lemma_typed_keys_push(s, keys, cs);
    lemma_pushed_all_key(s, cs);
    assert(keys.push(enter).drop_last() =~= keys);
}

/// A commit adds at most one key: the committed key gets the typed value,
/// every other key keeps its value, and the number of keys grows by one
/// exactly when the key is new.
pub proof fn lemma_commit_changes_one_key(s: Session)
    requires
        s.pairs.dom().finite(),
    ensures
        s.committed().pairs[s.key] == s.value,
        forall|j: Seq<char>|
            j != s.key ==> (#[trigger] s.committed().pairs.dom().contains(j) == s.pairs.dom().contains(j)
                && s.committed().pairs.dom().contains(j) ==> s.committed().pairs[j] == s.pairs[j]),
        s.committed().pairs.dom().len() == s.pairs.dom().len() + if s.pairs.dom().contains(s.key) {
            0int
        } else {
            1int
        },
{
}

/// Backspace on an empty buffer changes nothing.
pub proof fn lemma_pop_on_empty_buffer(s: Session)
    requires
        s.editing == Some(CurrentlyEditing::Key) ==> s.key.len() == 0,
        s.editing == Some(CurrentlyEditing::Value) ==> s.value.len() == 0,
    ensures
        s.popped() == s,
        s.popped().key.len() == s.key.len(),
        s.popped().value.len() == s.value.len(),
{
}

/// Committing a key twice keeps the second value only: the key appears once.
pub proof fn lemma_commit_overwrites(s: Session, k: Seq<char>, v1: Seq<char>, v2: Seq<char>)
    ensures
        s.with_buffers(k, v1).committed().with_buffers(k, v2).committed().pairs == s.pairs.insert(
            k,
            v2,
        ),
        s.pairs == Map::<Seq<char>, Seq<char>>::empty() ==> s.with_buffers(
            k,
            v1,
        ).committed().with_buffers(k, v2).committed().pairs == map![k => v2],
{
    assert(s.pairs.insert(k, v1).insert(k, v2) =~= s.pairs.insert(k, v2));
    assert(Map::<Seq<char>, Seq<char>>::empty().insert(k, v2) =~= map![k => v2]);
}

/// Toggling twice while editing returns to the buffer edited before.
pub proof fn lemma_toggle_twice(s: Session)
    requires
        s.editing is Some,
    ensures
        s.toggled().toggled() == s,
{
}

/// A key release changes nothing and never ends the loop.
pub proof fn lemma_release_ignored(s: Session, key: KeyInput)
    requires
        key.phase == KeyPhase::Release,
    ensures
        dispatch(s, key) == (s, Flow::Running),
{
}

/// Every key event keeps the editing screen shown exactly while a buffer is
/// being edited.
pub proof fn lemma_dispatch_keeps_mode(s: Session, key: KeyInput)
    requires
        s.mode_consistent(),
    ensures
        dispatch(s, key).0.mode_consistent(),
{
}

/// The loop ends only from the exit confirmation screen.
pub proof fn lemma_only_exiting_terminates(s: Session, key: KeyInput)
    requires
        dispatch(s, key).1 != Flow::Running,
    ensures
        s.screen == CurrentScreen::Exiting,
        dispatch(s, key).0 == s,
{
}

} // verus!
