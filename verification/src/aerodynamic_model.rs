use vstd::prelude::*;

verus! {

/// How many reduced frequencies a model remembers.
pub const HISTORY_CAPACITY: usize = 20;

/// The history after `value` is recorded: it is appended, and when the
/// history then holds more than the capacity its oldest entry is dropped.
pub open spec fn history_after<T>(history: Seq<T>, value: T) -> Seq<T> {
    let grown = history.push(value);
    if grown.len() > HISTORY_CAPACITY {
        grown.drop_first()
    } else {
        grown
    }
}

/// Records `value` in a bounded history of recent reduced frequencies.
pub fn push_history<T>(history: &mut Vec<T>, value: T)
    requires
        old(history)@.len() < usize::MAX,
    ensures
        final(history)@ == history_after(old(history)@, value),
{
    history.push(value);
    if history.len() > HISTORY_CAPACITY {
        history.remove(0);
    }
}

/// A history that respects the capacity keeps respecting it, always ends
/// with the newest value, and keeps the previous entries in order, losing at
/// most the oldest one.
pub proof fn lemma_history_bounded<T>(history: Seq<T>, value: T)
    requires
        history.len() <= HISTORY_CAPACITY,
    ensures
        history_after(history, value).len() <= HISTORY_CAPACITY,
        history_after(history, value).last() == value,
        history.len() < HISTORY_CAPACITY ==> history_after(history, value) == history.push(value),
        history.len() == HISTORY_CAPACITY ==> history_after(history, value) == history.drop_first().push(value),
{
    let grown = history.push(value);
    if history.len() == HISTORY_CAPACITY {
        assert(grown.drop_first() =~= history.drop_first().push(value));
    }
}

} // verus!
