use std::collections::VecDeque;
use vstd::prelude::*;

verus! {

/// Number of resource-usage samples kept.
pub const HISTORY_LEN: usize = 10;

/// The history after one more sample: the oldest sample leaves when the
/// history is full.
pub open spec fn after_sample<T>(history: Seq<T>, sample: T) -> Seq<T> {
    if history.len() == HISTORY_LEN {
        history.drop_first().push(sample)
    } else {
        history.push(sample)
    }
}

/// The history that a run of samples leaves, starting from none.
pub open spec fn history_of<T>(samples: Seq<T>) -> Seq<T>
    decreases samples.len(),
{
    if samples.len() == 0 {
        Seq::empty()
    } else {
        after_sample(history_of(samples.drop_last()), samples.last())
    }
}

/// An empty history, with room for `HISTORY_LEN` samples.
pub fn new_status_history<T>() -> (h: VecDeque<T>)
    ensures
        h@ == Seq::<T>::empty(),
{
    VecDeque::with_capacity(HISTORY_LEN)
}

/// Records one sample, dropping the oldest one when the history is full.
pub fn push_status_sample<T>(history: &mut VecDeque<T>, sample: T)
    ensures
        final(history)@ == after_sample(old(history)@, sample),
{
    if history.len() == HISTORY_LEN {
        let _ = history.pop_front();
    }
    history.push_back(sample);
}

/// A history built by recording samples one by one holds exactly the
/// newest `HISTORY_LEN` of them (all of them while there are fewer), oldest
/// first.
pub proof fn law_history_keeps_newest<T>(samples: Seq<T>)
    ensures
        history_of(samples) =~= (if samples.len() <= HISTORY_LEN {
            samples
        } else {
            samples.subrange(samples.len() - HISTORY_LEN, samples.len() as int)
        }),
        history_of(samples).len() <= HISTORY_LEN,
    decreases samples.len(),
{
    if samples.len() > 0 {
        law_history_keeps_newest(samples.drop_last());
    }
}

} // verus!
