use vstd::prelude::*;

use crate::classify::{classification, is_noise, Classification};
use crate::item::ItemView;
use crate::sample::SampleView;
use crate::state::{replaced, run, sample_content, step, StateView, Tick, CAPACITY};

verus! {

/// However many reads are processed, a history that starts within the
/// capacity stays within it.
pub proof fn lemma_run_keeps_capacity(s: StateView, ticks: Seq<Tick>)
    requires
        s.history.len() <= CAPACITY,
    ensures
        run(s, ticks).history.len() <= CAPACITY,
    decreases ticks.len(),
{
    if ticks.len() > 0 {
        lemma_run_keeps_capacity(step(s, ticks[0]).0, ticks.drop_first());
    }
}

/// Recording new content into a full history keeps it full and drops exactly
/// the oldest entry: the rest move back by one place, in order.
pub proof fn lemma_full_history_evicts_oldest(s: StateView, t: Tick)
    requires
        s.history.len() == CAPACITY,
        step(s, t).1 is Some,
    ensures
        step(s, t).0.history.len() == CAPACITY,
        step(s, t).0.history.subrange(1, CAPACITY as int) == s.history.subrange(
            0,
            CAPACITY - 1,
        ),
{
    let h = step(s, t).0.history;
    assert(h.subrange(1, CAPACITY as int) =~= s.history.subrange(0, CAPACITY - 1));
}

/// Reading the same thing twice in a row records nothing and announces
/// nothing the second time.
pub proof fn lemma_repeated_read_is_idle(s: StateView, t: Tick, u: Tick)
    requires
        u.read == t.read,
    ensures
        step(step(s, t).0, u) == (step(s, t).0, None::<Seq<char>>),
{
    let s1 = step(s, t).0;
    if let Some(sample) = t.read {
        if classification(sample, s.last) != Classification::Ignore {
            assert(s1.last == sample_content(sample));
            assert(classification(sample, s1.last) == Classification::Ignore);
        }
    }
}

/// A read of diagnostic noise leaves the state unchanged and announces nothing.
pub proof fn lemma_noise_never_recorded(s: StateView, t: Tick)
    requires
        t.read matches Some(SampleView::Text(x)) && is_noise(x),
    ensures
        step(s, t) == (s, None::<Seq<char>>),
{
}

/// Replacing the history and then reading it gives exactly the replacement,
/// in the same order.
pub proof fn lemma_replace_then_get(s: StateView, h: Seq<ItemView>)
    ensures
        replaced(s, h).history == h,
{
}

} // verus!
