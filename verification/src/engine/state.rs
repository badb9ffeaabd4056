use vstd::prelude::*;

verus! {

/// What a buffer of the given capacity holds after `item` is appended to
/// `items`: the longer sequence, with its oldest element dropped when it
/// no longer fits.
pub open spec fn spec_after_push<T>(items: Seq<T>, item: T, capacity: nat) -> Seq<T> {
    let grown = items.push(item);
    if grown.len() > capacity {
        grown.drop_first()
    } else {
        grown
    }
}

/// The most recent `capacity` elements of a history (all of it when it is
/// shorter).
pub open spec fn spec_window<T>(history: Seq<T>, capacity: nat) -> Seq<T> {
    if history.len() > capacity {
        history.skip(history.len() - capacity)
    } else {
        history
    }
}

/// The index from which the last `lookback` of `len` elements start.
pub open spec fn spec_latest_start(len: nat, lookback: nat) -> nat {
    if len > lookback {
        (len - lookback) as nat
    } else {
        0
    }
}

/// The rolling buffer of recent candles that the execution engine reads.
pub struct EngineState<T> {
    pub candles: Vec<T>,
    pub capacity: usize,
}

impl<T> EngineState<T> {
    /// An empty buffer that keeps at most `capacity` candles.
    pub fn new(capacity: usize) -> (s: Self)
        ensures
            s.candles@ == Seq::<T>::empty(),
            s.capacity == capacity,
    {
        EngineState { candles: Vec::with_capacity(capacity), capacity }
    }

    /// Appends a candle; when the buffer then holds more than its capacity,
    /// the oldest candle is dropped.
    pub fn push(&mut self, candle: T)
        ensures
            final(self).candles@ == spec_after_push(old(self).candles@, candle, old(self).capacity as nat),
            final(self).capacity == old(self).capacity,
    {
        self.candles.push(candle);
        if self.candles.len() > self.capacity {
            self.candles.remove(0);
        }
    }
}

impl<T: Clone> EngineState<T> {
    /// Copies of the last `lookback` candles (all of them when fewer are
    /// held), oldest first.
    pub fn latest(&self, lookback: usize) -> (out: Vec<T>)
        ensures
            out@.len() == self.candles@.len() - spec_latest_start(self.candles@.len(), lookback as nat),
            forall|i: int|
                0 <= i < out@.len() ==> cloned(
                    self.candles@[spec_latest_start(self.candles@.len(), lookback as nat) + i],
                    #[trigger] out@[i],
                ),
    {
        let len = self.candles.len();
        let skip = len.saturating_sub(lookback);
        let mut out: Vec<T> = Vec::new();
        let mut i = skip;
        while i < len
            invariant
                len == self.candles@.len(),
                skip == spec_latest_start(len as nat, lookback as nat),
                skip <= i <= len,
                out@.len() == i - skip,
                forall|j: int|
                    0 <= j < out@.len() ==> cloned(self.candles@[skip + j], #[trigger] out@[j]),
            decreases len - i,
        {
            let c = self.candles[i].clone();
            out.push(c);
            i = i + 1;
        }
        out
    }
}

/// Pushing onto a buffer that holds the window of a history yields the
/// window of the history extended by the pushed candle: the buffer always
/// holds exactly the most recent `capacity` candles pushed.
pub proof fn lemma_push_keeps_window<T>(history: Seq<T>, item: T, capacity: nat)
    ensures
        spec_after_push(spec_window(history, capacity), item, capacity) =~= spec_window(
            history.push(item),
            capacity,
        ),
{
    let w = spec_window(history, capacity);
    let h2 = history.push(item);
    if history.len() > capacity {
        assert(w.len() == capacity);
        assert(w.push(item).drop_first() =~= h2.skip(h2.len() - capacity));
    } else if history.len() == capacity {
        assert(w.push(item).drop_first() =~= h2.skip(h2.len() - capacity));
    } else {
        assert(w.push(item) =~= h2);
    }
}

/// What a buffer holding `items` holds after `pushed` is pushed onto it,
/// oldest first.
pub open spec fn spec_push_all<T>(items: Seq<T>, pushed: Seq<T>, capacity: nat) -> Seq<T>
    decreases pushed.len(),
{
    if pushed.len() == 0 {
        items
    } else {
        spec_after_push(spec_push_all(items, pushed.drop_last(), capacity), pushed.last(), capacity)
    }
}

/// Over any sequence of pushes onto a new buffer, the buffer holds exactly
/// the most recent `capacity` candles pushed, and never more than
/// `capacity` candles.
pub proof fn lemma_push_all_window<T>(pushed: Seq<T>, capacity: nat)
    ensures
        spec_push_all(Seq::<T>::empty(), pushed, capacity) =~= spec_window(pushed, capacity),
        spec_push_all(Seq::<T>::empty(), pushed, capacity).len() <= capacity,
        spec_push_all(Seq::<T>::empty(), pushed, capacity).len() <= pushed.len(),
    decreases pushed.len(),
{
    if pushed.len() > 0 {
        lemma_push_all_window(pushed.drop_last(), capacity);
        lemma_push_keeps_window(pushed.drop_last(), pushed.last(), capacity);
        assert(pushed.drop_last().push(pushed.last()) =~= pushed);
    }
}

/// A buffer within its capacity stays within it, and the candle just
/// pushed is the newest one held whenever the capacity is not zero.
pub proof fn lemma_push_bounded<T>(items: Seq<T>, item: T, capacity: nat)
    requires
        items.len() <= capacity,
    ensures
        spec_after_push(items, item, capacity).len() <= capacity,
        capacity > 0 ==> spec_after_push(items, item, capacity).last() == item,
{
}

} // verus!
