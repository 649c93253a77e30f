//! The bounded, ordered conversation context.

use std::collections::VecDeque;
use vstd::prelude::*;

use crate::message::{message_views, MessageView, RoleTaggedMessage};

verus! {

/// How many entries leave the front of a window of `len` entries: none while
/// `len` is within `max_size`, otherwise as many as stand above `min_size`.
pub open spec fn eviction_count(len: nat, max_size: nat, min_size: nat) -> nat {
    if len > max_size && len > min_size {
        (len - min_size) as nat
    } else {
        0
    }
}

/// What is left of `entries` once the oldest `eviction_count` of them are gone.
pub open spec fn evicted<T>(entries: Seq<T>, max_size: nat, min_size: nat) -> Seq<T> {
    entries.skip(eviction_count(entries.len(), max_size, min_size) as int)
}

/// Whether `part` is what stands at the end of `whole`.
pub open spec fn is_suffix_of<T>(part: Seq<T>, whole: Seq<T>) -> bool {
    part.len() <= whole.len() && part == whole.skip(whole.len() - part.len())
}

/// The window that results when `batches` join `window` one after the other,
/// each followed by trimming.
pub open spec fn after_batches<T>(
    window: Seq<T>,
    batches: Seq<Seq<T>>,
    max_size: nat,
    min_size: nat,
) -> Seq<T>
    decreases batches.len(),
{
    if batches.len() == 0 {
        window
    } else {
        after_batches(
            evicted(window + batches.first(), max_size, min_size),
            batches.drop_first(),
            max_size,
            min_size,
        )
    }
}

/// With `min_size <= max_size`, a trimmed window holds at most `max_size`
/// entries; where trimming removed anything it holds exactly `min_size`, and
/// where the window was within `max_size` nothing was removed.
pub proof fn law_eviction_bound<T>(entries: Seq<T>, max_size: nat, min_size: nat)
    requires
        min_size <= max_size,
    ensures
        evicted(entries, max_size, min_size).len() <= max_size,
        entries.len() > max_size ==> evicted(entries, max_size, min_size).len() == min_size,
        entries.len() <= max_size ==> evicted(entries, max_size, min_size) == entries,
{
}

/// Trimming only ever removes from the front: what is left is the end of what
/// was there, in the same order.
pub proof fn law_eviction_keeps_newest<T>(entries: Seq<T>, max_size: nat, min_size: nat)
    ensures
        is_suffix_of(evicted(entries, max_size, min_size), entries),
{
}

/// Whatever batches arrive, the window holds entries in the order of their
/// arrival: it is the end of the earlier window followed by all arrivals, batch
/// after batch.
pub proof fn law_arrival_order<T>(
    window: Seq<T>,
    batches: Seq<Seq<T>>,
    max_size: nat,
    min_size: nat,
)
    ensures
        is_suffix_of(
            after_batches(window, batches, max_size, min_size),
            window + batches.flatten(),
        ),
    decreases batches.len(),
{
    if batches.len() == 0 {
        assert(window.skip(0) == window);
    } else {
        let kept = evicted(window + batches.first(), max_size, min_size);
        let rest = batches.drop_first();
        law_arrival_order(kept, rest, max_size, min_size);
        let last = after_batches(kept, rest, max_size, min_size);
        let all = window + batches.flatten();
        assert(last == all.skip(all.len() - last.len()));
    }
}

/// The conversation context that accompanies every request: entries in arrival
/// order, trimmed from the front to `min_size` whenever a batch takes it above
/// `max_size`.
#[derive(Debug)]
pub struct HistoryWindow {
    entries: VecDeque<RoleTaggedMessage>,
    max_size: usize,
    min_size: usize,
}

impl View for HistoryWindow {
    type V = Seq<MessageView>;

    closed spec fn view(&self) -> Seq<MessageView> {
        message_views(self.entries@)
    }
}

impl HistoryWindow {
    /// The length above which a batch triggers trimming.
    pub closed spec fn spec_max_size(&self) -> usize {
        self.max_size
    }

    /// The length that trimming leaves.
    pub closed spec fn spec_min_size(&self) -> usize {
        self.min_size
    }

    /// An empty window with the given thresholds.
    pub fn new(max_size: usize, min_size: usize) -> (window: Self)
        ensures
            window@ == Seq::<MessageView>::empty(),
            window.max_size() == max_size,
            window.min_size() == min_size,
    {
        HistoryWindow { entries: VecDeque::new(), max_size, min_size }
    }

    /// The length above which a batch triggers trimming.
    #[verifier::when_used_as_spec(spec_max_size)]
    pub fn max_size(&self) -> (size: usize)
        ensures
            size == self.max_size(),
    {
        self.max_size
    }

    /// The length that trimming leaves.
    #[verifier::when_used_as_spec(spec_min_size)]
    pub fn min_size(&self) -> (size: usize)
        ensures
            size == self.min_size(),
    {
        self.min_size
    }

    /// The number of entries in the window.
    pub fn len(&self) -> (len: usize)
        ensures
            len == self@.len(),
    {
        self.entries.len()
    }

    /// Whether the window holds no entry.
    pub fn is_empty(&self) -> (empty: bool)
        ensures
            empty == (self@.len() == 0),
    {
        self.entries.len() == 0
    }

    /// Adds the entries of `batch` at the back, in their order, then trims the
    /// window once.
    pub fn append(&mut self, batch: Vec<RoleTaggedMessage>)
        ensures
            final(self)@ == evicted(
                old(self)@ + message_views(batch@),
                old(self).max_size() as nat,
                old(self).min_size() as nat,
            ),
            final(self).max_size() == old(self).max_size(),
            final(self).min_size() == old(self).min_size(),
            old(self).min_size() <= old(self).max_size() ==> final(self)@.len() <= old(
                self,
            ).max_size(),
    {
        let ghost before = self.entries@;
        let ghost arrivals = batch@;
        for message in iter: batch
            invariant
                iter.seq() == arrivals,
                self.entries@ == before + arrivals.take(iter.index() as int),
                self.max_size == old(self).max_size,
                self.min_size == old(self).min_size,
        {
            self.entries.push_back(message);
        }
        let ghost joined = self.entries@;
        if self.entries.len() > self.max_size && self.entries.len() > self.min_size {
            let surplus: usize = self.entries.len() - self.min_size;
            let mut dropped: usize = 0;
            while dropped < surplus
                invariant
                    dropped <= surplus <= joined.len(),
                    self.entries@ == joined.skip(dropped as int),
                    self.max_size == old(self).max_size,
                    self.min_size == old(self).min_size,
                decreases surplus - dropped,
            {
                self.entries.pop_front();
                dropped += 1;
            }
        }
    }

    /// Adds one entry at the back. The window is not trimmed: trimming follows
    /// batches only.
    pub fn push(&mut self, message: RoleTaggedMessage)
        ensures
            final(self)@ == old(self)@.push(message@),
            final(self).max_size() == old(self).max_size(),
            final(self).min_size() == old(self).min_size(),
    {
        self.entries.push_back(message);
    }

    /// The entries of the window, oldest first. The window is left as it is.
    pub fn snapshot(&self) -> (entries: Vec<RoleTaggedMessage>)
        ensures
            message_views(entries@) == self@,
    {
        let mut entries: Vec<RoleTaggedMessage> = Vec::new();
        let mut at: usize = 0;
        while at < self.entries.len()
            invariant
                at <= self.entries@.len(),
                entries@ == self.entries@.take(at as int),
            decreases self.entries@.len() - at,
        {
            entries.push(self.entries[at].clone());
            at += 1;
        }
        entries
    }
}

} // verus!
