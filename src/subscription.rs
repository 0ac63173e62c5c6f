//! The subscription counter: a count of subscribed buyers, compared with a
//! quorum threshold, that decides whether catalog reads are served yet.

use vstd::prelude::*;

verus! {

/// The quorum a counter made by `SubscriptionCounter::new` waits for.
pub const DEFAULT_QUORUM: u64 = 3;

/// The count after one more subscription. The count saturates at `u64::MAX`.
pub open spec fn count_after_subscribe(count: nat) -> nat {
    if count < u64::MAX {
        count + 1
    } else {
        count
    }
}

/// The count after one unsubscription, floored at zero.
pub open spec fn count_after_unsubscribe(count: nat) -> nat {
    if count > 0 {
        (count - 1) as nat
    } else {
        0
    }
}

/// Reads are served once the count has reached the threshold.
pub open spec fn quorum_met(count: nat, threshold: nat) -> bool {
    count >= threshold
}

/// Counts subscribed buyers against a fixed quorum threshold.
pub struct SubscriptionCounter {
    count: u64,
    threshold: u64,
}

impl SubscriptionCounter {
    /// The number of buyers subscribed now.
    pub closed spec fn spec_count(&self) -> nat {
        self.count as nat
    }

    /// The quorum threshold, fixed when the counter is made.
    pub closed spec fn spec_threshold(&self) -> nat {
        self.threshold as nat
    }

    /// Whether reads are served now.
    pub open spec fn has_quorum(&self) -> bool {
        quorum_met(self.spec_count(), self.spec_threshold())
    }

    /// A counter with no subscribers and the default quorum.
    pub fn new() -> (g: SubscriptionCounter)
        ensures
            g.spec_count() == 0,
            g.spec_threshold() == DEFAULT_QUORUM,
    {
        SubscriptionCounter { count: 0, threshold: DEFAULT_QUORUM }
    }

    /// A counter with no subscribers and the given quorum.
    pub fn with_threshold(threshold: u64) -> (g: SubscriptionCounter)
        ensures
            g.spec_count() == 0,
            g.spec_threshold() == threshold,
    {
        SubscriptionCounter { count: 0, threshold }
    }

    /// The number of buyers subscribed now.
    pub fn count(&self) -> (r: u64)
        ensures
            r == self.spec_count(),
    {
        self.count
    }

    /// The quorum threshold.
    pub fn threshold(&self) -> (r: u64)
        ensures
            r == self.spec_threshold(),
    {
        self.threshold
    }

    /// Registers one more subscriber; returns whether the count has just
    /// become equal to the threshold.
    pub fn subscribe(&mut self) -> (reached: bool)
        ensures
            final(self).spec_count() == count_after_subscribe(old(self).spec_count()),
            final(self).spec_threshold() == old(self).spec_threshold(),
            reached == (final(self).spec_count() == final(self).spec_threshold()),
    {
        if self.count < u64::MAX {
            self.count = self.count + 1;
        }
        self.count == self.threshold
    }

    /// Removes one subscriber; the count does not go below zero.
    pub fn unsubscribe(&mut self)
        ensures
            final(self).spec_count() == count_after_unsubscribe(old(self).spec_count()),
            final(self).spec_threshold() == old(self).spec_threshold(),
    {
        if self.count > 0 {
            self.count = self.count - 1;
        }
    }

    /// Whether the quorum is met, so that reads are served.
    pub fn quorum_reached(&self) -> (r: bool)
        ensures
            r == self.has_quorum(),
    {
        self.count >= self.threshold
    }
}

} // verus!
