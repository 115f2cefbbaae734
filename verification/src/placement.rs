use vstd::prelude::*;

verus! {

/// The schedule by which a number of objects is placed on the course: each
/// object in turn is offered positions until one is accepted or its tries
/// run out, and then the next object is taken.
pub struct PlacementRounds {
    targets: usize,
    tries_per_target: usize,
    target: usize,
    tries: usize,
    placed: usize,
    attempts: usize,
}

impl PlacementRounds {
    /// Number of objects to place.
    pub closed spec fn targets(self) -> nat {
        self.targets as nat
    }

    /// Positions each object is offered at most.
    pub closed spec fn tries_per_target(self) -> nat {
        self.tries_per_target as nat
    }

    /// Number of objects whose turn is over.
    pub closed spec fn finished(self) -> nat {
        self.target as nat
    }

    /// Positions refused so far for the object whose turn it is.
    pub closed spec fn tries(self) -> nat {
        self.tries as nat
    }

    /// Number of objects placed.
    pub closed spec fn placed_count(self) -> nat {
        self.placed as nat
    }

    /// Number of positions offered so far.
    pub closed spec fn attempt_count(self) -> nat {
        self.attempts as nat
    }

    /// Position offers that the schedule has used up: those of every
    /// finished object, counted in full, and those of the current one.
    pub open spec fn progress(self) -> nat {
        self.finished() * self.tries_per_target() + self.tries()
    }

    pub closed spec fn wf(self) -> bool {
        &&& self.tries_per_target > 0
        &&& self.target <= self.targets
        &&& self.tries < self.tries_per_target
        &&& self.target == self.targets ==> self.tries == 0
        &&& self.placed <= self.target
        &&& self.target + self.tries <= self.attempts
        &&& self.attempts <= self.target * self.tries_per_target + self.tries
        &&& self.targets * self.tries_per_target <= usize::MAX
    }

    /// A schedule for `targets` objects with `tries_per_target` offers
    /// each, before any offer.
    pub fn new(targets: usize, tries_per_target: usize) -> (s: Self)
        requires
            tries_per_target > 0,
            targets * tries_per_target <= usize::MAX,
        ensures
            s.wf(),
            s.targets() == targets,
            s.tries_per_target() == tries_per_target,
            s.finished() == 0,
            s.tries() == 0,
            s.placed_count() == 0,
            s.attempt_count() == 0,
    {
        PlacementRounds { targets, tries_per_target, target: 0, tries: 0, placed: 0, attempts: 0 }
    }

    /// Whether every object has had its turn.
    pub fn is_done(&self) -> (b: bool)
        requires
            self.wf(),
        ensures
            b == (self.finished() == self.targets()),
    {
        self.target == self.targets
    }

    /// Number of objects placed.
    pub fn placed(&self) -> (n: usize)
        ensures
            n == self.placed_count(),
    {
        self.placed
    }

    /// Number of positions offered so far.
    pub fn attempts(&self) -> (n: usize)
        ensures
            n == self.attempt_count(),
    {
        self.attempts
    }

    /// Records whether the position offered to the current object was
    /// accepted.  An accepted position places the object and ends its
    /// turn; a refused one ends it only when its last try is used.
    pub fn record(&mut self, accepted: bool)
        requires
            old(self).wf(),
            old(self).finished() < old(self).targets(),
        ensures
            final(self).wf(),
            final(self).targets() == old(self).targets(),
            final(self).tries_per_target() == old(self).tries_per_target(),
            final(self).attempt_count() == old(self).attempt_count() + 1,
            old(self).progress() < final(self).progress(),
            accepted ==> {
                &&& final(self).finished() == old(self).finished() + 1
                &&& final(self).tries() == 0
                &&& final(self).placed_count() == old(self).placed_count() + 1
            },
            !accepted && old(self).tries() + 1 == old(self).tries_per_target() ==> {
                &&& final(self).finished() == old(self).finished() + 1
                &&& final(self).tries() == 0
                &&& final(self).placed_count() == old(self).placed_count()
            },
            !accepted && old(self).tries() + 1 < old(self).tries_per_target() ==> {
                &&& final(self).finished() == old(self).finished()
                &&& final(self).tries() == old(self).tries() + 1
                &&& final(self).placed_count() == old(self).placed_count()
            },
    {
        let k = self.tries_per_target;
        let t = self.target;
        proof {
            lemma_next_round_bound(t as int, k as int, self.targets as int);
        }
        let attempts = self.attempts + 1;
        if accepted {
            *self = PlacementRounds {
                target: t + 1,
                tries: 0,
                placed: self.placed + 1,
                attempts,
                ..*self
            };
        } else if self.tries + 1 == k {
            *self = PlacementRounds { target: t + 1, tries: 0, attempts, ..*self };
        } else {
            *self = PlacementRounds { tries: self.tries + 1, attempts, ..*self };
        }
    }
}

proof fn lemma_next_round_bound(t: int, k: int, n: int)
    requires
        0 <= t < n,
        k > 0,
        n * k <= usize::MAX,
    ensures
        (t + 1) * k == t * k + k,
        (t + 1) * k <= n * k,
        t * k + k <= usize::MAX,
{
    assert((t + 1) * k == t * k + k) by (nonlinear_arith);
    assert((t + 1) * k <= n * k) by (nonlinear_arith)
        requires
            t + 1 <= n,
            k > 0,
    ;
}

/// No schedule places more objects than it was given.
pub proof fn lemma_placed_at_most_targets(s: PlacementRounds)
    requires
        s.wf(),
    ensures
        s.placed_count() <= s.finished() <= s.targets(),
{
}

/// A schedule never offers more positions than its objects have tries,
/// and every offer moves it forward, so recording offers until it is done
/// takes at most `targets * tries_per_target` offers.
pub proof fn lemma_offers_bounded(s: PlacementRounds)
    requires
        s.wf(),
    ensures
        s.attempt_count() <= s.progress(),
        s.progress() <= s.targets() * s.tries_per_target(),
{
    assert(s.finished() * s.tries_per_target() + s.tries() <= s.targets() * s.tries_per_target())
        by (nonlinear_arith)
        requires
            s.finished() <= s.targets(),
            s.tries() < s.tries_per_target(),
            s.finished() == s.targets() ==> s.tries() == 0,
    ;
}

} // verus!
