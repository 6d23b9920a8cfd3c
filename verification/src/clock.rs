//! The virtual hardware clock's decision state: which interrupts are
//! pending, at which nanosecond targets they fire, and which of a
//! pending interrupt or a plain cycle wait comes first. The surrounding
//! pacing loop reads the real time, sleeps and spins; the decisions are
//! taken here.

use vstd::prelude::*;
use crate::mem::{RwMemory, WriteObserver};

verus! {

/// An interrupt source recognized by the virtual clock.
#[derive(Copy, Clone, Debug, PartialEq, Eq)]
pub enum IntType {
    Vblank,
    Hblank,
    IoTimer,
}

/// A pending interrupt: its delivery target on the nanosecond clock and
/// its type.
pub struct ClockInt {
    pub int_target: u64,
    pub int_type: IntType,
}

pub const NS_PER_S: u64 = 1_000_000_000;

/// Commands the presentation side hands to the simulation worker.
pub enum WorkerCmd {
    TakeSnapshot(Box<RwMemory>, WriteObserver),
    Shutdown,
}

/// The virtual clock: the emulated frequency, the nanosecond period of
/// one cycle, and the pending interrupts.
pub struct Clock {
    freq: u32,
    period: u64,
    pending: Vec<ClockInt>,
}

/// The mathematical model of the clock.
#[verifier::ext_equal]
pub struct ClockView {
    pub freq: u32,
    pub period: u64,
    pub pending: Seq<ClockInt>,
}

impl View for Clock {
    type V = ClockView;

    closed spec fn view(&self) -> ClockView {
        ClockView { freq: self.freq, period: self.period, pending: self.pending@ }
    }
}

/// The index of the pending interrupt with the smallest target,
/// earliest index winning a tie; meaningful only for a non-empty
/// sequence.
pub open spec fn first_min_index(s: Seq<ClockInt>) -> int
    decreases s.len(),
{
    if s.len() <= 1 {
        0
    } else {
        let m = first_min_index(s.drop_last());
        if s.last().int_target < s[m].int_target {
            s.len() - 1
        } else {
            m
        }
    }
}

/// The first-minimum index lies in bounds and no entry is smaller.
pub proof fn lemma_first_min_index(s: Seq<ClockInt>)
    requires
        s.len() > 0,
    ensures
        0 <= first_min_index(s) < s.len(),
        forall|j: int|
            0 <= j < s.len() ==> s[first_min_index(s)].int_target <= #[trigger] s[j].int_target,
    decreases s.len(),
{
    if s.len() > 1 {
        let t = s.drop_last();
        lemma_first_min_index(t);
        let m = first_min_index(s);
        let mt = first_min_index(t);
        assert forall|j: int| 0 <= j < s.len() implies s[m].int_target <= #[trigger] s[j].int_target by {
            if j < s.len() - 1 {
                assert(t[mt].int_target <= t[j].int_target);
                assert(t[j] == s[j]);
            }
        }
    }
}

impl Clock {
    /// A clock for a machine of the given frequency, with no pending
    /// interrupts; the period is the length of one cycle in
    /// nanoseconds.
    pub fn new(freq: u32) -> (r: Clock)
        requires
            freq >= 1,
        ensures
            r@.freq == freq,
            r@.period == NS_PER_S as u64 / freq as u64,
            r@.pending == Seq::<ClockInt>::empty(),
    {
        Clock { freq, period: NS_PER_S / (freq as u64), pending: Vec::new() }
    }

    /// The length of one emulated cycle in nanoseconds.
    pub fn period(&self) -> (r: u64)
        ensures
            r == self@.period,
    {
        self.period
    }

    /// Registers an interrupt to fire at the given nanosecond target.
    pub fn schedule(&mut self, itype: IntType, target: u64)
        ensures
            final(self)@ == (ClockView {
                pending: old(self)@.pending.push(ClockInt { int_target: target, int_type: itype }),
                ..old(self)@
            }),
    {
        self.pending.push(ClockInt { int_target: target, int_type: itype });
    }

    /// Decides what a wait until `real_target` runs into: if the
    /// earliest pending interrupt fires strictly before that target,
    /// it is removed and returned with its own earlier target;
    /// otherwise nothing fires and the wait runs to `real_target`.
    pub fn next_target(&mut self, real_target: u64) -> (r: (u64, Option<IntType>))
        ensures
            ({
                let p = old(self)@.pending;
                if p.len() > 0 && p[first_min_index(p)].int_target < real_target {
                    let m = first_min_index(p);
                    &&& r == (p[m].int_target, Some(p[m].int_type))
                    &&& final(self)@ == (ClockView { pending: p.remove(m), ..old(self)@ })
                    &&& forall|j: int| 0 <= j < p.len() ==> r.0 <= #[trigger] p[j].int_target
                } else {
                    &&& r == (real_target, None::<IntType>)
                    &&& final(self)@ == old(self)@
                }
            }),
    {
        let n = self.pending.len();
        if n == 0 {
            return (real_target, None);
        }
        let ghost p = self@.pending;
        let mut best: usize = 0;
        let mut i: usize = 1;
        while i < n
            invariant
                n == p.len(),
                self@.pending == p,
                1 <= i <= n,
                0 <= best < i,
                best == first_min_index(p.take(i as int)),
            decreases n - i,
        {
            proof {
                assert(p.take(i + 1).drop_last() =~= p.take(i as int));
                assert(p.take(i + 1).last() == p[i as int]);
            }
            if self.pending[i].int_target < self.pending[best].int_target {
                best = i;
            }
            i = i + 1;
        }
        proof {
            assert(p.take(n as int) =~= p);
            lemma_first_min_index(p);
        }
        if self.pending[best].int_target < real_target {
            let e = self.pending.remove(best);
            (e.int_target, Some(e.int_type))
        } else {
            (real_target, None)
        }
    }
}

} // verus!
