//! Fault logging: a 64-entry circular buffer for post-flight analysis.
//!
//! No heap allocation, bounded write time. When full, the oldest entry is
//! overwritten, so the most recent fault history is preserved.
use vstd::prelude::*;

use super::{FaultParam, ReflexAction, Severity};

verus! {

/// Number of entries that the log holds.
pub const LOG_CAPACITY: usize = 64;

/// One logged fault event.
#[derive(Clone, Copy, PartialEq, Eq, Debug, Structural)]
pub struct FaultEntry {
    /// Which parameter failed.
    pub param: FaultParam,
    /// Severity tier at the time of the fault.
    pub severity: Severity,
    /// Action taken.
    pub action: ReflexAction,
    /// Cycle counter timestamp.
    pub timestamp: u64,
    /// Sensor value that triggered the fault (fixed point).
    pub value: i64,
    /// Threshold that was exceeded (fixed point).
    pub threshold: i64,
}

impl FaultEntry {
    /// The empty entry that fills a new log.
    pub open spec fn spec_zeroed() -> FaultEntry {
        FaultEntry {
            param: FaultParam::Thermal,
            severity: Severity::Minor,
            action: ReflexAction::NoAction,
            timestamp: 0,
            value: 0,
            threshold: 0,
        }
    }

    /// Zero/empty entry, for buffer initialization.
    pub fn zeroed() -> (entry: Self)
        ensures
            entry == Self::spec_zeroed(),
    {
        FaultEntry {
            param: FaultParam::Thermal,
            severity: Severity::Minor,
            action: ReflexAction::NoAction,
            timestamp: 0,
            value: 0,
            threshold: 0,
        }
    }
}

/// Abstract state of a fault log.
pub struct FaultLogState {
    /// The whole buffer, slot by slot.
    pub entries: Seq<FaultEntry>,
    /// The slot that the next entry is written to.
    pub index: nat,
    /// Number of entries written, modulo 256 (the count wraps at 255).
    pub count: nat,
    /// Whether the write position has wrapped around.
    pub overflow: bool,
}

impl FaultLogState {
    /// A well-formed state: 64 slots and a write position among them.
    pub open spec fn wf(self) -> bool {
        &&& self.entries.len() == LOG_CAPACITY
        &&& self.index < LOG_CAPACITY
        &&& self.count <= 255
    }

    /// The state after logging `entry`: it takes the slot at the write
    /// position, which then advances (wrapping at 64); the count advances,
    /// wrapping from 255 to 0; the overflow flag is set when the position
    /// wraps.
    pub open spec fn logged(self, entry: FaultEntry) -> FaultLogState {
        let next = if self.index < 63 { self.index + 1 } else { 0 };
        FaultLogState {
            entries: self.entries.update(self.index as int, entry),
            index: next as nat,
            count: ((self.count + 1) % 256) as nat,
            overflow: self.overflow || next == 0,
        }
    }

    /// The state after logging every entry of `history`, first to last.
    pub open spec fn logged_all(self, history: Seq<FaultEntry>) -> FaultLogState
        decreases history.len(),
    {
        if history.len() == 0 {
            self
        } else {
            self.logged_all(history.drop_last()).logged(history.last())
        }
    }
}

/// Fault log: a 64-entry circular buffer.
pub struct FaultLog {
    entries: [FaultEntry; 64],
    index: u8,
    count: u8,
    overflow: bool,
}

impl View for FaultLog {
    type V = FaultLogState;

    closed spec fn view(&self) -> FaultLogState {
        FaultLogState {
            entries: self.entries@,
            index: self.index as nat,
            count: self.count as nat,
            overflow: self.overflow,
        }
    }
}

impl FaultLog {
    #[verifier::type_invariant]
    spec fn inv(self) -> bool {
        self.index < 64
    }

    /// Create an empty log: every slot holds the zeroed entry, nothing written.
    pub fn new() -> (log: Self)
        ensures
            log@.wf(),
            log@.entries == Seq::new(64, |i: int| FaultEntry::spec_zeroed()),
            log@.index == 0,
            log@.count == 0,
            !log@.overflow,
    {
        let zero = FaultEntry::zeroed();
        let log = FaultLog { entries: [zero; 64], index: 0, count: 0, overflow: false };
        assert(log@.entries =~= Seq::new(64, |i: int| FaultEntry::spec_zeroed()));
        log
    }

    /// Log a fault; when the buffer is full the oldest entry is overwritten.
    pub fn log(&mut self, entry: FaultEntry)
        ensures
            final(self)@ == old(self)@.logged(entry),
            old(self)@.wf(),
            final(self)@.wf(),
    {
        proof {
            use_type_invariant(&*self);
        }
        let idx = self.index as usize;
        self.entries[idx] = entry;
        self.index = if self.index < 63 {
            self.index + 1
        } else {
            0
        };
        self.count = self.count.wrapping_add(1);
        if self.index == 0 {
            self.overflow = true;
        }
    }

    /// The whole buffer, slot by slot (slots not yet written hold stale or
    /// zeroed entries).
    pub fn read_all(&self) -> (entries: &[FaultEntry])
        ensures
            entries@ == self@.entries,
            self@.wf(),
    {
        proof {
            use_type_invariant(self);
        }
        self.entries.as_slice()
    }

    /// Number of entries written, modulo 256 (it wraps at 255).
    pub fn entry_count(&self) -> (count: u8)
        ensures
            count == self@.count,
            self@.wf(),
    {
        proof {
            use_type_invariant(self);
        }
        self.count
    }

    /// Whether the buffer has wrapped around.
    pub fn has_overflow(&self) -> (overflow: bool)
        ensures
            overflow == self@.overflow,
    {
        self.overflow
    }

    /// The slot that the next entry is written to.
    pub fn write_index(&self) -> (index: u8)
        ensures
            index == self@.index,
            index < 64,
            self@.wf(),
    {
        proof {
            use_type_invariant(self);
        }
        self.index
    }

    /// Reset the log to the empty state; the slots keep their contents.
    pub fn clear(&mut self)
        ensures
            final(self)@.entries == old(self)@.entries,
            final(self)@.index == 0,
            final(self)@.count == 0,
            !final(self)@.overflow,
            final(self)@.wf(),
    {
        proof {
            use_type_invariant(&*self);
        }
        self.index = 0;
        self.count = 0;
        self.overflow = false;
    }
}

/// Read the cycle counter. The target's counter is not read yet: the
/// timestamp is always 0.
pub fn read_cycle_counter() -> (cycles: u64)
    ensures
        cycles == 0,
{
    0
}

/// The circular-buffer law: after logging `history` into a well-formed log,
/// the write position has advanced by its length (modulo 64), the count by
/// its length (modulo 256), the overflow flag is set exactly when
/// the position went past the end, and the most recent `min(len, 64)`
/// entries are all kept, the `j`-th most recent one in the slot just before
/// the write position, `j` slots back.
pub proof fn lemma_recent_history_kept(state: FaultLogState, history: Seq<FaultEntry>)
    requires
        state.wf(),
    ensures
        state.logged_all(history).wf(),
        state.logged_all(history).index == (state.index + history.len()) % 64,
        state.logged_all(history).count == (state.count + history.len()) % 256,
        state.logged_all(history).overflow == (state.overflow || state.index + history.len()
            >= 64),
        forall|j: int|
            0 <= j < history.len() && j < 64 ==> #[trigger] state.logged_all(history).entries[(
            state.index + history.len() - 1 - j) % 64] == history[history.len() - 1 - j],
    decreases history.len(),
{
    if history.len() > 0 {
        let prev = history.drop_last();
        lemma_recent_history_kept(state, prev);
        let s = state.logged_all(prev);
        let t = state.logged_all(history);
        let n = history.len() as int;
        assert(t == s.logged(history.last()));
        assert(s.index == (state.index + n - 1) % 64);
        assert forall|j: int| 0 <= j < n && j < 64 implies #[trigger] t.entries[(state.index + n
            - 1 - j) % 64] == history[n - 1 - j] by {
            let p = (state.index + n - 1 - j) % 64;
            if j > 0 {
                assert(prev[prev.len() - 1 - (j - 1)] == history[n - 1 - j]);
                assert(p == (state.index + prev.len() - 1 - (j - 1)) % 64);
                assert(p != s.index) by {
                    lemma_mod_shift_differs(state.index + n - 1, j);
                }
                assert(s.entries[p] == history[n - 1 - j]);
            }
        }
    }
}

proof fn lemma_mod_shift_differs(x: int, j: int)
    requires
        0 <= j - 1,
        j < 64,
        x - j >= 0,
    ensures
        (x - j) % 64 != x % 64,
{
    assert((x - j) % 64 != x % 64) by (nonlinear_arith)
        requires
            0 < j < 64,
            x - j >= 0,
    ;
}

} // verus!
