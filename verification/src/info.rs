//! Task states, progress and the information a task reports about itself.

use std::collections::HashMap;

use vstd::prelude::*;

use crate::reason::Reason;

verus! {

/// The state of a task.
#[derive(Clone, Copy, PartialEq, Eq, Structural, Debug)]
pub enum State {
    /// Task has been initialized but not yet started.
    Initialized,
    /// Task is waiting to run.
    Waiting,
    /// Task is actively running.
    Running,
    /// Task is retrying after a failure.
    Retrying,
    /// Task has been paused by the user or system.
    Paused,
    /// Task has been stopped by the user or system.
    Stopped,
    /// Task has completed successfully.
    Completed,
    /// Task has failed to complete.
    Failed,
    /// Task has been removed from the system.
    Removed,
    /// Wildcard value used for filtering any state.
    Any,
}

/// The wire code of a state.
pub open spec fn state_code(s: State) -> u8 {
    match s {
        State::Initialized => 0x00,
        State::Waiting => 0x10,
        State::Running => 0x20,
        State::Retrying => 0x21,
        State::Paused => 0x30,
        State::Stopped => 0x31,
        State::Completed => 0x40,
        State::Failed => 0x41,
        State::Removed => 0x50,
        State::Any => 0x61,
    }
}

/// The state a wire code stands for; unknown codes mean `Any`.
pub open spec fn state_of_code(v: u8) -> State {
    if v == 0 {
        State::Initialized
    } else if v == 16 {
        State::Waiting
    } else if v == 32 {
        State::Running
    } else if v == 33 {
        State::Retrying
    } else if v == 48 {
        State::Paused
    } else if v == 49 {
        State::Stopped
    } else if v == 64 {
        State::Completed
    } else if v == 65 {
        State::Failed
    } else if v == 80 {
        State::Removed
    } else {
        State::Any
    }
}

/// A state in which a task has finished for good, well or badly.
pub open spec fn is_terminal(s: State) -> bool {
    s == State::Completed || s == State::Failed
}

impl State {
    /// The wire code of this state.
    pub fn repr(self) -> (r: u8)
        ensures
            r == state_code(self),
    {
        match self {
            State::Initialized => 0x00,
            State::Waiting => 0x10,
            State::Running => 0x20,
            State::Retrying => 0x21,
            State::Paused => 0x30,
            State::Stopped => 0x31,
            State::Completed => 0x40,
            State::Failed => 0x41,
            State::Removed => 0x50,
            State::Any => 0x61,
        }
    }
}

impl From<u8> for State {
    fn from(value: u8) -> (r: Self) {
        if value == 0 {
            State::Initialized
        } else if value == 16 {
            State::Waiting
        } else if value == 32 {
            State::Running
        } else if value == 33 {
            State::Retrying
        } else if value == 48 {
            State::Paused
        } else if value == 49 {
            State::Stopped
        } else if value == 64 {
            State::Completed
        } else if value == 65 {
            State::Failed
        } else if value == 80 {
            State::Removed
        } else {
            State::Any
        }
    }
}

impl vstd::std_specs::convert::FromSpecImpl<u8> for State {
    open spec fn obeys_from_spec() -> bool {
        true
    }

    open spec fn from_spec(v: u8) -> Self {
        state_of_code(v)
    }
}

/// Common metadata shared across different task representations.
#[derive(Copy, Clone, Debug)]
pub struct CommonTaskInfo {
    /// Unique identifier for the task.
    pub task_id: u32,
    /// User ID that owns the task.
    pub uid: u64,
    /// Action type as its wire code.
    pub action: u8,
    /// Operating mode as its wire code.
    pub mode: u8,
    /// Creation time in milliseconds since epoch.
    pub ctime: u64,
    /// Modification time in milliseconds since epoch.
    pub mtime: u64,
    /// Reason code for the current state.
    pub reason: u8,
    /// Whether progress notifications are wanted.
    pub gauge: bool,
    /// Whether automatic retries are enabled.
    pub retry: bool,
    /// Number of retry attempts made.
    pub tries: u32,
    /// API version as its wire code.
    pub version: u8,
    /// Task priority level.
    pub priority: u32,
}

impl CommonTaskInfo {
    /// Metadata with every field zero or false.
    pub fn new() -> (r: Self)
        ensures
            r == (CommonTaskInfo {
                task_id: 0,
                uid: 0,
                action: 0,
                mode: 0,
                ctime: 0,
                mtime: 0,
                reason: 0,
                gauge: false,
                retry: false,
                tries: 0,
                version: 0,
                priority: 0,
            }),
    {
        CommonTaskInfo {
            task_id: 0,
            uid: 0,
            action: 0,
            mode: 0,
            ctime: 0,
            mtime: 0,
            reason: 0,
            gauge: false,
            retry: false,
            tries: 0,
            version: 0,
            priority: 0,
        }
    }
}

/// Core progress information.
#[derive(Copy, Clone, Debug)]
pub struct CommonProgress {
    /// Current state of the task as its wire code.
    pub state: u8,
    /// Index of the current file being processed.
    pub index: usize,
    /// Total number of bytes processed across all files.
    pub total_processed: usize,
}

/// Progress of a task over its files.
#[derive(Debug)]
pub struct Progress {
    /// Core progress metadata.
    pub common_data: CommonProgress,
    /// Total size of each file in bytes; -1 means unknown.
    pub sizes: Vec<i64>,
    /// Number of bytes processed for each file.
    pub processed: Vec<usize>,
    /// Additional progress-related parameters.
    pub extras: HashMap<String, String>,
}

/// The sum of a sequence of sizes, as a mathematical integer.
pub open spec fn sum_i64(s: Seq<i64>) -> int
    decreases s.len(),
{
    if s.len() == 0 {
        0
    } else {
        sum_i64(s.drop_last()) + s.last()
    }
}

/// The sum of a sequence of byte counts, as a mathematical integer.
pub open spec fn sum_usize(s: Seq<usize>) -> int
    decreases s.len(),
{
    if s.len() == 0 {
        0
    } else {
        sum_usize(s.drop_last()) + s.last()
    }
}

/// Every running sum of the sizes stays within `i64`.
pub open spec fn i64_sums_fit(s: Seq<i64>) -> bool {
    forall|k: int| 0 <= k <= s.len() ==> i64::MIN <= #[trigger] sum_i64(s.take(k)) <= i64::MAX
}

/// Every running sum of the byte counts stays within `usize`.
pub open spec fn usize_sums_fit(s: Seq<usize>) -> bool {
    forall|k: int| 0 <= k <= s.len() ==> #[trigger] sum_usize(s.take(k)) <= usize::MAX
}

/// All file sizes are known.
pub open spec fn sizes_known(sizes: Seq<i64>) -> bool {
    forall|i: int| 0 <= i < sizes.len() ==> #[trigger] sizes[i] != -1
}

impl Progress {
    /// A fresh progress over files of the given sizes: nothing processed,
    /// the first file current, the task initialized.
    pub fn new(sizes: Vec<i64>) -> (r: Self)
        ensures
            r.common_data.state == state_code(State::Initialized),
            r.common_data.index == 0,
            r.common_data.total_processed == 0,
            r.sizes@ == sizes@,
            r.processed@ == Seq::new(sizes@.len(), |i: int| 0usize),
            r.extras@ == Map::<String, String>::empty(),
    {
        let len = sizes.len();
        let mut processed: Vec<usize> = Vec::new();
        let mut i: usize = 0;
        while i < len
            invariant
                i <= len,
                processed@ == Seq::new(i as nat, |j: int| 0usize),
            decreases len - i,
        {
            processed.push(0);
            i = i + 1;
        }
        Progress {
            common_data: CommonProgress {
                state: State::Initialized.repr(),
                index: 0,
                total_processed: 0,
            },
            sizes,
            processed,
            extras: HashMap::new(),
        }
    }

    /// Whether every file has a known size and the bytes processed add up
    /// to the total size.
    pub fn is_finish(&self) -> (r: bool)
        requires
            sizes_known(self.sizes@) ==> i64_sums_fit(self.sizes@) && usize_sums_fit(
                self.processed@,
            ),
        ensures
            r == (sizes_known(self.sizes@) && sum_usize(self.processed@) == (sum_i64(self.sizes@)
                as usize)),
    {
        let mut i: usize = 0;
        while i < self.sizes.len()
            invariant
                i <= self.sizes@.len(),
                forall|j: int| 0 <= j < i ==> #[trigger] self.sizes@[j] != -1,
            decreases self.sizes@.len() - i,
        {
            if self.sizes[i] == -1 {
                return false;
            }
            i = i + 1;
        }
        let mut total_sizes: i64 = 0;
        let mut k: usize = 0;
        while k < self.sizes.len()
            invariant
                k <= self.sizes@.len(),
                i64_sums_fit(self.sizes@),
                total_sizes == sum_i64(self.sizes@.take(k as int)),
            decreases self.sizes@.len() - k,
        {
            assert(self.sizes@.take(k + 1).drop_last() == self.sizes@.take(k as int));
            assert(i64::MIN <= sum_i64(self.sizes@.take(k + 1)) <= i64::MAX);
            total_sizes = total_sizes + self.sizes[k];
            k = k + 1;
        }
        assert(self.sizes@.take(self.sizes@.len() as int) == self.sizes@);
        let mut total_processed: usize = 0;
        let mut m: usize = 0;
        while m < self.processed.len()
            invariant
                m <= self.processed@.len(),
                usize_sums_fit(self.processed@),
                total_processed == sum_usize(self.processed@.take(m as int)),
            decreases self.processed@.len() - m,
        {
            assert(self.processed@.take(m + 1).drop_last() == self.processed@.take(m as int));
            assert(sum_usize(self.processed@.take(m + 1)) <= usize::MAX);
            total_processed = total_processed + self.processed[m];
            m = m + 1;
        }
        assert(self.processed@.take(self.processed@.len() as int) == self.processed@);
        total_processed == total_sizes as usize
    }
}

/// The state, modification time and reason of a task.
#[derive(Clone, Copy, Debug)]
pub struct TaskStatus {
    /// Time of the last change.
    pub mtime: u64,
    /// Current state.
    pub state: State,
    /// Reason for the current state.
    pub reason: Reason,
}

impl TaskStatus {
    /// A fresh status: initialized, no reason, changed at `mtime`.
    pub fn new(mtime: u64) -> (r: Self)
        ensures
            r.mtime == mtime,
            r.state == State::Initialized,
            r.reason == Reason::Default,
    {
        TaskStatus { mtime, state: State::Initialized, reason: Reason::Default }
    }
}

} // verus!
