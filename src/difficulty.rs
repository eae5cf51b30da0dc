//! Task difficulty and the optional cap a node places on it.

use vstd::prelude::*;

verus! {

/// Ordinal rating of a task's computational cost.
#[derive(Clone, Copy, Debug, PartialEq, Eq, Structural)]
pub enum TaskDifficulty {
    Small,
    Medium,
    Large,
}

impl TaskDifficulty {
    /// Position of the difficulty in the order `Small < Medium < Large`.
    pub open spec fn rank_spec(self) -> nat {
        match self {
            TaskDifficulty::Small => 0,
            TaskDifficulty::Medium => 1,
            TaskDifficulty::Large => 2,
        }
    }

    pub fn rank(&self) -> (r: u8)
        ensures
            r as nat == self.rank_spec(),
    {
        match self {
            TaskDifficulty::Small => 0,
            TaskDifficulty::Medium => 1,
            TaskDifficulty::Large => 2,
        }
    }

    /// The difficulty of the given rank, if there is one.
    pub fn from_rank(rank: u8) -> (r: Option<TaskDifficulty>)
        ensures
            r matches Some(d) ==> d.rank_spec() == rank as nat,
            r is None <==> rank > 2,
    {
        if rank == 0 {
            Some(TaskDifficulty::Small)
        } else if rank == 1 {
            Some(TaskDifficulty::Medium)
        } else if rank == 2 {
            Some(TaskDifficulty::Large)
        } else {
            None
        }
    }

    pub fn at_most(&self, other: &TaskDifficulty) -> (r: bool)
        ensures
            r == (self.rank_spec() <= other.rank_spec()),
    {
        self.rank() <= other.rank()
    }
}

/// A task of difficulty `d` is acceptable under the optional cap `cap`.
pub open spec fn within_cap(d: TaskDifficulty, cap: Option<TaskDifficulty>) -> bool {
    match cap {
        None => true,
        Some(c) => d.rank_spec() <= c.rank_spec(),
    }
}

pub fn is_within_cap(d: TaskDifficulty, cap: Option<TaskDifficulty>) -> (r: bool)
    ensures
        r == within_cap(d, cap),
{
    match cap {
        None => true,
        Some(c) => d.at_most(&c),
    }
}

} // verus!
