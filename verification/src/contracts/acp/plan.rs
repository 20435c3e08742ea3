use vstd::prelude::*;

verus! {

/// Ranks how important one plan entry is relative to the rest of the plan.
#[derive(Clone, Copy, Debug, PartialEq, Eq, Structural)]
pub enum PlanEntryPriority {
    High,
    Medium,
    Low,
}

/// Describes how far the agent has progressed through one plan entry.
#[derive(Clone, Copy, Debug, PartialEq, Eq, Structural)]
pub enum PlanEntryStatus {
    Pending,
    InProgress,
    Completed,
}

/// Describes one step the agent intends to take during the current turn.
#[derive(Clone, Debug, PartialEq, Eq)]
pub struct PlanEntry {
    /// Describes the step in human-readable form.
    pub content: String,
    pub priority: PlanEntryPriority,
    pub status: PlanEntryStatus,
}

/// Carries the agent's complete plan for the current turn.
///
/// Each update replaces the previous plan outright, so entries are never merged.
#[derive(Clone, Debug, Default, PartialEq, Eq)]
pub struct Plan {
    pub entries: Vec<PlanEntry>,
}

} // verus!
