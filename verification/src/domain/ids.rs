use vstd::prelude::*;

verus! {

/// Identifies one persisted session.
#[derive(Clone, Debug, PartialEq, Eq, Hash)]
pub struct SessionId {
    value: String,
}

/// Identifies one persisted task.
#[derive(Clone, Debug, PartialEq, Eq, Hash)]
pub struct TaskId {
    value: String,
}

/// Identifies one persisted project.
#[derive(Clone, Debug, PartialEq, Eq, Hash)]
pub struct ProjectId {
    value: String,
}

impl View for SessionId {
    type V = Seq<char>;

    closed spec fn view(&self) -> Seq<char> {
        self.value@
    }
}

impl View for TaskId {
    type V = Seq<char>;

    closed spec fn view(&self) -> Seq<char> {
        self.value@
    }
}

impl View for ProjectId {
    type V = Seq<char>;

    closed spec fn view(&self) -> Seq<char> {
        self.value@
    }
}

impl SessionId {
    /// Wraps the textual identifier of a session.
    pub fn new(value: String) -> (id: Self)
        ensures
            id@ == value@,
    {
        SessionId { value }
    }

    /// Returns the identifier as an owned string.
    pub fn to_string(&self) -> (s: String)
        ensures
            s@ == self@,
    {
        self.value.clone()
    }
}

impl TaskId {
    /// Wraps the textual identifier of a task.
    pub fn new(value: String) -> (id: Self)
        ensures
            id@ == value@,
    {
        TaskId { value }
    }

    /// Returns the identifier as an owned string.
    pub fn to_string(&self) -> (s: String)
        ensures
            s@ == self@,
    {
        self.value.clone()
    }

    /// Borrows the identifier text.
    pub fn as_str(&self) -> (s: &str)
        ensures
            s@ == self@,
    {
        self.value.as_str()
    }
}

impl ProjectId {
    /// Wraps the textual identifier of a project.
    pub fn new(value: String) -> (id: Self)
        ensures
            id@ == value@,
    {
        ProjectId { value }
    }

    /// Returns the identifier as an owned string.
    pub fn to_string(&self) -> (s: String)
        ensures
            s@ == self@,
    {
        self.value.clone()
    }
}

} // verus!
