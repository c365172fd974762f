use chrono::{DateTime, Utc};
use vstd::prelude::*;

verus! {

/// A point in time, as seconds and nanoseconds since the Unix epoch (UTC).
#[derive(Debug, Clone, Copy, PartialEq, Eq, Structural)]
pub struct Timestamp {
    pub secs: i64,
    pub nanos: u32,
}

/// The text that chrono writes for the instant `secs` seconds and `nanos`
/// nanoseconds after the Unix epoch, in UTC, with the pattern `%Y-%m-%d %H:%M`;
/// `None` where chrono has no date for that instant.
pub uninterp spec fn created_text(secs: i64, nanos: u32) -> Option<Seq<char>>;

/// Calls `chrono::DateTime::<Utc>::from_timestamp` and, when it gives a date,
/// formats it with `DateTime::format("%Y-%m-%d %H:%M")`.
///
/// The contract only names the result: it is `created_text` of the two
/// arguments. The format uses numeric fields in UTC, so the text depends on the
/// arguments alone. `from_timestamp` returns `None` for seconds out of chrono's
/// range or an invalid nanosecond part, and neither call panics.
#[verifier::external_body]
fn format_timestamp(secs: i64, nanos: u32) -> (s: Option<String>)
    ensures
        match s {
            Some(text) => created_text(secs, nanos) == Some(text@),
            None => created_text(secs, nanos) is None,
        },
{
    match DateTime::<Utc>::from_timestamp(secs, nanos) {
        Some(dt) => Some(dt.format("%Y-%m-%d %H:%M").to_string()),
        None => None,
    }
}

/// How urgent a todo is.
#[derive(Debug, Clone, Copy, PartialEq, Eq, Structural)]
pub enum Priority {
    Low,
    Medium,
    High,
}

/// The colour in which a priority is shown.
#[derive(Debug, Clone, Copy, PartialEq, Eq, Structural)]
pub enum Color {
    Green,
    Yellow,
    Red,
}

/// The name of a priority, as shown to the user.
pub open spec fn priority_name(p: Priority) -> Seq<char> {
    match p {
        Priority::Low => "Low"@,
        Priority::Medium => "Medium"@,
        Priority::High => "High"@,
    }
}

impl Priority {
    pub fn as_str(&self) -> (s: &'static str)
        ensures
            s@ == priority_name(*self),
    {
        match self {
            Priority::Low => "Low",
            Priority::Medium => "Medium",
            Priority::High => "High",
        }
    }

    pub fn color(&self) -> (c: Color)
        ensures
            c == match *self {
                Priority::Low => Color::Green,
                Priority::Medium => Color::Yellow,
                Priority::High => Color::Red,
            },
    {
        match self {
            Priority::Low => Color::Green,
            Priority::Medium => Color::Yellow,
            Priority::High => Color::Red,
        }
    }

    /// The marker drawn before a todo of this priority in the list.
    pub fn icon(&self) -> (s: &'static str)
        ensures
            s@ == match *self {
                Priority::High => "⬤"@,
                Priority::Medium => "◉"@,
                Priority::Low => "○"@,
            },
    {
        match self {
            Priority::High => "⬤",
            Priority::Medium => "◉",
            Priority::Low => "○",
        }
    }
}

/// One entry of the todo list.
#[derive(Debug, Clone)]
pub struct TodoItem {
    pub id: usize,
    pub title: String,
    pub description: String,
    pub completed: bool,
    pub created_at: Timestamp,
    pub priority: Priority,
}

impl TodoItem {
    /// The same todo with its completion flag flipped.
    pub open spec fn toggled(self) -> TodoItem {
        TodoItem { completed: !self.completed, ..self }
    }

    /// A new, not yet completed todo, created at `created_at`.
    pub fn new(
        id: usize,
        title: String,
        description: String,
        priority: Priority,
        created_at: Timestamp,
    ) -> (t: Self)
        ensures
            t.id == id,
            t.title == title,
            t.description == description,
            !t.completed,
            t.priority == priority,
            t.created_at == created_at,
    {
        Self { id, title, description, completed: false, created_at, priority }
    }

    /// When the todo was created, as shown in the details view
    /// (`%Y-%m-%d %H:%M`, UTC); `None` for an instant chrono cannot represent.
    pub fn created_display(&self) -> (s: Option<String>)
        ensures
            match s {
                Some(text) => created_text(self.created_at.secs, self.created_at.nanos) == Some(
                    text@,
                ),
                None => created_text(self.created_at.secs, self.created_at.nanos) is None,
            },
    {
        format_timestamp(self.created_at.secs, self.created_at.nanos)
    }

    pub fn toggle(&mut self)
        ensures
            *final(self) == old(self).toggled(),
    {
        self.completed = !self.completed;
    }

    /// The mark shown before the todo in the list: a tick once it is done.
    pub fn status_mark(&self) -> (s: &'static str)
        ensures
            s@ == (if self.completed { "✓"@ } else { "·"@ }),
    {
        if self.completed {
            "✓"
        } else {
            "·"
        }
    }

    /// The status shown in the details view.
    pub fn status_label(&self) -> (s: &'static str)
        ensures
            s@ == (if self.completed { "Completed"@ } else { "Active"@ }),
    {
        if self.completed {
            "Completed"
        } else {
            "Active"
        }
    }

    /// The description shown in the details view, with a placeholder for an empty one.
    pub fn description_text(&self) -> (s: &str)
        ensures
            s@ == (if self.description@.len() == 0 { "No description"@ } else { self.description@ }),
    {
        if self.description.as_str().is_empty() {
            "No description"
        } else {
            self.description.as_str()
        }
    }
}

/// Flipping a todo's completion twice gives back the todo it started as.
pub proof fn lemma_toggle_involutive(t: TodoItem)
    ensures
        t.toggled().toggled() == t,
{
}

} // verus!
