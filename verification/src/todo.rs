//! Todos: notes that can be completed, with a due date and a severity.

use vstd::prelude::*;
use vstd::string::StringExecFns;
use crate::date::{parse_date, parsed_date, today, Date};
use crate::error::{ErrorKind, NotesError};
use crate::tags::{add_tag, remove_tag, with_tag, without_tag};
use crate::text::texts;

verus! {

/// How much a todo matters.
#[derive(Clone, Copy, Debug, PartialEq, Eq, Structural)]
pub enum Severity {
    Critical,
    High,
    Medium,
    Low,
    Info,
}

impl Severity {
    /// The name of the severity.
    pub open spec fn name(self) -> Seq<char> {
        match self {
            Severity::Critical => "Critical"@,
            Severity::High => "High"@,
            Severity::Medium => "Medium"@,
            Severity::Low => "Low"@,
            Severity::Info => "Info"@,
        }
    }

    /// The name of the severity, as it is displayed.
    pub fn to_string(&self) -> (r: String)
        ensures
            r@ == self.name(),
    {
        match self {
            Severity::Critical => String::from_str("Critical"),
            Severity::High => String::from_str("High"),
            Severity::Medium => String::from_str("Medium"),
            Severity::Low => String::from_str("Low"),
            Severity::Info => String::from_str("Info"),
        }
    }
}

/// A task.
#[derive(Debug, PartialEq, Eq)]
pub struct Todo {
    pub title: String,
    pub content: String,
    pub created_at: String,
    pub completed: bool,
    pub tags: Vec<String>,
    pub due_date: Option<String>,
    pub severity: Severity,
}

/// What a todo holds.
#[verifier::ext_equal]
pub struct TodoView {
    pub title: Seq<char>,
    pub content: Seq<char>,
    pub created_at: Seq<char>,
    pub completed: bool,
    pub tags: Seq<Seq<char>>,
    pub due_date: Option<Seq<char>>,
    pub severity: Severity,
}

impl View for Todo {
    type V = TodoView;

    open spec fn view(&self) -> TodoView {
        TodoView {
            title: self.title@,
            content: self.content@,
            created_at: self.created_at@,
            completed: self.completed,
            tags: texts(self.tags@),
            due_date: match self.due_date {
                Some(d) => Some(d@),
                None => None,
            },
            severity: self.severity,
        }
    }
}

impl Clone for Todo {
    fn clone(&self) -> (r: Self)
        ensures
            r@ == self@,
    {
        let due_date = match &self.due_date {
            Some(d) => Some(d.clone()),
            None => None,
        };
        let r = Todo {
            title: self.title.clone(),
            content: self.content.clone(),
            created_at: self.created_at.clone(),
            completed: self.completed,
            tags: self.tags.clone(),
            due_date,
            severity: self.severity,
        };
        assert(r.tags@ =~= self.tags@);
        r
    }
}

/// The date that a parse yields, if any.
pub open spec fn date_of(parsed: Option<(int, int, int)>) -> Option<Date> {
    match parsed {
        Some((y, m, d)) => Some(Date { year: y as i32, month: m as u32, day: d as u32 }),
        None => None,
    }
}

impl TodoView {
    /// A todo as it is when created: open, of medium severity, without
    /// content, tags or due date.
    pub open spec fn fresh(title: Seq<char>, created_at: Seq<char>) -> TodoView {
        TodoView {
            title,
            content: Seq::empty(),
            created_at,
            completed: false,
            tags: Seq::empty(),
            due_date: None,
            severity: Severity::Medium,
        }
    }

    /// Whether the todo is overdue, given what its due date parses to: it
    /// is not completed and that date lies strictly before `today`.
    pub open spec fn overdue_given(self, due: Option<Date>, today: Date) -> bool {
        due matches Some(d) && d.is_before(today) && !self.completed
    }

    /// The date that the due date stands for, if there is one and it parses.
    pub open spec fn due(self) -> Option<Date> {
        match self.due_date {
            Some(text) => date_of(parsed_date(text)),
            None => None,
        }
    }

    /// Whether the todo is overdue on the day `today`.
    pub open spec fn overdue_on(self, today: Date) -> bool {
        self.overdue_given(self.due(), today)
    }
}

/// The views of a sequence of todos, in order.
pub open spec fn todo_views(todos: Seq<Todo>) -> Seq<TodoView> {
    todos.map_values(|t: Todo| t@)
}

impl Todo {
    /// An open todo of medium severity without content, tags or due date.
    pub fn new(title: String, created_at: String) -> (todo: Todo)
        ensures
            todo@ == TodoView::fresh(title@, created_at@),
    {
        let todo = Todo {
            title,
            content: String::new(),
            created_at,
            completed: false,
            tags: Vec::new(),
            due_date: None,
            severity: Severity::Medium,
        };
        assert(todo@.tags =~= Seq::<Seq<char>>::empty());
        todo
    }

    /// Adds `tag` unless the todo has it already.
    pub fn add_tag(&mut self, tag: String)
        ensures
            final(self)@ == (TodoView { tags: with_tag(old(self)@.tags, tag@), ..old(self)@ }),
            old(self)@.tags.no_duplicates() ==> final(self)@.tags.no_duplicates(),
    {
        add_tag(&mut self.tags, tag);
    }

    /// Removes every occurrence of `tag`.
    pub fn remove_tag(&mut self, tag: &str)
        ensures
            final(self)@ == (TodoView { tags: without_tag(old(self)@.tags, tag@), ..old(self)@ }),
            old(self)@.tags.no_duplicates() ==> final(self)@.tags.no_duplicates(),
    {
        remove_tag(&mut self.tags, tag);
    }

    /// Sets the due date to `date_str` where `parsed` says that it stands
    /// for a date, and refuses it otherwise, leaving the todo as it was.
    pub fn set_parsed_due_date(&mut self, date_str: &str, parsed: Option<Date>) -> (r: Result<
        (),
        NotesError,
    >)
        ensures
            parsed is Some ==> r is Ok && final(self)@ == (TodoView {
                due_date: Some(date_str@),
                ..old(self)@
            }),
            parsed is None ==> *final(self) == *old(self) && (r matches Err(e) && e.kind
                == ErrorKind::ParseFailure && e.message@ == "Invalid due date"@),
    {
        match parsed {
            Some(_) => {
                self.due_date = Some(date_str.to_owned());
                Ok(())
            },
            None => Err(NotesError::new(ErrorKind::ParseFailure, "Invalid due date")),
        }
    }

    /// Sets the due date to `date_str` if that is a date written as
    /// `YYYY-MM-DD`, and refuses it otherwise, leaving the todo as it was.
    pub fn set_due_date(&mut self, date_str: &str) -> (r: Result<(), NotesError>)
        ensures
            parsed_date(date_str@) is Some ==> r is Ok && final(self)@ == (TodoView {
                due_date: Some(date_str@),
                ..old(self)@
            }),
            parsed_date(date_str@) is None ==> *final(self) == *old(self) && (r matches Err(e)
                && e.kind == ErrorKind::ParseFailure && e.message@ == "Invalid due date"@),
    {
        let parsed = match parse_date(date_str) {
            Ok(date) => Some(date),
            Err(_) => None,
        };
        self.set_parsed_due_date(date_str, parsed)
    }

    /// Sets the severity.
    pub fn set_severity(&mut self, severity: Severity)
        ensures
            final(self)@ == (TodoView { severity, ..old(self)@ }),
    {
        self.severity = severity;
    }

    /// Whether a todo is overdue, given whether it is completed and what
    /// its due date parses to.
    pub fn overdue_given(completed: bool, due: Option<Date>, today: Date) -> (r: bool)
        ensures
            r == (due matches Some(d) && d.is_before(today) && !completed),
    {
        match due {
            Some(d) => d.before(&today) && !completed,
            None => false,
        }
    }

    /// Whether the todo is overdue on the day `today`: it has a due date
    /// that parses and lies strictly before `today`, and it is not
    /// completed.
    pub fn is_overdue_on(&self, today: Date) -> (r: bool)
        ensures
            r == self@.overdue_on(today),
    {
        match &self.due_date {
            Some(text) => {
                let due = match parse_date(text.as_str()) {
                    Ok(date) => Some(date),
                    Err(_) => None,
                };
                Todo::overdue_given(self.completed, due, today)
            },
            None => false,
        }
    }

    /// Whether the todo is overdue today. It never is without a due date
    /// that parses, nor when it is completed.
    pub fn is_overdue(&self) -> (r: bool)
        ensures
            r ==> self@.due() is Some && !self.completed,
            exists|day: Date| r == self@.overdue_on(day),
    {
        let day = today();
        let r = self.is_overdue_on(day);
        assert(r == self@.overdue_on(day));
        r
    }
}

} // verus!
