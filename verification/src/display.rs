//! The texts that the screen shows: labels, list lines and editor panes.

use vstd::prelude::*;
use vstd::string::StringExecFns;
use crate::app::{App, AppMode, AppSection, AppView};
use crate::date::Date;
use crate::note::{Note, NoteView};
use crate::text::texts;
use crate::todo::{Severity, Todo, TodoView};

verus! {

/// What fills the main part of the screen.
#[derive(Clone, Copy, Debug, PartialEq, Eq, Structural)]
pub enum Screen {
    MainMenu,
    Help,
    Notes,
    Todos,
    Blank,
}

/// How a todo stands out in its list.
#[derive(Clone, Copy, Debug, PartialEq, Eq, Structural)]
pub enum Highlight {
    /// Completed.
    Done,
    /// Open and past its due date.
    Overdue,
    /// Open and not overdue.
    Plain,
}

/// The text below which the status bar falls back when there is no status.
pub open spec fn default_status() -> Seq<char> {
    "Terminal Notes - Press : for commands, Ctrl+Q to quit"@
}

/// The name of a mode in the status bar.
pub open spec fn mode_name(mode: AppMode) -> Seq<char> {
    match mode {
        AppMode::Normal => "NORMAL"@,
        AppMode::Editing => "EDITING"@,
        AppMode::Command => "COMMAND"@,
        AppMode::MainMenu => "MENU"@,
        AppMode::Help => "HELP"@,
        AppMode::Renaming => "RENAME"@,
    }
}

/// The name of an item of the main menu.
pub open spec fn menu_item_name(item: usize) -> Seq<char> {
    if item == 0 {
        "Notes"@
    } else if item == 1 {
        "Todos"@
    } else {
        "Help"@
    }
}

/// The tags, separated by a comma and a space.
pub open spec fn tag_line(tags: Seq<Seq<char>>) -> Seq<char>
    decreases tags.len(),
{
    if tags.len() == 0 {
        Seq::empty()
    } else if tags.len() == 1 {
        tags[0]
    } else {
        tag_line(tags.drop_last()) + ", "@ + tags.last()
    }
}

/// The tags as an editor pane shows them: separated by a comma and a space,
/// or `None` where there are none.
pub open spec fn tags_or_none(tags: Seq<Seq<char>>) -> Seq<char> {
    if tags.len() == 0 {
        "None"@
    } else {
        tag_line(tags)
    }
}

/// The line of a note in the list: its title, then its tags in brackets if
/// it has any.
pub open spec fn note_line(note: NoteView) -> Seq<char> {
    if note.tags.len() == 0 {
        note.title
    } else {
        note.title + " ["@ + tag_line(note.tags) + "]"@
    }
}

/// What the editor pane shows of a note.
pub open spec fn note_pane(note: NoteView) -> Seq<char> {
    "Title: "@ + note.title + "\nCreated: "@ + note.created_at + "\nTags: "@ + tags_or_none(
        note.tags,
    ) + "\n\n"@ + note.content
}

/// The box in front of a todo in the list.
pub open spec fn check_mark(completed: bool) -> Seq<char> {
    if completed {
        "[\u{2713}]"@
    } else {
        "[ ]"@
    }
}

/// The marks that show how much a todo matters.
pub open spec fn severity_marks(severity: Severity) -> Seq<char> {
    match severity {
        Severity::Critical => "!!!"@,
        Severity::High => "!!"@,
        Severity::Medium => "!"@,
        _ => ""@,
    }
}

/// The line of a todo in the list: its box, its marks and its title.
pub open spec fn todo_line(todo: TodoView) -> Seq<char> {
    check_mark(todo.completed) + " "@ + severity_marks(todo.severity) + " "@ + todo.title
}

/// How a todo stands out, given whether it is overdue.
pub open spec fn highlight_of(completed: bool, overdue: bool) -> Highlight {
    if completed {
        Highlight::Done
    } else if overdue {
        Highlight::Overdue
    } else {
        Highlight::Plain
    }
}

/// The state of a todo in words, given whether it is overdue.
pub open spec fn state_name(completed: bool, overdue: bool) -> Seq<char> {
    if completed {
        "Completed"@
    } else if overdue {
        "OVERDUE"@
    } else {
        "Pending"@
    }
}

/// The due date as an editor pane shows it.
pub open spec fn due_or_unset(due_date: Option<Seq<char>>) -> Seq<char> {
    match due_date {
        Some(date) => date,
        None => "Not set"@,
    }
}

/// What the editor pane shows of a todo, given whether it is overdue.
pub open spec fn todo_pane(todo: TodoView, overdue: bool) -> Seq<char> {
    "Title: "@ + todo.title + "\nCreated: "@ + todo.created_at + "\nStatus: "@ + state_name(
        todo.completed,
        overdue,
    ) + "\nDue: "@ + due_or_unset(todo.due_date) + "\nSeverity: "@ + todo.severity.name()
        + "\nTags: "@ + tags_or_none(todo.tags) + "\n\n"@ + todo.content
}

impl AppView {
    /// What fills the main part of the screen: the menu or the help in
    /// their modes, else the section shown.
    pub open spec fn screen(self) -> Screen {
        match self.mode {
            AppMode::MainMenu => Screen::MainMenu,
            AppMode::Help => Screen::Help,
            _ => match self.section {
                AppSection::Notes => Screen::Notes,
                AppSection::Todos => Screen::Todos,
                AppSection::Help => Screen::Blank,
            },
        }
    }

    /// The text of the status bar.
    pub open spec fn status_text(self) -> Seq<char> {
        match self.status_message {
            Some(text) => text,
            None => default_status(),
        }
    }

    /// The line at the bottom of the screen: a colon and the buffer while a
    /// command is typed or an entry renamed, nothing otherwise.
    pub open spec fn command_line(self) -> Option<Seq<char>> {
        if self.mode == AppMode::Command || self.mode == AppMode::Renaming {
            Some(":"@ + self.command_buffer)
        } else {
            None
        }
    }

    /// The note in the editor pane.
    pub open spec fn open_note(self) -> Option<NoteView> {
        match self.current_note {
            Some(i) if i < self.notes.len() => Some(self.notes[i as int]),
            _ => None,
        }
    }

    /// The todo in the editor pane.
    pub open spec fn open_todo(self) -> Option<TodoView> {
        match self.current_todo {
            Some(i) if i < self.todos.len() => Some(self.todos[i as int]),
            _ => None,
        }
    }
}

/// The name of a mode in the status bar.
pub fn mode_label(mode: AppMode) -> (r: &'static str)
    ensures
        r@ == mode_name(mode),
{
    match mode {
        AppMode::Normal => "NORMAL",
        AppMode::Editing => "EDITING",
        AppMode::Command => "COMMAND",
        AppMode::MainMenu => "MENU",
        AppMode::Help => "HELP",
        AppMode::Renaming => "RENAME",
    }
}

/// The name of an item of the main menu: the notes come first, the todos
/// second, the help last.
pub fn menu_label(item: usize) -> (r: &'static str)
    ensures
        r@ == menu_item_name(item),
{
    if item == 0 {
        "Notes"
    } else if item == 1 {
        "Todos"
    } else {
        "Help"
    }
}

/// The tags, separated by a comma and a space.
pub fn join_tags(tags: &Vec<String>) -> (r: String)
    ensures
        r@ == tag_line(texts(tags@)),
{
    let mut out = String::new();
    let mut i: usize = 0;
    assert(texts(tags@).take(0) =~= Seq::<Seq<char>>::empty());
    while i < tags.len()
        invariant
            i <= tags.len(),
            out@ == tag_line(texts(tags@).take(i as int)),
        decreases tags.len() - i,
    {
        proof {
            let all = texts(tags@);
            assert(all.take(i + 1).drop_last() =~= all.take(i as int));
            assert(all.take(i + 1).last() == tags@[i as int]@);
            if i == 0 {
                assert(all.take(1)[0] == tags@[0]@);
            }
        }
        if i > 0 {
            out.append(", ");
        }
        out.append(tags[i].as_str());
        i += 1;
        assert(out@ =~= tag_line(texts(tags@).take(i as int)));
    }
    assert(texts(tags@).take(i as int) =~= texts(tags@));
    out
}

/// The tags as an editor pane shows them.
fn tags_text(tags: &Vec<String>) -> (r: String)
    ensures
        r@ == tags_or_none(texts(tags@)),
{
    if tags.len() == 0 {
        String::from_str("None")
    } else {
        join_tags(tags)
    }
}

/// The line of a note in the list: its title, then its tags in brackets if
/// it has any.
pub fn note_list_label(note: &Note) -> (r: String)
    ensures
        r@ == note_line(note@),
{
    let mut out = note.title.clone();
    if note.tags.len() > 0 {
        out.append(" [");
        out.append(join_tags(&note.tags).as_str());
        out.append("]");
        assert(out@ =~= note_line(note@));
    }
    out
}

/// What the editor pane shows of a note: title, creation time and tags,
/// then the content.
pub fn note_editor_text(note: &Note) -> (r: String)
    ensures
        r@ == note_pane(note@),
{
    let mut out = String::from_str("Title: ");
    out.append(note.title.as_str());
    out.append("\nCreated: ");
    out.append(note.created_at.as_str());
    out.append("\nTags: ");
    out.append(tags_text(&note.tags).as_str());
    out.append("\n\n");
    out.append(note.content.as_str());
    assert(out@ =~= note_pane(note@));
    out
}

/// The marks that show how much a todo matters: three for critical, two
/// for high, one for medium, none below.
pub fn severity_marker(severity: Severity) -> (r: &'static str)
    ensures
        r@ == severity_marks(severity),
{
    match severity {
        Severity::Critical => "!!!",
        Severity::High => "!!",
        Severity::Medium => "!",
        _ => "",
    }
}

/// The line of a todo in the list: its box, its marks and its title.
pub fn todo_list_label(todo: &Todo) -> (r: String)
    ensures
        r@ == todo_line(todo@),
{
    let mut out = String::from_str(if todo.completed { "[\u{2713}]" } else { "[ ]" });
    out.append(" ");
    out.append(severity_marker(todo.severity));
    out.append(" ");
    out.append(todo.title.as_str());
    assert(out@ =~= todo_line(todo@));
    out
}

/// How a todo stands out, given whether it is overdue.
pub fn highlight(completed: bool, overdue: bool) -> (r: Highlight)
    ensures
        r == highlight_of(completed, overdue),
{
    if completed {
        Highlight::Done
    } else if overdue {
        Highlight::Overdue
    } else {
        Highlight::Plain
    }
}

/// How a todo stands out in its list on the day `today`.
pub fn todo_highlight_on(todo: &Todo, today: Date) -> (r: Highlight)
    ensures
        r == highlight_of(todo.completed, todo@.overdue_on(today)),
{
    highlight(todo.completed, todo.is_overdue_on(today))
}

/// How a todo stands out in its list today. A completed todo is done; one
/// without a due date that parses is never overdue.
pub fn todo_highlight(todo: &Todo) -> (r: Highlight)
    ensures
        exists|overdue: bool| r == highlight_of(todo.completed, overdue),
        todo.completed ==> r == Highlight::Done,
        !todo.completed && todo@.due() is None ==> r == Highlight::Plain,
{
    let overdue = todo.is_overdue();
    let r = highlight(todo.completed, overdue);
    assert(r == highlight_of(todo.completed, overdue));
    r
}

/// What the editor pane shows of a todo, given whether it is overdue:
/// title, creation time, state, due date, severity and tags, then the
/// content.
pub fn todo_editor_text_given(todo: &Todo, overdue: bool) -> (r: String)
    ensures
        r@ == todo_pane(todo@, overdue),
{
    let mut out = String::from_str("Title: ");
    out.append(todo.title.as_str());
    out.append("\nCreated: ");
    out.append(todo.created_at.as_str());
    out.append("\nStatus: ");
    out.append(
        if todo.completed {
            "Completed"
        } else if overdue {
            "OVERDUE"
        } else {
            "Pending"
        },
    );
    out.append("\nDue: ");
    match &todo.due_date {
        Some(date) => out.append(date.as_str()),
        None => out.append("Not set"),
    }
    out.append("\nSeverity: ");
    out.append(todo.severity.to_string().as_str());
    out.append("\nTags: ");
    out.append(tags_text(&todo.tags).as_str());
    out.append("\n\n");
    out.append(todo.content.as_str());
    assert(out@ =~= todo_pane(todo@, overdue));
    out
}

/// What the editor pane shows of a todo on the day `today`.
pub fn todo_editor_text_on(todo: &Todo, today: Date) -> (r: String)
    ensures
        r@ == todo_pane(todo@, todo@.overdue_on(today)),
{
    todo_editor_text_given(todo, todo.is_overdue_on(today))
}

/// What the editor pane shows of a todo today.
pub fn todo_editor_text(todo: &Todo) -> (r: String)
    ensures
        exists|overdue: bool| r@ == todo_pane(todo@, overdue),
{
    let overdue = todo.is_overdue();
    let r = todo_editor_text_given(todo, overdue);
    assert(r@ == todo_pane(todo@, overdue));
    r
}

impl App {
    /// What fills the main part of the screen.
    pub fn screen(&self) -> (r: Screen)
        ensures
            r == self@.screen(),
    {
        match self.mode {
            AppMode::MainMenu => Screen::MainMenu,
            AppMode::Help => Screen::Help,
            _ => match self.section {
                AppSection::Notes => Screen::Notes,
                AppSection::Todos => Screen::Todos,
                AppSection::Help => Screen::Blank,
            },
        }
    }

    /// The text of the status bar: the status, or a hint where there is
    /// none.
    pub fn status_text(&self) -> (r: String)
        ensures
            r@ == self@.status_text(),
    {
        match &self.status_message {
            Some(text) => text.clone(),
            None => String::from_str("Terminal Notes - Press : for commands, Ctrl+Q to quit"),
        }
    }

    /// The line at the bottom of the screen: a colon and the buffer while a
    /// command is typed or an entry renamed, nothing otherwise.
    pub fn command_line(&self) -> (r: Option<String>)
        ensures
            crate::app::text_view(r) == self@.command_line(),
    {
        if self.mode == AppMode::Command || self.mode == AppMode::Renaming {
            Some(crate::text::joined(":", self.command_buffer.as_str()))
        } else {
            None
        }
    }

    /// The note in the editor pane, if one is open.
    pub fn open_note(&self) -> (r: Option<&Note>)
        ensures
            match self@.open_note() {
                Some(view) => r matches Some(note) && note@ == view,
                None => r is None,
            },
    {
        match self.current_note {
            Some(i) => if i < self.notes.len() {
                Some(&self.notes[i])
            } else {
                None
            },
            None => None,
        }
    }

    /// The todo in the editor pane, if one is open.
    pub fn open_todo(&self) -> (r: Option<&Todo>)
        ensures
            match self@.open_todo() {
                Some(view) => r matches Some(todo) && todo@ == view,
                None => r is None,
            },
    {
        match self.current_todo {
            Some(i) => if i < self.todos.len() {
                Some(&self.todos[i])
            } else {
                None
            },
            None => None,
        }
    }
}

} // verus!
