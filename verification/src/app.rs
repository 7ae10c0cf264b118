//! The application state and the operations that the keys stand for.

use vstd::prelude::*;
use vstd::string::StringExecFns;
use crate::date::timestamp;
use crate::error::NotesError;
use crate::file_io::{loaded, AppData, AppDataView, Export, FileIO, Stored, export_of};
use crate::note::{note_views, Note, NoteView};
use crate::text::{decimal, decimal_string, joined};
use crate::todo::{todo_views, Todo, TodoView};

verus! {

/// What the keys currently mean.
#[derive(Clone, Copy, Debug, PartialEq, Eq, Structural)]
pub enum AppMode {
    MainMenu,
    Normal,
    Command,
    Editing,
    Help,
    Renaming,
}

/// The part of the application that is shown and worked on.
#[derive(Clone, Copy, Debug, PartialEq, Eq, Structural)]
pub enum AppSection {
    Notes,
    Todos,
    Help,
}

/// The format of an export that a command asks for.
#[derive(Clone, Copy, Debug, PartialEq, Eq, Structural)]
pub enum ExportFormat {
    Markdown,
    Csv,
}

impl ExportFormat {
    /// The word that names the format.
    pub open spec fn word(self) -> Seq<char> {
        match self {
            ExportFormat::Markdown => "markdown"@,
            ExportFormat::Csv => "csv"@,
        }
    }

    /// The word that names the format, as `export_data` and
    /// `export_data_with_status` take it.
    pub fn token(&self) -> (r: &'static str)
        ensures
            r@ == self.word(),
    {
        match self {
            ExportFormat::Markdown => "markdown",
            ExportFormat::Csv => "csv",
        }
    }
}

/// What the host has to do after an operation.
#[derive(Clone, Copy, Debug, PartialEq, Eq, Structural)]
pub enum Action {
    /// Nothing: go on reading keys.
    Nothing,
    /// Persist the document, then report with `save_data_with_status`.
    Save,
    /// Take a backup, then report with `backup_data_with_status`.
    Backup,
    /// Export the document, then report with `export_data_with_status`.
    Export(ExportFormat),
    /// End the program; nothing is unsaved.
    Quit,
    /// End the program at once, saved or not.
    ForceQuit,
}

/// The whole state of the application.
#[derive(Debug)]
pub struct App {
    pub section: AppSection,
    pub notes: Vec<Note>,
    pub todos: Vec<Todo>,
    pub selected_note: Option<usize>,
    pub selected_todo: Option<usize>,
    pub current_note: Option<usize>,
    pub current_todo: Option<usize>,
    pub selected_menu_item: usize,
    pub mode: AppMode,
    pub command_buffer: String,
    pub status_message: Option<String>,
    pub file_io: FileIO,
    pub unsaved_changes: bool,
}

/// What the state holds.
#[verifier::ext_equal]
pub struct AppView {
    pub section: AppSection,
    pub notes: Seq<NoteView>,
    pub todos: Seq<TodoView>,
    pub selected_note: Option<usize>,
    pub selected_todo: Option<usize>,
    pub current_note: Option<usize>,
    pub current_todo: Option<usize>,
    pub selected_menu_item: usize,
    pub mode: AppMode,
    pub command_buffer: Seq<char>,
    pub status_message: Option<Seq<char>>,
    pub unsaved_changes: bool,
}

/// The view of a text that may be missing.
pub open spec fn text_view(text: Option<String>) -> Option<Seq<char>> {
    match text {
        Some(t) => Some(t@),
        None => None,
    }
}

impl View for App {
    type V = AppView;

    open spec fn view(&self) -> AppView {
        AppView {
            section: self.section,
            notes: note_views(self.notes@),
            todos: todo_views(self.todos@),
            selected_note: self.selected_note,
            selected_todo: self.selected_todo,
            current_note: self.current_note,
            current_todo: self.current_todo,
            selected_menu_item: self.selected_menu_item,
            mode: self.mode,
            command_buffer: self.command_buffer@,
            status_message: text_view(self.status_message),
            unsaved_changes: self.unsaved_changes,
        }
    }
}

/// A cursor over `len` entries is in order: on one of them, or nowhere if
/// there are none.
pub open spec fn cursor_ok(cursor: Option<usize>, len: nat) -> bool {
    match cursor {
        Some(i) => i < len,
        None => len == 0,
    }
}

/// A mark of the entry that is open for editing is in order: on one of the
/// `len` entries, or nowhere.
pub open spec fn open_ok(open: Option<usize>, len: nat) -> bool {
    open matches Some(i) ==> i < len
}

/// Where a cursor starts: on the first of `len` entries.
pub open spec fn first_of(len: nat) -> Option<usize> {
    if len == 0 {
        None
    } else {
        Some(0)
    }
}

/// Where a cursor over `len` entries stands after a step down: on the next
/// entry, on the first one after the last, nowhere if there are none.
pub open spec fn cursor_after(cursor: Option<usize>, len: nat) -> Option<usize> {
    if len == 0 {
        None
    } else {
        match cursor {
            Some(i) => if i + 1 >= len {
                Some(0)
            } else {
                Some((i + 1) as usize)
            },
            None => Some(0),
        }
    }
}

/// Where a cursor over `len` entries stands after a step up: on the entry
/// before, on the last one before the first, nowhere if there are none.
pub open spec fn cursor_before(cursor: Option<usize>, len: nat) -> Option<usize> {
    if len == 0 {
        None
    } else {
        match cursor {
            Some(i) => if i == 0 {
                Some((len - 1) as usize)
            } else {
                Some((i - 1) as usize)
            },
            None => Some((len - 1) as usize),
        }
    }
}

/// An index brought back among `len` entries: unchanged where it is one of
/// them, the last one where it lies beyond, nowhere if there are none.
pub open spec fn clamped(index: Option<usize>, len: nat) -> Option<usize> {
    match index {
        Some(i) => if len == 0 {
            None
        } else if i >= len {
            Some((len - 1) as usize)
        } else {
            Some(i)
        },
        None => None,
    }
}

/// The title that a new entry gets where there are `len` already: `kind`,
/// a space and the number `len + 1`.
pub open spec fn numbered(kind: Seq<char>, len: nat) -> Seq<char> {
    kind + " "@ + decimal(len + 1)
}

impl AppView {
    /// The cursors and marks are in order.
    pub open spec fn wf(self) -> bool {
        &&& cursor_ok(self.selected_note, self.notes.len())
        &&& cursor_ok(self.selected_todo, self.todos.len())
        &&& open_ok(self.current_note, self.notes.len())
        &&& open_ok(self.current_todo, self.todos.len())
        &&& self.selected_menu_item < 3
    }

    /// The state in which the application starts on a document.
    pub open spec fn start(data: AppDataView) -> AppView {
        AppView {
            section: AppSection::Notes,
            notes: data.notes,
            todos: data.todos,
            selected_note: first_of(data.notes.len()),
            selected_todo: first_of(data.todos.len()),
            current_note: None,
            current_todo: None,
            selected_menu_item: 0,
            mode: AppMode::MainMenu,
            command_buffer: Seq::empty(),
            status_message: None,
            unsaved_changes: false,
        }
    }

    /// The state after the menu cursor has moved down, from the last item
    /// to the first.
    pub open spec fn next_menu_item(self) -> AppView {
        AppView { selected_menu_item: ((self.selected_menu_item + 1) % 3) as usize, ..self }
    }

    /// The state after the menu cursor has moved up, from the first item to
    /// the last.
    pub open spec fn previous_menu_item(self) -> AppView {
        AppView {
            selected_menu_item: if self.selected_menu_item == 0 {
                2
            } else {
                (self.selected_menu_item - 1) as usize
            },
            ..self
        }
    }

    /// The state after the note cursor has moved down.
    pub open spec fn next_note(self) -> AppView {
        AppView { selected_note: cursor_after(self.selected_note, self.notes.len()), ..self }
    }

    /// The state after the note cursor has moved up.
    pub open spec fn previous_note(self) -> AppView {
        AppView { selected_note: cursor_before(self.selected_note, self.notes.len()), ..self }
    }

    /// The state after the todo cursor has moved down.
    pub open spec fn next_todo(self) -> AppView {
        AppView { selected_todo: cursor_after(self.selected_todo, self.todos.len()), ..self }
    }

    /// The state after the todo cursor has moved up.
    pub open spec fn previous_todo(self) -> AppView {
        AppView { selected_todo: cursor_before(self.selected_todo, self.todos.len()), ..self }
    }

    /// The state after the item under the menu cursor was opened: the notes
    /// for the first item, the todos for the second, the help for the
    /// third.
    pub open spec fn select_menu_item(self) -> AppView {
        if self.selected_menu_item == 0 {
            AppView {
                section: AppSection::Notes,
                mode: AppMode::Normal,
                status_message: Some("Notes section"@),
                ..self
            }
        } else if self.selected_menu_item == 1 {
            AppView {
                section: AppSection::Todos,
                mode: AppMode::Normal,
                status_message: Some("Todo section"@),
                ..self
            }
        } else if self.selected_menu_item == 2 {
            AppView {
                section: AppSection::Help,
                mode: AppMode::Help,
                status_message: Some("Help section"@),
                ..self
            }
        } else {
            self
        }
    }

    /// The state after a note was created at the time that `stamp` writes:
    /// the note stands last, under the cursor and open for editing.
    pub open spec fn with_new_note(self, stamp: Seq<char>) -> AppView {
        AppView {
            notes: self.notes.push(NoteView::fresh(numbered("Note"@, self.notes.len()), stamp)),
            selected_note: Some(self.notes.len() as usize),
            current_note: Some(self.notes.len() as usize),
            section: AppSection::Notes,
            mode: AppMode::Editing,
            status_message: Some("New note created"@),
            unsaved_changes: true,
            ..self
        }
    }

    /// The state after a todo was created at the time that `stamp` writes:
    /// the todo stands last, under the cursor and open for editing.
    pub open spec fn with_new_todo(self, stamp: Seq<char>) -> AppView {
        AppView {
            todos: self.todos.push(TodoView::fresh(numbered("Todo"@, self.todos.len()), stamp)),
            selected_todo: Some(self.todos.len() as usize),
            current_todo: Some(self.todos.len() as usize),
            section: AppSection::Todos,
            mode: AppMode::Editing,
            status_message: Some("New todo created"@),
            unsaved_changes: true,
            ..self
        }
    }

    /// The state after the content of the open entry was replaced by what
    /// `edit` makes of it. Without an open entry in the section shown
    /// nothing changes.
    pub open spec fn edit_content(self, edit: spec_fn(Seq<char>) -> Seq<char>) -> AppView {
        match self.section {
            AppSection::Notes => match self.current_note {
                Some(i) if i < self.notes.len() => AppView {
                    notes: self.notes.update(
                        i as int,
                        NoteView { content: edit(self.notes[i as int].content), ..self.notes[i as int] },
                    ),
                    unsaved_changes: true,
                    ..self
                },
                _ => self,
            },
            AppSection::Todos => match self.current_todo {
                Some(i) if i < self.todos.len() => AppView {
                    todos: self.todos.update(
                        i as int,
                        TodoView { content: edit(self.todos[i as int].content), ..self.todos[i as int] },
                    ),
                    unsaved_changes: true,
                    ..self
                },
                _ => self,
            },
            AppSection::Help => self,
        }
    }

    /// The state after `c` was appended to the content of the open entry.
    pub open spec fn insert_char(self, c: char) -> AppView {
        self.edit_content(|content: Seq<char>| content.push(c))
    }

    /// The state after the last character of the content of the open entry
    /// was removed. On empty content this still counts as a change.
    pub open spec fn delete_char(self) -> AppView {
        self.edit_content(
            |content: Seq<char>|
                if content.len() > 0 {
                    content.drop_last()
                } else {
                    content
                },
        )
    }

    /// The state after a line break was appended to the content of the open
    /// entry.
    pub open spec fn insert_new_line(self) -> AppView {
        self.insert_char('\n')
    }

    /// The state after the todo under the cursor was marked as completed if
    /// it was not, and as not completed if it was. Without a todo under
    /// the cursor nothing changes.
    pub open spec fn toggle_todo_completion(self) -> AppView {
        match self.selected_todo {
            Some(i) if i < self.todos.len() => AppView {
                todos: self.todos.update(
                    i as int,
                    TodoView { completed: !self.todos[i as int].completed, ..self.todos[i as int] },
                ),
                unsaved_changes: true,
                status_message: Some(
                    if self.todos[i as int].completed {
                        "Todo marked as incomplete"@
                    } else {
                        "Todo marked as completed"@
                    },
                ),
                ..self
            },
            _ => self,
        }
    }

    /// The state after the note under the cursor was deleted: the cursor
    /// and the mark of the open note stay where they are, or move to the
    /// last note where they would lie beyond it.
    pub open spec fn delete_note(self) -> AppView {
        match self.selected_note {
            Some(i) if i < self.notes.len() => AppView {
                notes: self.notes.remove(i as int),
                unsaved_changes: true,
                selected_note: clamped(self.selected_note, (self.notes.len() - 1) as nat),
                current_note: clamped(self.current_note, (self.notes.len() - 1) as nat),
                status_message: Some("Note deleted"@),
                ..self
            },
            _ => self,
        }
    }

    /// The state after the todo under the cursor was deleted.
    pub open spec fn delete_todo(self) -> AppView {
        match self.selected_todo {
            Some(i) if i < self.todos.len() => AppView {
                todos: self.todos.remove(i as int),
                unsaved_changes: true,
                selected_todo: clamped(self.selected_todo, (self.todos.len() - 1) as nat),
                current_todo: clamped(self.current_todo, (self.todos.len() - 1) as nat),
                status_message: Some("Todo deleted"@),
                ..self
            },
            _ => self,
        }
    }

    /// The state after the entry under the cursor of the section shown was
    /// deleted.
    pub open spec fn delete_current_item(self) -> AppView {
        match self.section {
            AppSection::Notes => self.delete_note(),
            AppSection::Todos => self.delete_todo(),
            AppSection::Help => self,
        }
    }

    /// The title of the entry under the cursor of the section shown.
    pub open spec fn selected_title(self) -> Option<Seq<char>> {
        match self.section {
            AppSection::Notes => match self.selected_note {
                Some(i) if i < self.notes.len() => Some(self.notes[i as int].title),
                _ => None,
            },
            AppSection::Todos => match self.selected_todo {
                Some(i) if i < self.todos.len() => Some(self.todos[i as int].title),
                _ => None,
            },
            AppSection::Help => None,
        }
    }

    /// The state after a rename was started: the title of the entry under
    /// the cursor is in the buffer and the status asks for the new name.
    /// Without such an entry the buffer is empty and nothing else changes.
    pub open spec fn start_rename(self) -> AppView {
        match self.selected_title() {
            Some(title) => AppView {
                command_buffer: title,
                mode: AppMode::Renaming,
                status_message: Some("Enter new name:"@),
                ..self
            },
            None => AppView { command_buffer: Seq::empty(), ..self },
        }
    }

    /// The state after the entry under the cursor of the section shown got
    /// the title `new_name`: the mode is normal, whether or not there was
    /// such an entry.
    pub open spec fn finish_rename(self, new_name: Seq<char>) -> AppView {
        let renamed = match self.section {
            AppSection::Notes => match self.selected_note {
                Some(i) if i < self.notes.len() => AppView {
                    notes: self.notes.update(
                        i as int,
                        NoteView { title: new_name, ..self.notes[i as int] },
                    ),
                    unsaved_changes: true,
                    status_message: Some("Note renamed"@),
                    ..self
                },
                _ => self,
            },
            AppSection::Todos => match self.selected_todo {
                Some(i) if i < self.todos.len() => AppView {
                    todos: self.todos.update(
                        i as int,
                        TodoView { title: new_name, ..self.todos[i as int] },
                    ),
                    unsaved_changes: true,
                    status_message: Some("Todo renamed"@),
                    ..self
                },
                _ => self,
            },
            AppSection::Help => self,
        };
        AppView { mode: AppMode::Normal, ..renamed }
    }

    /// The state after the return to the main menu: the notes are the
    /// section shown and no entry is open.
    pub open spec fn go_to_main_menu(self) -> AppView {
        AppView {
            mode: AppMode::MainMenu,
            section: AppSection::Notes,
            status_message: Some("Main Menu"@),
            current_note: None,
            current_todo: None,
            ..self
        }
    }

    /// The state after the help was asked for.
    pub open spec fn show_help(self) -> AppView {
        AppView { mode: AppMode::Help, status_message: Some("Help"@), ..self }
    }

    /// The state after the host has reported how saving went: `None` for
    /// success, the text of the failure otherwise.
    pub open spec fn save_data_with_status(self, failure: Option<Seq<char>>) -> AppView {
        match failure {
            None => AppView {
                status_message: Some("Data saved successfully"@),
                unsaved_changes: false,
                ..self
            },
            Some(text) => AppView { status_message: Some("Error saving data: "@ + text), ..self },
        }
    }

    /// The state after the host has reported how the backup went: the place
    /// of the backup, or the text of the failure.
    pub open spec fn backup_data_with_status(self, outcome: Result<Seq<char>, Seq<char>>) -> AppView {
        match outcome {
            Ok(place) => AppView { status_message: Some("Backup created at: "@ + place), ..self },
            Err(text) => AppView { status_message: Some("Error creating backup: "@ + text), ..self },
        }
    }

    /// The state after the host has reported how the export in the format
    /// `format` went: the place of the export, or the text of the failure.
    pub open spec fn export_data_with_status(
        self,
        format: Seq<char>,
        outcome: Result<Seq<char>, Seq<char>>,
    ) -> AppView {
        match outcome {
            Ok(place) => AppView { status_message: Some("Exported to: "@ + place), ..self },
            Err(text) => AppView {
                status_message: Some("Error exporting to "@ + format + ": "@ + text),
                ..self
            },
        }
    }

    /// The state after a request to quit: it is refused with a warning while
    /// changes are unsaved.
    pub open spec fn handle_quit(self) -> AppView {
        if self.unsaved_changes {
            AppView {
                status_message: Some("Unsaved changes! Use :save first or :q! to force quit"@),
                ..self
            }
        } else {
            self
        }
    }

    /// What a request to quit asks of the host.
    pub open spec fn quit_action(self) -> Action {
        if self.unsaved_changes {
            Action::Nothing
        } else {
            Action::Quit
        }
    }
}

/// The outcome of a host operation as the state machine sees it.
pub open spec fn outcome_view(outcome: Result<String, NotesError>) -> Result<Seq<char>, Seq<char>> {
    match outcome {
        Ok(place) => Ok(place@),
        Err(e) => Err(e.message@),
    }
}

/// The failure of a host operation as the state machine sees it.
pub open spec fn failure_view(outcome: Result<(), NotesError>) -> Option<Seq<char>> {
    match outcome {
        Ok(_) => None,
        Err(e) => Some(e.message@),
    }
}

/// An index brought back among `len` entries.
fn clamp(index: Option<usize>, len: usize) -> (r: Option<usize>)
    ensures
        r == clamped(index, len as nat),
{
    match index {
        Some(i) => if len == 0 {
            None
        } else if i >= len {
            Some(len - 1)
        } else {
            Some(i)
        },
        None => None,
    }
}

impl App {
    /// The application as it starts, given what was found where the
    /// document is kept: on the main menu, with the cursors on the first
    /// note and the first todo and nothing unsaved. A document that cannot
    /// be read or understood is a failure.
    pub fn new(stored: Stored) -> (r: Result<App, NotesError>)
        ensures
            match loaded(stored) {
                Ok(data) => r matches Ok(app) && app@ == AppView::start(data) && app@.wf(),
                Err(kind) => r matches Err(e) && e.kind == kind,
            },
            stored matches Stored::Unreadable(text) ==> (r matches Err(e) && e.message@ == text@),
            stored matches Stored::Malformed(text) ==> (r matches Err(e) && e.message@ == text@),
    {
        let file_io = FileIO::new();
        match file_io.load_data(stored) {
            Ok((notes, todos)) => {
                let selected_note = if notes.len() == 0 {
                    None
                } else {
                    Some(0)
                };
                let selected_todo = if todos.len() == 0 {
                    None
                } else {
                    Some(0)
                };
                Ok(
                    App {
                        section: AppSection::Notes,
                        notes,
                        todos,
                        selected_note,
                        selected_todo,
                        current_note: None,
                        current_todo: None,
                        selected_menu_item: 0,
                        mode: AppMode::MainMenu,
                        command_buffer: String::new(),
                        status_message: None,
                        file_io,
                        unsaved_changes: false,
                    },
                )
            },
            Err(e) => Err(e),
        }
    }

    /// The periodic tick. It changes nothing.
    pub fn on_tick(&mut self)
        ensures
            *final(self) == *old(self),
    {
    }

    /// Moves the menu cursor down, from the last item to the first.
    pub fn next_menu_item(&mut self)
        ensures
            final(self)@ == old(self)@.next_menu_item(),
            final(self)@.selected_menu_item < 3,
            old(self)@.wf() ==> final(self)@.wf(),
    {
        self.selected_menu_item = (self.selected_menu_item % 3 + 1) % 3;
    }

    /// Moves the menu cursor up, from the first item to the last.
    pub fn previous_menu_item(&mut self)
        ensures
            final(self)@ == old(self)@.previous_menu_item(),
            old(self)@.selected_menu_item < 3 ==> final(self)@.selected_menu_item < 3,
            old(self)@.wf() ==> final(self)@.wf(),
    {
        self.selected_menu_item = if self.selected_menu_item == 0 {
            2
        } else {
            self.selected_menu_item - 1
        };
    }

    /// Moves the note cursor down, from the last note to the first.
    pub fn next_note(&mut self)
        ensures
            final(self)@ == old(self)@.next_note(),
            cursor_ok(final(self)@.selected_note, final(self)@.notes.len()),
            old(self)@.wf() ==> final(self)@.wf(),
    {
        let len = self.notes.len();
        self.selected_note = if len == 0 {
            None
        } else {
            match self.selected_note {
                Some(i) => if i >= len - 1 {
                    Some(0)
                } else {
                    Some(i + 1)
                },
                None => Some(0),
            }
        };
    }

    /// Moves the note cursor up, from the first note to the last.
    pub fn previous_note(&mut self)
        ensures
            final(self)@ == old(self)@.previous_note(),
            old(self)@.wf() ==> final(self)@.wf(),
    {
        let len = self.notes.len();
        self.selected_note = if len == 0 {
            None
        } else {
            match self.selected_note {
                Some(i) => if i == 0 {
                    Some(len - 1)
                } else {
                    Some(i - 1)
                },
                None => Some(len - 1),
            }
        };
    }

    /// Moves the todo cursor down, from the last todo to the first.
    pub fn next_todo(&mut self)
        ensures
            final(self)@ == old(self)@.next_todo(),
            cursor_ok(final(self)@.selected_todo, final(self)@.todos.len()),
            old(self)@.wf() ==> final(self)@.wf(),
    {
        let len = self.todos.len();
        self.selected_todo = if len == 0 {
            None
        } else {
            match self.selected_todo {
                Some(i) => if i >= len - 1 {
                    Some(0)
                } else {
                    Some(i + 1)
                },
                None => Some(0),
            }
        };
    }

    /// Moves the todo cursor up, from the first todo to the last.
    pub fn previous_todo(&mut self)
        ensures
            final(self)@ == old(self)@.previous_todo(),
            old(self)@.wf() ==> final(self)@.wf(),
    {
        let len = self.todos.len();
        self.selected_todo = if len == 0 {
            None
        } else {
            match self.selected_todo {
                Some(i) => if i == 0 {
                    Some(len - 1)
                } else {
                    Some(i - 1)
                },
                None => Some(len - 1),
            }
        };
    }

    /// Opens what the menu cursor is on: the notes, the todos or the help.
    pub fn select_menu_item(&mut self)
        ensures
            final(self)@ == old(self)@.select_menu_item(),
            old(self)@.wf() ==> final(self)@.wf(),
    {
        if self.selected_menu_item == 0 {
            self.section = AppSection::Notes;
            self.mode = AppMode::Normal;
            self.status_message = Some(String::from_str("Notes section"));
        } else if self.selected_menu_item == 1 {
            self.section = AppSection::Todos;
            self.mode = AppMode::Normal;
            self.status_message = Some(String::from_str("Todo section"));
        } else if self.selected_menu_item == 2 {
            self.section = AppSection::Help;
            self.mode = AppMode::Help;
            self.status_message = Some(String::from_str("Help section"));
        }
    }

    /// Appends a note created at the time that `created_at` writes, puts
    /// the cursor on it and opens it for editing.
    pub fn add_note(&mut self, created_at: String)
        ensures
            final(self)@ == old(self)@.with_new_note(created_at@),
            old(self)@.wf() ==> final(self)@.wf(),
    {
        let mut title = String::from_str("Note ");
        title.append(decimal_string(self.notes.len() as u128 + 1).as_str());
        proof {
            reveal_strlit("Note ");
            reveal_strlit("Note");
            reveal_strlit(" ");
            assert(title@ =~= numbered("Note"@, self.notes@.len()));
        }
        let note = Note::new(title, created_at);
        self.notes.push(note);
        self.selected_note = Some(self.notes.len() - 1);
        self.current_note = self.selected_note;
        self.section = AppSection::Notes;
        self.mode = AppMode::Editing;
        self.status_message = Some(String::from_str("New note created"));
        self.unsaved_changes = true;
        assert(note_views(self.notes@) =~= note_views(old(self).notes@).push(note@));
    }

    /// Appends a note created now, puts the cursor on it and opens it for
    /// editing.
    pub fn create_new_note(&mut self)
        ensures
            exists|stamp: Seq<char>| final(self)@ == old(self)@.with_new_note(stamp),
            old(self)@.wf() ==> final(self)@.wf(),
    {
        let now = timestamp();
        self.add_note(now);
        assert(self@ == old(self)@.with_new_note(now@));
    }

    /// Appends a todo created at the time that `created_at` writes, puts
    /// the cursor on it and opens it for editing.
    pub fn add_todo(&mut self, created_at: String)
        ensures
            final(self)@ == old(self)@.with_new_todo(created_at@),
            old(self)@.wf() ==> final(self)@.wf(),
    {
        let mut title = String::from_str("Todo ");
        title.append(decimal_string(self.todos.len() as u128 + 1).as_str());
        proof {
            reveal_strlit("Todo ");
            reveal_strlit("Todo");
            reveal_strlit(" ");
            assert(title@ =~= numbered("Todo"@, self.todos@.len()));
        }
        let todo = Todo::new(title, created_at);
        self.todos.push(todo);
        self.selected_todo = Some(self.todos.len() - 1);
        self.current_todo = self.selected_todo;
        self.section = AppSection::Todos;
        self.mode = AppMode::Editing;
        self.status_message = Some(String::from_str("New todo created"));
        self.unsaved_changes = true;
        assert(todo_views(self.todos@) =~= todo_views(old(self).todos@).push(todo@));
    }

    /// Appends a todo created now, puts the cursor on it and opens it for
    /// editing.
    pub fn create_new_todo(&mut self)
        ensures
            exists|stamp: Seq<char>| final(self)@ == old(self)@.with_new_todo(stamp),
            old(self)@.wf() ==> final(self)@.wf(),
    {
        let now = timestamp();
        self.add_todo(now);
        assert(self@ == old(self)@.with_new_todo(now@));
    }

    /// Appends `c` to the content of the entry that is open in the section
    /// shown. Without such an entry nothing changes.
    pub fn insert_char(&mut self, c: char)
        ensures
            final(self)@ == old(self)@.insert_char(c),
            old(self)@.wf() ==> final(self)@.wf(),
    {
        match self.section {
            AppSection::Notes => {
                if let Some(i) = self.current_note {
                    if i < self.notes.len() {
                        self.notes[i].content.push(c);
                        self.unsaved_changes = true;
                        assert(self@ =~= old(self)@.insert_char(c));
                    }
                }
            },
            AppSection::Todos => {
                if let Some(i) = self.current_todo {
                    if i < self.todos.len() {
                        self.todos[i].content.push(c);
                        self.unsaved_changes = true;
                        assert(self@ =~= old(self)@.insert_char(c));
                    }
                }
            },
            AppSection::Help => {},
        }
    }

    /// Removes the last character of the content of the entry that is open
    /// in the section shown. Without such an entry nothing changes.
    pub fn delete_char(&mut self)
        ensures
            final(self)@ == old(self)@.delete_char(),
            old(self)@.wf() ==> final(self)@.wf(),
    {
        match self.section {
            AppSection::Notes => {
                if let Some(i) = self.current_note {
                    if i < self.notes.len() {
                        let _ = self.notes[i].content.pop();
                        self.unsaved_changes = true;
                        assert(self@ =~= old(self)@.delete_char());
                    }
                }
            },
            AppSection::Todos => {
                if let Some(i) = self.current_todo {
                    if i < self.todos.len() {
                        let _ = self.todos[i].content.pop();
                        self.unsaved_changes = true;
                        assert(self@ =~= old(self)@.delete_char());
                    }
                }
            },
            AppSection::Help => {},
        }
    }

    /// Appends a line break to the content of the entry that is open in the
    /// section shown. Without such an entry nothing changes.
    pub fn insert_new_line(&mut self)
        ensures
            final(self)@ == old(self)@.insert_new_line(),
            old(self)@.wf() ==> final(self)@.wf(),
    {
        self.insert_char('\n');
    }

    /// Marks the todo under the cursor as completed if it is not, and as
    /// not completed if it is. Without a todo under the cursor nothing
    /// changes.
    pub fn toggle_todo_completion(&mut self)
        ensures
            final(self)@ == old(self)@.toggle_todo_completion(),
            old(self)@.wf() ==> final(self)@.wf(),
    {
        if let Some(i) = self.selected_todo {
            if i < self.todos.len() {
                let completed = !self.todos[i].completed;
                self.todos[i].completed = completed;
                self.unsaved_changes = true;
                self.status_message = Some(
                    if completed {
                        String::from_str("Todo marked as completed")
                    } else {
                        String::from_str("Todo marked as incomplete")
                    },
                );
                assert(self@ =~= old(self)@.toggle_todo_completion());
            }
        }
    }

    /// The document to persist: a copy of all notes and all todos.
    pub fn save_data(&self) -> (data: AppData)
        ensures
            data@ == (AppDataView { notes: self@.notes, todos: self@.todos }),
    {
        self.file_io.save_data(self.notes.as_slice(), self.todos.as_slice())
    }

    /// The name of a backup of the document taken now, or a failure where
    /// there is no document to back up.
    pub fn backup_data(&self, document_exists: bool) -> (r: Result<String, NotesError>)
        ensures
            document_exists ==> (r matches Ok(name) && exists|stamp: Seq<char>|
                name@ == crate::file_io::backup_name(stamp)),
            !document_exists ==> (r matches Err(e) && e.kind == crate::error::ErrorKind::NotFound
                && e.message@ == "No data to backup"@),
    {
        self.file_io.backup_data(document_exists)
    }

    /// What an export of the document in the format `format` has to put at
    /// its place, or a failure where the format is not supported.
    pub fn export_data(&self, format: &str) -> (r: Result<Export, NotesError>)
        ensures
            match export_of(format@, self@.notes, self@.todos) {
                Ok(None) => r matches Ok(Export::CopyDocument),
                Ok(Some(bytes)) => r matches Ok(Export::Write(b)) && b@ == bytes,
                Err(kind) => r matches Err(e) && e.kind == kind && e.message@
                    == "Unsupported format"@,
            },
    {
        self.file_io.export_data(format, self.notes.as_slice(), self.todos.as_slice())
    }

    /// Deletes the entry under the cursor of the section shown.
    pub fn delete_current_item(&mut self)
        ensures
            final(self)@ == old(self)@.delete_current_item(),
            old(self)@.wf() ==> final(self)@.wf(),
    {
        match self.section {
            AppSection::Notes => self.delete_note(),
            AppSection::Todos => self.delete_todo(),
            AppSection::Help => {},
        }
    }

    /// Deletes the note under the cursor. The cursor then stands on the
    /// note that followed, or on the last one, or nowhere if none is left.
    pub fn delete_note(&mut self)
        ensures
            final(self)@ == old(self)@.delete_note(),
            old(self)@.wf() ==> final(self)@.wf(),
    {
        if let Some(idx) = self.selected_note {
            if idx < self.notes.len() {
                let _ = self.notes.remove(idx);
                self.unsaved_changes = true;
                let len = self.notes.len();
                self.selected_note = clamp(self.selected_note, len);
                self.current_note = clamp(self.current_note, len);
                self.status_message = Some(String::from_str("Note deleted"));
                assert(note_views(self.notes@) =~= note_views(old(self).notes@).remove(idx as int));
            }
        }
    }

    /// Deletes the todo under the cursor. The cursor then stands on the
    /// todo that followed, or on the last one, or nowhere if none is left.
    pub fn delete_todo(&mut self)
        ensures
            final(self)@ == old(self)@.delete_todo(),
            old(self)@.wf() ==> final(self)@.wf(),
    {
        if let Some(idx) = self.selected_todo {
            if idx < self.todos.len() {
                let _ = self.todos.remove(idx);
                self.unsaved_changes = true;
                let len = self.todos.len();
                self.selected_todo = clamp(self.selected_todo, len);
                self.current_todo = clamp(self.current_todo, len);
                self.status_message = Some(String::from_str("Todo deleted"));
                assert(todo_views(self.todos@) =~= todo_views(old(self).todos@).remove(idx as int));
            }
        }
    }

    /// Starts renaming the entry under the cursor of the section shown: its
    /// title is put into the command buffer to be edited. Without such an
    /// entry the buffer is emptied and nothing else changes.
    pub fn start_rename(&mut self)
        ensures
            final(self)@ == old(self)@.start_rename(),
            old(self)@.wf() ==> final(self)@.wf(),
    {
        self.command_buffer.clear();
        let title = match self.section {
            AppSection::Notes => match self.selected_note {
                Some(i) => if i < self.notes.len() {
                    Some(self.notes[i].title.clone())
                } else {
                    None
                },
                None => None,
            },
            AppSection::Todos => match self.selected_todo {
                Some(i) => if i < self.todos.len() {
                    Some(self.todos[i].title.clone())
                } else {
                    None
                },
                None => None,
            },
            AppSection::Help => None,
        };
        if let Some(title) = title {
            self.command_buffer = title;
            self.mode = AppMode::Renaming;
            self.status_message = Some(String::from_str("Enter new name:"));
        }
    }

    /// Gives the entry under the cursor of the section shown the title
    /// `new_name` and returns to normal mode. Without such an entry only the
    /// mode changes.
    pub fn finish_rename(&mut self, new_name: String)
        ensures
            final(self)@ == old(self)@.finish_rename(new_name@),
            old(self)@.wf() ==> final(self)@.wf(),
    {
        match self.section {
            AppSection::Notes => {
                if let Some(i) = self.selected_note {
                    if i < self.notes.len() {
                        self.notes[i].title = new_name;
                        self.unsaved_changes = true;
                        self.status_message = Some(String::from_str("Note renamed"));
                    }
                }
            },
            AppSection::Todos => {
                if let Some(i) = self.selected_todo {
                    if i < self.todos.len() {
                        self.todos[i].title = new_name;
                        self.unsaved_changes = true;
                        self.status_message = Some(String::from_str("Todo renamed"));
                    }
                }
            },
            AppSection::Help => {},
        }
        self.mode = AppMode::Normal;
        assert(self@ =~= old(self)@.finish_rename(new_name@));
    }

    /// Returns to the main menu and the notes section; no entry stays open.
    pub fn go_to_main_menu(&mut self)
        ensures
            final(self)@ == old(self)@.go_to_main_menu(),
            old(self)@.wf() ==> final(self)@.wf(),
    {
        self.mode = AppMode::MainMenu;
        self.section = AppSection::Notes;
        self.status_message = Some(String::from_str("Main Menu"));
        self.current_note = None;
        self.current_todo = None;
    }

    /// Shows the help.
    pub fn show_help(&mut self)
        ensures
            final(self)@ == old(self)@.show_help(),
            old(self)@.wf() ==> final(self)@.wf(),
    {
        self.mode = AppMode::Help;
        self.status_message = Some(String::from_str("Help"));
    }

    /// Takes note of how saving went. After a success nothing is unsaved;
    /// after a failure the status shows it and the changes stay unsaved.
    pub fn save_data_with_status(&mut self, outcome: Result<(), NotesError>)
        ensures
            final(self)@ == old(self)@.save_data_with_status(failure_view(outcome)),
            old(self)@.wf() ==> final(self)@.wf(),
    {
        match outcome {
            Ok(_) => {
                self.status_message = Some(String::from_str("Data saved successfully"));
                self.unsaved_changes = false;
            },
            Err(e) => {
                self.status_message = Some(joined("Error saving data: ", e.message.as_str()));
            },
        }
    }

    /// Takes note of how the backup went: the status shows where it was put,
    /// or the failure.
    pub fn backup_data_with_status(&mut self, outcome: Result<String, NotesError>)
        ensures
            final(self)@ == old(self)@.backup_data_with_status(outcome_view(outcome)),
            old(self)@.wf() ==> final(self)@.wf(),
    {
        match outcome {
            Ok(place) => {
                self.status_message = Some(joined("Backup created at: ", place.as_str()));
            },
            Err(e) => {
                self.status_message = Some(joined("Error creating backup: ", e.message.as_str()));
            },
        }
    }

    /// Takes note of how the export in the format `format` went: the status
    /// shows where it was put, or the failure.
    pub fn export_data_with_status(&mut self, format: &str, outcome: Result<String, NotesError>)
        ensures
            final(self)@ == old(self)@.export_data_with_status(format@, outcome_view(outcome)),
            old(self)@.wf() ==> final(self)@.wf(),
    {
        match outcome {
            Ok(place) => {
                self.status_message = Some(joined("Exported to: ", place.as_str()));
            },
            Err(e) => {
                let mut text = joined("Error exporting to ", format);
                text.append(": ");
                text.append(e.message.as_str());
                self.status_message = Some(text);
            },
        }
    }

    /// Answers a request to quit: with unsaved changes it is refused and the
    /// status warns; without, the host is asked to end the program.
    pub fn handle_quit(&mut self) -> (action: Action)
        ensures
            final(self)@ == old(self)@.handle_quit(),
            action == old(self)@.quit_action(),
            old(self)@.unsaved_changes ==> action == Action::Nothing && final(self)@.status_message
                == Some("Unsaved changes! Use :save first or :q! to force quit"@),
            !old(self)@.unsaved_changes ==> action == Action::Quit && *final(self) == *old(self),
            old(self)@.wf() ==> final(self)@.wf(),
    {
        if self.unsaved_changes {
            self.status_message = Some(
                String::from_str("Unsaved changes! Use :save first or :q! to force quit"),
            );
            Action::Nothing
        } else {
            Action::Quit
        }
    }

    /// Whether the cursor of the section shown is on an entry.
    pub fn has_selected_entry(&self) -> (r: bool)
        ensures
            r == self@.selected_title() is Some,
    {
        match self.section {
            AppSection::Notes => match self.selected_note {
                Some(i) => i < self.notes.len(),
                None => false,
            },
            AppSection::Todos => match self.selected_todo {
                Some(i) => i < self.todos.len(),
                None => false,
            },
            AppSection::Help => false,
        }
    }

    /// Whether anything was changed since the document was last saved.
    pub fn has_unsaved_changes(&self) -> (r: bool)
        ensures
            r == self@.unsaved_changes,
    {
        self.unsaved_changes
    }
}

} // verus!
