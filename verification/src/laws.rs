//! What holds of the state machine whatever is done with it.

use vstd::prelude::*;
use crate::app::{cursor_ok, Action, AppMode, AppView};
use crate::command::{command_of, Command};
use crate::file_io::AppDataView;
use crate::input::KeyPress;

verus! {

/// A step of a cursor through a list.
pub enum Step {
    Down,
    Up,
}

impl AppView {
    /// The state after the note cursor has taken `steps`, one after the
    /// other.
    pub open spec fn walk_notes(self, steps: Seq<Step>) -> AppView
        decreases steps.len(),
    {
        if steps.len() == 0 {
            self
        } else {
            match steps.last() {
                Step::Down => self.walk_notes(steps.drop_last()).next_note(),
                Step::Up => self.walk_notes(steps.drop_last()).previous_note(),
            }
        }
    }

    /// The state after the todo cursor has taken `steps`, one after the
    /// other.
    pub open spec fn walk_todos(self, steps: Seq<Step>) -> AppView
        decreases steps.len(),
    {
        if steps.len() == 0 {
            self
        } else {
            match steps.last() {
                Step::Down => self.walk_todos(steps.drop_last()).next_todo(),
                Step::Up => self.walk_todos(steps.drop_last()).previous_todo(),
            }
        }
    }
}

/// The application starts with its cursors and marks in order.
pub proof fn lemma_start_is_in_order(data: AppDataView)
    ensures
        AppView::start(data).wf(),
{
}

/// Whatever steps the note cursor takes, the notes stay as they are and the
/// cursor stays on one of them, or nowhere if there are none.
pub proof fn lemma_note_cursor_stays_valid(state: AppView, steps: Seq<Step>)
    requires
        cursor_ok(state.selected_note, state.notes.len()),
    ensures
        state.walk_notes(steps).notes == state.notes,
        cursor_ok(state.walk_notes(steps).selected_note, state.notes.len()),
        state.notes.len() > 0 ==> (state.walk_notes(steps).selected_note matches Some(i) && i
            < state.notes.len()),
        state.notes.len() == 0 ==> state.walk_notes(steps).selected_note is None,
    decreases steps.len(),
{
    if steps.len() > 0 {
        lemma_note_cursor_stays_valid(state, steps.drop_last());
    }
}

/// Whatever steps the todo cursor takes, the todos stay as they are and the
/// cursor stays on one of them, or nowhere if there are none.
pub proof fn lemma_todo_cursor_stays_valid(state: AppView, steps: Seq<Step>)
    requires
        cursor_ok(state.selected_todo, state.todos.len()),
    ensures
        state.walk_todos(steps).todos == state.todos,
        cursor_ok(state.walk_todos(steps).selected_todo, state.todos.len()),
        state.todos.len() > 0 ==> (state.walk_todos(steps).selected_todo matches Some(i) && i
            < state.todos.len()),
        state.todos.len() == 0 ==> state.walk_todos(steps).selected_todo is None,
    decreases steps.len(),
{
    if steps.len() > 0 {
        lemma_todo_cursor_stays_valid(state, steps.drop_last());
    }
}

/// Deleting the note under the cursor leaves one note less. If none is
/// left, the cursor and the mark of the open note are nowhere; otherwise the
/// cursor is on one of the notes that are left.
pub proof fn lemma_delete_note_shrinks(state: AppView)
    requires
        state.wf(),
        state.notes.len() > 0,
    ensures
        state.delete_note().notes.len() == state.notes.len() - 1,
        state.delete_note().todos == state.todos,
        state.notes.len() == 1 ==> state.delete_note().selected_note is None
            && state.delete_note().current_note is None,
        state.notes.len() > 1 ==> (state.delete_note().selected_note matches Some(i) && i
            < state.notes.len() - 1),
        state.delete_note().wf(),
{
}

/// Deleting the todo under the cursor leaves one todo less. If none is
/// left, the cursor and the mark of the open todo are nowhere; otherwise the
/// cursor is on one of the todos that are left.
pub proof fn lemma_delete_todo_shrinks(state: AppView)
    requires
        state.wf(),
        state.todos.len() > 0,
    ensures
        state.delete_todo().todos.len() == state.todos.len() - 1,
        state.delete_todo().notes == state.notes,
        state.todos.len() == 1 ==> state.delete_todo().selected_todo is None
            && state.delete_todo().current_todo is None,
        state.todos.len() > 1 ==> (state.delete_todo().selected_todo matches Some(i) && i
            < state.todos.len() - 1),
        state.delete_todo().wf(),
{
}

/// Each single operation keeps the cursors and marks in order.
pub proof fn lemma_operations_keep_order(state: AppView, c: char, text: Seq<char>)
    requires
        state.wf(),
    ensures
        state.next_menu_item().wf(),
        state.previous_menu_item().wf(),
        state.next_note().wf(),
        state.previous_note().wf(),
        state.next_todo().wf(),
        state.previous_todo().wf(),
        state.select_menu_item().wf(),
        state.with_new_note(text).wf(),
        state.with_new_todo(text).wf(),
        state.insert_char(c).wf(),
        state.delete_char().wf(),
        state.insert_new_line().wf(),
        state.toggle_todo_completion().wf(),
        state.delete_note().wf(),
        state.delete_todo().wf(),
        state.delete_current_item().wf(),
        state.start_rename().wf(),
        state.finish_rename(text).wf(),
        state.go_to_main_menu().wf(),
        state.show_help().wf(),
        state.save_data_with_status(Some(text)).wf(),
        state.save_data_with_status(None).wf(),
        state.backup_data_with_status(Ok(text)).wf(),
        state.backup_data_with_status(Err(text)).wf(),
        state.handle_quit().wf(),
        state.open_selected().wf(),
{
}

/// Creating entries keeps the cursors and marks in order, adds one entry
/// for each reading of the clock and leaves the other list as it is.
pub proof fn lemma_creating(state: AppView, stamps: Seq<Seq<char>>)
    requires
        state.wf(),
    ensures
        state.with_new_notes(stamps).wf(),
        state.with_new_notes(stamps).notes.len() == state.notes.len() + stamps.len(),
        state.with_new_notes(stamps).todos == state.todos,
        state.with_new_todos(stamps).wf(),
        state.with_new_todos(stamps).todos.len() == state.todos.len() + stamps.len(),
        state.with_new_todos(stamps).notes == state.notes,
        state.with_new_notes(stamps).command_buffer == state.command_buffer,
        state.with_new_todos(stamps).command_buffer == state.command_buffer,
    decreases stamps.len(),
{
    if stamps.len() > 0 {
        lemma_creating(state, stamps.drop_last());
    }
}

/// Deleting again and again keeps the cursors and marks in order, and never
/// adds an entry.
pub proof fn lemma_deleting(state: AppView, count: nat)
    requires
        state.wf(),
    ensures
        state.delete_repeated(count).wf(),
        state.delete_repeated(count).notes.len() <= state.notes.len(),
        state.delete_repeated(count).todos.len() <= state.todos.len(),
        state.delete_repeated(count).command_buffer == state.command_buffer,
    decreases count,
{
    if count > 0 {
        lemma_deleting(state, (count - 1) as nat);
        lemma_operations_keep_order(state.delete_repeated((count - 1) as nat), 'x', Seq::empty());
    }
}

/// Whether the step from `before` to `after` has marked what it changed:
/// if a note or a todo is no longer what it was, the state counts as
/// unsaved, and a state that was unsaved still is.
pub open spec fn marks_changes(before: AppView, after: AppView) -> bool {
    &&& after.notes != before.notes || after.todos != before.todos ==> after.unsaved_changes
    &&& before.unsaved_changes ==> after.unsaved_changes
}

/// Each single operation marks what it changes, and none but a successful
/// save lets the state count as saved again; a successful save changes no
/// entry.
pub proof fn lemma_operations_mark_changes(state: AppView, c: char, text: Seq<char>)
    ensures
        marks_changes(state, state.next_menu_item()),
        marks_changes(state, state.previous_menu_item()),
        marks_changes(state, state.next_note()),
        marks_changes(state, state.previous_note()),
        marks_changes(state, state.next_todo()),
        marks_changes(state, state.previous_todo()),
        marks_changes(state, state.select_menu_item()),
        marks_changes(state, state.with_new_note(text)),
        marks_changes(state, state.with_new_todo(text)),
        marks_changes(state, state.insert_char(c)),
        marks_changes(state, state.delete_char()),
        marks_changes(state, state.insert_new_line()),
        marks_changes(state, state.toggle_todo_completion()),
        marks_changes(state, state.delete_note()),
        marks_changes(state, state.delete_todo()),
        marks_changes(state, state.delete_current_item()),
        marks_changes(state, state.start_rename()),
        marks_changes(state, state.finish_rename(text)),
        marks_changes(state, state.go_to_main_menu()),
        marks_changes(state, state.show_help()),
        marks_changes(state, state.save_data_with_status(Some(text))),
        marks_changes(state, state.backup_data_with_status(Ok(text))),
        marks_changes(state, state.backup_data_with_status(Err(text))),
        marks_changes(state, state.export_data_with_status(text, Ok(text))),
        marks_changes(state, state.export_data_with_status(text, Err(text))),
        marks_changes(state, state.handle_quit()),
        marks_changes(state, state.open_selected()),
        !state.save_data_with_status(None).unsaved_changes,
        state.save_data_with_status(None).notes == state.notes,
        state.save_data_with_status(None).todos == state.todos,
{
}

/// Creating and deleting entries, however often, marks what it changes.
pub proof fn lemma_repeating_marks_changes(state: AppView, stamps: Seq<Seq<char>>, count: nat)
    ensures
        marks_changes(state, state.with_new_notes(stamps)),
        marks_changes(state, state.with_new_todos(stamps)),
        marks_changes(state, state.delete_repeated(count)),
    decreases stamps.len() + count,
{
    if stamps.len() > 0 {
        lemma_repeating_marks_changes(state, stamps.drop_last(), 0);
        lemma_operations_mark_changes(state.with_new_notes(stamps.drop_last()), 'x', stamps.last());
        lemma_operations_mark_changes(state.with_new_todos(stamps.drop_last()), 'x', stamps.last());
    }
    if count > 0 {
        lemma_repeating_marks_changes(state, Seq::empty(), (count - 1) as nat);
        lemma_operations_mark_changes(
            state.delete_repeated((count - 1) as nat),
            'x',
            Seq::empty(),
        );
    }
}

/// A key press marks what it changes: after it, a state in which a note or
/// a todo is no longer what it was counts as unsaved, and a state that was
/// unsaved still is.
pub proof fn lemma_press_marks_changes(state: AppView, press: KeyPress, stamps: Seq<Seq<char>>)
    ensures
        marks_changes(state, state.execute_command(stamps)),
        marks_changes(state, state.press(press, stamps)),
{
    let ready = AppView { command_buffer: Seq::empty(), ..state };
    lemma_repeating_marks_changes(ready, stamps, state.command_count());
    lemma_operations_mark_changes(ready, 'x', Seq::empty());
    lemma_operations_mark_changes(state, 'x', state.command_buffer);
    match press.key {
        crate::input::Key::Char(c) => {
            lemma_operations_mark_changes(state, c, Seq::empty());
        },
        _ => {},
    }
}

/// Executing a command keeps the cursors and marks in order.
pub proof fn lemma_execute_command_keeps_order(state: AppView, stamps: Seq<Seq<char>>)
    requires
        state.wf(),
    ensures
        state.execute_command(stamps).wf(),
{
    let ready = AppView { command_buffer: Seq::empty(), ..state };
    lemma_creating(ready, stamps);
    lemma_deleting(ready, state.command_count());
}

/// A key press keeps the cursors and marks in order.
pub proof fn lemma_press_keeps_order(state: AppView, press: KeyPress, stamps: Seq<Seq<char>>)
    requires
        state.wf(),
    ensures
        state.press(press, stamps).wf(),
{
    lemma_execute_command_keeps_order(state, stamps);
}

/// A command that creates notes creates as many as its count says, one for
/// each reading of the clock; one that deletes zero times deletes nothing;
/// one that is not known changes no entry and says so in the status.
pub proof fn lemma_command_effects(state: AppView, stamps: Seq<Seq<char>>)
    requires
        state.wf(),
        stamps.len() == state.clock_reads(),
    ensures
        command_of(state.command_word()) == Command::NewNote ==> {
            &&& state.execute_command(stamps).notes.len() == state.notes.len()
                + state.command_count()
            &&& state.execute_command(stamps).todos == state.todos
        },
        command_of(state.command_word()) == Command::NewTodo ==> {
            &&& state.execute_command(stamps).todos.len() == state.todos.len()
                + state.command_count()
            &&& state.execute_command(stamps).notes == state.notes
        },
        command_of(state.command_word()) == Command::Delete && state.command_count() == 0 ==> {
            &&& state.execute_command(stamps).notes == state.notes
            &&& state.execute_command(stamps).todos == state.todos
        },
        command_of(state.command_word()) == Command::Unknown ==> {
            &&& state.execute_command(stamps).notes == state.notes
            &&& state.execute_command(stamps).todos == state.todos
            &&& state.execute_command(stamps).status_message == Some(
                "Unknown command: "@ + state.command_word(),
            )
        },
        command_of(state.command_word()) != Command::Help ==> state.execute_command(stamps).mode
            == AppMode::Normal,
        command_of(state.command_word()) != Command::Rename ==> state.execute_command(
            stamps,
        ).command_buffer == Seq::<char>::empty(),
{
    let ready = AppView { command_buffer: Seq::empty(), ..state };
    lemma_creating(ready, stamps);
    lemma_deleting(ready, state.command_count());
}

/// A request to quit is refused with a warning while changes are unsaved,
/// and granted otherwise, whether it comes as a command or as a key.
pub proof fn lemma_quit_waits_for_save(state: AppView, press: KeyPress)
    requires
        press.is_quit(),
    ensures
        state.unsaved_changes ==> {
            &&& state.quit_action() == Action::Nothing
            &&& state.handle_quit().status_message == Some(
                "Unsaved changes! Use :save first or :q! to force quit"@,
            )
            &&& state.press_action(press) == Action::Nothing
            &&& state.press(press, Seq::empty()).status_message == Some(
                "Unsaved changes! Use :save or :q! to force quit"@,
            )
        },
        !state.unsaved_changes ==> {
            &&& state.quit_action() == Action::Quit
            &&& state.handle_quit() == state
            &&& state.press_action(press) == Action::Quit
            &&& state.press(press, Seq::empty()) == state
        },
{
}

} // verus!
