//! Keys, and what each of them does in each mode.

use vstd::prelude::*;
use vstd::string::StringExecFns;
use crate::app::{Action, App, AppMode, AppSection, AppView};
use crate::text::same_text;

verus! {

/// A key, as far as the application tells keys apart.
#[derive(Clone, Copy, Debug, PartialEq, Eq, Structural)]
pub enum Key {
    Char(char),
    Enter,
    Esc,
    Backspace,
    Up,
    Down,
    Other,
}

/// A key together with whether Control was held.
#[derive(Clone, Copy, Debug, PartialEq, Eq, Structural)]
pub struct KeyPress {
    pub key: Key,
    pub control: bool,
}

impl Key {
    /// Whether the key steps down in a list.
    pub open spec fn is_down(self) -> bool {
        self == Key::Char('j') || self == Key::Down
    }

    /// Whether the key steps up in a list.
    pub open spec fn is_up(self) -> bool {
        self == Key::Char('k') || self == Key::Up
    }
}

impl KeyPress {
    /// Whether this is Control with `q`, the request to quit.
    pub open spec fn is_quit(self) -> bool {
        self.key == Key::Char('q') && self.control
    }
}

impl AppView {
    /// The state after `key` was pressed on the main menu.
    pub open spec fn main_menu_key(self, key: Key) -> AppView {
        if key == Key::Char(':') {
            AppView { mode: AppMode::Command, ..self }
        } else if key.is_down() {
            self.next_menu_item()
        } else if key.is_up() {
            self.previous_menu_item()
        } else if key == Key::Enter {
            self.select_menu_item()
        } else {
            self
        }
    }

    /// The state after the entry under the cursor of the section shown was
    /// opened for editing. Without such an entry nothing changes.
    pub open spec fn open_selected(self) -> AppView {
        match self.section {
            AppSection::Notes => match self.selected_note {
                Some(i) => AppView { current_note: Some(i), mode: AppMode::Editing, ..self },
                None => self,
            },
            AppSection::Todos => match self.selected_todo {
                Some(i) => AppView { current_todo: Some(i), mode: AppMode::Editing, ..self },
                None => self,
            },
            AppSection::Help => self,
        }
    }

    /// The state after a step down in the list of the section shown.
    pub open spec fn step_down(self) -> AppView {
        match self.section {
            AppSection::Notes => self.next_note(),
            AppSection::Todos => self.next_todo(),
            AppSection::Help => self,
        }
    }

    /// The state after a step up in the list of the section shown.
    pub open spec fn step_up(self) -> AppView {
        match self.section {
            AppSection::Notes => self.previous_note(),
            AppSection::Todos => self.previous_todo(),
            AppSection::Help => self,
        }
    }

    /// The state after `key` was pressed in normal mode.
    pub open spec fn normal_key(self, key: Key) -> AppView {
        if key == Key::Char(':') {
            AppView { mode: AppMode::Command, ..self }
        } else if key.is_down() {
            self.step_down()
        } else if key.is_up() {
            self.step_up()
        } else if key == Key::Enter {
            self.open_selected()
        } else if key == Key::Char(' ') && self.section == AppSection::Todos {
            self.toggle_todo_completion()
        } else {
            self
        }
    }

    /// The state after `key` was pressed while an entry is edited.
    pub open spec fn editing_key(self, key: Key) -> AppView {
        match key {
            Key::Esc => AppView { mode: AppMode::Normal, ..self },
            Key::Enter => self.insert_new_line(),
            Key::Char(c) => self.insert_char(c),
            Key::Backspace => self.delete_char(),
            _ => self,
        }
    }

    /// The state after `key` was pressed while the help is shown.
    pub open spec fn help_key(self, key: Key) -> AppView {
        if key == Key::Esc {
            AppView { mode: AppMode::Normal, ..self }
        } else {
            self
        }
    }

    /// The command buffer after a character or Backspace was typed.
    pub open spec fn typed(buffer: Seq<char>, key: Key) -> Seq<char> {
        match key {
            Key::Char(c) => buffer.push(c),
            Key::Backspace => if buffer.len() > 0 {
                buffer.drop_last()
            } else {
                buffer
            },
            _ => buffer,
        }
    }

    /// The state after `key` was pressed while an entry is renamed.
    pub open spec fn renaming_key(self, key: Key) -> AppView {
        match key {
            Key::Esc => AppView {
                mode: AppMode::Normal,
                status_message: Some("Rename canceled"@),
                ..self
            },
            Key::Enter => self.finish_rename(self.command_buffer),
            _ => AppView { command_buffer: AppView::typed(self.command_buffer, key), ..self },
        }
    }

    /// Whether a rename waits for its new name: the status asks for it.
    pub open spec fn rename_pending(self) -> bool {
        self.status_message == Some("Enter new name:"@)
    }

    /// The state after `key` was pressed on the command line, `stamps`
    /// being what the clock showed at each reading.
    pub open spec fn command_key(self, key: Key, stamps: Seq<Seq<char>>) -> AppView {
        match key {
            Key::Esc => AppView { mode: AppMode::Normal, ..self },
            Key::Enter => if self.rename_pending() {
                self.finish_rename(self.command_buffer)
            } else {
                self.execute_command(stamps)
            },
            _ => AppView { command_buffer: AppView::typed(self.command_buffer, key), ..self },
        }
    }

    /// Whether `key` on the command line executes the command in the
    /// buffer.
    pub open spec fn executes(self, key: Key) -> bool {
        key == Key::Enter && !self.rename_pending()
    }

    /// What `key` on the command line asks of the host.
    pub open spec fn command_key_action(self, key: Key) -> Action {
        if self.executes(key) {
            self.command_action()
        } else {
            Action::Nothing
        }
    }

    /// How often `key` on the command line reads the clock.
    pub open spec fn command_key_reads(self, key: Key) -> nat {
        if self.executes(key) {
            self.clock_reads()
        } else {
            0
        }
    }

    /// The state after a key press, `stamps` being what the clock showed at
    /// each reading. Control with `q` asks to quit, which is refused with a
    /// warning while changes are unsaved; any other key goes by the mode.
    pub open spec fn press(self, press: KeyPress, stamps: Seq<Seq<char>>) -> AppView {
        if press.is_quit() {
            if self.unsaved_changes {
                AppView {
                    status_message: Some("Unsaved changes! Use :save or :q! to force quit"@),
                    ..self
                }
            } else {
                self
            }
        } else {
            match self.mode {
                AppMode::MainMenu => self.main_menu_key(press.key),
                AppMode::Normal => self.normal_key(press.key),
                AppMode::Command => self.command_key(press.key, stamps),
                AppMode::Editing => self.editing_key(press.key),
                AppMode::Help => self.help_key(press.key),
                AppMode::Renaming => self.renaming_key(press.key),
            }
        }
    }

    /// What a key press asks of the host.
    pub open spec fn press_action(self, press: KeyPress) -> Action {
        if press.is_quit() {
            self.quit_action()
        } else if self.mode == AppMode::Command {
            self.command_key_action(press.key)
        } else {
            Action::Nothing
        }
    }

    /// How often a key press reads the clock.
    pub open spec fn press_reads(self, press: KeyPress) -> nat {
        if !press.is_quit() && self.mode == AppMode::Command {
            self.command_key_reads(press.key)
        } else {
            0
        }
    }
}

/// Whether `key` steps down in a list.
fn steps_down(key: Key) -> (r: bool)
    ensures
        r == key.is_down(),
{
    match key {
        Key::Char(c) => c == 'j',
        Key::Down => true,
        _ => false,
    }
}

/// Whether `key` steps up in a list.
fn steps_up(key: Key) -> (r: bool)
    ensures
        r == key.is_up(),
{
    match key {
        Key::Char(c) => c == 'k',
        Key::Up => true,
        _ => false,
    }
}

/// Whether `key` is the character `c`.
fn is_char(key: Key, c: char) -> (r: bool)
    ensures
        r == (key == Key::Char(c)),
{
    match key {
        Key::Char(d) => d == c,
        _ => false,
    }
}

/// Types `key` into the command buffer: a character is appended, Backspace
/// removes the last one.
fn type_into_buffer(app: &mut App, key: Key)
    ensures
        final(app)@ == (AppView {
            command_buffer: AppView::typed(old(app)@.command_buffer, key),
            ..old(app)@
        }),
        old(app)@.wf() ==> final(app)@.wf(),
{
    match key {
        Key::Char(c) => {
            app.command_buffer.push(c);
        },
        Key::Backspace => {
            let _ = app.command_buffer.pop();
        },
        _ => {},
    }
}

/// Handles a key on the main menu: `:` opens the command line, `j` and
/// Down move the cursor down, `k` and Up move it up, Enter opens what the
/// cursor is on.
pub fn handle_main_menu_input(app: &mut App, key: Key)
    ensures
        final(app)@ == old(app)@.main_menu_key(key),
        old(app)@.wf() ==> final(app)@.wf(),
{
    if is_char(key, ':') {
        app.mode = AppMode::Command;
    } else if steps_down(key) {
        app.next_menu_item();
    } else if steps_up(key) {
        app.previous_menu_item();
    } else if key == Key::Enter {
        app.select_menu_item();
    }
}

/// Handles a key in normal mode: `:` opens the command line, `j` and Down
/// move the cursor of the section down, `k` and Up move it up, Enter opens
/// the entry under the cursor for editing, Space toggles the todo under the
/// cursor while the todos are shown.
pub fn handle_normal_mode_input(app: &mut App, key: Key)
    ensures
        final(app)@ == old(app)@.normal_key(key),
        old(app)@.wf() ==> final(app)@.wf(),
{
    if is_char(key, ':') {
        app.mode = AppMode::Command;
    } else if steps_down(key) {
        match app.section {
            AppSection::Notes => app.next_note(),
            AppSection::Todos => app.next_todo(),
            AppSection::Help => {},
        }
    } else if steps_up(key) {
        match app.section {
            AppSection::Notes => app.previous_note(),
            AppSection::Todos => app.previous_todo(),
            AppSection::Help => {},
        }
    } else if key == Key::Enter {
        match app.section {
            AppSection::Notes => {
                if let Some(idx) = app.selected_note {
                    app.current_note = Some(idx);
                    app.mode = AppMode::Editing;
                }
            },
            AppSection::Todos => {
                if let Some(idx) = app.selected_todo {
                    app.current_todo = Some(idx);
                    app.mode = AppMode::Editing;
                }
            },
            AppSection::Help => {},
        }
    } else if is_char(key, ' ') && app.section == AppSection::Todos {
        app.toggle_todo_completion();
    }
}

/// Handles a key on the command line: Esc leaves it, Enter executes the
/// command in the buffer, or finishes a rename that waits for its new name,
/// a character is appended to the buffer, Backspace removes the last one.
/// Says what is left for the host to do.
pub fn handle_command_mode_input(app: &mut App, key: Key) -> (action: Action)
    ensures
        action == old(app)@.command_key_action(key),
        exists|stamps: Seq<Seq<char>>|
            stamps.len() == old(app)@.command_key_reads(key) && final(app)@ == old(
                app,
            )@.command_key(key, stamps),
        old(app)@.wf() ==> final(app)@.wf(),
{
    match key {
        Key::Esc => {
            app.mode = AppMode::Normal;
            assert(app@ == old(app)@.command_key(key, Seq::empty()));
            Action::Nothing
        },
        Key::Enter => {
            let pending = match &app.status_message {
                Some(message) => same_text(message.as_str(), "Enter new name:"),
                None => false,
            };
            if pending {
                let new_name = app.command_buffer.clone();
                app.finish_rename(new_name);
                assert(app@ == old(app)@.command_key(key, Seq::empty()));
                Action::Nothing
            } else {
                let action = app.execute_command();
                proof {
                    let stamps = choose|stamps: Seq<Seq<char>>|
                        stamps.len() == old(app)@.clock_reads() && app@ == old(
                            app,
                        )@.execute_command(stamps);
                    assert(app@ == old(app)@.command_key(key, stamps));
                }
                action
            }
        },
        _ => {
            type_into_buffer(app, key);
            assert(app@ == old(app)@.command_key(key, Seq::empty()));
            Action::Nothing
        },
    }
}

/// Handles a key while an entry is edited: Esc leaves the editor, Enter
/// breaks the line, a character is appended to the content, Backspace
/// removes the last one.
pub fn handle_editing_mode_input(app: &mut App, key: Key)
    ensures
        final(app)@ == old(app)@.editing_key(key),
        old(app)@.wf() ==> final(app)@.wf(),
{
    match key {
        Key::Esc => {
            app.mode = AppMode::Normal;
        },
        Key::Enter => app.insert_new_line(),
        Key::Char(c) => app.insert_char(c),
        Key::Backspace => app.delete_char(),
        _ => {},
    }
}

/// Handles a key while the help is shown: Esc leaves it.
pub fn handle_help_mode_input(app: &mut App, key: Key)
    ensures
        final(app)@ == old(app)@.help_key(key),
        old(app)@.wf() ==> final(app)@.wf(),
{
    if key == Key::Esc {
        app.mode = AppMode::Normal;
    }
}

/// Handles a key while an entry is renamed: Esc gives up, Enter gives the
/// entry the name in the buffer, a character is appended to the buffer,
/// Backspace removes the last one.
pub fn handle_renaming_mode_input(app: &mut App, key: Key)
    ensures
        final(app)@ == old(app)@.renaming_key(key),
        old(app)@.wf() ==> final(app)@.wf(),
{
    match key {
        Key::Esc => {
            app.mode = AppMode::Normal;
            app.status_message = Some(String::from_str("Rename canceled"));
        },
        Key::Enter => {
            let new_name = app.command_buffer.clone();
            app.finish_rename(new_name);
        },
        _ => {
            type_into_buffer(app, key);
        },
    }
}

/// Handles a key press and says what is left for the host to do. Control
/// with `q` asks to quit: without unsaved changes the host is to end the
/// program, with them the status warns. Any other key is handled by the
/// mode.
pub fn handle_key(app: &mut App, press: KeyPress) -> (action: Action)
    ensures
        action == old(app)@.press_action(press),
        exists|stamps: Seq<Seq<char>>|
            stamps.len() == old(app)@.press_reads(press) && final(app)@ == old(app)@.press(
                press,
                stamps,
            ),
        old(app)@.wf() ==> final(app)@.wf(),
{
    if is_char(press.key, 'q') && press.control {
        if !app.has_unsaved_changes() {
            assert(app@ == old(app)@.press(press, Seq::empty()));
            return Action::Quit;
        }
        app.status_message = Some(
            String::from_str("Unsaved changes! Use :save or :q! to force quit"),
        );
        assert(app@ == old(app)@.press(press, Seq::empty()));
        return Action::Nothing;
    }
    match app.mode {
        AppMode::MainMenu => {
            handle_main_menu_input(app, press.key);
            assert(app@ == old(app)@.press(press, Seq::empty()));
            Action::Nothing
        },
        AppMode::Normal => {
            handle_normal_mode_input(app, press.key);
            assert(app@ == old(app)@.press(press, Seq::empty()));
            Action::Nothing
        },
        AppMode::Command => {
            let action = handle_command_mode_input(app, press.key);
            proof {
                let stamps = choose|stamps: Seq<Seq<char>>|
                    stamps.len() == old(app)@.command_key_reads(press.key) && app@ == old(
                        app,
                    )@.command_key(press.key, stamps);
                assert(app@ == old(app)@.press(press, stamps));
            }
            action
        },
        AppMode::Editing => {
            handle_editing_mode_input(app, press.key);
            assert(app@ == old(app)@.press(press, Seq::empty()));
            Action::Nothing
        },
        AppMode::Help => {
            handle_help_mode_input(app, press.key);
            assert(app@ == old(app)@.press(press, Seq::empty()));
            Action::Nothing
        },
        AppMode::Renaming => {
            handle_renaming_mode_input(app, press.key);
            assert(app@ == old(app)@.press(press, Seq::empty()));
            Action::Nothing
        },
    }
}

} // verus!
