use terminal_notes::app::{Action, App, AppMode, AppSection, ExportFormat};
use terminal_notes::error::{ErrorKind, NotesError};
use terminal_notes::file_io::{AppData, Export, Stored};
use terminal_notes::note::Note;
use terminal_notes::todo::Todo;

fn empty_app() -> App {
    App::new(Stored::Absent).unwrap()
}

fn app_with(notes: usize, todos: usize) -> App {
    let mut data = AppData { notes: Vec::new(), todos: Vec::new() };
    for i in 0..notes {
        data.notes.push(Note::new(format!("Note {}", i + 1), "t".to_string()));
    }
    for i in 0..todos {
        data.todos.push(Todo::new(format!("Todo {}", i + 1), "t".to_string()));
    }
    App::new(Stored::Document(data)).unwrap()
}

fn run(app: &mut App, line: &str) -> Action {
    app.command_buffer = line.to_string();
    app.execute_command()
}

fn titles(notes: &[Note]) -> Vec<String> {
    notes.iter().map(|n| n.title.clone()).collect()
}

fn todo_titles(todos: &[Todo]) -> Vec<String> {
    todos.iter().map(|t| t.title.clone()).collect()
}

#[test]
fn starts_on_the_main_menu() {
    let app = empty_app();
    assert_eq!(app.section, AppSection::Notes);
    assert_eq!(app.mode, AppMode::MainMenu);
    assert!(app.notes.is_empty());
    assert!(app.todos.is_empty());
    assert_eq!(app.selected_note, None);
    assert_eq!(app.selected_todo, None);
    assert_eq!(app.current_note, None);
    assert_eq!(app.current_todo, None);
    assert_eq!(app.selected_menu_item, 0);
    assert_eq!(app.command_buffer, "");
    assert_eq!(app.status_message, None);
    assert!(!app.has_unsaved_changes());
}

#[test]
fn starts_with_the_cursors_on_the_first_entries() {
    let app = app_with(3, 2);
    assert_eq!(app.notes.len(), 3);
    assert_eq!(app.todos.len(), 2);
    assert_eq!(app.selected_note, Some(0));
    assert_eq!(app.selected_todo, Some(0));
    assert_eq!(app.current_note, None);
    assert_eq!(app.current_todo, None);
    assert!(!app.has_unsaved_changes());
}

#[test]
fn does_not_start_on_a_broken_document() {
    let e = App::new(Stored::Malformed("bad".to_string())).unwrap_err();
    assert_eq!(e.kind, ErrorKind::ParseFailure);
    let e = App::new(Stored::Unreadable("bad".to_string())).unwrap_err();
    assert_eq!(e.kind, ErrorKind::IoFailure);
}

#[test]
fn tick_changes_nothing() {
    let mut app = app_with(2, 1);
    app.on_tick();
    assert_eq!(app.selected_note, Some(0));
    assert_eq!(app.mode, AppMode::MainMenu);
    assert!(!app.has_unsaved_changes());
}

#[test]
fn menu_cursor_goes_round() {
    let mut app = empty_app();
    app.next_menu_item();
    assert_eq!(app.selected_menu_item, 1);
    app.next_menu_item();
    assert_eq!(app.selected_menu_item, 2);
    app.next_menu_item();
    assert_eq!(app.selected_menu_item, 0);
    app.previous_menu_item();
    assert_eq!(app.selected_menu_item, 2);
    app.previous_menu_item();
    assert_eq!(app.selected_menu_item, 1);
    app.previous_menu_item();
    assert_eq!(app.selected_menu_item, 0);
}

#[test]
fn menu_items_open_their_sections() {
    let mut app = empty_app();
    app.select_menu_item();
    assert_eq!(app.section, AppSection::Notes);
    assert_eq!(app.mode, AppMode::Normal);
    assert_eq!(app.status_message, Some("Notes section".to_string()));
    app.selected_menu_item = 1;
    app.select_menu_item();
    assert_eq!(app.section, AppSection::Todos);
    assert_eq!(app.mode, AppMode::Normal);
    assert_eq!(app.status_message, Some("Todo section".to_string()));
    app.selected_menu_item = 2;
    app.select_menu_item();
    assert_eq!(app.section, AppSection::Help);
    assert_eq!(app.mode, AppMode::Help);
    assert_eq!(app.status_message, Some("Help section".to_string()));
    app.selected_menu_item = 7;
    app.mode = AppMode::MainMenu;
    app.select_menu_item();
    assert_eq!(app.section, AppSection::Help);
    assert_eq!(app.mode, AppMode::MainMenu);
}

#[test]
fn note_cursor_wraps_around() {
    let mut app = app_with(3, 0);
    app.next_note();
    assert_eq!(app.selected_note, Some(1));
    app.next_note();
    assert_eq!(app.selected_note, Some(2));
    app.next_note();
    assert_eq!(app.selected_note, Some(0));
    app.previous_note();
    assert_eq!(app.selected_note, Some(2));
    app.previous_note();
    assert_eq!(app.selected_note, Some(1));
}

#[test]
fn todo_cursor_wraps_around() {
    let mut app = app_with(0, 2);
    app.next_todo();
    assert_eq!(app.selected_todo, Some(1));
    app.next_todo();
    assert_eq!(app.selected_todo, Some(0));
    app.previous_todo();
    assert_eq!(app.selected_todo, Some(1));
    app.previous_todo();
    assert_eq!(app.selected_todo, Some(0));
    assert_eq!(app.selected_note, None);
}

#[test]
fn cursor_on_empty_lists_stays_nowhere() {
    let mut app = empty_app();
    app.next_note();
    assert_eq!(app.selected_note, None);
    app.previous_note();
    assert_eq!(app.selected_note, None);
    app.next_todo();
    assert_eq!(app.selected_todo, None);
    app.previous_todo();
    assert_eq!(app.selected_todo, None);
}

#[test]
fn cursor_without_a_place_enters_the_list() {
    let mut app = app_with(3, 3);
    app.selected_note = None;
    app.next_note();
    assert_eq!(app.selected_note, Some(0));
    app.selected_note = None;
    app.previous_note();
    assert_eq!(app.selected_note, Some(2));
    app.selected_todo = None;
    app.next_todo();
    assert_eq!(app.selected_todo, Some(0));
    app.selected_todo = None;
    app.previous_todo();
    assert_eq!(app.selected_todo, Some(2));
}

#[test]
fn cursor_stays_in_range_on_any_walk() {
    for len in 1..5usize {
        let mut app = app_with(len, len);
        let mut seed: u32 = 12345;
        for _ in 0..200 {
            seed = seed.wrapping_mul(1103515245).wrapping_add(12345);
            match (seed >> 16) % 4 {
                0 => app.next_note(),
                1 => app.previous_note(),
                2 => app.next_todo(),
                _ => app.previous_todo(),
            }
            assert!(app.selected_note.unwrap() < len);
            assert!(app.selected_todo.unwrap() < len);
        }
    }
}

#[test]
fn new_note_is_appended_and_opened() {
    let mut app = app_with(2, 0);
    app.add_note("2024-03-15T10:00:00+01:00".to_string());
    assert_eq!(app.notes.len(), 3);
    assert_eq!(app.notes[2].title, "Note 3");
    assert_eq!(app.notes[2].content, "");
    assert_eq!(app.notes[2].created_at, "2024-03-15T10:00:00+01:00");
    assert!(app.notes[2].tags.is_empty());
    assert_eq!(app.selected_note, Some(2));
    assert_eq!(app.current_note, Some(2));
    assert_eq!(app.section, AppSection::Notes);
    assert_eq!(app.mode, AppMode::Editing);
    assert_eq!(app.status_message, Some("New note created".to_string()));
    assert!(app.has_unsaved_changes());
}

#[test]
fn new_todo_is_appended_and_opened() {
    let mut app = app_with(1, 9);
    app.add_todo("stamp".to_string());
    assert_eq!(app.todos.len(), 10);
    assert_eq!(app.todos[9].title, "Todo 10");
    assert_eq!(app.todos[9].content, "");
    assert_eq!(app.todos[9].created_at, "stamp");
    assert!(!app.todos[9].completed);
    assert_eq!(app.selected_todo, Some(9));
    assert_eq!(app.current_todo, Some(9));
    assert_eq!(app.section, AppSection::Todos);
    assert_eq!(app.mode, AppMode::Editing);
    assert_eq!(app.status_message, Some("New todo created".to_string()));
    assert!(app.has_unsaved_changes());
    assert_eq!(app.notes.len(), 1);
}

#[test]
fn entries_created_now_carry_the_time() {
    let mut app = empty_app();
    app.create_new_note();
    app.create_new_todo();
    assert_eq!(app.notes.len(), 1);
    assert_eq!(app.todos.len(), 1);
    assert_eq!(app.notes[0].title, "Note 1");
    assert_eq!(app.todos[0].title, "Todo 1");
    assert!(chrono::DateTime::parse_from_rfc3339(&app.notes[0].created_at).is_ok());
    assert!(chrono::DateTime::parse_from_rfc3339(&app.todos[0].created_at).is_ok());
    assert_eq!(app.section, AppSection::Todos);
    assert_eq!(app.mode, AppMode::Editing);
}

#[test]
fn titles_are_numbered_by_the_size_of_the_list() {
    let mut app = empty_app();
    app.add_note("t".to_string());
    app.add_note("t".to_string());
    app.add_note("t".to_string());
    app.selected_note = Some(0);
    app.delete_note();
    app.add_note("t".to_string());
    assert_eq!(titles(&app.notes), vec!["Note 2", "Note 3", "Note 3"]);
}

#[test]
fn typing_goes_to_the_open_note() {
    let mut app = app_with(2, 1);
    app.current_note = Some(1);
    app.insert_char('h');
    app.insert_char('i');
    app.insert_new_line();
    app.insert_char('!');
    assert_eq!(app.notes[1].content, "hi\n!");
    assert_eq!(app.notes[0].content, "");
    assert_eq!(app.todos[0].content, "");
    assert!(app.has_unsaved_changes());
    app.delete_char();
    app.delete_char();
    assert_eq!(app.notes[1].content, "hi");
}

#[test]
fn typing_goes_to_the_open_todo() {
    let mut app = app_with(1, 2);
    app.section = AppSection::Todos;
    app.current_note = Some(0);
    app.current_todo = Some(0);
    app.insert_char('x');
    app.insert_new_line();
    assert_eq!(app.todos[0].content, "x\n");
    assert_eq!(app.notes[0].content, "");
    app.delete_char();
    app.delete_char();
    app.delete_char();
    assert_eq!(app.todos[0].content, "");
    assert!(app.has_unsaved_changes());
}

#[test]
fn typing_without_an_open_entry_changes_nothing() {
    let mut app = app_with(1, 1);
    app.insert_char('x');
    app.delete_char();
    app.insert_new_line();
    assert_eq!(app.notes[0].content, "");
    assert!(!app.has_unsaved_changes());
    app.current_note = Some(5);
    app.insert_char('x');
    assert!(!app.has_unsaved_changes());
    app.section = AppSection::Help;
    app.current_note = Some(0);
    app.insert_char('x');
    app.delete_char();
    assert_eq!(app.notes[0].content, "");
    assert!(!app.has_unsaved_changes());
}

#[test]
fn backspace_on_empty_content_counts_as_a_change() {
    let mut app = app_with(1, 0);
    app.current_note = Some(0);
    app.delete_char();
    assert_eq!(app.notes[0].content, "");
    assert!(app.has_unsaved_changes());
}

#[test]
fn toggle_flips_the_selected_todo() {
    let mut app = app_with(0, 2);
    app.selected_todo = Some(1);
    app.toggle_todo_completion();
    assert!(app.todos[1].completed);
    assert!(!app.todos[0].completed);
    assert_eq!(app.status_message, Some("Todo marked as completed".to_string()));
    assert!(app.has_unsaved_changes());
    app.toggle_todo_completion();
    assert!(!app.todos[1].completed);
    assert_eq!(app.status_message, Some("Todo marked as incomplete".to_string()));
}

#[test]
fn toggle_without_a_todo_changes_nothing() {
    let mut app = app_with(1, 0);
    app.toggle_todo_completion();
    assert_eq!(app.status_message, None);
    assert!(!app.has_unsaved_changes());
}

#[test]
fn deleting_in_the_middle_keeps_the_cursor() {
    let mut app = app_with(3, 0);
    app.selected_note = Some(1);
    app.delete_current_item();
    assert_eq!(titles(&app.notes), vec!["Note 1", "Note 3"]);
    assert_eq!(app.selected_note, Some(1));
    assert_eq!(app.status_message, Some("Note deleted".to_string()));
    assert!(app.has_unsaved_changes());
}

#[test]
fn deleting_the_last_moves_the_cursor_back() {
    let mut app = app_with(3, 0);
    app.selected_note = Some(2);
    app.current_note = Some(2);
    app.delete_current_item();
    assert_eq!(titles(&app.notes), vec!["Note 1", "Note 2"]);
    assert_eq!(app.selected_note, Some(1));
    assert_eq!(app.current_note, Some(1));
}

#[test]
fn deleting_the_only_entry_clears_cursor_and_mark() {
    let mut app = app_with(1, 1);
    app.current_note = Some(0);
    app.delete_current_item();
    assert!(app.notes.is_empty());
    assert_eq!(app.selected_note, None);
    assert_eq!(app.current_note, None);
    assert_eq!(app.todos.len(), 1);
    app.section = AppSection::Todos;
    app.current_todo = Some(0);
    app.delete_current_item();
    assert!(app.todos.is_empty());
    assert_eq!(app.selected_todo, None);
    assert_eq!(app.current_todo, None);
    assert_eq!(app.status_message, Some("Todo deleted".to_string()));
}

#[test]
fn deleting_leaves_a_valid_cursor_for_every_size_and_place() {
    for len in 1..6usize {
        for at in 0..len {
            for open in 0..len {
                let mut app = app_with(len, len);
                app.selected_note = Some(at);
                app.current_note = Some(open);
                app.delete_note();
                assert_eq!(app.notes.len(), len - 1);
                if len == 1 {
                    assert_eq!(app.selected_note, None);
                    assert_eq!(app.current_note, None);
                } else {
                    assert!(app.selected_note.unwrap() < len - 1);
                    assert!(app.current_note.unwrap() < len - 1);
                }
                app.selected_todo = Some(at);
                app.current_todo = Some(open);
                app.delete_todo();
                assert_eq!(app.todos.len(), len - 1);
                if len == 1 {
                    assert_eq!(app.selected_todo, None);
                    assert_eq!(app.current_todo, None);
                } else {
                    assert!(app.selected_todo.unwrap() < len - 1);
                    assert!(app.current_todo.unwrap() < len - 1);
                }
            }
        }
    }
}

#[test]
fn deleting_with_nothing_selected_changes_nothing() {
    let mut app = empty_app();
    app.delete_current_item();
    app.delete_note();
    app.delete_todo();
    assert_eq!(app.status_message, None);
    assert!(!app.has_unsaved_changes());
    let mut app = app_with(2, 2);
    app.section = AppSection::Help;
    app.delete_current_item();
    assert_eq!(app.notes.len(), 2);
    assert_eq!(app.todos.len(), 2);
    assert!(!app.has_unsaved_changes());
    assert!(!app.has_selected_entry());
    app.section = AppSection::Notes;
    assert!(app.has_selected_entry());
}

#[test]
fn rename_puts_the_title_into_the_buffer() {
    let mut app = app_with(2, 1);
    app.selected_note = Some(1);
    app.command_buffer = "junk".to_string();
    app.start_rename();
    assert_eq!(app.command_buffer, "Note 2");
    assert_eq!(app.mode, AppMode::Renaming);
    assert_eq!(app.status_message, Some("Enter new name:".to_string()));
    app.finish_rename("Shopping".to_string());
    assert_eq!(titles(&app.notes), vec!["Note 1", "Shopping"]);
    assert_eq!(app.mode, AppMode::Normal);
    assert_eq!(app.status_message, Some("Note renamed".to_string()));
    assert!(app.has_unsaved_changes());
}

#[test]
fn rename_of_a_todo() {
    let mut app = app_with(1, 2);
    app.section = AppSection::Todos;
    app.start_rename();
    assert_eq!(app.command_buffer, "Todo 1");
    app.finish_rename("Call home".to_string());
    assert_eq!(todo_titles(&app.todos), vec!["Call home", "Todo 2"]);
    assert_eq!(titles(&app.notes), vec!["Note 1"]);
    assert_eq!(app.status_message, Some("Todo renamed".to_string()));
}

#[test]
fn rename_without_an_entry_only_empties_the_buffer() {
    let mut app = empty_app();
    app.command_buffer = "junk".to_string();
    app.start_rename();
    assert_eq!(app.command_buffer, "");
    assert_eq!(app.mode, AppMode::MainMenu);
    assert_eq!(app.status_message, None);
    app.finish_rename("x".to_string());
    assert_eq!(app.mode, AppMode::Normal);
    assert_eq!(app.status_message, None);
    assert!(!app.has_unsaved_changes());
}

#[test]
fn main_menu_closes_the_open_entries() {
    let mut app = app_with(1, 1);
    app.section = AppSection::Todos;
    app.mode = AppMode::Normal;
    app.current_note = Some(0);
    app.current_todo = Some(0);
    app.go_to_main_menu();
    assert_eq!(app.mode, AppMode::MainMenu);
    assert_eq!(app.section, AppSection::Notes);
    assert_eq!(app.status_message, Some("Main Menu".to_string()));
    assert_eq!(app.current_note, None);
    assert_eq!(app.current_todo, None);
    assert_eq!(app.selected_note, Some(0));
}

#[test]
fn help_is_shown() {
    let mut app = empty_app();
    app.show_help();
    assert_eq!(app.mode, AppMode::Help);
    assert_eq!(app.status_message, Some("Help".to_string()));
}

#[test]
fn save_outcome_is_taken_in() {
    let mut app = empty_app();
    app.add_note("t".to_string());
    app.save_data_with_status(Err(NotesError::new(ErrorKind::IoFailure, "disk full")));
    assert_eq!(app.status_message, Some("Error saving data: disk full".to_string()));
    assert!(app.has_unsaved_changes());
    app.save_data_with_status(Ok(()));
    assert_eq!(app.status_message, Some("Data saved successfully".to_string()));
    assert!(!app.has_unsaved_changes());
}

#[test]
fn backup_outcome_is_taken_in() {
    let mut app = empty_app();
    app.backup_data_with_status(Ok("\"/home/u/.terminal_notes/backup_1.json\"".to_string()));
    assert_eq!(
        app.status_message,
        Some("Backup created at: \"/home/u/.terminal_notes/backup_1.json\"".to_string())
    );
    app.backup_data_with_status(Err(NotesError::new(ErrorKind::NotFound, "No data to backup")));
    assert_eq!(app.status_message, Some("Error creating backup: No data to backup".to_string()));
}

#[test]
fn export_outcome_is_taken_in() {
    let mut app = empty_app();
    app.export_data_with_status("csv", Ok("\"/home/u/terminal_notes_export.csv\"".to_string()));
    assert_eq!(
        app.status_message,
        Some("Exported to: \"/home/u/terminal_notes_export.csv\"".to_string())
    );
    app.export_data_with_status("markdown", Err(NotesError::new(ErrorKind::IoFailure, "denied")));
    assert_eq!(app.status_message, Some("Error exporting to markdown: denied".to_string()));
}

#[test]
fn quit_waits_for_unsaved_changes() {
    let mut app = empty_app();
    assert_eq!(app.handle_quit(), Action::Quit);
    assert_eq!(app.status_message, None);
    app.add_note("t".to_string());
    assert_eq!(app.handle_quit(), Action::Nothing);
    assert_eq!(
        app.status_message,
        Some("Unsaved changes! Use :save first or :q! to force quit".to_string())
    );
    app.save_data_with_status(Ok(()));
    assert_eq!(app.handle_quit(), Action::Quit);
}

#[test]
fn snapshot_holds_the_document() {
    let mut app = app_with(2, 1);
    app.current_note = Some(0);
    app.insert_char('x');
    let data = app.save_data();
    assert_eq!(data.notes, app.notes);
    assert_eq!(data.todos, app.todos);
    assert_eq!(data.notes[0].content, "x");
}

#[test]
fn app_exports_its_document() {
    let mut app = app_with(1, 0);
    app.current_note = Some(0);
    app.insert_char('x');
    assert_eq!(
        app.export_data("csv").unwrap(),
        Export::Write(b"Type,Title,Content,Created At,Completed\nNote,Note 1,x,t,\n".to_vec())
    );
    assert_eq!(
        app.export_data("md").unwrap(),
        Export::Write(b"# Notes\n\n## Note 1\n*Created: t*\n\nx\n---\n\n# Todos\n\n".to_vec())
    );
    assert_eq!(app.export_data("json").unwrap(), Export::CopyDocument);
    assert_eq!(app.export_data("pdf").unwrap_err().kind, ErrorKind::InvalidFormat);
}

#[test]
fn app_names_its_backup() {
    let app = empty_app();
    assert_eq!(app.backup_data(false).unwrap_err().kind, ErrorKind::NotFound);
    let name = app.backup_data(true).unwrap();
    assert!(name.starts_with("backup_") && name.ends_with(".json"));
}

#[test]
fn command_with_count_creates_that_many_notes() {
    let mut app = empty_app();
    app.mode = AppMode::Command;
    assert_eq!(run(&mut app, "3nn"), Action::Nothing);
    assert_eq!(titles(&app.notes), vec!["Note 1", "Note 2", "Note 3"]);
    assert!(app.todos.is_empty());
    assert_eq!(app.selected_note, Some(2));
    assert_eq!(app.current_note, Some(2));
    assert_eq!(app.mode, AppMode::Normal);
    assert_eq!(app.command_buffer, "");
    assert!(app.has_unsaved_changes());
}

#[test]
fn command_without_count_creates_one_note() {
    let mut app = empty_app();
    run(&mut app, "nn");
    assert_eq!(titles(&app.notes), vec!["Note 1"]);
    run(&mut app, "  nn  ");
    assert_eq!(titles(&app.notes), vec!["Note 1", "Note 2"]);
}

#[test]
fn command_creates_todos() {
    let mut app = empty_app();
    run(&mut app, "2ntodo");
    assert_eq!(todo_titles(&app.todos), vec!["Todo 1", "Todo 2"]);
    assert!(app.notes.is_empty());
    assert_eq!(app.section, AppSection::Todos);
    assert_eq!(app.selected_todo, Some(1));
    assert_eq!(app.mode, AppMode::Normal);
    run(&mut app, "0ntodo");
    assert_eq!(app.todos.len(), 2);
}

#[test]
fn command_with_count_zero_deletes_nothing() {
    let mut app = app_with(3, 2);
    run(&mut app, "0del");
    assert_eq!(app.notes.len(), 3);
    assert_eq!(app.todos.len(), 2);
    assert_eq!(app.status_message, None);
    assert!(!app.has_unsaved_changes());
    assert_eq!(app.mode, AppMode::Normal);
}

#[test]
fn command_deletes_as_often_as_the_count_says() {
    let mut app = app_with(5, 2);
    app.selected_note = Some(1);
    run(&mut app, "2del");
    assert_eq!(titles(&app.notes), vec!["Note 1", "Note 4", "Note 5"]);
    assert_eq!(app.selected_note, Some(1));
    run(&mut app, "del");
    assert_eq!(titles(&app.notes), vec!["Note 1", "Note 5"]);
    run(&mut app, "9del");
    assert!(app.notes.is_empty());
    assert_eq!(app.selected_note, None);
    assert_eq!(app.todos.len(), 2);
    let most = format!("{}del", usize::MAX);
    app.section = AppSection::Todos;
    run(&mut app, &most);
    assert!(app.todos.is_empty());
    assert_eq!(app.selected_todo, None);
}

#[test]
fn unknown_command_changes_no_entry() {
    let mut app = app_with(2, 2);
    app.mode = AppMode::Command;
    assert_eq!(run(&mut app, "x"), Action::Nothing);
    assert_eq!(app.notes.len(), 2);
    assert_eq!(app.todos.len(), 2);
    assert_eq!(app.status_message, Some("Unknown command: x".to_string()));
    assert_eq!(app.mode, AppMode::Normal);
    assert!(!app.has_unsaved_changes());
    run(&mut app, "4x y");
    assert_eq!(app.status_message, Some("Unknown command: x y".to_string()));
    run(&mut app, "42");
    assert_eq!(app.status_message, Some("Unknown command: 42".to_string()));
    run(&mut app, "");
    assert_eq!(app.status_message, Some("Unknown command: ".to_string()));
}

#[test]
fn rename_command_seeds_the_buffer_and_returns_to_normal() {
    let mut app = app_with(2, 0);
    run(&mut app, "5rnm");
    assert_eq!(app.command_buffer, "Note 1");
    assert_eq!(app.status_message, Some("Enter new name:".to_string()));
    assert_eq!(app.mode, AppMode::Normal);
}

#[test]
fn main_menu_command_resets_section_and_open_entries() {
    let mut app = app_with(1, 1);
    app.section = AppSection::Todos;
    app.current_todo = Some(0);
    run(&mut app, "mm");
    assert_eq!(app.section, AppSection::Notes);
    assert_eq!(app.current_todo, None);
    assert_eq!(app.status_message, Some("Main Menu".to_string()));
    assert_eq!(app.mode, AppMode::Normal);
}

#[test]
fn help_command_stays_in_help() {
    let mut app = empty_app();
    app.mode = AppMode::Command;
    assert_eq!(run(&mut app, "?"), Action::Nothing);
    assert_eq!(app.mode, AppMode::Help);
    assert_eq!(app.status_message, Some("Help".to_string()));
}

#[test]
fn commands_for_the_host() {
    let mut app = empty_app();
    app.mode = AppMode::Command;
    assert_eq!(run(&mut app, "save"), Action::Save);
    assert_eq!(app.mode, AppMode::Normal);
    assert_eq!(run(&mut app, "w"), Action::Save);
    assert_eq!(run(&mut app, "backup"), Action::Backup);
    assert_eq!(run(&mut app, "export-md"), Action::Export(ExportFormat::Markdown));
    assert_eq!(run(&mut app, "export-markdown"), Action::Export(ExportFormat::Markdown));
    assert_eq!(run(&mut app, "export-csv"), Action::Export(ExportFormat::Csv));
    assert_eq!(run(&mut app, "q!"), Action::ForceQuit);
    assert_eq!(app.status_message, None);
    assert_eq!(app.command_buffer, "");
}

#[test]
fn quit_command_waits_for_unsaved_changes() {
    let mut app = empty_app();
    assert_eq!(run(&mut app, "q"), Action::Quit);
    assert_eq!(run(&mut app, "quit"), Action::Quit);
    run(&mut app, "nn");
    assert_eq!(run(&mut app, "q"), Action::Nothing);
    assert_eq!(
        app.status_message,
        Some("Unsaved changes! Use :save first or :q! to force quit".to_string())
    );
    assert_eq!(run(&mut app, "quit"), Action::Nothing);
    assert_eq!(run(&mut app, "q!"), Action::ForceQuit);
    assert_eq!(app.mode, AppMode::Normal);
}
