use terminal_notes::error::ErrorKind;
use terminal_notes::file_io::{
    backup_file_name, copy_notes, copy_todos, export_file_name, AppData, Export, FileIO, Stored,
};
use terminal_notes::note::Note;
use terminal_notes::todo::Todo;

fn note(title: &str, content: &str, created_at: &str) -> Note {
    let mut note = Note::new(title.to_string(), created_at.to_string());
    note.content = content.to_string();
    note
}

fn todo(title: &str, content: &str, created_at: &str, completed: bool) -> Todo {
    let mut todo = Todo::new(title.to_string(), created_at.to_string());
    todo.content = content.to_string();
    todo.completed = completed;
    todo
}

#[test]
fn gateway_names() {
    let io = FileIO::new();
    assert_eq!(io.data_dir, ".terminal_notes");
    assert_eq!(io.app_file, "data.json");
}

#[test]
fn csv_of_empty_document_is_the_header() {
    let io = FileIO::new();
    let bytes = io.export_csv(&[], &[]).unwrap();
    assert_eq!(String::from_utf8(bytes).unwrap(), "Type,Title,Content,Created At,Completed\n");
}

#[test]
fn csv_lists_notes_then_todos() {
    let io = FileIO::new();
    let notes = vec![note("Note 1", "hello", "2024-01-01"), note("Note 2", "", "2024-01-02")];
    let todos = vec![todo("Todo 1", "buy milk", "2024-01-03", false), todo("Todo 2", "", "2024-01-04", true)];
    let bytes = io.export_csv(&notes, &todos).unwrap();
    assert_eq!(
        String::from_utf8(bytes).unwrap(),
        "Type,Title,Content,Created At,Completed\n\
         Note,Note 1,hello,2024-01-01,\n\
         Note,Note 2,,2024-01-02,\n\
         Todo,Todo 1,buy milk,2024-01-03,false\n\
         Todo,Todo 2,,2024-01-04,true\n"
    );
}

#[test]
fn csv_quotes_where_needed() {
    let io = FileIO::new();
    let notes = vec![note("a,b", "line one\nline \"two\"", "t")];
    let bytes = io.export_csv(&notes, &[]).unwrap();
    assert_eq!(
        String::from_utf8(bytes).unwrap(),
        "Type,Title,Content,Created At,Completed\nNote,\"a,b\",\"line one\nline \"\"two\"\"\",t,\n"
    );
}

#[test]
fn csv_of_many_rows_is_complete() {
    let io = FileIO::new();
    let mut notes = Vec::new();
    let mut expected = String::from("Type,Title,Content,Created At,Completed\n");
    for i in 0..2000 {
        let content = "x".repeat(i % 97);
        notes.push(note(&format!("Note {}", i + 1), &content, "t"));
        expected.push_str(&format!("Note,Note {},{},t,\n", i + 1, content));
    }
    let bytes = io.export_csv(&notes, &[]).unwrap();
    assert_eq!(String::from_utf8(bytes).unwrap(), expected);
}

#[test]
fn markdown_of_empty_document_has_both_headings() {
    let io = FileIO::new();
    assert_eq!(io.export_markdown(&[], &[]), "# Notes\n\n# Todos\n\n");
}

#[test]
fn markdown_lists_notes_then_todos() {
    let io = FileIO::new();
    let notes = vec![note("Note 1", "hello\nworld", "2024-01-01")];
    let todos = vec![todo("Todo 1", "buy milk", "2024-01-03", false), todo("Todo 2", "", "2024-01-04", true)];
    assert_eq!(
        io.export_markdown(&notes, &todos),
        "# Notes\n\n\
         ## Note 1\n*Created: 2024-01-01*\n\nhello\nworld\n---\n\n\
         # Todos\n\n\
         ## \u{2610} Todo 1\n*Created: 2024-01-03*\n\nbuy milk\n---\n\n\
         ## \u{2713} Todo 2\n*Created: 2024-01-04*\n\n\n---\n\n"
    );
}

#[test]
fn export_by_format() {
    let io = FileIO::new();
    let notes = vec![note("Note 1", "hello", "2024-01-01")];
    let todos = vec![todo("Todo 1", "x", "2024-01-03", true)];
    assert_eq!(io.export_data("json", &notes, &todos).unwrap(), Export::CopyDocument);
    assert_eq!(
        io.export_data("csv", &notes, &todos).unwrap(),
        Export::Write(io.export_csv(&notes, &todos).unwrap())
    );
    let markdown = io.export_markdown(&notes, &todos).into_bytes();
    assert_eq!(io.export_data("markdown", &notes, &todos).unwrap(), Export::Write(markdown.clone()));
    assert_eq!(io.export_data("md", &notes, &todos).unwrap(), Export::Write(markdown));
}

#[test]
fn export_in_unknown_format_is_refused() {
    let io = FileIO::new();
    for format in ["xml", "", "JSON", "csv ", "markdown2"] {
        let e = io.export_data(format, &[], &[]).unwrap_err();
        assert_eq!(e.kind, ErrorKind::InvalidFormat);
        assert_eq!(e.message, "Unsupported format");
    }
}

#[test]
fn export_twice_gives_the_same_bytes() {
    let io = FileIO::new();
    let notes = vec![note("Note 1", "hello, \"you\"", "2024-01-01"), note("Note 2", "", "t")];
    let todos = vec![todo("Todo 1", "x", "2024-01-03", true)];
    for format in ["json", "csv", "markdown", "md"] {
        let first = io.export_data(format, &notes, &todos).unwrap();
        let second = io.export_data(format, &notes, &todos).unwrap();
        assert_eq!(first, second);
    }
}

#[test]
fn export_file_names() {
    assert_eq!(export_file_name("markdown"), "terminal_notes_export.md");
    assert_eq!(export_file_name("csv"), "terminal_notes_export.csv");
    assert_eq!(export_file_name("md"), "terminal_notes_export.csv");
    assert_eq!(export_file_name("json"), "terminal_notes_export.csv");
}

#[test]
fn backup_file_names() {
    assert_eq!(backup_file_name("20240315_101500"), "backup_20240315_101500.json");
    assert_eq!(backup_file_name(""), "backup_.json");
}

#[test]
fn backup_needs_a_document() {
    let io = FileIO::new();
    let e = io.backup_data(false).unwrap_err();
    assert_eq!(e.kind, ErrorKind::NotFound);
    assert_eq!(e.message, "No data to backup");
    let e = io.backup_data_at(false, "20240315_101500").unwrap_err();
    assert_eq!(e.kind, ErrorKind::NotFound);
    assert_eq!(e.message, "No data to backup");
}

#[test]
fn backup_is_named_by_its_time() {
    let io = FileIO::new();
    assert_eq!(io.backup_data_at(true, "20240315_101500").unwrap(), "backup_20240315_101500.json");
    let name = io.backup_data(true).unwrap();
    assert!(name.starts_with("backup_"));
    assert!(name.ends_with(".json"));
    let stamp = &name["backup_".len()..name.len() - ".json".len()];
    assert_eq!(stamp.len(), 15);
    assert!(chrono::NaiveDateTime::parse_from_str(stamp, "%Y%m%d_%H%M%S").is_ok());
}

#[test]
fn loading_without_a_document_starts_empty() {
    let io = FileIO::new();
    let (notes, todos) = io.load_data(Stored::Absent).unwrap();
    assert!(notes.is_empty());
    assert!(todos.is_empty());
}

#[test]
fn loading_a_broken_document_fails() {
    let io = FileIO::new();
    let e = io.load_data(Stored::Malformed("expected value at line 1".to_string())).unwrap_err();
    assert_eq!(e.kind, ErrorKind::ParseFailure);
    assert_eq!(e.message, "expected value at line 1");
    let e = io.load_data(Stored::Unreadable("permission denied".to_string())).unwrap_err();
    assert_eq!(e.kind, ErrorKind::IoFailure);
    assert_eq!(e.message, "permission denied");
}

#[test]
fn loading_what_was_saved_gives_it_back() {
    let io = FileIO::new();
    let mut first = note("Note 1", "hello", "2024-01-01");
    first.add_tag("a".to_string());
    let notes = vec![first, note("Note 2", "", "t")];
    let mut task = todo("Todo 1", "x", "2024-01-03", true);
    task.due_date = Some("2024-02-01".to_string());
    let todos = vec![task];
    let saved = io.save_data(&notes, &todos);
    assert_eq!(saved, AppData { notes: notes.clone(), todos: todos.clone() });
    let (loaded_notes, loaded_todos) = io.load_data(Stored::Document(saved)).unwrap();
    assert_eq!(loaded_notes, notes);
    assert_eq!(loaded_todos, todos);
}

#[test]
fn copies_are_equal() {
    let notes = vec![note("Note 1", "hello", "2024-01-01"), note("Note 2", "", "t")];
    let todos = vec![todo("Todo 1", "x", "2024-01-03", true)];
    assert_eq!(copy_notes(&notes), notes);
    assert_eq!(copy_todos(&todos), todos);
    assert!(copy_notes(&[]).is_empty());
    assert!(copy_todos(&[]).is_empty());
}
