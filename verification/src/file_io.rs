//! The persistence gateway: what is stored, under which names, and what an
//! export holds. Reading and writing the files is left to the host.

use vstd::prelude::*;
use vstd::string::{StrSliceExecFns, StringExecFns};
use vstd::utf8::encode_utf8;
use crate::csv_sink::{accepts, field_texts, record_bytes, written, CsvSink};
use crate::date::compact_timestamp;
use crate::error::{ErrorKind, NotesError};
use crate::note::{note_views, Note, NoteView};
use crate::text::same_text;
use crate::todo::{todo_views, Todo, TodoView};

verus! {

/// The persisted document: all notes and all todos.
#[derive(Debug, PartialEq, Eq)]
pub struct AppData {
    pub notes: Vec<Note>,
    pub todos: Vec<Todo>,
}

/// What a document holds.
#[verifier::ext_equal]
pub struct AppDataView {
    pub notes: Seq<NoteView>,
    pub todos: Seq<TodoView>,
}

impl View for AppData {
    type V = AppDataView;

    open spec fn view(&self) -> AppDataView {
        AppDataView { notes: note_views(self.notes@), todos: todo_views(self.todos@) }
    }
}

/// What the host found where the document is kept.
#[derive(Debug, PartialEq, Eq)]
pub enum Stored {
    /// There is no document yet.
    Absent,
    /// There is one, but it could not be read; the text says why.
    Unreadable(String),
    /// There is one, but it is not a document; the text says why.
    Malformed(String),
    /// The document.
    Document(AppData),
}

/// What the host has to put at the place of an export.
#[derive(Debug, PartialEq, Eq)]
pub enum Export {
    /// A verbatim copy of the persisted document.
    CopyDocument,
    /// These bytes.
    Write(Vec<u8>),
}

/// The gateway. It knows the names under which the data is kept, relative
/// to the user's home directory.
#[derive(Debug, PartialEq, Eq)]
pub struct FileIO {
    /// The directory that holds the document and its backups.
    pub data_dir: String,
    /// The file in that directory that holds the document.
    pub app_file: String,
}

/// The text that stands for a truth value.
pub open spec fn truth(b: bool) -> Seq<char> {
    if b {
        "true"@
    } else {
        "false"@
    }
}

/// The fields of the first row of a CSV export.
pub open spec fn header_row() -> Seq<Seq<char>> {
    seq!["Type"@, "Title"@, "Content"@, "Created At"@, "Completed"@]
}

/// The fields of a note's row.
pub open spec fn note_row(note: NoteView) -> Seq<Seq<char>> {
    seq!["Note"@, note.title, note.content, note.created_at, ""@]
}

/// The fields of a todo's row.
pub open spec fn todo_row(todo: TodoView) -> Seq<Seq<char>> {
    seq!["Todo"@, todo.title, todo.content, todo.created_at, truth(todo.completed)]
}

/// The rows of the notes, one after the other.
pub open spec fn note_records(notes: Seq<NoteView>) -> Seq<u8>
    decreases notes.len(),
{
    if notes.len() == 0 {
        Seq::empty()
    } else {
        note_records(notes.drop_last()) + record_bytes(note_row(notes.last()))
    }
}

/// The rows of the todos, one after the other.
pub open spec fn todo_records(todos: Seq<TodoView>) -> Seq<u8>
    decreases todos.len(),
{
    if todos.len() == 0 {
        Seq::empty()
    } else {
        todo_records(todos.drop_last()) + record_bytes(todo_row(todos.last()))
    }
}

/// A CSV export: the header row, then the notes, then the todos.
pub open spec fn csv_document(notes: Seq<NoteView>, todos: Seq<TodoView>) -> Seq<u8> {
    record_bytes(header_row()) + note_records(notes) + todo_records(todos)
}

/// The part of a Markdown export that shows one entry under `heading`.
pub open spec fn section(heading: Seq<char>, created_at: Seq<char>, content: Seq<char>) -> Seq<
    char,
> {
    "## "@ + heading + "\n"@ + "*Created: "@ + created_at + "*\n\n"@ + content + "\n---\n\n"@
}

/// The mark in front of a todo's title.
pub open spec fn checkbox(completed: bool) -> Seq<char> {
    if completed {
        "\u{2713}"@
    } else {
        "\u{2610}"@
    }
}

/// The part of a Markdown export that shows a note.
pub open spec fn note_section(note: NoteView) -> Seq<char> {
    section(note.title, note.created_at, note.content)
}

/// The part of a Markdown export that shows a todo.
pub open spec fn todo_section(todo: TodoView) -> Seq<char> {
    section(checkbox(todo.completed) + " "@ + todo.title, todo.created_at, todo.content)
}

/// The sections of the notes, one after the other.
pub open spec fn note_sections(notes: Seq<NoteView>) -> Seq<char>
    decreases notes.len(),
{
    if notes.len() == 0 {
        Seq::empty()
    } else {
        note_sections(notes.drop_last()) + note_section(notes.last())
    }
}

/// The sections of the todos, one after the other.
pub open spec fn todo_sections(todos: Seq<TodoView>) -> Seq<char>
    decreases todos.len(),
{
    if todos.len() == 0 {
        Seq::empty()
    } else {
        todo_sections(todos.drop_last()) + todo_section(todos.last())
    }
}

/// A Markdown export: the notes under one heading, the todos under another.
pub open spec fn markdown_document(notes: Seq<NoteView>, todos: Seq<TodoView>) -> Seq<char> {
    "# Notes\n\n"@ + note_sections(notes) + "# Todos\n\n"@ + todo_sections(todos)
}

/// The name of a backup taken at the time that `stamp` writes.
pub open spec fn backup_name(stamp: Seq<char>) -> Seq<char> {
    "backup_"@ + stamp + ".json"@
}

/// The file name extension of an export in the format `format`.
pub open spec fn export_extension(format: Seq<char>) -> Seq<char> {
    if format == "markdown"@ {
        "md"@
    } else {
        "csv"@
    }
}

/// The name of the file that an export in the format `format` goes to.
pub open spec fn export_name(format: Seq<char>) -> Seq<char> {
    "terminal_notes_export."@ + export_extension(format)
}

/// What an export in the format `format` holds: `Ok(None)` for a copy of
/// the persisted document, `Ok(Some(bytes))` for bytes to write, `Err` for
/// a format that is not supported.
pub open spec fn export_of(format: Seq<char>, notes: Seq<NoteView>, todos: Seq<TodoView>) -> Result<
    Option<Seq<u8>>,
    ErrorKind,
> {
    if format == "json"@ {
        Ok(None)
    } else if format == "csv"@ {
        Ok(Some(csv_document(notes, todos)))
    } else if format == "markdown"@ || format == "md"@ {
        Ok(Some(encode_utf8(markdown_document(notes, todos))))
    } else {
        Err(ErrorKind::InvalidFormat)
    }
}

/// What loading yields from what was found: the stored document, an empty
/// one where there is none yet, and no document where the stored one
/// cannot be read or understood.
pub open spec fn loaded(stored: Stored) -> Result<AppDataView, ErrorKind> {
    match stored {
        Stored::Absent => Ok(AppDataView { notes: Seq::empty(), todos: Seq::empty() }),
        Stored::Unreadable(_) => Err(ErrorKind::IoFailure),
        Stored::Malformed(_) => Err(ErrorKind::ParseFailure),
        Stored::Document(data) => Ok(data@),
    }
}

/// Appends to `out` the section of an entry.
fn push_section(out: &mut String, mark: &str, title: &str, created_at: &str, content: &str)
    ensures
        final(out)@ == old(out)@ + section(mark@ + title@, created_at@, content@),
{
    out.append("## ");
    out.append(mark);
    out.append(title);
    out.append("\n");
    out.append("*Created: ");
    out.append(created_at);
    out.append("*\n\n");
    out.append(content);
    out.append("\n---\n\n");
    assert(out@ =~= old(out)@ + section(mark@ + title@, created_at@, content@));
}

/// A copy of `notes`.
pub fn copy_notes(notes: &[Note]) -> (r: Vec<Note>)
    ensures
        note_views(r@) == note_views(notes@),
{
    let mut out: Vec<Note> = Vec::new();
    let mut i: usize = 0;
    while i < notes.len()
        invariant
            i <= notes.len(),
            note_views(out@) == note_views(notes@).take(i as int),
        decreases notes.len() - i,
    {
        let ghost before = out@;
        let note = notes[i].clone();
        out.push(note);
        i += 1;
        assert(note_views(out@) =~= note_views(before).push(note@));
        assert(note_views(out@) =~= note_views(notes@).take(i as int));
    }
    assert(note_views(notes@).take(i as int) =~= note_views(notes@));
    out
}

/// A copy of `todos`.
pub fn copy_todos(todos: &[Todo]) -> (r: Vec<Todo>)
    ensures
        todo_views(r@) == todo_views(todos@),
{
    let mut out: Vec<Todo> = Vec::new();
    let mut i: usize = 0;
    while i < todos.len()
        invariant
            i <= todos.len(),
            todo_views(out@) == todo_views(todos@).take(i as int),
        decreases todos.len() - i,
    {
        let ghost before = out@;
        let todo = todos[i].clone();
        out.push(todo);
        i += 1;
        assert(todo_views(out@) =~= todo_views(before).push(todo@));
        assert(todo_views(out@) =~= todo_views(todos@).take(i as int));
    }
    assert(todo_views(todos@).take(i as int) =~= todo_views(todos@));
    out
}

/// The name of a backup taken at the time that `stamp` writes.
pub fn backup_file_name(stamp: &str) -> (name: String)
    ensures
        name@ == backup_name(stamp@),
{
    let mut name = String::from_str("backup_");
    name.append(stamp);
    name.append(".json");
    name
}

/// The name of the file that an export in the format `format` goes to:
/// `terminal_notes_export.md` for `markdown`, `terminal_notes_export.csv`
/// for any other format.
pub fn export_file_name(format: &str) -> (name: String)
    ensures
        name@ == export_name(format@),
{
    let mut name = String::from_str("terminal_notes_export.");
    if same_text(format, "markdown") {
        name.append("md");
    } else {
        name.append("csv");
    }
    name
}

impl FileIO {
    /// The gateway to `.terminal_notes/data.json`.
    pub fn new() -> (io: FileIO)
        ensures
            io.data_dir@ == ".terminal_notes"@,
            io.app_file@ == "data.json"@,
    {
        FileIO { data_dir: String::from_str(".terminal_notes"), app_file: String::from_str("data.json") }
    }

    /// The document to persist: a copy of all notes and all todos.
    pub fn save_data(&self, notes: &[Note], todos: &[Todo]) -> (data: AppData)
        ensures
            data@ == (AppDataView { notes: note_views(notes@), todos: todo_views(todos@) }),
    {
        AppData { notes: copy_notes(notes), todos: copy_todos(todos) }
    }

    /// The notes and todos to start with, given what was found where the
    /// document is kept. No document yet means an empty start; one that
    /// cannot be read or understood is a failure.
    pub fn load_data(&self, stored: Stored) -> (r: Result<(Vec<Note>, Vec<Todo>), NotesError>)
        ensures
            match loaded(stored) {
                Ok(data) => r matches Ok((notes, todos)) && note_views(notes@) == data.notes
                    && todo_views(todos@) == data.todos,
                Err(kind) => r matches Err(e) && e.kind == kind,
            },
            stored matches Stored::Unreadable(text) ==> (r matches Err(e) && e.message@ == text@),
            stored matches Stored::Malformed(text) ==> (r matches Err(e) && e.message@ == text@),
    {
        match stored {
            Stored::Absent => {
                let notes: Vec<Note> = Vec::new();
                let todos: Vec<Todo> = Vec::new();
                assert(note_views(notes@) =~= Seq::<NoteView>::empty());
                assert(todo_views(todos@) =~= Seq::<TodoView>::empty());
                Ok((notes, todos))
            },
            Stored::Unreadable(text) => Err(NotesError { kind: ErrorKind::IoFailure, message: text }),
            Stored::Malformed(text) => Err(
                NotesError { kind: ErrorKind::ParseFailure, message: text },
            ),
            Stored::Document(data) => Ok((data.notes, data.todos)),
        }
    }

    /// The name of a backup of the document taken at the time that `stamp`
    /// writes, or a failure where there is no document to back up.
    pub fn backup_data_at(&self, document_exists: bool, stamp: &str) -> (r: Result<
        String,
        NotesError,
    >)
        ensures
            document_exists ==> (r matches Ok(name) && name@ == backup_name(stamp@)),
            !document_exists ==> (r matches Err(e) && e.kind == ErrorKind::NotFound && e.message@
                == "No data to backup"@),
    {
        if !document_exists {
            return Err(NotesError::new(ErrorKind::NotFound, "No data to backup"));
        }
        Ok(backup_file_name(stamp))
    }

    /// The name of a backup of the document taken now, or a failure where
    /// there is no document to back up.
    pub fn backup_data(&self, document_exists: bool) -> (r: Result<String, NotesError>)
        ensures
            document_exists ==> (r matches Ok(name) && exists|stamp: Seq<char>|
                name@ == backup_name(stamp)),
            !document_exists ==> (r matches Err(e) && e.kind == ErrorKind::NotFound && e.message@
                == "No data to backup"@),
    {
        let stamp = compact_timestamp();
        let r = self.backup_data_at(document_exists, stamp.as_str());
        proof {
            if document_exists {
                assert(r->Ok_0@ == backup_name(stamp@));
            }
        }
        r
    }

    /// The CSV export of the document: a header row, a row for each note
    /// and a row for each todo.
    pub fn export_csv(&self, notes: &[Note], todos: &[Todo]) -> (r: Result<Vec<u8>, NotesError>)
        ensures
            r matches Ok(bytes) && bytes@ == csv_document(note_views(notes@), todo_views(todos@)),
    {
        let mut sink = CsvSink::new();
        let mut header: Vec<&str> = Vec::new();
        header.push("Type");
        header.push("Title");
        header.push("Content");
        header.push("Created At");
        header.push("Completed");
        assert(field_texts(header@) =~= header_row());
        assert(accepts(sink, 5));
        if sink.write_record(&header).is_err() {
            return Err(NotesError::new(ErrorKind::IoFailure, "CSV encoding failed"));
        }
        let mut i: usize = 0;
        while i < notes.len()
            invariant
                i <= notes.len(),
                accepts(sink, 5),
                written(sink) == record_bytes(header_row()) + note_records(
                    note_views(notes@).take(i as int),
                ),
            decreases notes.len() - i,
        {
            let note = &notes[i];
            let mut row: Vec<&str> = Vec::new();
            row.push("Note");
            row.push(note.title.as_str());
            row.push(note.content.as_str());
            row.push(note.created_at.as_str());
            row.push("");
            proof {
                let views = note_views(notes@);
                assert(field_texts(row@) =~= note_row(views[i as int]));
                assert(views.take(i + 1).drop_last() =~= views.take(i as int));
                assert(views.take(i + 1).last() == views[i as int]);
            }
            if sink.write_record(&row).is_err() {
                return Err(NotesError::new(ErrorKind::IoFailure, "CSV encoding failed"));
            }
            i += 1;
            assert(written(sink) =~= record_bytes(header_row()) + note_records(
                note_views(notes@).take(i as int),
            ));
        }
        assert(note_views(notes@).take(i as int) =~= note_views(notes@));
        let mut j: usize = 0;
        while j < todos.len()
            invariant
                j <= todos.len(),
                accepts(sink, 5),
                written(sink) == record_bytes(header_row()) + note_records(note_views(notes@))
                    + todo_records(todo_views(todos@).take(j as int)),
            decreases todos.len() - j,
        {
            let todo = &todos[j];
            let mut row: Vec<&str> = Vec::new();
            row.push("Todo");
            row.push(todo.title.as_str());
            row.push(todo.content.as_str());
            row.push(todo.created_at.as_str());
            row.push(if todo.completed { "true" } else { "false" });
            proof {
                let views = todo_views(todos@);
                assert(field_texts(row@) =~= todo_row(views[j as int]));
                assert(views.take(j + 1).drop_last() =~= views.take(j as int));
                assert(views.take(j + 1).last() == views[j as int]);
            }
            if sink.write_record(&row).is_err() {
                return Err(NotesError::new(ErrorKind::IoFailure, "CSV encoding failed"));
            }
            j += 1;
            assert(written(sink) =~= record_bytes(header_row()) + note_records(note_views(notes@))
                + todo_records(todo_views(todos@).take(j as int)));
        }
        assert(todo_views(todos@).take(j as int) =~= todo_views(todos@));
        match sink.into_bytes() {
            Some(bytes) => Ok(bytes),
            None => Err(NotesError::new(ErrorKind::IoFailure, "CSV encoding failed")),
        }
    }

    /// The Markdown export of the document: the notes under the heading
    /// `Notes`, the todos under the heading `Todos`, each entry with its
    /// title, its creation time, its content and a rule.
    pub fn export_markdown(&self, notes: &[Note], todos: &[Todo]) -> (text: String)
        ensures
            text@ == markdown_document(note_views(notes@), todo_views(todos@)),
    {
        let mut out = String::from_str("# Notes\n\n");
        let mut i: usize = 0;
        while i < notes.len()
            invariant
                i <= notes.len(),
                out@ == "# Notes\n\n"@ + note_sections(note_views(notes@).take(i as int)),
            decreases notes.len() - i,
        {
            let note = &notes[i];
            proof {
                let views = note_views(notes@);
                assert(views.take(i + 1).drop_last() =~= views.take(i as int));
                assert(views.take(i + 1).last() == views[i as int]);
                reveal_strlit("");
                assert(""@ + note.title@ =~= note.title@);
            }
            push_section(
                &mut out,
                "",
                note.title.as_str(),
                note.created_at.as_str(),
                note.content.as_str(),
            );
            i += 1;
            assert(out@ =~= "# Notes\n\n"@ + note_sections(note_views(notes@).take(i as int)));
        }
        assert(note_views(notes@).take(i as int) =~= note_views(notes@));
        out.append("# Todos\n\n");
        let mut j: usize = 0;
        while j < todos.len()
            invariant
                j <= todos.len(),
                out@ == "# Notes\n\n"@ + note_sections(note_views(notes@)) + "# Todos\n\n"@
                    + todo_sections(todo_views(todos@).take(j as int)),
            decreases todos.len() - j,
        {
            let todo = &todos[j];
            let mark = if todo.completed { "\u{2713} " } else { "\u{2610} " };
            proof {
                let views = todo_views(todos@);
                assert(views.take(j + 1).drop_last() =~= views.take(j as int));
                assert(views.take(j + 1).last() == views[j as int]);
                reveal_strlit("\u{2713} ");
                reveal_strlit("\u{2610} ");
                reveal_strlit("\u{2713}");
                reveal_strlit("\u{2610}");
                reveal_strlit(" ");
                assert(mark@ =~= checkbox(todo.completed) + " "@);
            }
            push_section(
                &mut out,
                mark,
                todo.title.as_str(),
                todo.created_at.as_str(),
                todo.content.as_str(),
            );
            j += 1;
            assert(out@ =~= "# Notes\n\n"@ + note_sections(note_views(notes@)) + "# Todos\n\n"@
                + todo_sections(todo_views(todos@).take(j as int)));
        }
        assert(todo_views(todos@).take(j as int) =~= todo_views(todos@));
        out
    }

    /// What an export of the document in the format `format` has to put at
    /// its place: a copy of the persisted document for `json`, the CSV
    /// table for `csv`, the Markdown text for `markdown` and `md`. Any
    /// other format is refused.
    pub fn export_data(&self, format: &str, notes: &[Note], todos: &[Todo]) -> (r: Result<
        Export,
        NotesError,
    >)
        ensures
            match export_of(format@, note_views(notes@), todo_views(todos@)) {
                Ok(None) => r matches Ok(Export::CopyDocument),
                Ok(Some(bytes)) => r matches Ok(Export::Write(b)) && b@ == bytes,
                Err(kind) => r matches Err(e) && e.kind == kind && e.message@
                    == "Unsupported format"@,
            },
    {
        if same_text(format, "json") {
            Ok(Export::CopyDocument)
        } else if same_text(format, "csv") {
            match self.export_csv(notes, todos) {
                Ok(bytes) => Ok(Export::Write(bytes)),
                Err(e) => Err(e),
            }
        } else if same_text(format, "markdown") || same_text(format, "md") {
            let text = self.export_markdown(notes, todos);
            Ok(Export::Write(text.as_str().as_bytes_vec()))
        } else {
            Err(NotesError::new(ErrorKind::InvalidFormat, "Unsupported format"))
        }
    }
}

/// An export depends on the format and on the notes and todos alone: from
/// the same document the same format yields the same bytes.
pub proof fn lemma_export_is_repeatable(format: Seq<char>, first: AppDataView, second: AppDataView)
    requires
        first.notes == second.notes,
        first.todos == second.todos,
    ensures
        export_of(format, first.notes, first.todos) == export_of(
            format,
            second.notes,
            second.todos,
        ),
{
}

/// Loading what saving has stored yields the notes and todos that were
/// saved, in their order.
pub proof fn lemma_load_after_save(data: AppData)
    ensures
        loaded(Stored::Document(data)) == Ok::<AppDataView, ErrorKind>(data@),
{
}

} // verus!
