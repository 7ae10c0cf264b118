//! The command line: a repeat count, a command word, and what they do.

use vstd::prelude::*;
use crate::app::{Action, App, AppMode, AppView, ExportFormat};
use crate::laws::lemma_execute_command_keeps_order;
use crate::text::{chars_of, joined, same_text, text_of, trim, trimmed};

verus! {

/// What a command word stands for.
#[derive(Clone, Copy, Debug, PartialEq, Eq, Structural)]
pub enum Command {
    NewNote,
    NewTodo,
    Delete,
    Rename,
    MainMenu,
    Help,
    Save,
    Backup,
    ExportMarkdown,
    ExportCsv,
    Quit,
    ForceQuit,
    Unknown,
}

/// Whether `c` is one of the digits `0` to `9`.
pub open spec fn is_digit(c: char) -> bool {
    '0' <= c <= '9'
}

/// The number of digits that `s` starts with.
pub open spec fn digit_run(s: Seq<char>) -> nat
    decreases s.len(),
{
    if s.len() > 0 && is_digit(s[0]) {
        1 + digit_run(s.drop_first())
    } else {
        0
    }
}

/// The number that the digits `s` write in decimal notation.
pub open spec fn digits_value(s: Seq<char>) -> nat
    decreases s.len(),
{
    if s.len() == 0 {
        0
    } else {
        10 * digits_value(s.drop_last()) + (s.last() as nat - '0' as nat) as nat
    }
}

/// The repeat count and the command word of a trimmed command line. A line
/// that starts with digits and goes on with something else is a count and
/// a word, provided the count fits the machine; any other line is a word to
/// be executed once.
pub open spec fn parse_count(line: Seq<char>) -> (nat, Seq<char>) {
    let run = digit_run(line);
    let count = digits_value(line.take(run as int));
    if 0 < run < line.len() && count <= usize::MAX {
        (count, line.skip(run as int))
    } else {
        (1, line)
    }
}

/// What the command word `word` stands for.
pub open spec fn command_of(word: Seq<char>) -> Command {
    if word == "nn"@ {
        Command::NewNote
    } else if word == "ntodo"@ {
        Command::NewTodo
    } else if word == "del"@ {
        Command::Delete
    } else if word == "rnm"@ {
        Command::Rename
    } else if word == "mm"@ {
        Command::MainMenu
    } else if word == "?"@ {
        Command::Help
    } else if word == "save"@ || word == "w"@ {
        Command::Save
    } else if word == "backup"@ {
        Command::Backup
    } else if word == "export-md"@ || word == "export-markdown"@ {
        Command::ExportMarkdown
    } else if word == "export-csv"@ {
        Command::ExportCsv
    } else if word == "q"@ || word == "quit"@ {
        Command::Quit
    } else if word == "q!"@ {
        Command::ForceQuit
    } else {
        Command::Unknown
    }
}

/// The digits that `s` starts with are exactly its first `k` characters.
pub proof fn lemma_digit_run(s: Seq<char>, k: int)
    requires
        0 <= k <= s.len(),
        forall|i: int| 0 <= i < k ==> is_digit(#[trigger] s[i]),
        k == s.len() || !is_digit(s[k]),
    ensures
        digit_run(s) == k,
    decreases k,
{
    if k > 0 {
        assert(is_digit(s[0]));
        let t = s.drop_first();
        assert forall|i: int| 0 <= i < k - 1 implies is_digit(#[trigger] t[i]) by {
            assert(t[i] == s[i + 1]);
        }
        lemma_digit_run(t, k - 1);
    }
}

/// Whether `c` is one of the digits `0` to `9`.
pub fn is_decimal_digit(c: char) -> (r: bool)
    ensures
        r == is_digit(c),
{
    let u: u32 = c as u32;
    48 <= u && u <= 57
}

/// What the command word `word` stands for.
pub fn classify(word: &str) -> (command: Command)
    ensures
        command == command_of(word@),
{
    if same_text(word, "nn") {
        Command::NewNote
    } else if same_text(word, "ntodo") {
        Command::NewTodo
    } else if same_text(word, "del") {
        Command::Delete
    } else if same_text(word, "rnm") {
        Command::Rename
    } else if same_text(word, "mm") {
        Command::MainMenu
    } else if same_text(word, "?") {
        Command::Help
    } else if same_text(word, "save") || same_text(word, "w") {
        Command::Save
    } else if same_text(word, "backup") {
        Command::Backup
    } else if same_text(word, "export-md") || same_text(word, "export-markdown") {
        Command::ExportMarkdown
    } else if same_text(word, "export-csv") {
        Command::ExportCsv
    } else if same_text(word, "q") || same_text(word, "quit") {
        Command::Quit
    } else if same_text(word, "q!") {
        Command::ForceQuit
    } else {
        Command::Unknown
    }
}

impl AppView {
    /// The state after notes were created one after the other at the times
    /// that `stamps` write.
    pub open spec fn with_new_notes(self, stamps: Seq<Seq<char>>) -> AppView
        decreases stamps.len(),
    {
        if stamps.len() == 0 {
            self
        } else {
            self.with_new_notes(stamps.drop_last()).with_new_note(stamps.last())
        }
    }

    /// The state after todos were created one after the other at the times
    /// that `stamps` write.
    pub open spec fn with_new_todos(self, stamps: Seq<Seq<char>>) -> AppView
        decreases stamps.len(),
    {
        if stamps.len() == 0 {
            self
        } else {
            self.with_new_todos(stamps.drop_last()).with_new_todo(stamps.last())
        }
    }

    /// The state after `count` deletions of the entry under the cursor.
    pub open spec fn delete_repeated(self, count: nat) -> AppView
        decreases count,
    {
        if count == 0 {
            self
        } else {
            self.delete_repeated((count - 1) as nat).delete_current_item()
        }
    }

    /// The repeat count of the command line in the buffer.
    pub open spec fn command_count(self) -> nat {
        parse_count(trimmed(self.command_buffer)).0
    }

    /// The command word of the command line in the buffer.
    pub open spec fn command_word(self) -> Seq<char> {
        parse_count(trimmed(self.command_buffer)).1
    }

    /// How often executing the command line in the buffer reads the clock:
    /// once for each entry that it creates.
    pub open spec fn clock_reads(self) -> nat {
        match command_of(self.command_word()) {
            Command::NewNote | Command::NewTodo => self.command_count(),
            _ => 0,
        }
    }

    /// The state after `command` was carried out `count` times where that
    /// has a meaning, `word` being the command word and `stamps` what the
    /// clock showed at each reading. What is left to the host changes
    /// nothing here.
    pub open spec fn dispatch(
        self,
        command: Command,
        count: nat,
        word: Seq<char>,
        stamps: Seq<Seq<char>>,
    ) -> AppView {
        match command {
            Command::NewNote => self.with_new_notes(stamps),
            Command::NewTodo => self.with_new_todos(stamps),
            Command::Delete => self.delete_repeated(count),
            Command::Rename => self.start_rename(),
            Command::MainMenu => self.go_to_main_menu(),
            Command::Help => self.show_help(),
            Command::Quit => self.handle_quit(),
            Command::Unknown => AppView {
                status_message: Some("Unknown command: "@ + word),
                ..self
            },
            Command::Save
            | Command::Backup
            | Command::ExportMarkdown
            | Command::ExportCsv
            | Command::ForceQuit => self,
        }
    }

    /// The state after the command line in the buffer was executed,
    /// `stamps` being what the clock showed at each reading: the buffer is
    /// empty, the command has had its effect, and the mode is normal again
    /// unless the command was the one for help.
    pub open spec fn execute_command(self, stamps: Seq<Seq<char>>) -> AppView {
        let command = command_of(self.command_word());
        let ready = AppView { command_buffer: Seq::empty(), ..self };
        let done = ready.dispatch(command, self.command_count(), self.command_word(), stamps);
        if command != Command::Help {
            AppView { mode: AppMode::Normal, ..done }
        } else {
            done
        }
    }

    /// What executing the command line in the buffer asks of the host.
    pub open spec fn command_action(self) -> Action {
        match command_of(self.command_word()) {
            Command::Save => Action::Save,
            Command::Backup => Action::Backup,
            Command::ExportMarkdown => Action::Export(ExportFormat::Markdown),
            Command::ExportCsv => Action::Export(ExportFormat::Csv),
            Command::Quit => self.quit_action(),
            Command::ForceQuit => Action::ForceQuit,
            _ => Action::Nothing,
        }
    }
}

/// Each command word stands for its command, and the help has one word
/// only.
pub proof fn lemma_command_words()
    ensures
        command_of("nn"@) == Command::NewNote,
        command_of("ntodo"@) == Command::NewTodo,
        command_of("del"@) == Command::Delete,
        command_of("rnm"@) == Command::Rename,
        command_of("mm"@) == Command::MainMenu,
        command_of("?"@) == Command::Help,
        command_of("save"@) == Command::Save,
        command_of("w"@) == Command::Save,
        command_of("backup"@) == Command::Backup,
        command_of("export-md"@) == Command::ExportMarkdown,
        command_of("export-markdown"@) == Command::ExportMarkdown,
        command_of("export-csv"@) == Command::ExportCsv,
        command_of("q"@) == Command::Quit,
        command_of("quit"@) == Command::Quit,
        command_of("q!"@) == Command::ForceQuit,
        forall|word: Seq<char>| command_of(word) == Command::Help <==> word == "?"@,
{
    reveal_strlit("nn");
    reveal_strlit("ntodo");
    reveal_strlit("del");
    reveal_strlit("rnm");
    reveal_strlit("mm");
    reveal_strlit("?");
    reveal_strlit("save");
    reveal_strlit("w");
    reveal_strlit("backup");
    reveal_strlit("export-md");
    reveal_strlit("export-markdown");
    reveal_strlit("export-csv");
    reveal_strlit("q");
    reveal_strlit("quit");
    reveal_strlit("q!");
    assert("nn"@.len() == 2 && "nn"@[0] == 'n');
    assert("ntodo"@.len() == 5);
    assert("del"@.len() == 3 && "del"@[0] == 'd');
    assert("rnm"@.len() == 3 && "rnm"@[0] == 'r');
    assert("mm"@.len() == 2 && "mm"@[0] == 'm');
    assert("?"@.len() == 1 && "?"@[0] == '?');
    assert("save"@.len() == 4 && "save"@[0] == 's');
    assert("w"@.len() == 1 && "w"@[0] == 'w');
    assert("backup"@.len() == 6);
    assert("export-md"@.len() == 9);
    assert("export-markdown"@.len() == 15);
    assert("export-csv"@.len() == 10);
    assert("q"@.len() == 1 && "q"@[0] == 'q');
    assert("quit"@.len() == 4 && "quit"@[0] == 'q');
    assert("q!"@.len() == 2 && "q!"@[0] == 'q');
}

/// Once nothing is under the cursor, further deletions change nothing.
pub proof fn lemma_deleting_ends(state: AppView, done: nat, count: nat)
    requires
        done <= count,
        state.delete_repeated(done).selected_title() is None,
    ensures
        state.delete_repeated(count) == state.delete_repeated(done),
    decreases count,
{
    if done < count {
        lemma_deleting_ends(state, done, (count - 1) as nat);
    }
}

impl App {
    /// Splits a trimmed command line into its repeat count and its command
    /// word: digits in front of something else are the count, and a line
    /// without them, or with a count too large for the machine, is a word
    /// to be executed once.
    pub fn parse_command_count(line: &str) -> (r: (usize, String))
        ensures
            (r.0 as nat, r.1@) == parse_count(line@),
    {
        let chars = chars_of(line);
        let mut run: usize = 0;
        let mut count: usize = 0;
        let mut fits = true;
        assert(chars@.take(0) =~= Seq::<char>::empty());
        while run < chars.len() && is_decimal_digit(chars[run])
            invariant
                run <= chars.len(),
                forall|i: int| 0 <= i < run ==> is_digit(#[trigger] chars@[i]),
                fits ==> count == digits_value(chars@.take(run as int)),
                !fits ==> digits_value(chars@.take(run as int)) > usize::MAX,
            decreases chars.len() - run,
        {
            let digit: usize = (chars[run] as u32 - 48) as usize;
            proof {
                let next = chars@.take(run + 1);
                assert(next.drop_last() =~= chars@.take(run as int));
                assert(next.last() == chars@[run as int]);
                assert(digits_value(next) == 10 * digits_value(chars@.take(run as int)) + digit);
            }
            if fits {
                match count.checked_mul(10) {
                    Some(tens) => match tens.checked_add(digit) {
                        Some(sum) => {
                            count = sum;
                        },
                        None => {
                            fits = false;
                        },
                    },
                    None => {
                        fits = false;
                    },
                }
            }
            run += 1;
        }
        proof {
            lemma_digit_run(chars@, run as int);
        }
        if 0 < run && run < chars.len() && fits {
            let word = text_of(&chars, run, chars.len());
            assert(chars@.subrange(run as int, chars.len() as int) =~= chars@.skip(run as int));
            (count, word)
        } else {
            (1, line.to_owned())
        }
    }

    /// Executes the command line in the buffer and says what is left for
    /// the host to do. The line is trimmed and split into a repeat count
    /// and a command word; the buffer is emptied; creating and deleting are
    /// repeated as often as the count says; the mode is normal afterwards
    /// unless the command was the one for help.
    pub fn execute_command(&mut self) -> (action: Action)
        ensures
            action == old(self)@.command_action(),
            exists|stamps: Seq<Seq<char>>|
                stamps.len() == old(self)@.clock_reads() && final(self)@ == old(
                    self,
                )@.execute_command(stamps),
            old(self)@.wf() ==> final(self)@.wf(),
    {
        let line = trim(self.command_buffer.as_str());
        self.command_buffer.clear();
        let (count, word) = App::parse_command_count(line.as_str());
        let command = classify(word.as_str());
        let ghost ready = self@;
        let ghost mut stamps: Seq<Seq<char>> = Seq::empty();
        let mut action = Action::Nothing;
        match command {
            Command::NewNote => {
                let mut made: usize = 0;
                while made < count
                    invariant
                        made <= count,
                        stamps.len() == made,
                        self@ == ready.with_new_notes(stamps),
                    decreases count - made,
                {
                    let ghost before = self@;
                    let ghost earlier = stamps;
                    self.create_new_note();
                    made += 1;
                    proof {
                        let stamp = choose|stamp: Seq<char>| self@ == before.with_new_note(stamp);
                        stamps = earlier.push(stamp);
                        assert(stamps.drop_last() =~= earlier);
                    }
                }
            },
            Command::NewTodo => {
                let mut made: usize = 0;
                while made < count
                    invariant
                        made <= count,
                        stamps.len() == made,
                        self@ == ready.with_new_todos(stamps),
                    decreases count - made,
                {
                    let ghost before = self@;
                    let ghost earlier = stamps;
                    self.create_new_todo();
                    made += 1;
                    proof {
                        let stamp = choose|stamp: Seq<char>| self@ == before.with_new_todo(stamp);
                        stamps = earlier.push(stamp);
                        assert(stamps.drop_last() =~= earlier);
                    }
                }
            },
            Command::Delete => {
                let mut deleted: usize = 0;
                while deleted < count && self.has_selected_entry()
                    invariant
                        deleted <= count,
                        self@ == ready.delete_repeated(deleted as nat),
                    decreases count - deleted,
                {
                    self.delete_current_item();
                    deleted += 1;
                }
                proof {
                    if deleted < count {
                        lemma_deleting_ends(ready, deleted as nat, count as nat);
                    }
                }
            },
            Command::Rename => {
                self.start_rename();
            },
            Command::MainMenu => {
                self.go_to_main_menu();
            },
            Command::Help => {
                self.show_help();
            },
            Command::Save => {
                action = Action::Save;
            },
            Command::Backup => {
                action = Action::Backup;
            },
            Command::ExportMarkdown => {
                action = Action::Export(ExportFormat::Markdown);
            },
            Command::ExportCsv => {
                action = Action::Export(ExportFormat::Csv);
            },
            Command::Quit => {
                action = self.handle_quit();
            },
            Command::ForceQuit => {
                action = Action::ForceQuit;
            },
            Command::Unknown => {
                self.status_message = Some(joined("Unknown command: ", word.as_str()));
            },
        }
        if command != Command::Help {
            self.mode = AppMode::Normal;
        }
        proof {
            assert(self@ == old(self)@.execute_command(stamps));
            if old(self)@.wf() {
                lemma_execute_command_keeps_order(old(self)@, stamps);
            }
        }
        action
    }
}

} // verus!
