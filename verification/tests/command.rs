use terminal_notes::app::App;
use terminal_notes::command::{classify, is_decimal_digit, Command};

#[test]
fn count_and_word_are_split() {
    assert_eq!(App::parse_command_count("3nn"), (3, "nn".to_string()));
    assert_eq!(App::parse_command_count("12ntodo"), (12, "ntodo".to_string()));
    assert_eq!(App::parse_command_count("0del"), (0, "del".to_string()));
    assert_eq!(App::parse_command_count("007x"), (7, "x".to_string()));
    assert_eq!(App::parse_command_count("2 nn"), (2, " nn".to_string()));
}

#[test]
fn word_without_count_runs_once() {
    assert_eq!(App::parse_command_count("nn"), (1, "nn".to_string()));
    assert_eq!(App::parse_command_count("export-csv"), (1, "export-csv".to_string()));
    assert_eq!(App::parse_command_count("q!"), (1, "q!".to_string()));
    assert_eq!(App::parse_command_count(""), (1, "".to_string()));
    assert_eq!(App::parse_command_count("n3n"), (1, "n3n".to_string()));
}

#[test]
fn digits_alone_are_a_word() {
    assert_eq!(App::parse_command_count("123"), (1, "123".to_string()));
    assert_eq!(App::parse_command_count("0"), (1, "0".to_string()));
}

#[test]
fn count_that_does_not_fit_is_part_of_the_word() {
    let line = "99999999999999999999999999999999999999999nn";
    assert_eq!(App::parse_command_count(line), (1, line.to_string()));
    let most = format!("{}del", usize::MAX);
    assert_eq!(App::parse_command_count(&most), (usize::MAX, "del".to_string()));
}

#[test]
fn digits_are_zero_to_nine() {
    for c in "0123456789".chars() {
        assert!(is_decimal_digit(c));
    }
    for c in ['/', ':', 'a', ' ', '\u{0663}', '\u{00B2}'] {
        assert!(!is_decimal_digit(c));
    }
}

#[test]
fn words_are_classified() {
    assert_eq!(classify("nn"), Command::NewNote);
    assert_eq!(classify("ntodo"), Command::NewTodo);
    assert_eq!(classify("del"), Command::Delete);
    assert_eq!(classify("rnm"), Command::Rename);
    assert_eq!(classify("mm"), Command::MainMenu);
    assert_eq!(classify("?"), Command::Help);
    assert_eq!(classify("save"), Command::Save);
    assert_eq!(classify("w"), Command::Save);
    assert_eq!(classify("backup"), Command::Backup);
    assert_eq!(classify("export-md"), Command::ExportMarkdown);
    assert_eq!(classify("export-markdown"), Command::ExportMarkdown);
    assert_eq!(classify("export-csv"), Command::ExportCsv);
    assert_eq!(classify("q"), Command::Quit);
    assert_eq!(classify("quit"), Command::Quit);
    assert_eq!(classify("q!"), Command::ForceQuit);
}

#[test]
fn other_words_are_unknown() {
    for word in ["x", "", "NN", "nn ", "export", "export-json", "delete", "q!!"] {
        assert_eq!(classify(word), Command::Unknown);
    }
}
