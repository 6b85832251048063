use stackable_cockpit::command::CommandLine;
use stackable_cockpit::text::{has_line, join, lists, number_text};

fn texts(items: &[&str]) -> Vec<String> {
    items.iter().map(|item| item.to_string()).collect()
}

#[test]
fn numbers_are_written_in_decimal() {
    for value in [0usize, 7, 9, 10, 42, 100, 1009, usize::MAX] {
        assert_eq!(number_text(value), value.to_string());
    }
}

#[test]
fn lines_agree_with_the_standard_library() {
    let cases = [
        "", "\n", "\r\n", "\r", "a", "a\n", "a\r\n", "a\r", "a\n\nb", "a\r\r\nb", "x\ny\r\nz", "ä\nö",
    ];
    let names = ["", "a", "b", "a\r", "\r", "x", "y", "z", "ä", "ö", "a\n"];
    for text in cases {
        for name in names {
            assert_eq!(
                has_line(text, name),
                text.lines().any(|line| line == name),
                "{:?} in {:?}",
                name,
                text
            );
        }
    }
}

#[test]
fn joined_texts_are_separated() {
    assert_eq!(join(&texts(&[]), ", "), "");
    assert_eq!(join(&texts(&["a"]), ", "), "a");
    assert_eq!(join(&texts(&["a", "b", "c"]), ", "), "a, b, c");
    assert_eq!(join(&texts(&["", ""]), "-"), "-");
}

#[test]
fn listed_texts_are_found() {
    let list = texts(&["a", "b"]);
    assert!(lists(&list, &"b".to_string()));
    assert!(!lists(&list, &"c".to_string()));
    assert!(!lists(&texts(&[]), &"".to_string()));
}

#[test]
fn commands_collect_their_arguments() {
    let command = CommandLine::new("ls").arg("-l").arg("/");
    assert_eq!(command.program, "ls");
    assert_eq!(command.args, vec!["-l", "/"]);
}
