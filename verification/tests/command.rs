use searchhelp::command::errors::GetCommandStringError;
use searchhelp::command::{command_words, gather_outputs, text_of_output};

#[test]
fn a_command_line_splits_into_words() {
    assert_eq!(command_words("ls -la /tmp"), vec!["ls", "-la", "/tmp"]);
    assert_eq!(command_words("  top\t-h \n"), vec!["top", "-h"]);
    assert_eq!(command_words("x"), vec!["x"]);
    assert_eq!(command_words("a\u{a0}b"), vec!["a", "b"]);
}

#[test]
fn a_blank_command_line_has_no_words() {
    assert_eq!(command_words(""), Vec::<String>::new());
    assert_eq!(command_words(" \t\n"), Vec::<String>::new());
}

#[test]
fn command_words_agree_with_the_standard_library() {
    for line in ["", " ", "a", " a", "a ", "ab  cd e", "\tx\ny  ", "é è"] {
        let expected: Vec<String> = line.split_whitespace().map(|w| w.to_string()).collect();
        assert_eq!(command_words(line), expected);
    }
}

#[test]
fn output_that_is_utf8_becomes_text() {
    assert_eq!(text_of_output(b"usage: top\n".to_vec()).unwrap(), "usage: top\n");
    assert_eq!(text_of_output(vec![0xe2, 0x86, 0x92]).unwrap(), "→");
    assert_eq!(text_of_output(Vec::new()).unwrap(), "");
}

#[test]
fn output_that_is_not_utf8_is_an_error() {
    let error = text_of_output(vec![b'a', 0xff, b'b']).unwrap_err();
    assert!(matches!(error, GetCommandStringError::FromUtf8Error(_)));
    assert!(!error.message().is_empty());
    let expected = format!("{}", String::from_utf8(vec![b'a', 0xff, b'b']).unwrap_err());
    assert_eq!(error.message(), expected);
}

#[test]
fn an_io_error_keeps_its_text() {
    let error = GetCommandStringError::from(std::io::Error::new(std::io::ErrorKind::NotFound, "no such program"));
    assert!(matches!(error, GetCommandStringError::IoError(_)));
    assert_eq!(error.message(), "no such program");
}

#[test]
fn a_utf8_error_converts() {
    let inner = String::from_utf8(vec![0xc0]).unwrap_err();
    let error = GetCommandStringError::from(inner);
    assert!(matches!(error, GetCommandStringError::FromUtf8Error(_)));
}

#[test]
fn outputs_are_gathered_line_by_line() {
    let outputs = vec![Some("usage: a".to_string()), None, Some("usage: b\n".to_string()), Some(String::new())];
    assert_eq!(gather_outputs(&outputs), "usage: a\nusage: b\n\n\n");
    assert_eq!(gather_outputs(&Vec::new()), "");
    assert_eq!(gather_outputs(&vec![None, None]), "");
}
