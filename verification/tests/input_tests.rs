use mergil::input::{get_input, EditorOpener, InputResult, StdinReader};
use std::cell::RefCell;
use std::io;

struct MockStdin {
    content: RefCell<String>,
    is_atty: bool,
}

impl StdinReader for MockStdin {
    fn read_to_string(&mut self, buf: &mut String) -> Result<usize, io::Error> {
        let content = self.content.borrow();
        buf.push_str(&content);
        Ok(content.len())
    }

    fn is_atty(&self) -> bool {
        self.is_atty
    }
}

struct MockEditor {
    content: RefCell<String>,
}

impl EditorOpener for MockEditor {
    fn open_editor(&self, _temp_path: &str) -> Result<String, io::Error> {
        Ok(self.content.borrow().clone())
    }
}

#[test]
fn test_get_input_piped() {
    let mut mock_stdin = MockStdin {
        content: RefCell::new("Test input\n".to_string()),
        is_atty: false,
    };
    let mock_editor = MockEditor {
        content: RefCell::new(String::new()),
    };

    let result = get_input(false, &mut mock_stdin, &mock_editor).unwrap();

    assert!(matches!(result, InputResult::Content(content) if content == "Test input\n"));
}

#[test]
fn test_get_input_piped_empty() {
    let mut mock_stdin = MockStdin {
        content: RefCell::new("\n".to_string()),
        is_atty: false,
    };
    let mock_editor = MockEditor {
        content: RefCell::new(String::new()),
    };

    let result = get_input(false, &mut mock_stdin, &mock_editor).unwrap();

    assert!(matches!(result, InputResult::Cancelled));
}

#[test]
fn test_get_input_force_editor() {
    let mut mock_stdin = MockStdin {
        content: RefCell::new(String::new()),
        is_atty: true,
    };
    let mock_editor = MockEditor {
        content: RefCell::new("Editor content".to_string()),
    };

    let result = get_input(true, &mut mock_stdin, &mock_editor).unwrap();

    assert!(matches!(result, InputResult::Content(content) if content == "Editor content"));
}

#[test]
fn test_get_input_force_editor_empty() {
    let mut mock_stdin = MockStdin {
        content: RefCell::new(String::new()),
        is_atty: true,
    };
    let mock_editor = MockEditor {
        content: RefCell::new("".to_string()),
    };

    let result = get_input(true, &mut mock_stdin, &mock_editor).unwrap();

    assert!(matches!(result, InputResult::Cancelled));
}

#[test]
fn test_get_input_editor_receives_usable_path() {
    struct PathCheckingEditor {
        seen_path: RefCell<Option<String>>,
    }

    impl EditorOpener for PathCheckingEditor {
        fn open_editor(&self, temp_path: &str) -> Result<String, io::Error> {
            *self.seen_path.borrow_mut() = Some(temp_path.to_string());
            Ok("from editor".to_string())
        }
    }

    let mut mock_stdin = MockStdin {
        content: RefCell::new(String::new()),
        is_atty: true,
    };
    let editor = PathCheckingEditor {
        seen_path: RefCell::new(None),
    };

    let result = get_input(true, &mut mock_stdin, &editor).unwrap();

    assert!(matches!(result, InputResult::Content(content) if content == "from editor"));
    let path = editor.seen_path.borrow().clone().unwrap();
    assert!(!path.is_empty());
}

#[test]
fn test_get_input_whitespace_only_editor_content() {
    let mut mock_stdin = MockStdin {
        content: RefCell::new(String::new()),
        is_atty: true,
    };
    let mock_editor = MockEditor {
        content: RefCell::new(" \t\r\n".to_string()),
    };

    let result = get_input(true, &mut mock_stdin, &mock_editor).unwrap();

    assert!(matches!(result, InputResult::Cancelled));
}

#[test]
fn test_get_input_unicode_whitespace_is_cancelled() {
    // Every character the standard library's trim strips counts as blank:
    // vertical tab, form feed, next line, no-break space, ogham space mark,
    // em space, line and paragraph separators, narrow no-break space, medium
    // mathematical space, ideographic space.
    let blank = "\u{000B}\u{000C}\u{0085}\u{00A0}\u{1680}\u{2003}\u{2028}\u{2029}\u{202F}\u{205F}\u{3000}";
    assert!(blank.trim().is_empty());

    let mut mock_stdin = MockStdin {
        content: RefCell::new(blank.to_string()),
        is_atty: false,
    };
    let mock_editor = MockEditor {
        content: RefCell::new(String::new()),
    };

    let result = get_input(false, &mut mock_stdin, &mock_editor).unwrap();

    assert!(matches!(result, InputResult::Cancelled));
}

#[test]
fn test_get_input_non_blank_unicode_is_content() {
    // A zero-width space is not in the White_Space set: trim keeps it, and so
    // does the library.
    let text = "\u{200B}";
    assert!(!text.trim().is_empty());

    let mut mock_stdin = MockStdin {
        content: RefCell::new(text.to_string()),
        is_atty: false,
    };
    let mock_editor = MockEditor {
        content: RefCell::new(String::new()),
    };

    let result = get_input(false, &mut mock_stdin, &mock_editor).unwrap();

    assert!(matches!(result, InputResult::Content(content) if content == text));
}
