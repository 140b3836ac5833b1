use mergil::common::initial_contents;
use mergil::messages::build_messages;

#[test]
fn test_build_messages_default_prompts() {
    let msgs = build_messages(&["Hello".to_string()], false, false);
    assert_eq!(msgs.len(), 3);
    assert_eq!(msgs[0].role, "system");
    assert!(msgs[0].content.contains("helpful coding tool"));
    assert_eq!(msgs[1].role, "system");
    assert_eq!(msgs[1].content, "Answer without using markdown formatting!");
    assert_eq!(msgs[2].role, "user");
    assert_eq!(msgs[2].content, "Hello");
}

#[test]
fn test_build_messages_markdown_prompt() {
    let msgs = build_messages(&["Hello".to_string()], true, false);
    assert_eq!(msgs.len(), 3);
    assert_eq!(msgs[1].role, "system");
    assert!(msgs[1].content.contains("Markdown syntax"));
    assert!(!msgs
        .iter()
        .any(|m| m.content == "Answer without using markdown formatting!"));
}

#[test]
fn test_build_messages_preprocess_prompt() {
    let msgs = build_messages(&["Hello".to_string()], true, true);
    assert_eq!(msgs.len(), 2);
    assert_eq!(msgs[0].role, "system");
    assert!(msgs[0].content.contains("Reformulate the user's submission"));
    // Neither formatting prompt is present in the pre-processing pass.
    assert!(!msgs.iter().any(|m| m.content.contains("Markdown syntax")));
    assert!(!msgs
        .iter()
        .any(|m| m.content == "Answer without using markdown formatting!"));
    assert_eq!(msgs[1].role, "user");
    assert_eq!(msgs[1].content, "Hello");
}

#[test]
fn test_build_messages_preserves_input_order() {
    let blocks = vec![
        "first".to_string(),
        "second".to_string(),
        "third".to_string(),
    ];
    let msgs = build_messages(&blocks, false, false);
    assert_eq!(msgs.len(), 5);
    assert_eq!(msgs[2].content, "first");
    assert_eq!(msgs[3].content, "second");
    assert_eq!(msgs[4].content, "third");
    for m in &msgs[2..] {
        assert_eq!(m.role, "user");
    }
}

#[test]
fn test_build_messages_empty_input() {
    let msgs = build_messages(&[], false, false);
    assert_eq!(msgs.len(), 2);
    assert!(msgs.iter().all(|m| m.role == "system"));
    let msgs = build_messages(&[], false, true);
    assert_eq!(msgs.len(), 1);
    assert_eq!(msgs[0].role, "system");
}

#[test]
fn test_initial_contents_joins_with_spaces() {
    let joined = initial_contents(&vec!["Hello".to_string(), "world!".to_string()]);
    assert_eq!(joined, vec!["Hello world!".to_string()]);
}

#[test]
fn test_initial_contents_empty_context() {
    let joined = initial_contents(&Vec::new());
    assert_eq!(joined, Vec::<String>::new());
}

#[test]
fn test_initial_contents_single_entry() {
    let joined = initial_contents(&vec!["Hello, world!".to_string()]);
    assert_eq!(joined, vec!["Hello, world!".to_string()]);
}
