use brust::{run, version_text, Notice, DEFAULT_NAME};

#[test]
fn test_run_with_default_name() {
    let out = run("Youre", None);
    assert_eq!(out.message, "Hi, Youre, new world!!");
    assert!(out.notice.is_none());
}

#[test]
fn test_run_with_custom_name() {
    let out = run("Alice", None);
    assert_eq!(out.message, "Hi, Alice, new world!!");
    assert!(out.notice.is_none());
}

#[test]
fn test_run_with_empty_name() {
    let out = run("", None);
    assert_eq!(out.message, "Hi, , new world!!");
    assert!(out.notice.is_none());
}

#[test]
fn test_run_with_japanese_name() {
    let out = run("世界", None);
    assert_eq!(out.message, "Hi, 世界, new world!!");
    assert!(out.notice.is_none());
}

#[test]
fn test_run_with_gender_man() {
    let out = run("John", Some("man"));
    assert_eq!(out.message, "Hi, Mr. John, new world!!");
    assert!(out.notice.is_none());
}

#[test]
fn test_run_with_gender_woman() {
    let out = run("Alice", Some("woman"));
    assert_eq!(out.message, "Hi, Ms. Alice, new world!!");
    assert!(out.notice.is_none());
}

#[test]
fn test_run_with_invalid_gender() {
    let out = run("Bob", Some("other"));
    match out.notice {
        Some(Notice::InvalidGender(g)) => assert_eq!(g, "other"),
        other => panic!("expected an invalid-gender notice, got {other:?}"),
    }
    assert_eq!(out.message, "Hi, Bob (invalid gender: other), new world!!");
}

#[test]
fn run_with_default_name_constant() {
    assert_eq!(DEFAULT_NAME, "Youre");
    assert_eq!(run(DEFAULT_NAME, None).message, "Hi, Youre, new world!!");
}

#[test]
fn run_with_invalid_gender_charlie() {
    let out = run("Charlie", Some("other"));
    assert!(matches!(out.notice, Some(Notice::InvalidGender(ref g)) if g == "other"));
    assert_eq!(
        out.message,
        "Hi, Charlie (invalid gender: other), new world!!"
    );
}

#[test]
fn run_with_empty_gender_is_annotated() {
    let out = run("Dave", Some(""));
    assert!(matches!(out.notice, Some(Notice::InvalidGender(ref g)) if g.is_empty()));
    assert_eq!(out.message, "Hi, Dave (invalid gender: ), new world!!");
}

#[test]
fn run_twice_reports_the_same() {
    for gender in [None, Some("man"), Some("woman"), Some("x")] {
        let a = run("Kim", gender);
        let b = run("Kim", gender);
        assert_eq!(a.message, b.message);
        assert_eq!(a.notice.is_some(), b.notice.is_some());
    }
}

#[test]
fn version_text_starts_with_program_name() {
    let line = version_text("brust", "0.1.0", "abc1234");
    assert_eq!(line, "brust version 0.1.0 (rev:abc1234)");
    assert!(line.starts_with("brust version "));
}
