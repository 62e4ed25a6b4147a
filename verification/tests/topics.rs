use mqtt_shell::text::{bytes_eq, text_eq};
use mqtt_shell::topics::{TopicKind, Topics};

#[test]
fn topics_are_the_root_and_a_suffix() {
    let t = Topics::new("shell");
    assert_eq!(t.root(), "shell");
    assert_eq!(t.input(), "shell/in");
    assert_eq!(t.output(), "shell/out");
    assert_eq!(t.status(), "shell/status");
    assert_eq!(t.resize(), "shell/resize");
}

#[test]
fn topics_keep_a_root_with_slashes_and_other_scripts() {
    let t = Topics::new("lab/räck-7");
    assert_eq!(t.input(), "lab/räck-7/in");
    assert_eq!(t.resize(), "lab/räck-7/resize");
    let e = Topics::new("");
    assert_eq!(e.output(), "/out");
}

#[test]
fn topics_classify_their_own_names() {
    let t = Topics::new("shell");
    assert_eq!(t.classify("shell/in"), TopicKind::Input);
    assert_eq!(t.classify("shell/out"), TopicKind::Output);
    assert_eq!(t.classify("shell/status"), TopicKind::Status);
    assert_eq!(t.classify("shell/resize"), TopicKind::Resize);
}

#[test]
fn topics_classify_everything_else_as_unknown() {
    let t = Topics::new("shell");
    assert_eq!(t.classify("shell"), TopicKind::Unknown);
    assert_eq!(t.classify("shell/"), TopicKind::Unknown);
    assert_eq!(t.classify("shell/IN"), TopicKind::Unknown);
    assert_eq!(t.classify("shell/in/"), TopicKind::Unknown);
    assert_eq!(t.classify("other/in"), TopicKind::Unknown);
    assert_eq!(t.classify("shell2/in"), TopicKind::Unknown);
    assert_eq!(t.classify(""), TopicKind::Unknown);
}

#[test]
fn topics_of_two_roots_do_not_mix() {
    let a = Topics::new("a");
    let b = Topics::new("b");
    assert_eq!(b.classify(a.input()), TopicKind::Unknown);
    assert_eq!(a.classify(b.status()), TopicKind::Unknown);
}

#[test]
fn text_equality_is_exact() {
    assert!(text_eq("shell/in", "shell/in"));
    assert!(!text_eq("shell/in", "shell/i"));
    assert!(!text_eq("shell/in", "shell/io"));
    assert!(text_eq("", ""));
    assert!(text_eq("räck", "räck"));
    assert!(!text_eq("räck", "rack"));
    assert!(bytes_eq(&[1, 2, 3], &[1, 2, 3]));
    assert!(!bytes_eq(&[1, 2, 3], &[1, 2, 4]));
    assert!(!bytes_eq(&[1, 2, 3], &[1, 2]));
    assert!(bytes_eq(&[], &[]));
}

#[test]
fn topics_name_each_kind() {
    let t = Topics::new("shell");
    assert_eq!(t.name_of(TopicKind::Input), Some("shell/in"));
    assert_eq!(t.name_of(TopicKind::Output), Some("shell/out"));
    assert_eq!(t.name_of(TopicKind::Status), Some("shell/status"));
    assert_eq!(t.name_of(TopicKind::Resize), Some("shell/resize"));
    assert_eq!(t.name_of(TopicKind::Unknown), None);
    for kind in [TopicKind::Input, TopicKind::Output, TopicKind::Status, TopicKind::Resize] {
        assert_eq!(t.name_of(kind).map(|name| t.classify(name)), Some(kind));
    }
}
