use t_ssh_client::{ChannelEvent, Output};

fn data(text: &str) -> ChannelEvent {
    ChannelEvent::Data(text.as_bytes().to_vec())
}

fn extended(text: &str) -> ChannelEvent {
    ChannelEvent::ExtendedData(1, text.as_bytes().to_vec())
}

#[test]
fn empty_run_gives_empty_output() {
    let out = Output::collect(&Vec::new());
    assert!(out.stdout.is_empty());
    assert!(out.stderr.is_empty());
    assert_eq!(out.code, None);
    assert!(!out.success());
    assert_eq!(out.stdout_string(), "");
    assert_eq!(out.stderr_string(), "");
}

#[test]
fn new_output_is_empty() {
    let out = Output::new();
    assert!(out.stdout.is_empty());
    assert!(out.stderr.is_empty());
    assert_eq!(out.code, None);
}

#[test]
fn echo_is_captured() {
    let events = vec![data("hello, world!\n"), ChannelEvent::ExitStatus(0)];
    let out = Output::collect(&events);
    assert_eq!(out.stdout_string(), "hello, world!\n");
    assert_eq!(out.stderr_string(), "");
    assert!(out.success());
    assert_eq!(out.code, Some(0));
}

#[test]
fn chunks_are_joined_in_arrival_order() {
    let events = vec![data("ab"), data(""), data("cd"), data("e")];
    let out = Output::collect(&events);
    assert_eq!(out.stdout, b"abcde".to_vec());
    assert!(out.stderr.is_empty());
}

#[test]
fn interleaved_streams_keep_their_own_order() {
    let events = vec![
        data("o1 "),
        extended("e1 "),
        data("o2 "),
        ChannelEvent::Other,
        extended("e2 "),
        extended("e3"),
        data("o3"),
        ChannelEvent::ExitStatus(0),
    ];
    let out = Output::collect(&events);
    assert_eq!(out.stdout_string(), "o1 o2 o3");
    assert_eq!(out.stderr_string(), "e1 e2 e3");
    assert!(out.success());
}

#[test]
fn interleaving_does_not_change_either_stream() {
    let one = vec![data("a"), extended("x"), data("b"), extended("y")];
    let other = vec![extended("x"), extended("y"), data("a"), data("b")];
    let first = Output::collect(&one);
    let second = Output::collect(&other);
    assert_eq!(first.stdout, second.stdout);
    assert_eq!(first.stderr, second.stderr);
    assert_eq!(first.stdout, b"ab".to_vec());
    assert_eq!(first.stderr, b"xy".to_vec());
}

#[test]
fn dropping_other_events_leaves_stdout_alone() {
    let all = vec![data("a"), extended("x"), ChannelEvent::ExitStatus(2), data("b")];
    let only_data = vec![data("a"), data("b")];
    assert_eq!(Output::collect(&all).stdout, Output::collect(&only_data).stdout);
}

#[test]
fn extension_identifier_is_not_interpreted() {
    let events = vec![
        ChannelEvent::ExtendedData(1, b"a".to_vec()),
        ChannelEvent::ExtendedData(7, b"b".to_vec()),
    ];
    let out = Output::collect(&events);
    assert_eq!(out.stderr, b"ab".to_vec());
    assert!(out.stdout.is_empty());
}

#[test]
fn nonzero_exit_is_a_result_not_a_failure() {
    let events = vec![ChannelEvent::ExitStatus(1)];
    let out = Output::collect(&events);
    assert_eq!(out.code, Some(1));
    assert!(!out.success());
}

#[test]
fn exit_status_may_come_before_the_last_data() {
    let events = vec![data("a"), ChannelEvent::ExitStatus(3), data("b")];
    let out = Output::collect(&events);
    assert_eq!(out.code, Some(3));
    assert_eq!(out.stdout, b"ab".to_vec());
}

#[test]
fn last_exit_status_wins() {
    let events = vec![ChannelEvent::ExitStatus(7), data("x"), ChannelEvent::ExitStatus(0)];
    let out = Output::collect(&events);
    assert_eq!(out.code, Some(0));
    assert!(out.success());
    let events = vec![ChannelEvent::ExitStatus(0), ChannelEvent::ExitStatus(9)];
    assert_eq!(Output::collect(&events).code, Some(9));
}

#[test]
fn missing_exit_status_is_not_success() {
    let out = Output::collect(&vec![data("done")]);
    assert_eq!(out.code, None);
    assert!(!out.success());
}

#[test]
fn other_events_are_ignored() {
    let mut out = Output::new();
    out.record(&data("a"));
    out.record(&ChannelEvent::ExitStatus(4));
    out.record(&ChannelEvent::Other);
    assert_eq!(out.stdout, b"a".to_vec());
    assert!(out.stderr.is_empty());
    assert_eq!(out.code, Some(4));
}

#[test]
fn record_appends_to_what_is_there() {
    let mut out = Output { stdout: b"ab".to_vec(), stderr: b"x".to_vec(), code: Some(5) };
    out.record(&data("cd"));
    assert_eq!(out.stdout, b"abcd".to_vec());
    assert_eq!(out.stderr, b"x".to_vec());
    assert_eq!(out.code, Some(5));
    out.record(&extended("yz"));
    assert_eq!(out.stdout, b"abcd".to_vec());
    assert_eq!(out.stderr, b"xyz".to_vec());
    out.record(&ChannelEvent::ExitStatus(6));
    assert_eq!(out.code, Some(6));
}

#[test]
fn collect_agrees_with_recording_one_by_one() {
    let events = vec![data("a"), extended("b"), ChannelEvent::ExitStatus(1), data("c")];
    let mut stepwise = Output::new();
    for event in &events {
        stepwise.record(event);
    }
    let whole = Output::collect(&events);
    assert_eq!(whole.stdout, stepwise.stdout);
    assert_eq!(whole.stderr, stepwise.stderr);
    assert_eq!(whole.code, stepwise.code);
}

#[test]
fn text_is_decoded_as_utf8() {
    let out = Output {
        stdout: "gr\u{fc}\u{df}e \u{2713}".as_bytes().to_vec(),
        stderr: "\u{1f980}".as_bytes().to_vec(),
        code: None,
    };
    assert_eq!(out.stdout_string(), "gr\u{fc}\u{df}e \u{2713}");
    assert_eq!(out.stderr_string(), "\u{1f980}");
}

#[test]
fn invalid_bytes_are_replaced_not_rejected() {
    let out = Output { stdout: vec![b'a', 0xff, b'b'], stderr: vec![0xc3], code: Some(0) };
    assert_eq!(out.stdout_string(), "a\u{fffd}b");
    assert_eq!(out.stderr_string(), "\u{fffd}");
}

#[test]
fn reading_text_twice_gives_the_same_text() {
    let out = Output { stdout: vec![b'o', 0x80, b'k'], stderr: b"warn\n".to_vec(), code: Some(2) };
    let first = out.stdout_string();
    let second = out.stdout_string();
    assert_eq!(first, second);
    assert_eq!(out.stderr_string(), out.stderr_string());
    assert_eq!(out.stdout, vec![b'o', 0x80, b'k']);
    assert_eq!(out.stderr, b"warn\n".to_vec());
    assert_eq!(out.code, Some(2));
}

#[test]
fn success_is_exit_status_zero() {
    let with = |code: Option<u32>| Output { stdout: Vec::new(), stderr: Vec::new(), code };
    assert!(with(Some(0)).success());
    assert!(!with(Some(1)).success());
    assert!(!with(Some(255)).success());
    assert!(!with(Some(u32::MAX)).success());
    assert!(!with(None).success());
}
