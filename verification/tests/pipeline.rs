use econ_bridge::model::{Env, EnvNats};
use econ_bridge::pattern::Pattern;
use econ_bridge::utils::{PipelineError, format_mention, format_regex, format_text, generate_text};

fn default_handler() -> econ_bridge::model::EnvHandler {
    let env = Env {
        nats: EnvNats {
            server: String::from("nats://localhost:4222"),
            user: None,
            password: None,
            read_path: None,
            write_path: None,
            paths: None,
        },
        check_status_econ: None,
        message_thread_id: None,
        server_name: None,
        econ: None,
        text: None,
        text_leave: None,
        text_join: None,
        text_edit_nickname: None,
        nickname_regex: None,
        block_text_in_nickname: None,
        chat_regex: None,
        block_text_in_chat: None,
        commands: None,
    };
    env.get_env_handler().unwrap()
}

fn rule_with_template(template: &str) -> econ_bridge::model::HandlerPaths {
    let mut rule = econ_bridge::model::HandlerPaths::new("(.*)").unwrap();
    rule.template = String::from(template);
    rule
}

#[test]
fn mention_empty_is_unchanged() {
    assert_eq!(format_mention(String::new()), "");
}

#[test]
fn mention_is_escaped() {
    assert_eq!(format_mention(String::from("a@b")), "a@-b");
}

#[test]
fn mention_short_name_is_unchanged() {
    assert_eq!(format_mention(String::from("@")), "@");
}

#[test]
fn mention_plain_name_is_unchanged() {
    assert_eq!(format_mention(String::from("plain")), "plain");
}

#[test]
fn mention_two_chars_over_two_bytes_is_escaped() {
    // two characters, three bytes: long enough for escaping
    assert_eq!(format_mention(String::from("\u{e9}@")), "\u{e9}@-");
}

#[test]
fn mention_every_at_is_escaped() {
    assert_eq!(format_mention(String::from("@a@b@")), "@-a@-b@-");
}

#[test]
fn three_groups_are_taken_verbatim() {
    let handler = default_handler();
    let rule = rule_with_template("ignored");
    let captures = vec![
        Some(String::from("whole")),
        Some(String::from("Alice")),
        Some(String::from("hello")),
    ];
    let (name, text) = generate_text(&captures, &rule, &handler).unwrap();
    assert_eq!(name, "Alice");
    assert_eq!(text, "hello");
}

#[test]
fn three_groups_sanitize_the_nickname() {
    let handler = default_handler();
    let rule = rule_with_template("ignored");
    let captures = vec![
        Some(String::from("whole")),
        Some(String::from("a@b")),
        Some(String::from("hi")),
    ];
    let (name, text) = generate_text(&captures, &rule, &handler).unwrap();
    assert_eq!(name, "a@-b");
    assert_eq!(text, "hi");
}

#[test]
fn three_groups_missing_group_yields_none() {
    let handler = default_handler();
    let rule = rule_with_template("ignored");
    let captures = vec![Some(String::from("whole")), Some(String::from("Alice")), None];
    assert!(generate_text(&captures, &rule, &handler).is_none());
}

#[test]
fn two_groups_go_through_the_templates() {
    let handler = default_handler();
    let rule = rule_with_template("joined");
    let captures = vec![Some(String::from("whole")), Some(String::from("Bob"))];
    let (name, text) = generate_text(&captures, &rule, &handler).unwrap();
    assert_eq!(name, "");
    assert_eq!(text, "Bob joined");
}

#[test]
fn two_groups_substitute_each_token_once() {
    let handler = default_handler();
    let rule = rule_with_template("{{player}} joined");
    let captures = vec![Some(String::from("whole")), Some(String::from("Bob"))];
    let (name, text) = generate_text(&captures, &rule, &handler).unwrap();
    assert_eq!(name, "");
    assert_eq!(text, "Bob {{player}} joined");
}

#[test]
fn join_and_leave_tokens_are_expanded() {
    let handler = default_handler();
    let join_rule = rule_with_template("{{text_join}}");
    let captures = vec![Some(String::from("whole")), Some(String::from("Bob"))];
    let (_, text) = generate_text(&captures, &join_rule, &handler).unwrap();
    assert_eq!(text, "Bob has join the game");

    let leave_rule = rule_with_template("{{text_leave}}");
    let (_, text) = generate_text(&captures, &leave_rule, &handler).unwrap();
    assert_eq!(text, "Bob has left the game");
}

#[test]
fn missing_first_group_yields_none() {
    let handler = default_handler();
    let rule = rule_with_template("joined");
    let captures = vec![Some(String::from("whole")), None];
    assert!(generate_text(&captures, &rule, &handler).is_none());
}

#[test]
fn literal_rules_replace_first_occurrence() {
    let pairs = vec![(String::from("aa"), String::from("b"))];
    assert_eq!(format_text(String::from("aa aa"), pairs), "b aa");
}

#[test]
fn literal_rules_without_occurrence_are_noops() {
    let pairs = vec![
        (String::from("xyz"), String::from("1")),
        (String::from("q"), String::from("2")),
    ];
    assert_eq!(format_text(String::from("hello world"), pairs), "hello world");
}

#[test]
fn default_nickname_blocks_strip_prefix() {
    let handler = default_handler();
    assert_eq!(
        format_text(String::from("tw/Player"), handler.block_text_in_nickname.clone()),
        "Player"
    );
}

#[test]
fn regex_rules_replace_only_group_one() {
    let rules = vec![(Pattern::compile("ab(c)d").unwrap(), String::from("X"))];
    assert_eq!(format_regex(String::from("zabcd"), &rules).unwrap(), "zabXd");
}

#[test]
fn regex_rule_replaces_first_occurrence_of_group_text() {
    // group 1 matches "b"; the first "b" in the text is replaced, not the
    // one inside the span that the whole pattern matched
    let rules = vec![(Pattern::compile("a(b)c").unwrap(), String::from("X"))];
    assert_eq!(format_regex(String::from("b abc"), &rules).unwrap(), "X abc");
}

#[test]
fn regex_rules_compose_sequentially() {
    let rules = vec![
        (Pattern::compile("(foo)").unwrap(), String::from("bar")),
        (Pattern::compile("(bar)").unwrap(), String::from("baz")),
    ];
    assert_eq!(format_regex(String::from("foo"), &rules).unwrap(), "baz");
}

#[test]
fn regex_rule_without_match_is_skipped() {
    let rules = vec![(Pattern::compile("(nope)").unwrap(), String::from("X"))];
    assert_eq!(format_regex(String::from("text"), &rules).unwrap(), "text");
}

#[test]
fn regex_rule_without_group_is_a_corrupt_rule() {
    let rules = vec![(Pattern::compile("foo").unwrap(), String::from("X"))];
    assert_eq!(
        format_regex(String::from("foo"), &rules),
        Err(PipelineError::MissingCaptureGroup)
    );
}

#[test]
fn broken_pipe_error_text_is_translated() {
    assert_eq!(
        econ_bridge::utils::err_to_string(String::from("Broken pipe (os error 32)")),
        "Server closed socket(Broken pipe, os error 32)"
    );
    assert_eq!(
        econ_bridge::utils::err_to_string(String::from("connection refused")),
        "connection refused"
    );
}

#[test]
fn bad_pattern_does_not_compile() {
    assert!(Pattern::compile("(").is_none());
}
