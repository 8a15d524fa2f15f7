use econ_bridge::model::{
    Commands, ConfigError, Env, EnvNats, HandlerPaths, NatsHandlerPaths, RconData,
    StringOrVecString, get_path,
};

fn empty_env() -> Env {
    Env {
        nats: EnvNats {
            server: String::from("nats://localhost:4222"),
            user: None,
            password: None,
            read_path: None,
            write_path: None,
            paths: None,
        },
        check_status_econ: None,
        message_thread_id: None,
        server_name: None,
        econ: None,
        text: None,
        text_leave: None,
        text_join: None,
        text_edit_nickname: None,
        nickname_regex: None,
        block_text_in_nickname: None,
        chat_regex: None,
        block_text_in_chat: None,
        commands: None,
    }
}

#[test]
fn union_field_absent_is_empty() {
    let r = get_path(None, Vec::new());
    assert!(r.is_empty());
}

#[test]
fn union_field_absent_takes_default() {
    let r = get_path(None, vec![String::from("a"), String::from("b")]);
    assert_eq!(r, vec![String::from("a"), String::from("b")]);
}

#[test]
fn union_field_single_is_one_element() {
    let r = get_path(Some(StringOrVecString::Single(String::from("only"))), Vec::new());
    assert_eq!(r, vec![String::from("only")]);
}

#[test]
fn union_field_list_is_kept_in_order() {
    let r = get_path(
        Some(StringOrVecString::Multiple(vec![
            String::from("x"),
            String::from("y"),
            String::from("z"),
        ])),
        Vec::new(),
    );
    assert_eq!(r, vec![String::from("x"), String::from("y"), String::from("z")]);
}

#[test]
fn templates_default_when_absent() {
    let env = empty_env();
    let handler = env.get_env_handler().unwrap();
    assert_eq!(handler.text, "{{player}} {{text}}");
    assert_eq!(handler.text_leave, "has left the game");
    assert_eq!(handler.text_join, "has join the game");
    assert_eq!(handler.text_edit_nickname, "{{player}} > {{text}}");
}

#[test]
fn templates_empty_string_is_not_defaulted() {
    let mut env = empty_env();
    env.text = Some(String::new());
    let handler = env.get_env_handler().unwrap();
    assert_eq!(handler.text, "");
}

#[test]
fn nickname_block_list_defaults() {
    let env = empty_env();
    let handler = env.get_env_handler().unwrap();
    assert_eq!(
        handler.block_text_in_nickname,
        vec![
            (String::from("tw/"), String::new()),
            (String::from("twitch.tv/"), String::new()),
        ]
    );
    assert!(handler.block_text_in_chat.is_empty());
}

#[test]
fn invalid_optional_regex_is_dropped() {
    let mut env = empty_env();
    env.nickname_regex = Some(vec![
        (String::from("("), String::from("x")),
        (String::from("(a)"), String::from("y")),
    ]);
    let handler = env.get_env_handler().unwrap();
    assert_eq!(handler.nickname_regex.len(), 1);
    assert_eq!(handler.nickname_regex[0].1, "y");
}

#[test]
fn path_entry_without_read_is_an_error() {
    let mut env = empty_env();
    env.nats.paths = Some(vec![NatsHandlerPaths {
        read: None,
        regex: None,
        write: None,
        template: None,
    }]);
    assert_eq!(env.get_env_handler().err(), Some(ConfigError::MissingPathRead));
}

#[test]
fn path_entry_with_bad_regex_is_an_error() {
    let mut env = empty_env();
    env.nats.paths = Some(vec![NatsHandlerPaths {
        read: Some(String::from("tw.console")),
        regex: Some(StringOrVecString::Single(String::from("("))),
        write: None,
        template: None,
    }]);
    assert_eq!(env.get_env_handler().err(), Some(ConfigError::InvalidPathRegex));
}

#[test]
fn path_entry_is_normalized() {
    let mut env = empty_env();
    env.nats.paths = Some(vec![NatsHandlerPaths {
        read: Some(String::from("tw.console")),
        regex: Some(StringOrVecString::Multiple(vec![
            String::from("(a)"),
            String::from("(b)"),
        ])),
        write: Some(StringOrVecString::Single(String::from("tw.chat"))),
        template: None,
    }]);
    let handler = env.get_env_handler().unwrap();
    assert_eq!(handler.paths.len(), 1);
    assert_eq!(handler.paths[0].read, "tw.console");
    assert_eq!(handler.paths[0].regex.len(), 2);
    assert_eq!(handler.paths[0].write, vec![String::from("tw.chat")]);
    assert_eq!(handler.paths[0].template, "");
}

#[test]
fn single_pattern_constructor() {
    let rule = HandlerPaths::new("(hello)").unwrap();
    assert_eq!(rule.read, "");
    assert_eq!(rule.regex.len(), 1);
    assert!(rule.write.is_empty());
    assert_eq!(rule.template, "");
}

#[test]
fn single_pattern_constructor_rejects_bad_regex() {
    assert_eq!(HandlerPaths::new("(").err(), Some(ConfigError::InvalidPathRegex));
}

#[test]
fn commands_default_when_absent() {
    let env = empty_env();
    let (sync, log) = env.get_commands();
    assert_eq!(sync, vec!["ban_range", "ban", "unban_range", "unban", "muteip"]);
    assert_eq!(
        log,
        vec!["ban", "ban_range", "unban", "unban_range", "kick", "muteid", "muteip"]
    );
}

#[test]
fn commands_empty_list_replaces_default() {
    let mut env = empty_env();
    env.commands = Some(Commands { sync: Some(Vec::new()), log: None });
    let (sync, log) = env.get_commands();
    assert!(sync.is_empty());
    assert_eq!(
        log,
        vec!["ban", "ban_range", "unban", "unban_range", "kick", "muteid", "muteip"]
    );
}

#[test]
fn commands_configured_lists_are_kept() {
    let mut env = empty_env();
    env.commands = Some(Commands {
        sync: Some(vec![String::from("say")]),
        log: Some(vec![String::from("kick"), String::from("say")]),
    });
    let (sync, log) = env.get_commands();
    assert_eq!(sync, vec!["say"]);
    assert_eq!(log, vec!["kick", "say"]);
}

#[test]
fn rcon_data_default_is_inert() {
    let data = RconData::default();
    assert!(data.text.is_none());
    assert!(!data.sync);
    assert!(!data.log);
}
