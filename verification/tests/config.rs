use webhook_funnel::config::{
    funnel_chat_name_from_yaml, funnel_config_from_text, funnel_port_from_yaml,
    funnel_ship_name_from_yaml,
};

const BAREBONES: &str = r#"
# The @p of the Ship which is hosting the chat
chat_ship: "~zod"
# Name of the chat
chat_name: "..."
# The port that the funnel webserver (the /webhook endpoint) will be using
funnel_port: "9000"
"#;

#[test]
fn barebones_config_holds_the_three_values() {
    let config = funnel_config_from_text(BAREBONES).expect("the text is YAML");
    assert_eq!(funnel_ship_name_from_yaml(&config), Some("~zod".to_string()));
    assert_eq!(funnel_chat_name_from_yaml(&config), Some("...".to_string()));
    assert_eq!(funnel_port_from_yaml(&config), Some("9000".to_string()));
}

#[test]
fn missing_key_gives_none() {
    let config = funnel_config_from_text("chat_ship: \"~bus\"\n").unwrap();
    assert_eq!(funnel_ship_name_from_yaml(&config), Some("~bus".to_string()));
    assert_eq!(funnel_chat_name_from_yaml(&config), None);
    assert_eq!(funnel_port_from_yaml(&config), None);
}

#[test]
fn value_that_is_no_string_gives_none() {
    let config = funnel_config_from_text("funnel_port: 9000\nchat_name: [a, b]\n").unwrap();
    assert_eq!(funnel_port_from_yaml(&config), None);
    assert_eq!(funnel_chat_name_from_yaml(&config), None);
}

#[test]
fn only_the_first_document_counts() {
    let config = funnel_config_from_text("chat_name: \"one\"\n---\nchat_name: \"two\"\n").unwrap();
    assert_eq!(funnel_chat_name_from_yaml(&config), Some("one".to_string()));
}

#[test]
fn text_without_a_document_is_no_config() {
    assert!(funnel_config_from_text("").is_none());
    assert!(funnel_config_from_text("# only a comment\n").is_none());
}

#[test]
fn text_that_is_no_yaml_is_no_config() {
    assert!(funnel_config_from_text("chat_name: \"unclosed\nchat_ship: [").is_none());
}

#[test]
fn config_that_is_no_mapping_has_no_values() {
    let config = funnel_config_from_text("- chat_name\n- chat_ship\n").unwrap();
    assert_eq!(funnel_chat_name_from_yaml(&config), None);
    assert_eq!(funnel_ship_name_from_yaml(&config), None);
}

#[test]
fn deeply_nested_text_is_no_config() {
    assert!(funnel_config_from_text(&"- ".repeat(10_000)).is_none());
    assert!(funnel_config_from_text(&"? ".repeat(300)).is_none());
    assert!(funnel_config_from_text(&"- ".repeat(129)).is_none());
    assert!(funnel_config_from_text(&"[".repeat(129)).is_none());
    assert!(funnel_config_from_text(&"{a: ".repeat(65)).is_none());
}

#[test]
fn nesting_within_the_bound_is_loaded() {
    assert!(funnel_config_from_text(&"- ".repeat(128)).is_some());
    assert!(funnel_config_from_text(&"? ".repeat(128)).is_some());
    assert!(funnel_config_from_text(&"- ? ".repeat(64)).is_some());
    let mut stairs = String::new();
    for level in 0..64 {
        stairs.push_str(&" ".repeat(level));
        stairs.push_str("k:\n");
        stairs.push_str(&" ".repeat(level));
        stairs.push_str("-\n");
    }
    assert!(funnel_config_from_text(&stairs).is_some());
    let flow = format!("{}x{}", "[".repeat(128), "]".repeat(128));
    assert!(funnel_config_from_text(&flow).is_some());
}

#[test]
fn long_flat_config_is_loaded() {
    let mut text = String::new();
    for line in 0..5_000 {
        text.push_str(&format!("# comment {}: dashes -- and - more ? yes: no\n", line));
    }
    text.push_str("chat_ship: \"~zod\"\nchat_name: \"general\"\nfunnel_port: \"9000\"\n");
    for key in 0..5_000 {
        text.push_str(&format!("key{}: \"v\"\n", key));
    }
    assert!(text.len() > 200_000);
    let config = funnel_config_from_text(&text).expect("a long flat text is loaded");
    assert_eq!(funnel_ship_name_from_yaml(&config), Some("~zod".to_string()));
    assert_eq!(funnel_chat_name_from_yaml(&config), Some("general".to_string()));
    assert_eq!(funnel_port_from_yaml(&config), Some("9000".to_string()));
}

#[test]
fn many_marks_far_from_the_margin_are_no_config() {
    let line = format!("{}k: \"v\"\n", " ".repeat(80));
    assert!(funnel_config_from_text(&line).is_some());
    assert!(funnel_config_from_text(&line.repeat(129)).is_none());
    let near = format!("{}k: \"v\"\n", " ".repeat(78));
    assert!(funnel_config_from_text(&near.repeat(129)).is_some());
    let brackets = format!("k: {}\n", "[a]".repeat(129));
    assert!(funnel_config_from_text(&brackets).is_none());
}

fn stairs(from: usize, leaf: &str) -> String {
    let mut text = String::new();
    for column in from..79 {
        text.push_str(&" ".repeat(column));
        text.push_str("k:\n");
        text.push_str(&" ".repeat(column));
        text.push_str("-\n");
    }
    text.push_str(&" ".repeat(79));
    text.push_str(leaf);
    text.push('\n');
    text
}

#[test]
fn deepest_nesting_near_the_margin_is_loaded() {
    let mut text = String::new();
    for _ in 0..40 {
        text.push_str("filler: \"to make the marks many\"\n");
    }
    text.push_str("a: &a\n");
    text.push_str(&stairs(1, "x"));
    text.push_str("b: &b\n");
    text.push_str(&stairs(1, "*a"));
    text.push_str("c: &c\n");
    text.push_str(&stairs(1, "*b"));
    text.push_str("d: &d\n");
    text.push_str(&stairs(1, "*c"));
    text.push_str("chat_name: \"deep\"\ne:\n");
    text.push_str(&stairs(1, "*d"));
    let config = funnel_config_from_text(&text).expect("marks near the margin are loaded");
    assert_eq!(funnel_chat_name_from_yaml(&config), Some("deep".to_string()));
    let copy = config.clone();
    assert!(copy == config);
    let flow = format!("{}k: {}x{}\n", stairs(0, "y"), "[a: ".repeat(16), "]".repeat(16));
    assert!(funnel_config_from_text(&flow).is_some());
}

#[test]
fn flat_config_of_many_keys_is_loaded() {
    let mut text = String::new();
    for key in 0..1_000 {
        text.push_str(&format!("key{}: \"v\"\n", key));
    }
    text.push_str("chat_ship: \"~zod\"\nchat_name: \"general\"\nfunnel_port: \"9000\"\n");
    let config = funnel_config_from_text(&text).expect("a thousand keys are loaded");
    assert_eq!(funnel_port_from_yaml(&config), Some("9000".to_string()));
    assert!(funnel_config_from_text(&"-\n".repeat(1_000)).is_some());
}

#[test]
fn dashes_and_question_marks_inside_words_are_no_marks() {
    let text = format!(
        "chat_ship: \"~sampel-palnet\"\nchat_name: {}\nfunnel_port: \"9000\"\n",
        "what-is-this?-".repeat(50)
    );
    let config = funnel_config_from_text(&text).expect("marks inside words open no level");
    assert_eq!(funnel_ship_name_from_yaml(&config), Some("~sampel-palnet".to_string()));
}

#[test]
fn text_with_many_aliases_is_no_config() {
    let bomb = "a: &a [x, x]\nb: &b [*a, *a, *a]\nc: [*b, *b, *b]\n";
    assert!(funnel_config_from_text(bomb).is_none());
    assert!(funnel_config_from_text("# *****\nchat_name: \"n\"\n").is_none());
}

#[test]
fn text_with_few_aliases_is_loaded() {
    let text = "base: &b \"general\"\nchat_name: *b\nother: *b\n";
    let config = funnel_config_from_text(text).expect("two aliases are loaded");
    assert_eq!(funnel_chat_name_from_yaml(&config), Some("general".to_string()));
    let doubled = "a: &a [x, x]\nb: &b [*a, *a]\nc: [*b, *b]\n";
    assert!(funnel_config_from_text(doubled).is_some());
}
