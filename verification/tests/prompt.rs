use chat_prompt::ChatBuilder;
use chat_prompt::ChatMessage;
use chat_prompt::ContentPart;
use chat_prompt::MessageContent;
use chat_prompt::chat_to_record;
use chat_prompt::content_to_string;

fn text(s: &str) -> MessageContent {
    MessageContent::Text(s.to_string())
}

fn parts(texts: &[&str]) -> MessageContent {
    MessageContent::Parts(
        texts.iter().map(|t| ContentPart { text: t.to_string() }).collect(),
    )
}

#[test]
fn normalize_text_is_identity() {
    assert_eq!(content_to_string(&text("hello")), "hello");
}

#[test]
fn normalize_parts_joins_with_newline() {
    assert_eq!(content_to_string(&parts(&["a", "b"])), "a\nb");
}

#[test]
fn normalize_empty_parts_is_empty() {
    assert_eq!(content_to_string(&parts(&[])), "");
}

#[test]
fn normalize_single_part_has_no_newline() {
    assert_eq!(content_to_string(&parts(&["only"])), "only");
}

#[test]
fn record_carries_role_content_and_name() {
    let record = chat_to_record(&ChatMessage::System {
        content: text("rules"),
        name: Some("ops".to_string()),
    });
    assert_eq!(record.role, "system");
    assert_eq!(record.content, "rules");
    assert_eq!(record.name.as_deref(), Some("ops"));

    let record = chat_to_record(&ChatMessage::Tool { content: text("out") });
    assert_eq!(record.role, "tool");
    assert_eq!(record.content, "out");
    assert!(record.name.is_none());
}

#[test]
fn default_template_renders_transcript() {
    let builder = ChatBuilder::new(None).unwrap();
    let messages = vec![
        ChatMessage::System { content: text("You are helpful"), name: None },
        ChatMessage::User { content: text("Hi"), name: None },
    ];
    let prompt = builder.build(&messages).unwrap();
    assert_eq!(prompt, "system: You are helpful\nuser: Hi\nassistant:");
}

#[test]
fn empty_conversation_renders_cue_only() {
    let builder = ChatBuilder::new(None).unwrap();
    let prompt = builder.build(&Vec::new()).unwrap();
    assert_eq!(prompt, "assistant:");
}

#[test]
fn multi_part_content_renders_joined() {
    let builder = ChatBuilder::new(None).unwrap();
    let messages = vec![ChatMessage::User { content: parts(&["line1", "line2"]), name: None }];
    let prompt = builder.build(&messages).unwrap();
    assert_eq!(prompt, "user: line1\nline2\nassistant:");
}

#[test]
fn all_four_roles_render_in_order() {
    let builder = ChatBuilder::new(None).unwrap();
    let messages = vec![
        ChatMessage::System { content: text("a"), name: None },
        ChatMessage::User { content: text("b"), name: None },
        ChatMessage::Assistant { content: text("c"), name: None },
        ChatMessage::Tool { content: text("d") },
    ];
    let prompt = builder.build(&messages).unwrap();
    assert_eq!(prompt, "system: a\nuser: b\nassistant: c\ntool: d\nassistant:");
}

#[test]
fn order_follows_the_input_sequence() {
    let builder =
        ChatBuilder::new(Some("{% for item in items %}{{ item.role }};{% endfor %}")).unwrap();
    let messages = vec![
        ChatMessage::Tool { content: text("x") },
        ChatMessage::User { content: text("y"), name: None },
        ChatMessage::System { content: text("z"), name: None },
    ];
    let prompt = builder.build(&messages).unwrap();
    assert_eq!(prompt, "tool;user;system;");
}

#[test]
fn repeated_builds_agree() {
    let builder = ChatBuilder::new(None).unwrap();
    let messages = vec![
        ChatMessage::User { content: parts(&["one", "two"]), name: None },
        ChatMessage::Assistant { content: text("three"), name: None },
    ];
    let first = builder.build(&messages).unwrap();
    let second = builder.build(&messages).unwrap();
    assert_eq!(first, second);
}

#[test]
fn invalid_template_is_a_config_error() {
    assert!(ChatBuilder::new(Some("{% invalid %}")).is_err());
}

#[test]
fn overlong_integer_literal_is_a_config_error() {
    assert!(ChatBuilder::new(Some("{{ 99999999999999999999 }}")).is_err());
    assert!(ChatBuilder::new(Some("{% if 9223372036854775808 %}x{% endif %}")).is_err());
}

#[test]
fn filters_are_not_part_of_the_template_surface() {
    assert!(ChatBuilder::new(Some("{{ items | upcase }}")).is_err());
    assert!(
        ChatBuilder::new(Some("{% for item in items %}{{ item.content | downcase }}{% endfor %}"))
            .is_err()
    );
}

#[test]
fn conditionals_render() {
    let builder = ChatBuilder::new(Some(
        "{% for item in items %}{% if item.role %}<{{ item.content }}>{% endif %}{% endfor %}",
    ))
    .unwrap();
    let messages = vec![ChatMessage::User { content: text("hi"), name: None }];
    assert_eq!(builder.build(&messages).unwrap(), "<hi>");
}

#[test]
fn absent_name_is_missing_from_the_record() {
    let builder =
        ChatBuilder::new(Some("{% for item in items %}{{ item.name }}{% endfor %}")).unwrap();
    let named = vec![ChatMessage::User { content: text("hi"), name: Some("alice".to_string()) }];
    assert_eq!(builder.build(&named).unwrap(), "alice");
    let nameless = vec![ChatMessage::Tool { content: text("out") }];
    assert!(builder.build(&nameless).is_err());
}

#[test]
fn config_error_does_not_poison_later_builders() {
    assert!(ChatBuilder::new(Some("{% invalid %}")).is_err());
    let builder = ChatBuilder::new(None).unwrap();
    assert_eq!(builder.build(&Vec::new()).unwrap(), "assistant:");
}

#[test]
fn render_failure_leaves_the_builder_usable() {
    let builder =
        ChatBuilder::new(Some("{% for item in items %}{{ item.missing }}{% endfor %}")).unwrap();
    let failing = vec![ChatMessage::User { content: text("Hi"), name: None }];
    assert!(builder.build(&failing).is_err());
    assert_eq!(builder.build(&Vec::new()).unwrap(), "");
    assert!(builder.build(&failing).is_err());
}

#[test]
fn names_reach_the_template() {
    let builder = ChatBuilder::new(Some(
        "{% for item in items %}{{ item.role }}={{ item.name }};{% endfor %}",
    ))
    .unwrap();
    let messages = vec![
        ChatMessage::User { content: text("hi"), name: Some("alice".to_string()) },
        ChatMessage::Assistant { content: text("yo"), name: Some("bot".to_string()) },
    ];
    let prompt = builder.build(&messages).unwrap();
    assert_eq!(prompt, "user=alice;assistant=bot;");
}

#[test]
fn message_content_is_data_not_template_text() {
    let builder = ChatBuilder::new(None).unwrap();
    let messages =
        vec![ChatMessage::User { content: text("{{ items }} {% endfor %}"), name: None }];
    let prompt = builder.build(&messages).unwrap();
    assert_eq!(prompt, "user: {{ items }} {% endfor %}\nassistant:");
}

#[test]
fn content_is_rendered_not_echoed() {
    let builder =
        ChatBuilder::new(Some("{{ items.size }}:{% for item in items %}<{{ item.content }}>{% endfor %}"))
            .unwrap();
    let messages = vec![
        ChatMessage::User { content: text("left"), name: None },
        ChatMessage::Tool { content: parts(&["p", "q"]) },
    ];
    let prompt = builder.build(&messages).unwrap();
    assert_eq!(prompt, "2:<left><p\nq>");
}
