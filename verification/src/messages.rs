//! The conversation model: role-tagged messages, their content, and the
//! per-message records handed to the template.

use vstd::prelude::*;

verus! {

/// One segment of a multi-part message content; only its text takes part in
/// prompt building.
pub struct ContentPart {
    pub text: String,
}

/// The content of a chat message: either a single literal string or an
/// ordered list of segments.
pub enum MessageContent {
    Text(String),
    Parts(Vec<ContentPart>),
}

/// A role-tagged message of a conversation. Tool calls on assistant messages
/// and the call id on tool messages play no part in prompt building and are
/// not modelled.
pub enum ChatMessage {
    System { content: MessageContent, name: Option<String> },
    User { content: MessageContent, name: Option<String> },
    Assistant { content: MessageContent, name: Option<String> },
    Tool { content: MessageContent },
}

/// The value exposed to the template for one message.
pub struct RenderRecord {
    pub role: String,
    pub content: String,
    pub name: Option<String>,
}

/// The mathematical model of a render record.
#[verifier::ext_equal]
pub ghost struct RecordView {
    pub role: Seq<char>,
    pub content: Seq<char>,
    pub name: Option<Seq<char>>,
}

/// The view of an optional name.
pub open spec fn name_view(name: Option<String>) -> Option<Seq<char>> {
    match name {
        Some(n) => Some(n@),
        None => None,
    }
}

impl View for RenderRecord {
    type V = RecordView;

    open spec fn view(&self) -> RecordView {
        RecordView { role: self.role@, content: self.content@, name: name_view(self.name) }
    }
}

/// The text fields of a list of segments, in order.
pub open spec fn part_texts(parts: Seq<ContentPart>) -> Seq<Seq<char>> {
    parts.map_values(|part: ContentPart| part.text@)
}

/// The pieces joined with a single newline between consecutive pieces, and
/// nothing added before the first or after the last.
pub open spec fn join_lines(pieces: Seq<Seq<char>>) -> Seq<char>
    decreases pieces.len(),
{
    if pieces.len() == 0 {
        Seq::<char>::empty()
    } else if pieces.len() == 1 {
        pieces.last()
    } else {
        join_lines(pieces.drop_last()) + seq!['\n'] + pieces.last()
    }
}

/// What a message's content flattens to: a literal text stays as it is; the
/// texts of a segment list are joined with single newlines.
pub open spec fn normalized(content: MessageContent) -> Seq<char> {
    match content {
        MessageContent::Text(text) => text@,
        MessageContent::Parts(parts) => join_lines(part_texts(parts@)),
    }
}

/// The record a message maps to: the role tag as a literal, the flattened
/// content, and the name where the variant carries one.
pub open spec fn record_of(message: ChatMessage) -> RecordView {
    match message {
        ChatMessage::System { content, name } => RecordView {
            role: "system"@,
            content: normalized(content),
            name: name_view(name),
        },
        ChatMessage::User { content, name } => RecordView {
            role: "user"@,
            content: normalized(content),
            name: name_view(name),
        },
        ChatMessage::Assistant { content, name } => RecordView {
            role: "assistant"@,
            content: normalized(content),
            name: name_view(name),
        },
        ChatMessage::Tool { content } => RecordView {
            role: "tool"@,
            content: normalized(content),
            name: None,
        },
    }
}

/// The records of a whole conversation: one per message, in order.
pub open spec fn records_of(messages: Seq<ChatMessage>) -> Seq<RecordView> {
    messages.map_values(|message: ChatMessage| record_of(message))
}

/// Relies on String::push_str, which vstd leaves unspecified: appends the
/// slice's characters to the string.
#[verifier::external_body]
fn push_str(s: &mut String, piece: &str)
    ensures
        final(s)@ == old(s)@ + piece@,
{
    s.push_str(piece);
}

/// Relies on String::push, which vstd leaves unspecified: appends one
/// character to the string.
#[verifier::external_body]
fn push_char(s: &mut String, c: char)
    ensures
        final(s)@ == old(s)@ + seq![c],
{
    s.push(c);
}

/// Flattens a message's content to a single string: a literal text is
/// returned unchanged; the texts of a segment list are joined with a single
/// newline between consecutive segments, the empty list giving the empty
/// string.
pub fn content_to_string(content: &MessageContent) -> (result: String)
    ensures
        result@ == normalized(*content),
{
    match content {
        MessageContent::Text(text) => text.clone(),
        MessageContent::Parts(parts) => {
            let ghost texts = part_texts(parts@);
            let mut joined = String::new();
            let mut i: usize = 0;
            while i < parts.len()
                invariant
                    i <= parts@.len(),
                    texts == part_texts(parts@),
                    joined@ == join_lines(texts.take(i as int)),
                decreases parts@.len() - i,
            {
                let ghost before = joined@;
                if i > 0 {
                    push_char(&mut joined, '\n');
                }
                push_str(&mut joined, parts[i].text.as_str());
                proof {
                    let next = i as int + 1;
                    assert(texts.take(next).drop_last() =~= texts.take(i as int));
                    assert(texts.take(next).last() == texts[i as int]);
                    if i == 0 {
                        assert(joined@ =~= texts[0]);
                    } else {
                        assert(joined@ =~= before + seq!['\n'] + texts[i as int]);
                    }
                }
                i = i + 1;
            }
            proof {
                assert(texts.take(parts@.len() as int) =~= texts);
            }
            joined
        },
    }
}

/// Clones an optional name.
fn clone_name(name: &Option<String>) -> (result: Option<String>)
    ensures
        name_view(result) == name_view(*name),
{
    match name {
        Some(n) => Some(n.clone()),
        None => None,
    }
}

/// Maps one message to its render record: the role tag, the flattened
/// content, and the name where the variant carries one.
pub fn chat_to_record(message: &ChatMessage) -> (result: RenderRecord)
    ensures
        result@ == record_of(*message),
{
    match message {
        ChatMessage::System { content, name } => RenderRecord {
            role: "system".to_owned(),
            content: content_to_string(content),
            name: clone_name(name),
        },
        ChatMessage::User { content, name } => RenderRecord {
            role: "user".to_owned(),
            content: content_to_string(content),
            name: clone_name(name),
        },
        ChatMessage::Assistant { content, name } => RenderRecord {
            role: "assistant".to_owned(),
            content: content_to_string(content),
            name: clone_name(name),
        },
        ChatMessage::Tool { content } => RenderRecord {
            role: "tool".to_owned(),
            content: content_to_string(content),
            name: None,
        },
    }
}

/// Order preservation: the record sequence of a conversation has exactly one
/// record per message, and the record at every position is the record of the
/// message at that position.
pub proof fn lemma_order_preserved(messages: Seq<ChatMessage>)
    ensures
        records_of(messages).len() == messages.len(),
        forall|i: int| 0 <= i < messages.len() ==> records_of(messages)[i] == record_of(messages[i]),
{
}

} // verus!
