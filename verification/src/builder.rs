//! The template builder: compiles a template once, then renders it against
//! the records of a conversation to produce the prompt string.

use vstd::prelude::*;

use liquid::model::Object;
use liquid::model::Value;
use liquid_lib::stdlib::ForBlock;
use liquid_lib::stdlib::IfBlock;

use crate::messages::ChatMessage;
use crate::messages::RecordView;
use crate::messages::RenderRecord;
use crate::messages::chat_to_record;
use crate::messages::records_of;

verus! {

/// Whether liquid's parser, built with the iteration and conditional blocks
/// and nothing else, accepts a template source. Parsing looks at the source
/// text alone.
pub uninterp spec fn template_compiles(source: Seq<char>) -> bool;

/// A decimal digit.
pub open spec fn is_decimal_digit(c: char) -> bool {
    ('0' as u32) <= (c as u32) && (c as u32) <= ('9' as u32)
}

/// Whether the window of 19 characters starting at `start` lies inside the
/// text and holds decimal digits only.
pub open spec fn digit_window(s: Seq<char>, start: int) -> bool {
    &&& 0 <= start
    &&& start + 19 <= s.len()
    &&& forall|j: int| start <= j < start + 19 ==> is_decimal_digit(s[j])
}

/// Whether 19 consecutive decimal digits occur anywhere in the text. Every
/// integer literal beyond the template language's signed 64-bit range shows
/// at least 19 consecutive digits, so a source without such a run keeps all
/// its literals within that machine limit.
pub open spec fn has_long_digit_run(s: Seq<char>) -> bool {
    exists|start: int| digit_window(s, start)
}

/// Whether the window of 19 characters starting at `k` holds some
/// non-digit.
pub open spec fn window_broken(s: Seq<char>, k: int) -> bool {
    exists|j: int| k <= j < k + 19 && !is_decimal_digit(s[j])
}

/// Which outcomes rendering the template compiled from `source` against a
/// context that binds `items` to the given records can have: `Some` of the
/// rendered text, or `None` where rendering fails. A relation, not a
/// function: a template that loops over one of the record objects
/// themselves walks a hash map in no fixed order, so two renders of one
/// template over one context may differ.
pub uninterp spec fn render_result(
    source: Seq<char>,
    items: Seq<RecordView>,
    outcome: Option<Seq<char>>,
) -> bool;

/// The text the built-in template produces from a record sequence: one
/// `role: content` line per record, each closed by a newline, then the
/// completion cue `assistant:` with no trailing newline.
pub open spec fn transcript(items: Seq<RecordView>) -> Seq<char>
    decreases items.len(),
{
    if items.len() == 0 {
        "assistant:"@
    } else {
        items.first().role + ": "@ + items.first().content + seq!['\n'] + transcript(
            items.drop_first(),
        )
    }
}

/// liquid's compiled template, opaque here.
#[verifier::external_type_specification]
#[verifier::external_body]
pub struct ExTemplate(liquid::Template);

/// liquid's parse and render error, opaque here.
#[verifier::external_type_specification]
#[verifier::external_body]
pub struct ExError(liquid::Error);

/// The error of `ChatBuilder::new`: the supplied template source is not
/// accepted — invalid in the template language, or holding an integer
/// literal beyond the supported range.
#[derive(Debug)]
pub struct ConfigError {
    pub message: String,
}

/// The error of `ChatBuilder::build`: rendering the compiled template
/// against the given messages failed.
#[derive(Debug)]
pub struct RenderError {
    pub message: String,
}

/// The built-in template: one `role: content` line per message, then the
/// completion cue `assistant:` with no trailing newline.
pub open spec fn default_template() -> Seq<char> {
    "{% for item in items %}{{ item.role }}: {{ item.content }}\n{% endfor %}assistant:"@
}

/// The source that `new` compiles: the supplied one, or the built-in
/// default where none is supplied.
pub open spec fn chosen_source(template: Option<&str>) -> Seq<char> {
    match template {
        Some(source) => source@,
        None => default_template(),
    }
}

/// The views of a list of render records, in order.
pub open spec fn record_views(records: Seq<RenderRecord>) -> Seq<RecordView> {
    records.map_values(|record: RenderRecord| record@)
}

/// A prompt builder: one template, compiled once and immutable afterwards,
/// together with the source text it was compiled from.
pub struct ChatBuilder {
    template: liquid::Template,
    source: String,
}

impl View for ChatBuilder {
    type V = Seq<char>;

    closed spec fn view(&self) -> Seq<char> {
        self.source@
    }
}

/// Relies on str::chars and Iterator::collect: the vector holds exactly the
/// string's characters, in order.
#[verifier::external_body]
fn str_chars(source: &str) -> (chars: Vec<char>)
    ensures
        chars@ == source@,
{
    source.chars().collect()
}

/// Decides whether the source holds a run of 19 decimal digits. `new` turns
/// such sources away before compiling them, since liquid's parser aborts on
/// an integer literal outside the signed 64-bit range, and every such
/// literal holds a run of 19 digits.
pub fn contains_long_digit_run(source: &str) -> (found: bool)
    ensures
        found == has_long_digit_run(source@),
{
    let chars = str_chars(source);
    let mut i: usize = 0;
    let mut run: usize = 0;
    let mut found: bool = false;
    while i < chars.len()
        invariant
            chars@ == source@,
            i <= chars@.len(),
            run <= i,
            forall|j: int| i - run <= j < i ==> is_decimal_digit(chars@[j]),
            run == i || !is_decimal_digit(chars@[i - run - 1]),
            found ==> has_long_digit_run(source@),
            !found ==> forall|k: int| 0 <= k && k + 19 <= i ==> #[trigger] window_broken(
                chars@,
                k,
            ),
        decreases chars@.len() - i,
    {
        let c = chars[i];
        let is_digit: bool = (c as u32) >= ('0' as u32) && (c as u32) <= ('9' as u32);
        if is_digit {
            run = run + 1;
            if run >= 19 {
                found = true;
            }
        } else {
            run = 0;
        }
        proof {
            if found && is_digit && run >= 19 {
                assert forall|j: int| i + 1 - 19 <= j < i + 1 implies is_decimal_digit(
                    chars@[j],
                ) by {}
                assert(digit_window(source@, i + 1 - 19));
            }
            if !found && 0 <= i + 1 - 19 {
                let k = i + 1 - 19;
                let p: int = if is_digit {
                    i - run
                } else {
                    i as int
                };
                assert(k <= p < k + 19 && !is_decimal_digit(chars@[p]));
                assert(window_broken(chars@, k));
            }
        }
        i = i + 1;
    }
    proof {
        if !found {
            assert forall|start: int| !digit_window(source@, start) by {
                if 0 <= start && start + 19 <= source@.len() {
                    assert(window_broken(chars@, start));
                    let j = choose|j: int| start <= j < start + 19 && !is_decimal_digit(chars@[j]);
                    assert(!is_decimal_digit(source@[j]));
                }
            }
        }
    }
    found
}

/// The built-in template holds no digit at all, so no long digit run.
proof fn lemma_default_template_digit_free()
    ensures
        !has_long_digit_run(default_template()),
{
    reveal_strlit(
        "{% for item in items %}{{ item.role }}: {{ item.content }}\n{% endfor %}assistant:",
    );
    let s = default_template();
    assert forall|start: int| !digit_window(s, start) by {
        if 0 <= start && start + 19 <= s.len() {
            assert(!is_decimal_digit(s[start]));
        }
    }
}

/// Relies on liquid::ParserBuilder::new, ParserBuilder::block,
/// ParserBuilder::build and Parser::parse: the parser carries only the
/// iteration and conditional blocks — no tags and no filters — building it
/// cannot fail when no partials are set, and it accepts or rejects a source
/// on its text alone. The `requires` keeps out sources on which liquid's
/// parser aborts instead of erring: an integer literal outside the signed
/// 64-bit range. The last clause relies on the parser accepting the
/// built-in template, which uses only the `for` block and interpolation.
#[verifier::external_body]
fn compile(source: String) -> (result: Result<ChatBuilder, liquid::Error>)
    requires
        !has_long_digit_run(source@),
    ensures
        result is Ok <==> template_compiles(source@),
        result matches Ok(builder) ==> builder@ == source@,
        source@ == default_template() ==> result is Ok,
{
    let parser = match liquid::ParserBuilder::new().block(ForBlock).block(IfBlock).build() {
        Ok(parser) => parser,
        Err(error) => return Err(error),
    };
    match parser.parse(source.as_str()) {
        Ok(template) => Ok(ChatBuilder { template, source }),
        Err(error) => Err(error),
    }
}

/// Relies on the Display impl of liquid::Error for a readable description
/// of a parse or render failure.
#[verifier::external_body]
fn error_message(error: &liquid::Error) -> String {
    error.to_string()
}

/// Relies on liquid::Template::render and liquid's value model: the
/// builder's template is rendered against a fresh context binding `items`
/// to one object per record, carrying the record's `role` and `content`
/// fields, and `name` where the record has one (absent otherwise), and the
/// template is borrowed only, left as it was. The call returns on every
/// admitted input: the parser behind `template_compiles` admits only the
/// iteration and conditional blocks and the core expressions, whose render
/// paths err but never abort — the only aborts in liquid's render code sit
/// in its standard filters, which that parser does not carry. What comes
/// back is stated as a relation over the possible outcomes, since liquid
/// does not fix the output as a function of template and context (see
/// `render_result`). The last clauses rely on what the built-in template
/// alone produces: the `for` block walks the `items` array in order,
/// interpolation emits each string field verbatim, the fields it names are
/// present in every record, and it uses no conditional and iterates no
/// object, so for it the output is fixed and rendering cannot fail.
#[verifier::external_body]
fn render_records(builder: &ChatBuilder, records: &Vec<RenderRecord>) -> (result: Result<
    String,
    liquid::Error,
>)
    requires
        template_compiles(builder@),
    ensures
        result matches Ok(prompt) ==> render_result(
            builder@,
            record_views(records@),
            Some(prompt@),
        ),
        result is Err ==> render_result(builder@, record_views(records@), None),
        builder@ == default_template() ==> result is Ok,
        builder@ == default_template() ==> result->Ok_0@ == transcript(record_views(records@)),
{
    let mut items: Vec<Value> = Vec::new();
    for record in records.iter() {
        let mut object = Object::new();
        object.insert("role".into(), Value::scalar(record.role.clone()));
        object.insert("content".into(), Value::scalar(record.content.clone()));
        if let Some(name) = &record.name {
            object.insert("name".into(), Value::scalar(name.clone()));
        }
        items.push(Value::Object(object));
    }
    let mut globals = Object::new();
    globals.insert("items".into(), Value::Array(items));
    builder.template.render(&globals)
}

/// The exact default template source, as executable text.
fn default_template_source() -> (result: &'static str)
    ensures
        result@ == default_template(),
{
    "{% for item in items %}{{ item.role }}: {{ item.content }}\n{% endfor %}assistant:"
}

impl ChatBuilder {
    /// A builder only ever holds a template compiled from its own source.
    #[verifier::type_invariant]
    spec fn wf(self) -> bool {
        template_compiles(self.source@)
    }

    /// Compiles the supplied template source, or the built-in default where
    /// none is supplied. Returns a builder exactly when the chosen source
    /// holds no over-long integer literal and is a valid template; a
    /// rejected source yields a `ConfigError` and no builder at all. The
    /// default source always compiles, so `new(None)` never errors.
    pub fn new(template: Option<&str>) -> (result: Result<ChatBuilder, ConfigError>)
        ensures
            result is Ok <==> !has_long_digit_run(chosen_source(template)) && template_compiles(
                chosen_source(template),
            ),
            result matches Ok(builder) ==> builder@ == chosen_source(template),
            chosen_source(template) == default_template() ==> result is Ok,
            template is None ==> result is Ok,
    {
        let source: &str = match template {
            Some(source) => source,
            None => default_template_source(),
        };
        if contains_long_digit_run(source) {
            proof {
                lemma_default_template_digit_free();
            }
            return Err(
                ConfigError {
                    message: "an integer literal in the template is too long for the supported range".to_owned(),
                },
            );
        }
        match compile(source.to_owned()) {
            Ok(builder) => Ok(builder),
            Err(error) => Err(ConfigError { message: error_message(&error) }),
        }
    }

    /// Renders the compiled template against the conversation: one record
    /// per message, in order, bound as `items` in a fresh context. Returns
    /// the rendered prompt verbatim, or a `RenderError` where rendering
    /// fails, and the builder is left as it was either way. Under the
    /// built-in template, rendering always succeeds and the prompt is the
    /// transcript of the records — a function of the conversation alone,
    /// so repeated builds agree.
    pub fn build(&self, messages: &Vec<ChatMessage>) -> (result: Result<String, RenderError>)
        ensures
            result matches Ok(prompt) ==> render_result(
                self@,
                records_of(messages@),
                Some(prompt@),
            ),
            result is Err ==> render_result(self@, records_of(messages@), None),
            self@ == default_template() ==> result is Ok,
            self@ == default_template() ==> result->Ok_0@ == transcript(records_of(messages@)),
    {
        let mut records: Vec<RenderRecord> = Vec::new();
        let mut i: usize = 0;
        while i < messages.len()
            invariant
                i <= messages@.len(),
                records@.len() == i,
                record_views(records@) =~= records_of(messages@.take(i as int)),
            decreases messages@.len() - i,
        {
            let record = chat_to_record(&messages[i]);
            let ghost prev = records@;
            records.push(record);
            proof {
                let next = i as int + 1;
                assert forall|j: int| 0 <= j < next implies record_views(records@)[j]
                    == records_of(messages@.take(next))[j] by {
                    assert(messages@.take(next)[j] == messages@[j]);
                    if j < i as int {
                        assert(records@[j] == prev[j]);
                        assert(record_views(prev)[j] == records_of(messages@.take(i as int))[j]);
                        assert(messages@.take(i as int)[j] == messages@[j]);
                    } else {
                        assert(records@[j] == record);
                    }
                }
                assert(record_views(records@) =~= records_of(messages@.take(next)));
            }
            i = i + 1;
        }
        proof {
            use_type_invariant(self);
            assert(messages@.take(messages@.len() as int) =~= messages@);
            assert(record_views(records@) == records_of(messages@));
        }
        match render_records(self, &records) {
            Ok(prompt) => Ok(prompt),
            Err(error) => Err(RenderError { message: error_message(&error) }),
        }
    }
}

} // verus!
