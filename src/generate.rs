use vstd::prelude::*;

use crate::error::OllamaError;

verus! {

/// Final statistics of one completed generation, as carried by the last
/// message of its stream. Durations are elapsed times in nanoseconds.
#[derive(Debug, Clone)]
pub struct Stats {
    pub context: Vec<usize>,
    pub total_duration: u64,
    pub load_duration: u64,
    pub prompt_eval_count: usize,
    pub prompt_eval_duration: u64,
    pub eval_count: usize,
    pub eval_duration: u64,
}

} // verus!

verus! {

/// Optional generation settings sent along with a request.
#[derive(Debug, Clone, Copy, PartialEq, Eq, Structural)]
pub struct GenerateOptions {
    pub num_batch: Option<usize>,
    pub num_gpu: Option<usize>,
}

/// What a request holds, as seen by contracts.
pub ghost struct RequestView {
    pub model: Seq<char>,
    pub prompt: Seq<char>,
    pub options: Option<GenerateOptions>,
}

/// One generation request: a model, a prompt and optional settings.
/// The model is never empty.
#[derive(Debug, Clone)]
pub struct StreamRequest {
    model: String,
    prompt: String,
    options: Option<GenerateOptions>,
}

impl View for StreamRequest {
    type V = RequestView;

    closed spec fn view(&self) -> RequestView {
        RequestView { model: self.model@, prompt: self.prompt@, options: self.options }
    }
}

/// A point in time, as seconds and nanoseconds since the Unix epoch.
#[derive(Debug, Clone, Copy, PartialEq, Eq, Structural)]
pub struct Timestamp {
    pub secs: i64,
    pub nanos: u32,
}

/// One decoded message of a response stream. Only the last message of a
/// stream carries statistics.
#[derive(Debug)]
pub struct StreamChunk {
    pub model: String,
    pub created_at: Timestamp,
    pub response: String,
    pub stats: Option<Stats>,
}

/// The decimal digit `d`.
pub open spec fn digit_char(d: nat) -> char {
    seq!['0', '1', '2', '3', '4', '5', '6', '7', '8', '9'][d as int]
}

/// The decimal notation of `n`, without leading zeros.
pub open spec fn decimal(n: nat) -> Seq<char>
    decreases n,
{
    if n < 10 {
        seq![digit_char(n)]
    } else {
        decimal(n / 10).push(digit_char(n % 10))
    }
}

/// The JSON object of a set of options; absent settings are left out.
pub open spec fn options_json(o: GenerateOptions) -> Seq<char> {
    match (o.num_batch, o.num_gpu) {
        (None, None) => "{}"@,
        (Some(b), None) => "{\"num_batch\":"@ + decimal(b as nat) + "}"@,
        (None, Some(g)) => "{\"num_gpu\":"@ + decimal(g as nat) + "}"@,
        (Some(b), Some(g)) => "{\"num_batch\":"@ + decimal(b as nat) + ",\"num_gpu\":"@ + decimal(
            g as nat,
        ) + "}"@,
    }
}

/// The JSON body of a generate request, given its model and prompt already
/// written as JSON strings.
pub open spec fn request_json(
    model_json: Seq<char>,
    prompt_json: Seq<char>,
    options: Option<GenerateOptions>,
) -> Seq<char> {
    "{\"model\":"@ + model_json + ",\"prompt\":"@ + prompt_json + match options {
        Some(o) => ",\"options\":"@ + options_json(o),
        None => Seq::empty(),
    } + "}"@
}

/// The lower-case hexadecimal digit `d`.
pub open spec fn hex_digit(d: nat) -> char {
    seq!['0', '1', '2', '3', '4', '5', '6', '7', '8', '9', 'a', 'b', 'c', 'd', 'e', 'f'][d as int]
}

/// How one character is written inside a JSON string literal: quote and
/// backslash are escaped, control characters take their short escape or
/// `\u00XX`, every other character stands as it is.
pub open spec fn json_escape_char(c: char) -> Seq<char> {
    if c == '"' {
        seq!['\\', '"']
    } else if c == '\\' {
        seq!['\\', '\\']
    } else if c == '\u{8}' {
        seq!['\\', 'b']
    } else if c == '\t' {
        seq!['\\', 't']
    } else if c == '\n' {
        seq!['\\', 'n']
    } else if c == '\u{c}' {
        seq!['\\', 'f']
    } else if c == '\r' {
        seq!['\\', 'r']
    } else if (c as u32) < 0x20 {
        seq![
            '\\',
            'u',
            '0',
            '0',
            hex_digit((c as u32 / 16) as nat),
            hex_digit((c as u32 % 16) as nat),
        ]
    } else {
        seq![c]
    }
}

/// The JSON string literal that stands for the text `s`.
pub open spec fn json_quoted(s: Seq<char>) -> Seq<char> {
    seq!['"'] + s.map_values(|c: char| json_escape_char(c)).flatten() + seq!['"']
}

/// Relies on serde_json::to_string: a `str` is written as one JSON string
/// literal, quoted and escaped, into a buffer in memory, which cannot fail.
#[verifier::external_body]
fn quote_json(s: &str) -> (r: Result<String, serde_json::Error>)
    ensures
        r is Ok,
        r matches Ok(q) ==> q@ == json_quoted(s@),
{
    serde_json::to_string(s)
}

fn digit_str(d: usize) -> (r: &'static str)
    requires
        d < 10,
    ensures
        r@ == seq![digit_char(d as nat)],
{
    proof {
        reveal_strlit("0");
        reveal_strlit("1");
        reveal_strlit("2");
        reveal_strlit("3");
        reveal_strlit("4");
        reveal_strlit("5");
        reveal_strlit("6");
        reveal_strlit("7");
        reveal_strlit("8");
        reveal_strlit("9");
    }
    let r = match d {
        0 => "0",
        1 => "1",
        2 => "2",
        3 => "3",
        4 => "4",
        5 => "5",
        6 => "6",
        7 => "7",
        8 => "8",
        _ => "9",
    };
    assert(r@ =~= seq![digit_char(d as nat)]);
    r
}

/// Appends the decimal notation of `n`.
fn push_decimal(out: &mut String, n: usize)
    ensures
        final(out)@ == old(out)@ + decimal(n as nat),
    decreases n,
{
    if n >= 10 {
        push_decimal(out, n / 10);
    }
    out.append(digit_str(n % 10));
    assert(final(out)@ =~= old(out)@ + decimal(n as nat));
}

/// Writes the JSON body of a generate request whose model and prompt are
/// already JSON string literals.
pub fn request_body(model_json: &str, prompt_json: &str, options: Option<GenerateOptions>) -> (r:
    String)
    ensures
        r@ == request_json(model_json@, prompt_json@, options),
{
    let mut out = String::from_str("{\"model\":");
    out.append(model_json);
    out.append(",\"prompt\":");
    out.append(prompt_json);
    let ghost head = out@;
    match options {
        Some(o) => {
            out.append(",\"options\":");
            let ghost before = out@;
            match (o.num_batch, o.num_gpu) {
                (None, None) => {
                    out.append("{}");
                },
                (Some(b), None) => {
                    out.append("{\"num_batch\":");
                    push_decimal(&mut out, b);
                    out.append("}");
                },
                (None, Some(g)) => {
                    out.append("{\"num_gpu\":");
                    push_decimal(&mut out, g);
                    out.append("}");
                },
                (Some(b), Some(g)) => {
                    out.append("{\"num_batch\":");
                    push_decimal(&mut out, b);
                    out.append(",\"num_gpu\":");
                    push_decimal(&mut out, g);
                    out.append("}");
                },
            }
            assert(out@ =~= head + (",\"options\":"@ + options_json(o)));
        },
        None => {
            assert(out@ =~= head + Seq::<char>::empty());
        },
    }
    out.append("}");
    out
}

impl StreamRequest {
    /// A request for `prompt` to `model`; a request must name a model.
    pub fn new(model: &str, prompt: &str, options: Option<GenerateOptions>) -> (r: Result<
        StreamRequest,
        OllamaError,
    >)
        ensures
            r is Err <==> model@.len() == 0,
            r matches Err(e) ==> e is EmptyModel,
            r matches Ok(q) ==> q@ == (RequestView { model: model@, prompt: prompt@, options }),
    {
        if model.is_empty() {
            return Err(OllamaError::EmptyModel);
        }
        Ok(StreamRequest {
            model: String::from_str(model),
            prompt: String::from_str(prompt),
            options,
        })
    }

    /// The model the request is for.
    pub fn model(&self) -> (r: &str)
        ensures
            r@ == self@.model,
    {
        self.model.as_str()
    }

    /// The prompt text.
    pub fn prompt(&self) -> (r: &str)
        ensures
            r@ == self@.prompt,
    {
        self.prompt.as_str()
    }

    /// The generation settings, if any.
    pub fn options(&self) -> (r: Option<GenerateOptions>)
        ensures
            r == self@.options,
    {
        self.options
    }

    /// The JSON body that asks the service for this generation; it can
    /// always be written.
    pub fn to_json(&self) -> (r: Result<String, OllamaError>)
        ensures
            r matches Ok(b) ==> b@ == request_json(
                json_quoted(self@.model),
                json_quoted(self@.prompt),
                self@.options,
            ),
            r is Ok,
    {
        let model_json = match quote_json(self.model.as_str()) {
            Ok(q) => q,
            Err(e) => {
                return Err(OllamaError::Decode(e));
            },
        };
        let prompt_json = match quote_json(self.prompt.as_str()) {
            Ok(q) => q,
            Err(e) => {
                return Err(OllamaError::Decode(e));
            },
        };
        Ok(request_body(model_json.as_str(), prompt_json.as_str(), self.options))
    }
}

} // verus!
