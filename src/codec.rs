//! The line codec: one request becomes one newline-terminated JSON line, and
//! one line from the worker becomes at most one response.

use vstd::prelude::*;
use vstd::string::*;

verus! {

/// serde_json's JSON value, carried through opaque: the payload of a request
/// and the data and error of a response.
#[verifier::external_type_specification]
#[verifier::external_body]
pub struct ExValue(serde_json::Value);

/// serde_json's error, which the codec turns into its own errors.
#[verifier::external_type_specification]
#[verifier::external_body]
pub struct ExError(serde_json::Error);

/// A request for the worker. The payload is opaque structured data that the
/// bridge only transports.
pub struct PythonRequest {
    pub request_id: String,
    pub module: String,
    pub action: String,
    pub payload: serde_json::Value,
}

/// The request could not be put into the wire format.
pub struct SerializationError {
    pub detail: String,
}

/// The lowercase hexadecimal digit of `n`, below 16.
pub open spec fn hex_digit(n: int) -> char {
    seq!['0', '1', '2', '3', '4', '5', '6', '7', '8', '9', 'a', 'b', 'c', 'd', 'e', 'f'][n]
}

/// How one character stands inside a JSON string: the quote, the backslash
/// and the control characters are escaped, with short forms where JSON has
/// them; every other character stands for itself.
pub open spec fn json_escape(c: char) -> Seq<char> {
    if c == '"' {
        seq!['\\', '"']
    } else if c == '\\' {
        seq!['\\', '\\']
    } else if c == '\u{8}' {
        seq!['\\', 'b']
    } else if c == '\t' {
        seq!['\\', 't']
    } else if c == '\n' {
        seq!['\\', 'n']
    } else if c == '\u{c}' {
        seq!['\\', 'f']
    } else if c == '\r' {
        seq!['\\', 'r']
    } else if (c as u32) < 0x20 {
        seq!['\\', 'u', '0', '0', hex_digit((c as u32) as int / 16), hex_digit((c as u32) as int % 16)]
    } else {
        seq![c]
    }
}

/// The characters of `s`, each escaped for a JSON string.
pub open spec fn json_escaped(s: Seq<char>) -> Seq<char>
    decreases s.len(),
{
    if s.len() == 0 {
        Seq::empty()
    } else {
        json_escape(s[0]) + json_escaped(s.drop_first())
    }
}

/// The JSON string literal for the characters `s`.
pub open spec fn json_quoted(s: Seq<char>) -> Seq<char> {
    seq!['"'] + json_escaped(s) + seq!['"']
}

/// Relies on serde_json::to_string on a str: the JSON string literal for `s`,
/// escaped as `json_escape` says. Writing into a `Vec` does not fail.
#[verifier::external_body]
fn quote_json(s: &str) -> (r: Result<String, serde_json::Error>)
    ensures
        r is Ok,
        r matches Ok(t) ==> t@ == json_quoted(s@),
{
    serde_json::to_string(s)
}

/// Relies on serde_json::to_string on a Value: compact JSON text, with no
/// whitespace between tokens and line feeds in strings escaped. No value
/// fails to serialise, and writing into a `Vec` does not fail.
#[verifier::external_body]
fn payload_json(v: &serde_json::Value) -> (r: Result<String, serde_json::Error>)
    ensures
        r is Ok,
        r matches Ok(t) ==> !t@.contains('\n'),
{
    serde_json::to_string(v)
}

/// Relies on the Display impl of serde_json::Error: its message.
#[verifier::external_body]
fn error_text(e: &serde_json::Error) -> (r: String) {
    e.to_string()
}

/// A text that ends in a line feed and holds no other.
pub open spec fn is_one_line(s: Seq<char>) -> bool {
    s.len() > 0 && s.last() == '\n' && !s.drop_last().contains('\n')
}

/// The wire line of a request whose payload serialised to `payload`: the
/// fields in declaration order, compact, then one line feed.
pub open spec fn request_line(
    request_id: Seq<char>,
    module: Seq<char>,
    action: Seq<char>,
    payload: Seq<char>,
) -> Seq<char> {
    "{\"request_id\":"@ + json_quoted(request_id) + ",\"module\":"@ + json_quoted(module)
        + ",\"action\":"@ + json_quoted(action) + ",\"payload\":"@ + payload + "}\n"@
}

proof fn lemma_concat_no_newline(a: Seq<char>, b: Seq<char>)
    requires
        !a.contains('\n'),
        !b.contains('\n'),
    ensures
        !(a + b).contains('\n'),
{
    assert forall|i: int| 0 <= i < (a + b).len() implies (a + b)[i] != '\n' by {
        if i < a.len() {
            assert(a[i] == (a + b)[i]);
        } else {
            assert(b[i - a.len()] == (a + b)[i]);
        }
    }
}

proof fn lemma_escape_no_newline(c: char)
    ensures
        !json_escape(c).contains('\n'),
{
    let e = json_escape(c);
    if c != '"' && c != '\\' && c != '\u{8}' && c != '\t' && c != '\n' && c != '\u{c}' && c
        != '\r' && (c as u32) < 0x20 {
        let hi = (c as u32) as int / 16;
        let lo = (c as u32) as int % 16;
        assert(hex_digit(hi) != '\n');
        assert(hex_digit(lo) != '\n');
        assert(e =~= seq!['\\', 'u', '0', '0', hex_digit(hi), hex_digit(lo)]);
    }
    assert forall|i: int| 0 <= i < e.len() implies e[i] != '\n' by {}
}

proof fn lemma_quoted_no_newline(s: Seq<char>)
    ensures
        !json_escaped(s).contains('\n'),
        !json_quoted(s).contains('\n'),
    decreases s.len(),
{
    if s.len() > 0 {
        lemma_escape_no_newline(s[0]);
        lemma_quoted_no_newline(s.drop_first());
        lemma_concat_no_newline(json_escape(s[0]), json_escaped(s.drop_first()));
    }
    lemma_concat_no_newline(seq!['"'], json_escaped(s));
    lemma_concat_no_newline(seq!['"'] + json_escaped(s), seq!['"']);
}

/// The texts of `ls` one after another.
pub open spec fn joined(ls: Seq<Seq<char>>) -> Seq<char>
    decreases ls.len(),
{
    if ls.len() == 0 {
        Seq::empty()
    } else {
        ls[0] + joined(ls.drop_first())
    }
}

/// The index of the first line feed in `s`, or its length if it has none.
pub open spec fn first_newline(s: Seq<char>) -> nat
    decreases s.len(),
{
    if s.len() == 0 || s[0] == '\n' {
        0
    } else {
        1 + first_newline(s.drop_first())
    }
}

/// The complete lines of `s`, each with its line feed, in order; text after
/// the last line feed is not a line yet.
pub open spec fn lines_of(s: Seq<char>) -> Seq<Seq<char>>
    decreases s.len(),
{
    let k = first_newline(s) as int;
    if k >= s.len() {
        Seq::empty()
    } else {
        seq![s.take(k + 1)].add(lines_of(s.skip(k + 1)))
    }
}

proof fn lemma_first_newline_of_line(a: Seq<char>, b: Seq<char>)
    requires
        is_one_line(a),
    ensures
        first_newline(a + b) == a.len() - 1,
    decreases a.len(),
{
    if a.len() > 1 {
        assert(a.drop_last()[0] == a[0]);
        assert(a[0] != '\n');
        let t = a.drop_first();
        assert(t.drop_last() =~= a.drop_last().drop_first());
        assert forall|i: int| 0 <= i < t.drop_last().len() implies t.drop_last()[i] != '\n' by {
            assert(t.drop_last()[i] == a.drop_last()[i + 1]);
        }
        lemma_first_newline_of_line(t, b);
        assert((a + b).drop_first() =~= t + b);
    } else {
        assert((a + b)[0] == a[0]);
    }
}

/// Lines written whole, one after another, are read back as exactly those
/// lines, in the order they were written: no line runs into the next.
pub proof fn lemma_whole_lines_stay_apart(ls: Seq<Seq<char>>)
    requires
        forall|i: int| 0 <= i < ls.len() ==> is_one_line(#[trigger] ls[i]),
    ensures
        lines_of(joined(ls)) == ls,
    decreases ls.len(),
{
    if ls.len() > 0 {
        let a = ls[0];
        let rest = ls.drop_first();
        assert forall|i: int| 0 <= i < rest.len() implies is_one_line(#[trigger] rest[i]) by {
            assert(rest[i] == ls[i + 1]);
        }
        lemma_whole_lines_stay_apart(rest);
        let s = joined(ls);
        assert(s == a + joined(rest));
        lemma_first_newline_of_line(a, joined(rest));
        assert(s.take(a.len() as int) =~= a);
        assert(s.skip(a.len() as int) =~= joined(rest));
        assert(lines_of(s) =~= seq![a].add(lines_of(joined(rest))));
        assert(lines_of(s) =~= ls);
    } else {
        assert(lines_of(Seq::<char>::empty()) =~= Seq::<Seq<char>>::empty());
    }
}

proof fn lemma_request_line_is_one_line(
    request_id: Seq<char>,
    module: Seq<char>,
    action: Seq<char>,
    payload: Seq<char>,
)
    requires
        !payload.contains('\n'),
    ensures
        is_one_line(request_line(request_id, module, action, payload)),
{
    reveal_strlit("{\"request_id\":");
    reveal_strlit(",\"module\":");
    reveal_strlit(",\"action\":");
    reveal_strlit(",\"payload\":");
    reveal_strlit("}\n");
    lemma_quoted_no_newline(request_id);
    lemma_quoted_no_newline(module);
    lemma_quoted_no_newline(action);
    let body = "{\"request_id\":"@ + json_quoted(request_id) + ",\"module\":"@ + json_quoted(module)
        + ",\"action\":"@ + json_quoted(action) + ",\"payload\":"@ + payload + seq!['}'];
    lemma_concat_no_newline("{\"request_id\":"@, json_quoted(request_id));
    lemma_concat_no_newline("{\"request_id\":"@ + json_quoted(request_id), ",\"module\":"@);
    lemma_concat_no_newline("{\"request_id\":"@ + json_quoted(request_id) + ",\"module\":"@, json_quoted(module));
    let b2 = "{\"request_id\":"@ + json_quoted(request_id) + ",\"module\":"@ + json_quoted(module);
    lemma_concat_no_newline(b2, ",\"action\":"@);
    lemma_concat_no_newline(b2 + ",\"action\":"@, json_quoted(action));
    let b3 = b2 + ",\"action\":"@ + json_quoted(action);
    lemma_concat_no_newline(b3, ",\"payload\":"@);
    lemma_concat_no_newline(b3 + ",\"payload\":"@, payload);
    lemma_concat_no_newline(b3 + ",\"payload\":"@ + payload, seq!['}']);
    let line = request_line(request_id, module, action, payload);
    assert(line =~= body + seq!['\n']);
    assert(line.drop_last() =~= body);
}

/// However the sends of many callers are ordered, the request lines they
/// write one whole line at a time read back as exactly those lines, in the
/// order written: none is lost, merged with another or split.
pub proof fn lemma_sent_lines_stay_apart(
    request_ids: Seq<Seq<char>>,
    modules: Seq<Seq<char>>,
    actions: Seq<Seq<char>>,
    payloads: Seq<Seq<char>>,
    written: Seq<Seq<char>>,
)
    requires
        request_ids.len() == written.len(),
        modules.len() == written.len(),
        actions.len() == written.len(),
        payloads.len() == written.len(),
        forall|i: int| 0 <= i < written.len() ==> !(#[trigger] payloads[i]).contains('\n'),
        forall|i: int|
            0 <= i < written.len() ==> #[trigger] written[i] == request_line(
                request_ids[i],
                modules[i],
                actions[i],
                payloads[i],
            ),
    ensures
        lines_of(joined(written)) == written,
{
    assert forall|i: int| 0 <= i < written.len() implies is_one_line(#[trigger] written[i]) by {
        assert(!payloads[i].contains('\n'));
        lemma_request_line_is_one_line(request_ids[i], modules[i], actions[i], payloads[i]);
    }
    lemma_whole_lines_stay_apart(written);
}

/// Appends `t` to `out`, keeping it free of line feeds.
fn append_line_free(out: &mut String, t: &str)
    requires
        !old(out)@.contains('\n'),
        !t@.contains('\n'),
    ensures
        final(out)@ == old(out)@ + t@,
        !final(out)@.contains('\n'),
{
    proof {
        lemma_concat_no_newline(out@, t@);
    }
    out.append(t);
}

/// The wire line of a request whose payload is the JSON text `payload_json`.
pub fn request_line_with(
    request_id: &str,
    module: &str,
    action: &str,
    payload_json: &str,
) -> (r: String)
    requires
        !payload_json@.contains('\n'),
    ensures
        r@ == request_line(request_id@, module@, action@, payload_json@),
        is_one_line(r@),
{
    let id = match quote_json(request_id) {
        Ok(t) => t,
        Err(_) => unreached(),
    };
    let module_text = match quote_json(module) {
        Ok(t) => t,
        Err(_) => unreached(),
    };
    let action_text = match quote_json(action) {
        Ok(t) => t,
        Err(_) => unreached(),
    };
    proof {
        lemma_quoted_no_newline(request_id@);
        lemma_quoted_no_newline(module@);
        lemma_quoted_no_newline(action@);
        reveal_strlit("{\"request_id\":");
        reveal_strlit(",\"module\":");
        reveal_strlit(",\"action\":");
        reveal_strlit(",\"payload\":");
        reveal_strlit("}");
        reveal_strlit("}\n");
        reveal_strlit("\n");
    }
    let mut out = String::from_str("{\"request_id\":");
    append_line_free(&mut out, id.as_str());
    append_line_free(&mut out, ",\"module\":");
    append_line_free(&mut out, module_text.as_str());
    append_line_free(&mut out, ",\"action\":");
    append_line_free(&mut out, action_text.as_str());
    append_line_free(&mut out, ",\"payload\":");
    append_line_free(&mut out, payload_json);
    append_line_free(&mut out, "}");
    let ghost body = out@;
    out.append("\n");
    proof {
        assert(out@.drop_last() =~= body);
        assert("}\n"@ =~= "}"@ + "\n"@);
        assert(out@ =~= request_line(request_id@, module@, action@, payload_json@));
    }
    out
}

/// Encodes a request as one line of compact JSON followed by a line feed:
/// the payload as serde_json writes it, the other fields as JSON strings.
pub fn encode(request: &PythonRequest) -> (r: Result<String, SerializationError>)
    ensures
        r is Ok,
        r matches Ok(line) ==> exists|p: Seq<char>|
            !p.contains('\n') && line@ == request_line(
                request.request_id@,
                request.module@,
                request.action@,
                p,
            ),
        r matches Ok(line) ==> is_one_line(line@),
{
    match payload_json(&request.payload) {
        Ok(payload) => Ok(
            request_line_with(
                request.request_id.as_str(),
                request.module.as_str(),
                request.action.as_str(),
                payload.as_str(),
            ),
        ),
        Err(e) => Err(SerializationError { detail: error_text(&e) }),
    }
}

/// A response or progress event from the worker.
pub struct PythonResponse {
    pub msg_type: String,
    pub request_id: String,
    pub status: Option<String>,
    pub data: Option<serde_json::Value>,
    pub error: Option<serde_json::Value>,
    pub progress: Option<u32>,
    pub message: Option<String>,
}

/// A field of the response object.
#[derive(PartialEq, Eq, Structural, Clone, Copy, Debug)]
pub enum Field {
    Type,
    RequestId,
    Status,
    Data,
    Error,
    Progress,
    Message,
}

/// How a response object does not have the expected shape.
#[derive(PartialEq, Eq, Structural, Clone, Copy, Debug)]
pub enum ShapeError {
    Missing(Field),
    Invalid(Field),
}

/// Why a line from the worker is not a response.
pub enum ProtocolErrorKind {
    /// Not JSON; the parser's message.
    Syntax(String),
    /// JSON, but not an object.
    NotAnObject,
    Shape(ShapeError),
}

/// A line from the worker that could not be decoded, with the trimmed line.
pub struct ProtocolError {
    pub line: String,
    pub kind: ProtocolErrorKind,
}

/// What an object holds under a key that should be text.
pub enum TextField {
    Absent,
    Null,
    Text(String),
    Other,
}

/// What an object holds under a key that should be a non-negative integer.
pub enum CountField {
    Absent,
    Null,
    Count(u64),
    Other,
}

/// What an object holds under a key whose value is carried as it is.
pub enum ValueField {
    Absent,
    Null,
    Present(serde_json::Value),
}

/// The fields of a response object, as read from the parsed line.
pub struct ResponseFields {
    pub msg_type: TextField,
    pub request_id: TextField,
    pub status: TextField,
    pub data: ValueField,
    pub error: ValueField,
    pub progress: CountField,
    pub message: TextField,
}

pub open spec fn text_required(f: TextField, name: Field) -> Result<String, ShapeError> {
    match f {
        TextField::Text(s) => Ok(s),
        TextField::Absent => Err(ShapeError::Missing(name)),
        _ => Err(ShapeError::Invalid(name)),
    }
}

pub open spec fn text_optional(f: TextField, name: Field) -> Result<Option<String>, ShapeError> {
    match f {
        TextField::Text(s) => Ok(Some(s)),
        TextField::Other => Err(ShapeError::Invalid(name)),
        _ => Ok(None),
    }
}

pub open spec fn count_optional(f: CountField, name: Field) -> Result<Option<u32>, ShapeError> {
    match f {
        CountField::Count(n) => if n <= u32::MAX {
            Ok(Some(n as u32))
        } else {
            Err(ShapeError::Invalid(name))
        },
        CountField::Other => Err(ShapeError::Invalid(name)),
        _ => Ok(None),
    }
}

pub open spec fn value_optional(f: ValueField) -> Option<serde_json::Value> {
    match f {
        ValueField::Present(v) => Some(v),
        _ => None,
    }
}

/// The response that the fields make, or the first field, in declaration
/// order, that is missing or of the wrong kind. Required: type and request_id;
/// a null optional field counts as absent; progress must fit in 32 bits.
pub open spec fn response_of(f: ResponseFields) -> Result<PythonResponse, ShapeError> {
    match (
        text_required(f.msg_type, Field::Type),
        text_required(f.request_id, Field::RequestId),
        text_optional(f.status, Field::Status),
        count_optional(f.progress, Field::Progress),
        text_optional(f.message, Field::Message),
    ) {
        (Err(e), _, _, _, _) => Err(e),
        (Ok(_), Err(e), _, _, _) => Err(e),
        (Ok(_), Ok(_), Err(e), _, _) => Err(e),
        (Ok(_), Ok(_), Ok(_), Err(e), _) => Err(e),
        (Ok(_), Ok(_), Ok(_), Ok(_), Err(e)) => Err(e),
        (Ok(msg_type), Ok(request_id), Ok(status), Ok(progress), Ok(message)) => Ok(
            PythonResponse {
                msg_type,
                request_id,
                status,
                data: value_optional(f.data),
                error: value_optional(f.error),
                progress,
                message,
            },
        ),
    }
}

fn take_required(f: TextField, name: Field) -> (r: Result<String, ShapeError>)
    ensures
        r == text_required(f, name),
{
    match f {
        TextField::Text(s) => Ok(s),
        TextField::Absent => Err(ShapeError::Missing(name)),
        _ => Err(ShapeError::Invalid(name)),
    }
}

fn take_optional(f: TextField, name: Field) -> (r: Result<Option<String>, ShapeError>)
    ensures
        r == text_optional(f, name),
{
    match f {
        TextField::Text(s) => Ok(Some(s)),
        TextField::Other => Err(ShapeError::Invalid(name)),
        _ => Ok(None),
    }
}

fn take_count(f: CountField, name: Field) -> (r: Result<Option<u32>, ShapeError>)
    ensures
        r == count_optional(f, name),
{
    match f {
        CountField::Count(n) => if n <= u32::MAX as u64 {
            Ok(Some(n as u32))
        } else {
            Err(ShapeError::Invalid(name))
        },
        CountField::Other => Err(ShapeError::Invalid(name)),
        _ => Ok(None),
    }
}

fn take_value(f: ValueField) -> (r: Option<serde_json::Value>)
    ensures
        r == value_optional(f),
{
    match f {
        ValueField::Present(v) => Some(v),
        _ => None,
    }
}

/// Builds a response from the fields read off a response object.
pub fn response_from_fields(fields: ResponseFields) -> (r: Result<PythonResponse, ShapeError>)
    ensures
        r == response_of(fields),
{
    let ResponseFields { msg_type, request_id, status, data, error, progress, message } = fields;
    let msg_type = take_required(msg_type, Field::Type);
    let request_id = take_required(request_id, Field::RequestId);
    let status = take_optional(status, Field::Status);
    let progress = take_count(progress, Field::Progress);
    let message = take_optional(message, Field::Message);
    match (msg_type, request_id, status, progress, message) {
        (Err(e), _, _, _, _) => Err(e),
        (Ok(_), Err(e), _, _, _) => Err(e),
        (Ok(_), Ok(_), Err(e), _, _) => Err(e),
        (Ok(_), Ok(_), Ok(_), Err(e), _) => Err(e),
        (Ok(_), Ok(_), Ok(_), Ok(_), Err(e)) => Err(e),
        (Ok(msg_type), Ok(request_id), Ok(status), Ok(progress), Ok(message)) => Ok(
            PythonResponse {
                msg_type,
                request_id,
                status,
                data: take_value(data),
                error: take_value(error),
                progress,
                message,
            },
        ),
    }
}

/// Whether `c` has the Unicode White_Space property.
pub open spec fn is_white_space(c: char) -> bool {
    let n = c as u32;
    (0x9 <= n && n <= 0xd) || n == 0x20 || n == 0x85 || n == 0xa0 || n == 0x1680 || (0x2000 <= n
        && n <= 0x200a) || n == 0x2028 || n == 0x2029 || n == 0x202f || n == 0x205f || n == 0x3000
}

/// `s` without its leading white space.
pub open spec fn trim_start_of(s: Seq<char>) -> Seq<char>
    decreases s.len(),
{
    if s.len() > 0 && is_white_space(s[0]) {
        trim_start_of(s.drop_first())
    } else {
        s
    }
}

/// `s` without its trailing white space.
pub open spec fn trim_end_of(s: Seq<char>) -> Seq<char>
    decreases s.len(),
{
    if s.len() > 0 && is_white_space(s.last()) {
        trim_end_of(s.drop_last())
    } else {
        s
    }
}

/// `s` without its leading and trailing white space.
pub open spec fn trim_of(s: Seq<char>) -> Seq<char> {
    trim_end_of(trim_start_of(s))
}

/// Relies on str::trim: `s` without the leading and trailing characters that
/// have the Unicode White_Space property.
#[verifier::external_body]
fn trim_text(s: &str) -> (r: &str)
    ensures
        r@ == trim_of(s@),
{
    s.trim()
}

/// What serde_json makes of the text `t`: the parser's message where `t` is
/// not one JSON value, else whether the value is an object.
pub uninterp spec fn json_object_of(t: Seq<char>) -> Result<bool, Seq<char>>;

/// Relies on serde_json::from_str and serde_json::Value::is_object: whether
/// `t` parses to an object; on a parse error, the error's Display message.
#[verifier::external_body]
fn parse_object(t: &str) -> (r: Result<bool, String>)
    ensures
        r matches Ok(b) ==> json_object_of(t@) is Ok && json_object_of(t@)->Ok_0 == b,
        r matches Err(m) ==> json_object_of(t@) is Err && json_object_of(t@)->Err_0 == m@,
{
    match serde_json::from_str::<serde_json::Value>(t) {
        Ok(v) => Ok(v.is_object()),
        Err(e) => Err(e.to_string()),
    }
}

/// What the JSON object in `t` holds under `key`, read as text.
pub uninterp spec fn text_at(t: Seq<char>, key: Seq<char>) -> TextField;

/// What the JSON object in `t` holds under `key`, read as a count.
pub uninterp spec fn count_at(t: Seq<char>, key: Seq<char>) -> CountField;

/// What the JSON object in `t` holds under `key`, carried as it is.
pub uninterp spec fn value_at(t: Seq<char>, key: Seq<char>) -> ValueField;

/// Relies on serde_json::from_str and serde_json::Value::get: what the value
/// parsed from `t` holds under `key`: null, a string, or another kind of value.
#[verifier::external_body]
fn text_at_key(t: &str, key: &str) -> (r: TextField)
    ensures
        r == text_at(t@, key@),
{
    let v: Option<serde_json::Value> = serde_json::from_str(t).ok();
    match v.as_ref().and_then(|v| v.get(key)) {
        None => TextField::Absent,
        Some(serde_json::Value::Null) => TextField::Null,
        Some(serde_json::Value::String(s)) => TextField::Text(s.clone()),
        Some(_) => TextField::Other,
    }
}

/// Relies on serde_json::from_str, serde_json::Value::get and
/// serde_json::Number::as_u64: what the value parsed from `t` holds under
/// `key`, where a non-negative integer is read as such.
#[verifier::external_body]
fn count_at_key(t: &str, key: &str) -> (r: CountField)
    ensures
        r == count_at(t@, key@),
{
    let v: Option<serde_json::Value> = serde_json::from_str(t).ok();
    match v.as_ref().and_then(|v| v.get(key)) {
        None => CountField::Absent,
        Some(serde_json::Value::Null) => CountField::Null,
        Some(serde_json::Value::Number(n)) => match n.as_u64() {
            Some(u) => CountField::Count(u),
            None => CountField::Other,
        },
        Some(_) => CountField::Other,
    }
}

/// Relies on serde_json::from_str, serde_json::Value::get and the Clone impl
/// of serde_json::Value: a copy of what the value parsed from `t` holds under
/// `key`, unless it is null.
#[verifier::external_body]
fn value_at_key(t: &str, key: &str) -> (r: ValueField)
    ensures
        r == value_at(t@, key@),
{
    let v: Option<serde_json::Value> = serde_json::from_str(t).ok();
    match v.as_ref().and_then(|v| v.get(key)) {
        None => ValueField::Absent,
        Some(serde_json::Value::Null) => ValueField::Null,
        Some(x) => ValueField::Present(x.clone()),
    }
}

/// The fields of a response object on the wire: `type`, `request_id`,
/// `status`, `data`, `error`, `progress` and `message`, each read as its kind.
pub open spec fn fields_at(t: Seq<char>) -> ResponseFields {
    ResponseFields {
        msg_type: text_at(t, "type"@),
        request_id: text_at(t, "request_id"@),
        status: text_at(t, "status"@),
        data: value_at(t, "data"@),
        error: value_at(t, "error"@),
        progress: count_at(t, "progress"@),
        message: text_at(t, "message"@),
    }
}

/// Reads the response fields of the JSON object in `t`: the parser's message
/// where `t` is not JSON, `None` where it is not an object.
pub fn read_response_fields(t: &str) -> (r: Result<Option<ResponseFields>, String>)
    ensures
        json_object_of(t@) matches Err(m) ==> r is Err && r->Err_0@ == m,
        json_object_of(t@) == Ok::<bool, Seq<char>>(false) ==> r matches Ok(None),
        json_object_of(t@) == Ok::<bool, Seq<char>>(true) ==> r == Ok::<
            Option<ResponseFields>,
            String,
        >(Some(fields_at(t@))),
{
    match parse_object(t) {
        Err(m) => Err(m),
        Ok(false) => Ok(None),
        Ok(true) => Ok(
            Some(
                ResponseFields {
                    msg_type: text_at_key(t, "type"),
                    request_id: text_at_key(t, "request_id"),
                    status: text_at_key(t, "status"),
                    data: value_at_key(t, "data"),
                    error: value_at_key(t, "error"),
                    progress: count_at_key(t, "progress"),
                    message: text_at_key(t, "message"),
                },
            ),
        ),
    }
}

/// Whether `r` is what decoding `line` gives: `Ok(None)` for a blank line; a
/// syntax error with the parser's message for text that is not JSON; an error
/// for JSON that is not an object; and for an object, the response that its
/// wire fields make (`fields_at`), or the shape error. Every error carries the trimmed line.
pub open spec fn decodes_to(line: Seq<char>, r: Result<Option<PythonResponse>, ProtocolError>) -> bool {
    let t = trim_of(line);
    if t.len() == 0 {
        r == Ok::<Option<PythonResponse>, ProtocolError>(None)
    } else {
        match json_object_of(t) {
            Err(m) => r is Err && r->Err_0.line@ == t && r->Err_0.kind is Syntax
                && r->Err_0.kind->Syntax_0@ == m,
            Ok(false) => r is Err && r->Err_0.line@ == t && r->Err_0.kind is NotAnObject,
            Ok(true) => match response_of(fields_at(t)) {
                Ok(resp) => r == Ok::<Option<PythonResponse>, ProtocolError>(Some(resp)),
                Err(s) => r is Err && r->Err_0.line@ == t && r->Err_0.kind
                    == ProtocolErrorKind::Shape(s),
            },
        }
    }
}

/// Decodes one line from the worker, as `decodes_to` says.
pub fn decode(line: &str) -> (r: Result<Option<PythonResponse>, ProtocolError>)
    ensures
        decodes_to(line@, r),
{
    let t = trim_text(line);
    if t.is_empty() {
        return Ok(None);
    }
    match read_response_fields(t) {
        Err(m) => Err(ProtocolError { line: t.to_owned(), kind: ProtocolErrorKind::Syntax(m) }),
        Ok(None) => Err(ProtocolError { line: t.to_owned(), kind: ProtocolErrorKind::NotAnObject }),
        Ok(Some(fields)) => match response_from_fields(fields) {
            Ok(resp) => Ok(Some(resp)),
            Err(s) => Err(ProtocolError { line: t.to_owned(), kind: ProtocolErrorKind::Shape(s) }),
        },
    }
}

} // verus!
