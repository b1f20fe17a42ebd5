//! The task codec: between raw wire bytes and structured [`Task`] values.
//!
//! The wire shape is a tagged union in a small fixed grammar:
//! `{"Bpf":{"fn_name":"<string>"}}`, `"HealthCheck"`, or
//! `{"Workload":{"name":"<string>","dataset":"<string>"}}`, with `"` and
//! `\` escaped by a backslash inside string fields. Decoding rejects empty
//! input, interprets non-UTF-8 input best-effort (lossy), and reports
//! structurally invalid payloads as malformed. The protocol has no length
//! framing: one read is one logical message, and a short read surfaces as
//! malformed input.

use vstd::prelude::*;
use vstd::string::StringExecFns;
use vstd::string::StrSliceExecFns;

use crate::message::{Message, MessageModel, Task};

verus! {

/// The escaped form of a string field: `"` and `\` each get a leading
/// backslash, every other character stands as it is.
pub open spec fn escaped(s: Seq<char>) -> Seq<char>
    decreases s.len(),
{
    if s.len() == 0 {
        Seq::empty()
    } else {
        let head = if s[0] == '"' || s[0] == '\\' {
            seq!['\\', s[0]]
        } else {
            seq![s[0]]
        };
        head + escaped(s.skip(1))
    }
}

/// The wire text of a health-check task.
pub open spec fn health_check_text() -> Seq<char> {
    "\"HealthCheck\""@
}

/// The opening of a program-install task, up to its string field.
pub open spec fn bpf_opening() -> Seq<char> {
    "{\"Bpf\":{\"fn_name\":\""@
}

/// The opening of a workload task, up to its first string field.
pub open spec fn workload_opening() -> Seq<char> {
    "{\"Workload\":{\"name\":\""@
}

/// The separator between the two workload fields.
pub open spec fn dataset_separator() -> Seq<char> {
    ",\"dataset\":\""@
}

/// The closing of the two-brace task shapes.
pub open spec fn closing_braces() -> Seq<char> {
    "}}"@
}

/// The canonical wire text of a message.
pub open spec fn spec_encode(m: MessageModel) -> Seq<char> {
    match m {
        MessageModel::HealthCheck => health_check_text(),
        MessageModel::Bpf { fn_name } => bpf_opening() + escaped(fn_name) + seq!['"']
            + closing_braces(),
        MessageModel::Workload { name, dataset } => workload_opening() + escaped(name)
            + seq!['"'] + dataset_separator() + escaped(dataset) + seq!['"'] + closing_braces(),
    }
}

/// Reads one escaped string field up to and including its closing quote;
/// yields the unescaped content and the input that follows the quote.
pub open spec fn parse_quoted(s: Seq<char>) -> Option<(Seq<char>, Seq<char>)>
    decreases s.len(),
{
    if s.len() == 0 {
        None
    } else if s[0] == '"' {
        Some((Seq::empty(), s.skip(1)))
    } else if s[0] == '\\' {
        if s.len() >= 2 && (s[1] == '"' || s[1] == '\\') {
            match parse_quoted(s.skip(2)) {
                Some((body, rest)) => Some((seq![s[1]] + body, rest)),
                None => None,
            }
        } else {
            None
        }
    } else {
        match parse_quoted(s.skip(1)) {
            Some((body, rest)) => Some((seq![s[0]] + body, rest)),
            None => None,
        }
    }
}

/// Whether `p` is a prefix of `s`.
pub open spec fn starts_with(s: Seq<char>, p: Seq<char>) -> bool {
    p.len() <= s.len() && s.subrange(0, p.len() as int) == p
}

/// The parse of one wire message: the message it denotes, or `None` for a
/// structurally invalid payload.
pub open spec fn spec_parse(s: Seq<char>) -> Option<MessageModel> {
    if s == health_check_text() {
        Some(MessageModel::HealthCheck)
    } else if starts_with(s, bpf_opening()) {
        match parse_quoted(s.skip(bpf_opening().len() as int)) {
            Some((fn_name, rest)) => if rest == closing_braces() {
                Some(MessageModel::Bpf { fn_name })
            } else {
                None
            },
            None => None,
        }
    } else if starts_with(s, workload_opening()) {
        match parse_quoted(s.skip(workload_opening().len() as int)) {
            Some((name, rest)) => if starts_with(rest, dataset_separator()) {
                match parse_quoted(rest.skip(dataset_separator().len() as int)) {
                    Some((dataset, rest2)) => if rest2 == closing_braces() {
                        Some(MessageModel::Workload { name, dataset })
                    } else {
                        None
                    },
                    None => None,
                }
            } else {
                None
            },
            None => None,
        }
    } else {
        None
    }
}

/// Escaping distributes over concatenation.
proof fn lemma_escaped_concat(a: Seq<char>, b: Seq<char>)
    ensures
        escaped(a + b) == escaped(a) + escaped(b),
    decreases a.len(),
{
    if a.len() == 0 {
        assert(a + b =~= b);
        assert(escaped(a) + escaped(b) =~= escaped(b));
    } else {
        assert((a + b).skip(1) =~= a.skip(1) + b);
        lemma_escaped_concat(a.skip(1), b);
        assert(escaped(a + b) =~= escaped(a) + escaped(b));
    }
}

/// Escaping one character yields its head form.
proof fn lemma_escaped_one(c: char)
    ensures
        escaped(seq![c]) == if c == '"' || c == '\\' {
            seq!['\\', c]
        } else {
            seq![c]
        },
{
    let s = seq![c];
    assert(s.skip(1) =~= Seq::<char>::empty());
    assert(escaped(s.skip(1)) == Seq::<char>::empty());
    if c == '"' || c == '\\' {
        assert(escaped(s) =~= seq!['\\', c]);
    } else {
        assert(escaped(s) =~= seq![c]);
    }
}

/// Reading a field back out of its escaped form recovers the field and
/// leaves exactly the input that followed the closing quote.
proof fn lemma_parse_quoted_escaped(content: Seq<char>, tail: Seq<char>)
    ensures
        parse_quoted(escaped(content) + seq!['"'] + tail) == Some((content, tail)),
    decreases content.len(),
{
    let s = escaped(content) + seq!['"'] + tail;
    if content.len() == 0 {
        assert(s =~= seq!['"'] + tail);
        assert(s[0] == '"');
        assert(s.skip(1) =~= tail);
    } else {
        let c = content[0];
        let rest = content.skip(1);
        lemma_parse_quoted_escaped(rest, tail);
        if c == '"' || c == '\\' {
            assert(escaped(content) =~= seq!['\\', c] + escaped(rest));
            assert(s =~= seq!['\\', c] + (escaped(rest) + seq!['"'] + tail));
            assert(s[0] == '\\');
            assert(s[1] == c);
            assert(s.len() >= 2);
            assert(s.skip(2) =~= escaped(rest) + seq!['"'] + tail);
            assert(seq![c] + rest =~= content);
        } else {
            assert(escaped(content) =~= seq![c] + escaped(rest));
            assert(s =~= seq![c] + (escaped(rest) + seq!['"'] + tail));
            assert(s[0] == c);
            assert(s.skip(1) =~= escaped(rest) + seq!['"'] + tail);
            assert(seq![c] + rest =~= content);
        }
    }
}

/// Codec round trip: the canonical wire text of a message parses back to
/// exactly that message, for all three kinds.
pub proof fn law_codec_round_trip(m: MessageModel)
    ensures
        spec_parse(spec_encode(m)) == Some(m),
{
    reveal_strlit("\"HealthCheck\"");
    reveal_strlit("{\"Bpf\":{\"fn_name\":\"");
    reveal_strlit("{\"Workload\":{\"name\":\"");
    reveal_strlit(",\"dataset\":\"");
    reveal_strlit("}}");
    match m {
        MessageModel::HealthCheck => {
        }
        MessageModel::Bpf { fn_name } => {
            let s = spec_encode(m);
            assert(s[0] == '{');
            assert(s != health_check_text());
            assert(s.subrange(0, bpf_opening().len() as int) =~= bpf_opening());
            assert(starts_with(s, bpf_opening()));
            assert(s.skip(bpf_opening().len() as int) =~= escaped(fn_name) + seq!['"']
                + closing_braces());
            lemma_parse_quoted_escaped(fn_name, closing_braces());
        }
        MessageModel::Workload { name, dataset } => {
            let s = spec_encode(m);
            assert(s[0] == '{');
            assert(s != health_check_text());
            assert(s[2] == 'W');
            assert(!starts_with(s, bpf_opening())) by {
                if starts_with(s, bpf_opening()) {
                    assert(s.subrange(0, bpf_opening().len() as int)[2] == s[2]);
                }
            }
            assert(s.subrange(0, workload_opening().len() as int) =~= workload_opening());
            assert(starts_with(s, workload_opening()));
            let tail1 = dataset_separator() + escaped(dataset) + seq!['"'] + closing_braces();
            assert(s.skip(workload_opening().len() as int) =~= escaped(name) + seq!['"'] + tail1);
            lemma_parse_quoted_escaped(name, tail1);
            assert(tail1.subrange(0, dataset_separator().len() as int) =~= dataset_separator());
            assert(starts_with(tail1, dataset_separator()));
            assert(tail1.skip(dataset_separator().len() as int) =~= escaped(dataset) + seq!['"']
                + closing_braces());
            lemma_parse_quoted_escaped(dataset, closing_braces());
        }
    }
}

/// Why a wire payload was rejected: it was empty, or it fit none of the
/// three task shapes.
#[derive(Clone, Debug, PartialEq, Eq)]
pub enum DecodeError {
    EmptyMessage,
    MalformedTask(String),
}

/// The diagnostic carried by a malformed-task rejection.
pub open spec fn malformed_diagnostic() -> Seq<char> {
    "unrecognized task shape"@
}

/// The text that a byte payload is read as, best effort: valid UTF-8 reads
/// as itself, invalid sequences are replaced.
pub uninterp spec fn lossy_text(bytes: Seq<u8>) -> Seq<char>;

/// Relies on `String::from_utf8_lossy`: valid UTF-8 decodes to exactly that
/// text and each invalid sequence becomes a replacement character, so the
/// result is empty only for empty input; ASCII bytes are valid UTF-8 and
/// decode to the characters of the same code points.
#[verifier::external_body]
fn utf8_lossy(bytes: &[u8]) -> (r: String)
    ensures
        r@ == lossy_text(bytes@),
        bytes@.len() == 0 <==> r@.len() == 0,
        (forall|k: int| 0 <= k < bytes@.len() ==> bytes@[k] < 128) ==> r@ == Seq::new(
            bytes@.len(),
            |k: int| bytes@[k] as char,
        ),
{
    String::from_utf8_lossy(bytes).into_owned()
}

/// Relies on `String`'s `FromIterator<char>` impl: collecting characters
/// yields the string of exactly those characters in order.
#[verifier::external_body]
fn chars_to_string(chars: &Vec<char>) -> (r: String)
    ensures
        r@ == chars@,
{
    chars.iter().collect()
}

/// Whether `p` occurs in `s` at position `i`.
fn matches_at(s: &str, n: usize, i: usize, p: &str) -> (b: bool)
    requires
        n == s@.len(),
        i <= n,
    ensures
        b == (i + p@.len() <= n && s@.subrange(i as int, i + p@.len()) == p@),
{
    let pn = p.unicode_len();
    if pn > n - i {
        return false;
    }
    let mut k: usize = 0;
    while k < pn
        invariant
            n == s@.len(),
            pn == p@.len(),
            i + pn <= n,
            k <= pn,
            forall|m: int| 0 <= m < k ==> s@[i + m] == p@[m],
        decreases pn - k,
    {
        if s.get_char(i + k) != p.get_char(k) {
            proof {
                assert(s@.subrange(i as int, i + p@.len())[k as int] == s@[i + k]);
            }
            return false;
        }
        k += 1;
    }
    proof {
        assert(s@.subrange(i as int, i + p@.len()) =~= p@);
    }
    true
}

/// Whether the input from position `j` on is exactly `p`.
fn suffix_equals(s: &str, n: usize, j: usize, p: &str) -> (b: bool)
    requires
        n == s@.len(),
        j <= n,
    ensures
        b == (s@.skip(j as int) == p@),
{
    let pn = p.unicode_len();
    let b = n - j == pn && matches_at(s, n, j, p);
    proof {
        if b {
            assert(s@.skip(j as int) =~= s@.subrange(j as int, j + p@.len()));
        } else {
            if s@.skip(j as int) == p@ {
                assert(s@.skip(j as int).len() == n - j);
                assert(j + pn == n);
                assert(s@.subrange(j as int, j + p@.len()) =~= s@.skip(j as int));
            }
        }
    }
    b
}

/// Reads one escaped string field starting at `i`, which must sit just
/// after the opening quote; yields the unescaped content and the position
/// just past the closing quote, as [`parse_quoted`] describes.
fn take_quoted(s: &str, n: usize, i: usize) -> (r: Option<(Vec<char>, usize)>)
    requires
        n == s@.len(),
        i <= n,
    ensures
        match r {
            Some(p) => i < p.1 <= n && parse_quoted(s@.skip(i as int)) == Some(
                (p.0@, s@.skip(p.1 as int)),
            ),
            None => parse_quoted(s@.skip(i as int)) is None,
        },
    decreases n - i,
{
    if i == n {
        return None;
    }
    let c = s.get_char(i);
    proof {
        assert(s@.skip(i as int)[0] == s@[i as int]);
    }
    if c == '"' {
        proof {
            assert(s@.skip(i as int).skip(1) =~= s@.skip(i + 1));
        }
        Some((Vec::new(), i + 1))
    } else if c == '\\' {
        if i + 1 < n {
            let c2 = s.get_char(i + 1);
            proof {
                assert(s@.skip(i as int)[1] == s@[i + 1]);
                assert(s@.skip(i as int).skip(2) =~= s@.skip(i + 2));
            }
            if c2 == '"' || c2 == '\\' {
                match take_quoted(s, n, i + 2) {
                    Some((mut content, j)) => {
                        content.insert(0, c2);
                        proof {
                            assert(content@ =~= seq![c2] + content@.skip(1));
                        }
                        Some((content, j))
                    }
                    None => None,
                }
            } else {
                None
            }
        } else {
            proof {
                assert(s@.skip(i as int).len() == 1);
            }
            None
        }
    } else {
        proof {
            assert(s@.skip(i as int).skip(1) =~= s@.skip(i + 1));
        }
        match take_quoted(s, n, i + 1) {
            Some((mut content, j)) => {
                content.insert(0, c);
                proof {
                    assert(content@ =~= seq![c] + content@.skip(1));
                }
                Some((content, j))
            }
            None => None,
        }
    }
}

/// Parses one wire message out of its text form, exactly as
/// [`spec_parse`] describes it.
pub fn parse_message(s: &str) -> (r: Option<Message>)
    ensures
        match r {
            Some(m) => spec_parse(s@) == Some(m@),
            None => spec_parse(s@) is None,
        },
{
    let n = s.unicode_len();
    if suffix_equals(s, n, 0, "\"HealthCheck\"") {
        proof {
            assert(s@.skip(0) =~= s@);
        }
        return Some(Message::HealthCheck);
    }
    proof {
        assert(s@.skip(0) =~= s@);
        assert(s@ != health_check_text());
    }
    if matches_at(s, n, 0, "{\"Bpf\":{\"fn_name\":\"") {
        let open = "{\"Bpf\":{\"fn_name\":\"".unicode_len();
        proof {
            assert(s@.subrange(0, bpf_opening().len() as int) == bpf_opening());
            assert(starts_with(s@, bpf_opening()));
        }
        match take_quoted(s, n, open) {
            Some((content, j)) => {
                if suffix_equals(s, n, j, "}}") {
                    let fn_name = chars_to_string(&content);
                    Some(Message::Bpf { fn_name })
                } else {
                    None
                }
            }
            None => None,
        }
    } else if matches_at(s, n, 0, "{\"Workload\":{\"name\":\"") {
        let open = "{\"Workload\":{\"name\":\"".unicode_len();
        proof {
            assert(s@.subrange(0, workload_opening().len() as int) == workload_opening());
            assert(starts_with(s@, workload_opening()));
            assert(!starts_with(s@, bpf_opening()));
        }
        match take_quoted(s, n, open) {
            Some((name_chars, j)) => {
                if matches_at(s, n, j, ",\"dataset\":\"") {
                    let sep = ",\"dataset\":\"".unicode_len();
                    proof {
                        assert(s@.skip(j as int).subrange(0, dataset_separator().len() as int)
                            =~= s@.subrange(j as int, j + dataset_separator().len()));
                        assert(starts_with(s@.skip(j as int), dataset_separator()));
                        assert(s@.skip(j as int).skip(dataset_separator().len() as int)
                            =~= s@.skip(j + dataset_separator().len()));
                    }
                    match take_quoted(s, n, j + sep) {
                        Some((dataset_chars, k)) => {
                            if suffix_equals(s, n, k, "}}") {
                                let name = chars_to_string(&name_chars);
                                let dataset = chars_to_string(&dataset_chars);
                                Some(Message::Workload { name, dataset })
                            } else {
                                None
                            }
                        }
                        None => None,
                    }
                } else {
                    proof {
                        if starts_with(s@.skip(j as int), dataset_separator()) {
                            assert(s@.subrange(j as int, j + dataset_separator().len())
                                =~= s@.skip(j as int).subrange(
                                0,
                                dataset_separator().len() as int,
                            ));
                        }
                    }
                    None
                }
            }
            None => None,
        }
    } else {
        proof {
            assert(!starts_with(s@, bpf_opening()));
            assert(!starts_with(s@, workload_opening()));
        }
        None
    }
}

/// Encodes a message into its canonical wire text, exactly
/// [`spec_encode`] of it.
pub fn encode_message(m: &Message) -> (r: String)
    ensures
        r@ == spec_encode(m@),
{
    match m {
        Message::HealthCheck => String::from_str("\"HealthCheck\""),
        Message::Bpf { fn_name } => {
            let mut out: Vec<char> = Vec::new();
            push_literal(&mut out, "{\"Bpf\":{\"fn_name\":\"");
            push_escaped(&mut out, fn_name.as_str());
            out.push('"');
            push_literal(&mut out, "}}");
            proof {
                assert(out@ =~= spec_encode(m@));
            }
            chars_to_string(&out)
        }
        Message::Workload { name, dataset } => {
            let mut out: Vec<char> = Vec::new();
            push_literal(&mut out, "{\"Workload\":{\"name\":\"");
            push_escaped(&mut out, name.as_str());
            out.push('"');
            push_literal(&mut out, ",\"dataset\":\"");
            push_escaped(&mut out, dataset.as_str());
            out.push('"');
            push_literal(&mut out, "}}");
            proof {
                assert(out@ =~= spec_encode(m@));
            }
            chars_to_string(&out)
        }
    }
}

/// Appends the characters of `p` to `out`.
fn push_literal(out: &mut Vec<char>, p: &str)
    ensures
        final(out)@ == old(out)@ + p@,
{
    let pn = p.unicode_len();
    let mut k: usize = 0;
    while k < pn
        invariant
            pn == p@.len(),
            k <= pn,
            out@ == old(out)@ + p@.subrange(0, k as int),
        decreases pn - k,
    {
        out.push(p.get_char(k));
        proof {
            assert(old(out)@ + p@.subrange(0, k as int) + seq![p@[k as int]] =~= old(out)@
                + p@.subrange(0, k + 1));
        }
        k += 1;
    }
    proof {
        assert(p@.subrange(0, pn as int) =~= p@);
    }
}

/// Appends the escaped form of `f` to `out`.
fn push_escaped(out: &mut Vec<char>, f: &str)
    ensures
        final(out)@ == old(out)@ + escaped(f@),
{
    let fn_ = f.unicode_len();
    let mut k: usize = 0;
    while k < fn_
        invariant
            fn_ == f@.len(),
            k <= fn_,
            out@ == old(out)@ + escaped(f@.subrange(0, k as int)),
        decreases fn_ - k,
    {
        let c = f.get_char(k);
        if c == '"' || c == '\\' {
            out.push('\\');
            out.push(c);
        } else {
            out.push(c);
        }
        proof {
            lemma_escaped_concat(f@.subrange(0, k as int), seq![f@[k as int]]);
            lemma_escaped_one(f@[k as int]);
            assert(f@.subrange(0, k as int) + seq![f@[k as int]] =~= f@.subrange(0, k + 1));
            if c == '"' || c == '\\' {
                assert(old(out)@ + escaped(f@.subrange(0, k as int)) + seq!['\\'] + seq![c]
                    =~= old(out)@ + escaped(f@.subrange(0, k + 1)));
            } else {
                assert(old(out)@ + escaped(f@.subrange(0, k as int)) + seq![c] =~= old(out)@
                    + escaped(f@.subrange(0, k + 1)));
            }
        }
        k += 1;
    }
    proof {
        assert(f@.subrange(0, fn_ as int) =~= f@);
    }
}

/// Decodes one wire payload into a task.
///
/// Empty input is rejected as [`DecodeError::EmptyMessage`]. Non-empty
/// input is read as text best effort and parsed: a payload in none of the
/// three task shapes is rejected as [`DecodeError::MalformedTask`], and a
/// well-shaped payload yields the task it denotes, carrying the payload
/// text it was decoded from.
pub fn decode(bytes: &[u8]) -> (r: Result<Task, DecodeError>)
    ensures
        bytes@.len() == 0 ==> (r matches Err(e) && e == DecodeError::EmptyMessage),
        bytes@.len() > 0 ==> match spec_parse(lossy_text(bytes@)) {
            Some(mv) => r matches Ok(t) && t.message@ == mv && t.payload@ == lossy_text(bytes@),
            None => r matches Err(e) && e matches DecodeError::MalformedTask(d) && d@
                == malformed_diagnostic(),
        },
{
    if bytes.len() == 0 {
        return Err(DecodeError::EmptyMessage);
    }
    let text = utf8_lossy(bytes);
    match parse_message(text.as_str()) {
        Some(message) => Ok(Task { message, payload: text }),
        None => Err(DecodeError::MalformedTask(String::from_str("unrecognized task shape"))),
    }
}

} // verus!
