//! The outbound half of the line-delimited JSON control protocol.
//!
//! Every message to the worker is one JSON object on one line. The exact
//! character sequence of each message is specified here, down to string
//! escaping, so callers know bit-for-bit what reaches the worker's input
//! stream (the caller appends the terminating newline when writing).

use vstd::prelude::*;

use crate::digits::{digit_char, digit_to_char, push_radix, radix_seq};
use crate::text::{chars_to_string, push_str_chars};

verus! {

/// How one character appears inside a JSON string literal: quote and
/// backslash are escaped, control characters take their short escape or a
/// `\u00XX` form, everything else stands as itself.
pub open spec fn escaped_char(c: char) -> Seq<char> {
    if c == '"' {
        seq!['\\', '"']
    } else if c == '\\' {
        seq!['\\', '\\']
    } else if c == '\n' {
        seq!['\\', 'n']
    } else if c == '\t' {
        seq!['\\', 't']
    } else if c == '\r' {
        seq!['\\', 'r']
    } else if c == '\u{8}' {
        seq!['\\', 'b']
    } else if c == '\u{c}' {
        seq!['\\', 'f']
    } else if (c as u32) < 32 {
        seq!['\\', 'u', '0', '0', digit_char((c as u32 / 16) as nat), digit_char((c as u32 % 16) as nat)]
    } else {
        seq![c]
    }
}

/// A whole string escaped, character by character.
pub open spec fn escaped(s: Seq<char>) -> Seq<char>
    decreases s.len(),
{
    if s.len() == 0 {
        Seq::empty()
    } else {
        escaped(s.drop_last()) + escaped_char(s.last())
    }
}

/// A JSON string literal: quoted, escaped contents.
pub open spec fn json_string(s: Seq<char>) -> Seq<char> {
    seq!['"'] + escaped(s) + seq!['"']
}

/// An optional string field value: a JSON string, or `null` when absent.
pub open spec fn json_opt_string(s: Option<Seq<char>>) -> Seq<char> {
    match s {
        Option::None => "null"@,
        Option::Some(t) => json_string(t),
    }
}

/// A temperature in thousandths, rendered with three decimal places.
pub open spec fn temperature_seq(milli: u32) -> Seq<char> {
    radix_seq((milli / 1000) as nat, 10) + seq!['.'] + seq![
        digit_char(((milli / 100) % 10) as nat),
        digit_char(((milli / 10) % 10) as nat),
        digit_char((milli % 10) as nat),
    ]
}

/// The `generate` message line.
pub open spec fn generate_line_seq(
    generation_id: Seq<char>,
    model_dir: Seq<char>,
    prompt: Seq<char>,
    max_new_tokens: u32,
    temperature_milli: u32,
) -> Seq<char> {
    "{\"type\":\"generate\",\"generation_id\":"@ + json_string(generation_id) + ",\"model\":"@
        + json_string(model_dir) + ",\"prompt\":"@ + json_string(prompt) + ",\"max_new_tokens\":"@
        + radix_seq(max_new_tokens as nat, 10) + ",\"temperature\":"@ + temperature_seq(
        temperature_milli,
    ) + "}"@
}

/// The `cancel` message line.
pub open spec fn cancel_line_seq(generation_id: Seq<char>) -> Seq<char> {
    "{\"type\":\"cancel\",\"generation_id\":"@ + json_string(generation_id) + "}"@
}

/// The `download` message line.
pub open spec fn download_line_seq(
    download_id: Seq<char>,
    repo_id: Seq<char>,
    revision: Option<Seq<char>>,
    local_dir: Seq<char>,
    token: Option<Seq<char>>,
) -> Seq<char> {
    "{\"type\":\"download\",\"download_id\":"@ + json_string(download_id) + ",\"repo_id\":"@
        + json_string(repo_id) + ",\"revision\":"@ + json_opt_string(revision) + ",\"local_dir\":"@
        + json_string(local_dir) + ",\"token\":"@ + json_opt_string(token) + "}"@
}

/// The `download_cancel` message line.
pub open spec fn download_cancel_line_seq(download_id: Seq<char>) -> Seq<char> {
    "{\"type\":\"download_cancel\",\"download_id\":"@ + json_string(download_id) + "}"@
}

/// The `shutdown` message line.
pub open spec fn shutdown_line_seq() -> Seq<char> {
    "{\"type\":\"shutdown\"}"@
}

/// Appends the escaped form of one character.
fn push_escaped_char(out: &mut Vec<char>, c: char)
    ensures
        final(out)@ == old(out)@ + escaped_char(c),
{
    if c == '"' {
        out.push('\\');
        out.push('"');
    } else if c == '\\' {
        out.push('\\');
        out.push('\\');
    } else if c == '\n' {
        out.push('\\');
        out.push('n');
    } else if c == '\t' {
        out.push('\\');
        out.push('t');
    } else if c == '\r' {
        out.push('\\');
        out.push('r');
    } else if c == '\u{8}' {
        out.push('\\');
        out.push('b');
    } else if c == '\u{c}' {
        out.push('\\');
        out.push('f');
    } else {
        let u = c as u32;
        if u < 32 {
            out.push('\\');
            out.push('u');
            out.push('0');
            out.push('0');
            let hi = digit_to_char((u / 16) as u64);
            out.push(hi);
            let lo = digit_to_char((u % 16) as u64);
            out.push(lo);
        } else {
            out.push(c);
        }
    }
    proof {
        assert(out@ =~= old(out)@ + escaped_char(c));
    }
}

/// Appends a JSON string literal holding `s`.
fn push_json_string(out: &mut Vec<char>, s: &str)
    ensures
        final(out)@ == old(out)@ + json_string(s@),
{
    out.push('"');
    let n = s.unicode_len();
    let mut i: usize = 0;
    while i < n
        invariant
            i <= n,
            n == s@.len(),
            out@ == old(out)@ + seq!['"'] + escaped(s@.take(i as int)),
        decreases n - i,
    {
        let c = s.get_char(i);
        push_escaped_char(out, c);
        proof {
            assert(s@.take(i + 1).drop_last() =~= s@.take(i as int));
            assert(s@.take(i + 1).last() == s@[i as int]);
        }
        i = i + 1;
    }
    out.push('"');
    proof {
        assert(s@.take(n as int) =~= s@);
        assert(out@ =~= old(out)@ + json_string(s@));
    }
}

/// Appends a JSON string literal or `null`.
fn push_json_opt_string(out: &mut Vec<char>, s: Option<&str>)
    ensures
        final(out)@ == old(out)@ + json_opt_string(opt_str_view(s)),
{
    match s {
        Option::None => push_str_chars(out, "null"),
        Option::Some(t) => push_json_string(out, t),
    }
}

/// The view of an optional borrowed string.
pub open spec fn opt_str_view(s: Option<&str>) -> Option<Seq<char>> {
    match s {
        Option::None => Option::None,
        Option::Some(t) => Option::Some(t@),
    }
}

/// Appends the three-decimal rendering of a temperature in thousandths.
fn push_temperature(out: &mut Vec<char>, milli: u32)
    ensures
        final(out)@ == old(out)@ + temperature_seq(milli),
{
    push_radix(out, (milli / 1000) as u64, 10);
    out.push('.');
    let d0 = digit_to_char(((milli / 100) % 10) as u64);
    out.push(d0);
    let d1 = digit_to_char(((milli / 10) % 10) as u64);
    out.push(d1);
    let d2 = digit_to_char((milli % 10) as u64);
    out.push(d2);
    proof {
        assert(out@ =~= old(out)@ + temperature_seq(milli));
    }
}

/// Encodes a `generate` message.
pub fn encode_generate(
    generation_id: &str,
    model_dir: &str,
    prompt: &str,
    max_new_tokens: u32,
    temperature_milli: u32,
) -> (r: String)
    ensures
        r@ == generate_line_seq(
            generation_id@,
            model_dir@,
            prompt@,
            max_new_tokens,
            temperature_milli,
        ),
{
    let mut out: Vec<char> = Vec::new();
    push_str_chars(&mut out, "{\"type\":\"generate\",\"generation_id\":");
    push_json_string(&mut out, generation_id);
    push_str_chars(&mut out, ",\"model\":");
    push_json_string(&mut out, model_dir);
    push_str_chars(&mut out, ",\"prompt\":");
    push_json_string(&mut out, prompt);
    push_str_chars(&mut out, ",\"max_new_tokens\":");
    push_radix(&mut out, max_new_tokens as u64, 10);
    push_str_chars(&mut out, ",\"temperature\":");
    push_temperature(&mut out, temperature_milli);
    push_str_chars(&mut out, "}");
    chars_to_string(out)
}

/// Encodes a `cancel` message.
pub fn encode_cancel(generation_id: &str) -> (r: String)
    ensures
        r@ == cancel_line_seq(generation_id@),
{
    let mut out: Vec<char> = Vec::new();
    push_str_chars(&mut out, "{\"type\":\"cancel\",\"generation_id\":");
    push_json_string(&mut out, generation_id);
    push_str_chars(&mut out, "}");
    chars_to_string(out)
}

/// Encodes a `download` message.
pub fn encode_download(
    download_id: &str,
    repo_id: &str,
    revision: Option<&str>,
    local_dir: &str,
    token: Option<&str>,
) -> (r: String)
    ensures
        r@ == download_line_seq(
            download_id@,
            repo_id@,
            opt_str_view(revision),
            local_dir@,
            opt_str_view(token),
        ),
{
    let mut out: Vec<char> = Vec::new();
    push_str_chars(&mut out, "{\"type\":\"download\",\"download_id\":");
    push_json_string(&mut out, download_id);
    push_str_chars(&mut out, ",\"repo_id\":");
    push_json_string(&mut out, repo_id);
    push_str_chars(&mut out, ",\"revision\":");
    push_json_opt_string(&mut out, revision);
    push_str_chars(&mut out, ",\"local_dir\":");
    push_json_string(&mut out, local_dir);
    push_str_chars(&mut out, ",\"token\":");
    push_json_opt_string(&mut out, token);
    push_str_chars(&mut out, "}");
    chars_to_string(out)
}

/// Encodes a `download_cancel` message.
pub fn encode_download_cancel(download_id: &str) -> (r: String)
    ensures
        r@ == download_cancel_line_seq(download_id@),
{
    let mut out: Vec<char> = Vec::new();
    push_str_chars(&mut out, "{\"type\":\"download_cancel\",\"download_id\":");
    push_json_string(&mut out, download_id);
    push_str_chars(&mut out, "}");
    chars_to_string(out)
}

/// Encodes the `shutdown` message.
pub fn encode_shutdown() -> (r: String)
    ensures
        r@ == shutdown_line_seq(),
{
    String::from_str("{\"type\":\"shutdown\"}")
}


/// A character sequence with no line break in it: one that the wire format
/// can frame as a single newline-terminated line.
pub open spec fn single_line(s: Seq<char>) -> bool {
    forall|i: int| 0 <= i < s.len() ==> s[i] != '\n'
}

proof fn lemma_concat_single_line(a: Seq<char>, b: Seq<char>)
    requires
        single_line(a),
        single_line(b),
    ensures
        single_line(a + b),
{
    assert forall|i: int| 0 <= i < (a + b).len() implies (a + b)[i] != '\n' by {
        if i < a.len() {
            assert((a + b)[i] == a[i]);
        } else {
            assert((a + b)[i] == b[i - a.len()]);
        }
    }
}

proof fn lemma_escaped_char_single_line(c: char)
    ensures
        single_line(escaped_char(c)),
{
    if c != '"' && c != '\\' && c != '\n' && c != '\t' && c != '\r' && c != '\u{8}' && c != '\u{c}'
        && (c as u32) < 32 {
        assert(digit_char((c as u32 / 16) as nat) != '\n');
        assert(digit_char((c as u32 % 16) as nat) != '\n');
    }
}

proof fn lemma_escaped_single_line(s: Seq<char>)
    ensures
        single_line(escaped(s)),
    decreases s.len(),
{
    if s.len() > 0 {
        lemma_escaped_single_line(s.drop_last());
        lemma_escaped_char_single_line(s.last());
        lemma_concat_single_line(escaped(s.drop_last()), escaped_char(s.last()));
    }
}

proof fn lemma_json_string_single_line(s: Seq<char>)
    ensures
        single_line(json_string(s)),
{
    lemma_escaped_single_line(s);
    lemma_concat_single_line(seq!['"'], escaped(s));
    lemma_concat_single_line(seq!['"'] + escaped(s), seq!['"']);
}

proof fn lemma_json_opt_string_single_line(s: Option<Seq<char>>)
    ensures
        single_line(json_opt_string(s)),
{
    reveal_strlit("null");
    match s {
        Option::None => {
        },
        Option::Some(t) => lemma_json_string_single_line(t),
    }
}

proof fn lemma_radix_single_line(n: nat, base: nat)
    requires
        2 <= base <= 16,
    ensures
        single_line(radix_seq(n, base)),
{
    crate::digits::lemma_radix_seq_is_digits(n, base);
    assert forall|i: int| 0 <= i < radix_seq(n, base).len() implies radix_seq(n, base)[i] != '\n' by {
        let c = radix_seq(n, base)[i];
        let d = choose|d: nat| d < 16 && c == digit_char(d);
        assert(digit_char(d) != '\n');
    }
}

proof fn lemma_temperature_single_line(milli: u32)
    ensures
        single_line(temperature_seq(milli)),
{
    lemma_radix_single_line((milli / 1000) as nat, 10);
    let tail = seq![
        digit_char(((milli / 100) % 10) as nat),
        digit_char(((milli / 10) % 10) as nat),
        digit_char((milli % 10) as nat),
    ];
    lemma_concat_single_line(radix_seq((milli / 1000) as nat, 10), seq!['.']);
    lemma_concat_single_line(radix_seq((milli / 1000) as nat, 10) + seq!['.'], tail);
}

/// The framing of the wire format is sound: no outbound message, whatever
/// its fields hold, contains a line break, so writing it plus one newline
/// always reaches the worker as exactly one line.
pub proof fn lemma_messages_are_single_lines(
    id: Seq<char>,
    model_dir: Seq<char>,
    prompt: Seq<char>,
    max_new_tokens: u32,
    temperature_milli: u32,
    repo_id: Seq<char>,
    revision: Option<Seq<char>>,
    local_dir: Seq<char>,
    token: Option<Seq<char>>,
)
    ensures
        single_line(generate_line_seq(id, model_dir, prompt, max_new_tokens, temperature_milli)),
        single_line(cancel_line_seq(id)),
        single_line(download_line_seq(id, repo_id, revision, local_dir, token)),
        single_line(download_cancel_line_seq(id)),
        single_line(shutdown_line_seq()),
{
    reveal_strlit("{\"type\":\"generate\",\"generation_id\":");
    reveal_strlit("{\"type\":\"cancel\",\"generation_id\":");
    reveal_strlit("{\"type\":\"download\",\"download_id\":");
    reveal_strlit("{\"type\":\"download_cancel\",\"download_id\":");
    reveal_strlit("{\"type\":\"shutdown\"}");
    reveal_strlit(",\"model\":");
    reveal_strlit(",\"prompt\":");
    reveal_strlit(",\"max_new_tokens\":");
    reveal_strlit(",\"temperature\":");
    reveal_strlit(",\"repo_id\":");
    reveal_strlit(",\"revision\":");
    reveal_strlit(",\"local_dir\":");
    reveal_strlit(",\"token\":");
    reveal_strlit("}");
    lemma_json_string_single_line(id);
    lemma_json_string_single_line(model_dir);
    lemma_json_string_single_line(prompt);
    lemma_json_string_single_line(repo_id);
    lemma_json_string_single_line(local_dir);
    lemma_json_opt_string_single_line(revision);
    lemma_json_opt_string_single_line(token);
    lemma_radix_single_line(max_new_tokens as nat, 10);
    lemma_temperature_single_line(temperature_milli);
    let g1 = "{\"type\":\"generate\",\"generation_id\":"@ + json_string(id);
    lemma_concat_single_line("{\"type\":\"generate\",\"generation_id\":"@, json_string(id));
    let g2 = g1 + ",\"model\":"@;
    lemma_concat_single_line(g1, ",\"model\":"@);
    let g3 = g2 + json_string(model_dir);
    lemma_concat_single_line(g2, json_string(model_dir));
    let g4 = g3 + ",\"prompt\":"@;
    lemma_concat_single_line(g3, ",\"prompt\":"@);
    let g5 = g4 + json_string(prompt);
    lemma_concat_single_line(g4, json_string(prompt));
    let g6 = g5 + ",\"max_new_tokens\":"@;
    lemma_concat_single_line(g5, ",\"max_new_tokens\":"@);
    let g7 = g6 + radix_seq(max_new_tokens as nat, 10);
    lemma_concat_single_line(g6, radix_seq(max_new_tokens as nat, 10));
    let g8 = g7 + ",\"temperature\":"@;
    lemma_concat_single_line(g7, ",\"temperature\":"@);
    let g9 = g8 + temperature_seq(temperature_milli);
    lemma_concat_single_line(g8, temperature_seq(temperature_milli));
    lemma_concat_single_line(g9, "}"@);
    let c1 = "{\"type\":\"cancel\",\"generation_id\":"@ + json_string(id);
    lemma_concat_single_line("{\"type\":\"cancel\",\"generation_id\":"@, json_string(id));
    lemma_concat_single_line(c1, "}"@);
    let d1 = "{\"type\":\"download\",\"download_id\":"@ + json_string(id);
    lemma_concat_single_line("{\"type\":\"download\",\"download_id\":"@, json_string(id));
    let d2 = d1 + ",\"repo_id\":"@;
    lemma_concat_single_line(d1, ",\"repo_id\":"@);
    let d3 = d2 + json_string(repo_id);
    lemma_concat_single_line(d2, json_string(repo_id));
    let d4 = d3 + ",\"revision\":"@;
    lemma_concat_single_line(d3, ",\"revision\":"@);
    let d5 = d4 + json_opt_string(revision);
    lemma_concat_single_line(d4, json_opt_string(revision));
    let d6 = d5 + ",\"local_dir\":"@;
    lemma_concat_single_line(d5, ",\"local_dir\":"@);
    let d7 = d6 + json_string(local_dir);
    lemma_concat_single_line(d6, json_string(local_dir));
    let d8 = d7 + ",\"token\":"@;
    lemma_concat_single_line(d7, ",\"token\":"@);
    let d9 = d8 + json_opt_string(token);
    lemma_concat_single_line(d8, json_opt_string(token));
    lemma_concat_single_line(d9, "}"@);
    let k1 = "{\"type\":\"download_cancel\",\"download_id\":"@ + json_string(id);
    lemma_concat_single_line("{\"type\":\"download_cancel\",\"download_id\":"@, json_string(id));
    lemma_concat_single_line(k1, "}"@);
}

} // verus!
