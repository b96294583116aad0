//! Filesystem-safe directory names for downloaded models, and the path
//! convention that places every model under `<app data>/models/<name>`.

use vstd::prelude::*;

use crate::text::{chars_to_string, push_str_chars};

verus! {

/// A character that survives sanitization: ASCII alphanumeric, `-`, `_`
/// or `.`.
pub open spec fn keep_char(c: char) -> bool {
    (48 <= c as u32 && c as u32 <= 57)  // '0'..='9'
     || (65 <= c as u32 && c as u32 <= 90)  // 'A'..='Z'
     || (97 <= c as u32 && c as u32 <= 122)  // 'a'..='z'
     || c == '-' || c == '_' || c == '.'
}

pub open spec fn sanitized_char(c: char) -> char {
    if keep_char(c) {
        c
    } else {
        '_'
    }
}

/// What sanitization returns: every character mapped to a safe one, or a
/// fixed placeholder when the input is empty.
pub open spec fn sanitize_seq(s: Seq<char>) -> Seq<char> {
    if s.len() == 0 {
        "model"@
    } else {
        s.map_values(|c: char| sanitized_char(c))
    }
}

/// The sanitized result is never empty and holds only safe characters.
pub proof fn lemma_sanitize_seq_safe(s: Seq<char>)
    ensures
        sanitize_seq(s).len() > 0,
        forall|i: int| 0 <= i < sanitize_seq(s).len() ==> keep_char(#[trigger] sanitize_seq(s)[i]),
{
    reveal_strlit("model");
    if s.len() == 0 {
        assert(sanitize_seq(s) == "model"@);
        assert forall|i: int| 0 <= i < sanitize_seq(s).len() implies keep_char(
            #[trigger] sanitize_seq(s)[i],
        ) by {
            assert("model"@[0] == 'm' && "model"@[1] == 'o' && "model"@[2] == 'd' && "model"@[3]
                == 'e' && "model"@[4] == 'l');
        }
    } else {
        assert forall|i: int| 0 <= i < sanitize_seq(s).len() implies keep_char(
            #[trigger] sanitize_seq(s)[i],
        ) by {
            assert(sanitize_seq(s)[i] == sanitized_char(s[i]));
        }
    }
}

fn is_keep_char(c: char) -> (r: bool)
    ensures
        r == keep_char(c),
{
    let u = c as u32;
    (48 <= u && u <= 57) || (65 <= u && u <= 90) || (97 <= u && u <= 122) || c == '-' || c == '_'
        || c == '.'
}

/// Maps a repository identifier to a filesystem-safe directory name:
/// unsafe characters become `_`; an empty identifier becomes a fixed
/// placeholder name.
pub fn sanitize_dir_component(input: &str) -> (r: String)
    ensures
        r@ == sanitize_seq(input@),
        r@.len() > 0,
{
    let n = input.unicode_len();
    if n == 0 {
        let r = String::from_str("model");
        proof {
            reveal_strlit("model");
        }
        return r;
    }
    let mut out: Vec<char> = Vec::new();
    let mut i: usize = 0;
    while i < n
        invariant
            i <= n,
            n == input@.len(),
            n > 0,
            out@ == input@.take(i as int).map_values(|c: char| sanitized_char(c)),
        decreases n - i,
    {
        let c = input.get_char(i);
        if is_keep_char(c) {
            out.push(c);
        } else {
            out.push('_');
        }
        proof {
            assert(out@ =~= input@.take(i + 1).map_values(|c: char| sanitized_char(c)));
        }
        i = i + 1;
    }
    proof {
        assert(input@.take(n as int) =~= input@);
    }
    chars_to_string(out)
}

/// The local directory for a model: `<base>/models/<sanitized repo id>`.
pub fn model_local_dir(base_dir: &str, repo_id: &str) -> (r: String)
    ensures
        r@ == base_dir@ + "/models/"@ + sanitize_seq(repo_id@),
{
    let mut out: Vec<char> = Vec::new();
    push_str_chars(&mut out, base_dir);
    push_str_chars(&mut out, "/models/");
    let name = sanitize_dir_component(repo_id);
    push_str_chars(&mut out, name.as_str());
    chars_to_string(out)
}

} // verus!
