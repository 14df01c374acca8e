//! Construction of the outbound request: endpoint URL normalization and the
//! JSON body, both against exact specifications of the wire format.

use vstd::prelude::*;

use crate::languages::Language;
use crate::text::push_char;

verus! {

/// The endpoint a base URL resolves to: the base with exactly one trailing
/// `/translate` path segment appended.
pub open spec fn normalized_url(u: Seq<char>) -> Seq<char> {
    if u.len() > 0 && u.last() == '/' {
        u + "translate"@
    } else {
        u + "/translate"@
    }
}

/// Law: a base URL with a trailing slash and the same base without one
/// normalize to the same endpoint.
pub proof fn lemma_url_trailing_slash(u: Seq<char>)
    requires
        u.len() == 0 || u.last() != '/',
    ensures
        normalized_url(u.push('/')) == normalized_url(u),
{
    reveal_strlit("translate");
    reveal_strlit("/translate");
    assert(u.push('/') + "translate"@ =~= u + "/translate"@);
}

/// Append `/translate` to the base URL, inserting the `/` only where the base
/// does not already end in one.
pub fn normalize_url(url: &str) -> (r: String)
    ensures
        r@ == normalized_url(url@),
{
    let n = url.unicode_len();
    let base = String::from_str(url);
    if n > 0 && url.get_char(n - 1) == '/' {
        base.concat("translate")
    } else {
        base.concat("/translate")
    }
}

/// The lowercase hexadecimal digit for a value below sixteen.
pub open spec fn hex_digit(n: int) -> char {
    if n == 0 {
        '0'
    } else if n == 1 {
        '1'
    } else if n == 2 {
        '2'
    } else if n == 3 {
        '3'
    } else if n == 4 {
        '4'
    } else if n == 5 {
        '5'
    } else if n == 6 {
        '6'
    } else if n == 7 {
        '7'
    } else if n == 8 {
        '8'
    } else if n == 9 {
        '9'
    } else if n == 10 {
        'a'
    } else if n == 11 {
        'b'
    } else if n == 12 {
        'c'
    } else if n == 13 {
        'd'
    } else if n == 14 {
        'e'
    } else {
        'f'
    }
}

fn hex_char(n: u32) -> (r: char)
    requires
        n < 16,
    ensures
        r == hex_digit(n as int),
{
    match n {
        0 => '0',
        1 => '1',
        2 => '2',
        3 => '3',
        4 => '4',
        5 => '5',
        6 => '6',
        7 => '7',
        8 => '8',
        9 => '9',
        10 => 'a',
        11 => 'b',
        12 => 'c',
        13 => 'd',
        14 => 'e',
        _ => 'f',
    }
}

/// How one character appears inside a JSON string literal: quote and
/// backslash get a backslash escape, the common control characters get their
/// short escapes, the remaining control characters get a `\u00XX` escape, and
/// everything else stands for itself.
pub open spec fn json_escape_char(c: char) -> Seq<char> {
    if c == '"' {
        seq!['\\', '"']
    } else if c == '\\' {
        seq!['\\', '\\']
    } else if c == '\n' {
        seq!['\\', 'n']
    } else if c == '\r' {
        seq!['\\', 'r']
    } else if c == '\t' {
        seq!['\\', 't']
    } else if (c as u32) < 32 {
        seq!['\\', 'u', '0', '0', hex_digit(c as int / 16), hex_digit(c as int % 16)]
    } else {
        seq![c]
    }
}

/// The JSON escaping of a whole character sequence.
pub open spec fn json_escape(s: Seq<char>) -> Seq<char>
    decreases s.len(),
{
    if s.len() == 0 {
        Seq::empty()
    } else {
        json_escape_char(s[0]) + json_escape(s.drop_first())
    }
}

/// A JSON string literal holding the given text: the escaped text between
/// double quotes.
pub open spec fn json_string(s: Seq<char>) -> Seq<char> {
    seq!['"'] + json_escape(s) + seq!['"']
}

/// Append the JSON escaping of `s` to `out`.
fn escape_into(out: &mut String, s: &str)
    ensures
        final(out)@ == old(out)@ + json_escape(s@),
{
    let n = s.unicode_len();
    let mut i: usize = 0;
    proof {
        assert(s@.skip(0) == s@);
    }
    while i < n
        invariant
            n == s@.len(),
            i <= n,
            out@ + json_escape(s@.skip(i as int)) == old(out)@ + json_escape(s@),
        decreases n - i,
    {
        let ghost out_top = out@;
        let c = s.get_char(i);
        proof {
            assert(s@.skip(i as int)[0] == s@[i as int]);
            assert(s@.skip(i as int).drop_first() =~= s@.skip(i as int + 1));
        }
        match c {
            '"' => {
                push_char(out, '\\');
                push_char(out, '"');
            },
            '\\' => {
                push_char(out, '\\');
                push_char(out, '\\');
            },
            '\n' => {
                push_char(out, '\\');
                push_char(out, 'n');
            },
            '\r' => {
                push_char(out, '\\');
                push_char(out, 'r');
            },
            '\t' => {
                push_char(out, '\\');
                push_char(out, 't');
            },
            _ => {
                let u = c as u32;
                if u < 32 {
                    push_char(out, '\\');
                    push_char(out, 'u');
                    push_char(out, '0');
                    push_char(out, '0');
                    push_char(out, hex_char(u / 16));
                    push_char(out, hex_char(u % 16));
                } else {
                    push_char(out, c);
                }
            },
        }
        proof {
            assert(out@ =~= out_top + json_escape_char(c));
            assert(out@ + json_escape(s@.skip(i as int + 1)) =~= out_top + json_escape(
                s@.skip(i as int),
            ));
        }
        i = i + 1;
    }
    proof {
        assert(s@.skip(n as int) =~= Seq::<char>::empty());
        assert(out@ =~= old(out)@ + json_escape(s@));
    }
}

/// Append a JSON string literal holding `s` to `out`.
fn quote_into(out: &mut String, s: &str)
    ensures
        final(out)@ == old(out)@ + json_string(s@),
{
    push_char(out, '"');
    escape_into(out, s);
    push_char(out, '"');
    proof {
        assert(out@ =~= old(out)@ + json_string(s@));
    }
}

/// The JSON object posted to the service: the text under `q`, the resolved
/// source code under `source`, the target code under `target`, and, only when
/// an API key was supplied, that key under `api_key`.
pub open spec fn request_body_spec(
    q: Seq<char>,
    source: Seq<char>,
    target: Seq<char>,
    key: Option<Seq<char>>,
) -> Seq<char> {
    seq!['{', '"', 'q', '"', ':'] + json_string(q) + seq![',', '"', 's', 'o', 'u', 'r', 'c', 'e', '"', ':']
        + json_string(source) + seq![',', '"', 't', 'a', 'r', 'g', 'e', 't', '"', ':'] + json_string(
        target,
    ) + (match key {
        Some(k) => seq![',', '"', 'a', 'p', 'i', '_', 'k', 'e', 'y', '"', ':'] + json_string(k),
        None => Seq::empty(),
    }) + seq!['}']
}

/// Serialize the request payload.
pub fn request_body(q: &str, source: &str, target: &str, key: Option<&str>) -> (r: String)
    ensures
        r@ == request_body_spec(
            q@,
            source@,
            target@,
            match key {
                Some(k) => Some(k@),
                None => None,
            },
        ),
{
    proof {
        reveal_strlit("{\"q\":");
        reveal_strlit(",\"source\":");
        reveal_strlit(",\"target\":");
        reveal_strlit(",\"api_key\":");
        assert("{\"q\":"@ =~= seq!['{', '"', 'q', '"', ':']);
        assert(",\"source\":"@ =~= seq![',', '"', 's', 'o', 'u', 'r', 'c', 'e', '"', ':']);
        assert(",\"target\":"@ =~= seq![',', '"', 't', 'a', 'r', 'g', 'e', 't', '"', ':']);
        assert(",\"api_key\":"@ =~= seq![',', '"', 'a', 'p', 'i', '_', 'k', 'e', 'y', '"', ':']);
    }
    let mut out = String::from_str("{\"q\":");
    quote_into(&mut out, q);
    out.append(",\"source\":");
    quote_into(&mut out, source);
    out.append(",\"target\":");
    quote_into(&mut out, target);
    match key {
        Some(k) => {
            out.append(",\"api_key\":");
            quote_into(&mut out, k);
        },
        None => {},
    }
    push_char(&mut out, '}');
    proof {
        assert(out@ =~= request_body_spec(
            q@,
            source@,
            target@,
            match key {
                Some(k) => Some(k@),
                None => None::<Seq<char>>,
            },
        ));
    }
    out
}

/// A fully prepared outbound request: the normalized endpoint, the serialized
/// body, and the resolved languages and input echoed into the eventual result.
pub struct PreparedRequest {
    pub url: String,
    pub body: String,
    pub source: Language,
    pub target: Language,
    pub input: String,
}

} // verus!
