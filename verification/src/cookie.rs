use vstd::prelude::*;

verus! {

/// The client-held session envelope: a subject identity and, after the
/// first rotation, a signed bearer token. It is an immutable value;
/// "mutation" is always construct-a-new-value-and-replace.
#[derive(Clone, Debug)]
pub struct CredentialCookie {
    pub subject: String,
    /// Absent until the first rotation, or cleared if rotation fails.
    pub token: Option<String>,
}

/// The lower-case hexadecimal digit character for `d`.
pub open spec fn hex_digit(d: nat) -> char {
    if d == 0 {
        '0'
    } else if d == 1 {
        '1'
    } else if d == 2 {
        '2'
    } else if d == 3 {
        '3'
    } else if d == 4 {
        '4'
    } else if d == 5 {
        '5'
    } else if d == 6 {
        '6'
    } else if d == 7 {
        '7'
    } else if d == 8 {
        '8'
    } else if d == 9 {
        '9'
    } else if d == 10 {
        'a'
    } else if d == 11 {
        'b'
    } else if d == 12 {
        'c'
    } else if d == 13 {
        'd'
    } else if d == 14 {
        'e'
    } else {
        'f'
    }
}

/// How one character is written inside a JSON string literal: quote and
/// backslash are escaped, the five named control characters take their
/// short escapes, every other control character below U+0020 takes the
/// `\u00XX` form, and every remaining character stands as itself — the
/// same choice the collaborator serializer makes, so the envelope the
/// library frames is always valid JSON to it.
pub open spec fn json_escape_char(c: char) -> Seq<char> {
    if c == '"' {
        seq!['\\', '"']
    } else if c == '\\' {
        seq!['\\', '\\']
    } else if c == '\n' {
        seq!['\\', 'n']
    } else if c == '\r' {
        seq!['\\', 'r']
    } else if c == '\t' {
        seq!['\\', 't']
    } else if c == '\u{0008}' {
        seq!['\\', 'b']
    } else if c == '\u{000c}' {
        seq!['\\', 'f']
    } else if (c as u32) < 0x20 {
        seq!['\\', 'u', '0', '0', hex_digit(((c as u32) / 16) as nat), hex_digit(
            ((c as u32) % 16) as nat,
        )]
    } else {
        seq![c]
    }
}

/// The body of a JSON string literal for `s`.
pub open spec fn json_escape(s: Seq<char>) -> Seq<char>
    decreases s.len(),
{
    if s.len() == 0 {
        Seq::empty()
    } else {
        json_escape(s.drop_last()) + json_escape_char(s.last())
    }
}

/// The serialized cookie envelope: a two-field JSON object, `subject`
/// first, then `token` (a string, or `null` while no token is attached).
pub open spec fn cookie_json(subject: Seq<char>, token: Option<Seq<char>>) -> Seq<char> {
    match token {
        Option::Some(t) => "{\"subject\":\""@ + json_escape(subject) + "\",\"token\":\""@
            + json_escape(t) + "\"}"@,
        Option::None => "{\"subject\":\""@ + json_escape(subject) + "\",\"token\":null}"@,
    }
}

/// The view of an optional token string.
pub open spec fn token_view(t: Option<String>) -> Option<Seq<char>> {
    match t {
        Option::Some(s) => Option::Some(s@),
        Option::None => Option::None,
    }
}

proof fn lemma_json_escape_push(s: Seq<char>, c: char)
    ensures
        json_escape(s.push(c)) == json_escape(s) + json_escape_char(c),
{
    let t = s.push(c);
    assert(t.drop_last() =~= s);
    assert(t.last() == c);
}

fn hex_char(d: u32) -> (r: &'static str)
    requires
        d < 16,
    ensures
        r@ == seq![hex_digit(d as nat)],
{
    proof {
        reveal_strlit("0");
        reveal_strlit("1");
        reveal_strlit("2");
        reveal_strlit("3");
        reveal_strlit("4");
        reveal_strlit("5");
        reveal_strlit("6");
        reveal_strlit("7");
        reveal_strlit("8");
        reveal_strlit("9");
        reveal_strlit("a");
        reveal_strlit("b");
        reveal_strlit("c");
        reveal_strlit("d");
        reveal_strlit("e");
        reveal_strlit("f");
    }
    if d == 0 {
        "0"
    } else if d == 1 {
        "1"
    } else if d == 2 {
        "2"
    } else if d == 3 {
        "3"
    } else if d == 4 {
        "4"
    } else if d == 5 {
        "5"
    } else if d == 6 {
        "6"
    } else if d == 7 {
        "7"
    } else if d == 8 {
        "8"
    } else if d == 9 {
        "9"
    } else if d == 10 {
        "a"
    } else if d == 11 {
        "b"
    } else if d == 12 {
        "c"
    } else if d == 13 {
        "d"
    } else if d == 14 {
        "e"
    } else {
        "f"
    }
}

/// Write `s` as the body of a JSON string literal.
fn escape_json(s: &str) -> (r: String)
    ensures
        r@ == json_escape(s@),
{
    let n = s.unicode_len();
    let mut r = String::new();
    let mut i: usize = 0;
    while i < n
        invariant
            n == s@.len(),
            i <= n,
            r@ == json_escape(s@.subrange(0, i as int)),
        decreases n - i,
    {
        let c = s.get_char(i);
        let ghost r0 = r@;
        proof {
            reveal_strlit("\\\"");
            reveal_strlit("\\\\");
            reveal_strlit("\\n");
            reveal_strlit("\\r");
            reveal_strlit("\\t");
            reveal_strlit("\\b");
            reveal_strlit("\\f");
            reveal_strlit("\\u00");
        }
        if c == '"' {
            r.append("\\\"");
            assert(r@ =~= r0 + json_escape_char(c));
        } else if c == '\\' {
            r.append("\\\\");
            assert(r@ =~= r0 + json_escape_char(c));
        } else if c == '\n' {
            r.append("\\n");
            assert(r@ =~= r0 + json_escape_char(c));
        } else if c == '\r' {
            r.append("\\r");
            assert(r@ =~= r0 + json_escape_char(c));
        } else if c == '\t' {
            r.append("\\t");
            assert(r@ =~= r0 + json_escape_char(c));
        } else if c == '\u{0008}' {
            r.append("\\b");
            assert(r@ =~= r0 + json_escape_char(c));
        } else if c == '\u{000c}' {
            r.append("\\f");
            assert(r@ =~= r0 + json_escape_char(c));
        } else {
            let v = c as u32;
            if v < 0x20 {
                r.append("\\u00");
                r.append(hex_char(v / 16));
                r.append(hex_char(v % 16));
                assert(r@ =~= r0 + json_escape_char(c));
            } else {
                let piece = s.substring_char(i, i + 1);
                assert(piece@ =~= json_escape_char(c));
                r.append(piece);
            }
        }
        proof {
            let pre = s@.subrange(0, i as int);
            lemma_json_escape_push(pre, c);
            assert(pre.push(c) =~= s@.subrange(0, i + 1 as int));
        }
        i = i + 1;
    }
    proof {
        assert(s@.subrange(0, n as int) =~= s@);
    }
    r
}

impl CredentialCookie {
    /// Serialize the envelope; the result is exactly `cookie_json` of
    /// the fields. Total: serialization of a cookie cannot fail.
    pub fn encode(&self) -> (r: String)
        ensures
            r@ == cookie_json(self.subject@, token_view(self.token)),
    {
        let mut r = String::from_str("{\"subject\":\"");
        let esc = escape_json(self.subject.as_str());
        r.append(esc.as_str());
        match &self.token {
            Option::Some(t) => {
                r.append("\",\"token\":\"");
                let te = escape_json(t.as_str());
                r.append(te.as_str());
                r.append("\"}");
                assert(r@ =~= cookie_json(self.subject@, token_view(self.token)));
            },
            Option::None => {
                r.append("\",\"token\":null}");
                assert(r@ =~= cookie_json(self.subject@, token_view(self.token)));
            },
        }
        r
    }

    /// Replace the attached token; the subject is left unchanged.
    pub fn rotated(&self, token: String) -> (r: CredentialCookie)
        ensures
            r.subject@ == self.subject@,
            r.token == Option::Some(token),
    {
        CredentialCookie { subject: self.subject.clone(), token: Option::Some(token) }
    }
}

} // verus!
