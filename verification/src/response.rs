//! Framing of the small JSON answers that report success or failure.

use vstd::prelude::*;

use crate::text::push_char;

verus! {

/// The hexadecimal digit (lower case) of a value below sixteen.
pub open spec fn hex_digit(d: int) -> char {
    if d < 10 {
        (48 + d) as char
    } else {
        (87 + d) as char
    }
}

/// The value of a hexadecimal digit written by `hex_digit`.
pub open spec fn hex_value(c: char) -> int {
    if '0' <= c && c <= '9' {
        c as int - 48
    } else {
        c as int - 87
    }
}

/// A control character, which JSON does not allow raw inside a string.
pub open spec fn is_control(c: char) -> bool {
    (c as int) < 0x20
}

/// What one character of a message becomes inside a JSON string: `"` and
/// `\` get a backslash in front, a control character becomes `\u00XX`,
/// anything else stays.
pub open spec fn escape_char_spec(c: char) -> Seq<char> {
    if c == '"' {
        seq!['\\', '"']
    } else if c == '\\' {
        seq!['\\', '\\']
    } else if is_control(c) {
        seq!['\\', 'u', '0', '0', hex_digit((c as int) / 16), hex_digit((c as int) % 16)]
    } else {
        seq![c]
    }
}

/// A message written as the contents of a JSON string.
pub open spec fn escape_json_spec(s: Seq<char>) -> Seq<char>
    decreases s.len(),
{
    if s.len() == 0 {
        Seq::empty()
    } else {
        escape_json_spec(s.drop_last()) + escape_char_spec(s.last())
    }
}

/// Whether the text can stand between the quotes of a JSON string: no raw
/// quote or control character, and every backslash begins `\"`, `\\` or
/// `\u00XX` with two hexadecimal digits.
pub open spec fn is_json_string_body(s: Seq<char>) -> bool
    decreases s.len(),
{
    if s.len() == 0 {
        true
    } else if s[0] == '\\' {
        if s.len() >= 2 && (s[1] == '"' || s[1] == '\\') {
            is_json_string_body(s.skip(2))
        } else if s.len() >= 6 && s[1] == 'u' && s[2] == '0' && s[3] == '0' && is_hex_digit(s[4])
            && is_hex_digit(s[5]) {
            is_json_string_body(s.skip(6))
        } else {
            false
        }
    } else if s[0] == '"' || is_control(s[0]) {
        false
    } else {
        is_json_string_body(s.skip(1))
    }
}

/// `0`-`9` or `a`-`f`.
pub open spec fn is_hex_digit(c: char) -> bool {
    ('0' <= c && c <= '9') || ('a' <= c && c <= 'f')
}

/// Reads back the contents of a JSON string written by `escape_json_spec`.
pub open spec fn unescape_json_spec(s: Seq<char>) -> Seq<char>
    decreases s.len(),
{
    if s.len() == 0 {
        Seq::empty()
    } else if s.len() >= 2 && s[0] == '\\' && (s[1] == '"' || s[1] == '\\') {
        seq![s[1]] + unescape_json_spec(s.skip(2))
    } else if s.len() >= 6 && s[0] == '\\' && s[1] == 'u' && s[2] == '0' && s[3] == '0' {
        seq![(hex_value(s[4]) * 16 + hex_value(s[5])) as char] + unescape_json_spec(s.skip(6))
    } else {
        seq![s[0]] + unescape_json_spec(s.skip(1))
    }
}

/// `{"success":false,"error":"` followed by the escaped message and `"}`.
pub open spec fn error_json_spec(message: Seq<char>) -> Seq<char> {
    error_json_head() + escape_json_spec(message) + json_string_tail()
}

/// `{"valid":false,"error":"` followed by the escaped message and `"}`.
pub open spec fn invalid_json_spec(message: Seq<char>) -> Seq<char> {
    invalid_json_head() + escape_json_spec(message) + json_string_tail()
}

pub open spec fn error_json_head() -> Seq<char> {
    seq![
        '{', '"', 's', 'u', 'c', 'c', 'e', 's', 's', '"', ':', 'f', 'a', 'l', 's', 'e', ',', '"',
        'e', 'r', 'r', 'o', 'r', '"', ':', '"',
    ]
}

pub open spec fn invalid_json_head() -> Seq<char> {
    seq![
        '{', '"', 'v', 'a', 'l', 'i', 'd', '"', ':', 'f', 'a', 'l', 's', 'e', ',', '"', 'e', 'r',
        'r', 'o', 'r', '"', ':', '"',
    ]
}

pub open spec fn json_string_tail() -> Seq<char> {
    seq!['"', '}']
}

/// `{"valid":true}`
pub open spec fn valid_json_spec() -> Seq<char> {
    seq!['{', '"', 'v', 'a', 'l', 'i', 'd', '"', ':', 't', 'r', 'u', 'e', '}']
}

/// The answer to a validation request.
pub open spec fn validation_json_spec(result: Result<(), Seq<char>>) -> Seq<char> {
    match result {
        Ok(_) => valid_json_spec(),
        Err(message) => invalid_json_spec(message),
    }
}

/// Law: escaping a text escapes each of its parts.
pub proof fn lemma_escape_concat(a: Seq<char>, b: Seq<char>)
    ensures
        escape_json_spec(a + b) == escape_json_spec(a) + escape_json_spec(b),
    decreases b.len(),
{
    if b.len() == 0 {
        assert(a + b =~= a);
        assert(escape_json_spec(a) + escape_json_spec(b) =~= escape_json_spec(a));
    } else {
        lemma_escape_concat(a, b.drop_last());
        assert((a + b).drop_last() =~= a + b.drop_last());
        assert((a + b).last() == b.last());
        assert(escape_json_spec(a + b) =~= escape_json_spec(a) + escape_json_spec(b));
    }
}

proof fn lemma_escape_front(s: Seq<char>)
    requires
        s.len() > 0,
    ensures
        escape_json_spec(s) == escape_char_spec(s[0]) + escape_json_spec(s.skip(1)),
{
    let head = seq![s[0]];
    assert(head + s.skip(1) =~= s);
    lemma_escape_concat(head, s.skip(1));
    assert(head.drop_last() =~= Seq::<char>::empty());
    assert(escape_json_spec(head.drop_last()) =~= Seq::<char>::empty());
    assert(head.last() == s[0]);
    assert(escape_json_spec(head) =~= escape_char_spec(s[0]));
}

proof fn lemma_hex_round_trip(c: char)
    requires
        is_control(c),
    ensures
        is_hex_digit(hex_digit((c as int) / 16)),
        is_hex_digit(hex_digit((c as int) % 16)),
        (hex_value(hex_digit((c as int) / 16)) * 16 + hex_value(hex_digit((c as int) % 16))) as char
            == c,
{
    let v = c as int;
    assert(0 <= v < 32);
    let hi = v / 16;
    let lo = v % 16;
    assert(hi == 0 || hi == 1);
    assert(0 <= lo < 16);
    assert((48 + hi) as char as int == 48 + hi);
    if lo < 10 {
        assert((48 + lo) as char as int == 48 + lo);
    } else {
        assert((87 + lo) as char as int == 87 + lo);
    }
    assert(hi * 16 + lo == v);
    assert((v as char) == c);
}

/// Law: the message inside a failure answer can be read back exactly;
/// unescaping an escaped message gives the message.
pub proof fn lemma_escape_round_trip(s: Seq<char>)
    ensures
        unescape_json_spec(escape_json_spec(s)) == s,
    decreases s.len(),
{
    if s.len() > 0 {
        let rest = s.skip(1);
        let e = escape_json_spec(s);
        let tail = escape_json_spec(rest);
        let c = s[0];
        lemma_escape_front(s);
        lemma_escape_round_trip(rest);
        if c == '"' || c == '\\' {
            assert(e.skip(2) =~= tail);
        } else if is_control(c) {
            lemma_hex_round_trip(c);
            assert(e.skip(6) =~= tail);
        } else {
            assert(e.skip(1) =~= tail);
        }
        assert(unescape_json_spec(e) =~= s);
    } else {
        assert(escape_json_spec(s) =~= Seq::<char>::empty());
        assert(unescape_json_spec(escape_json_spec(s)) =~= s);
    }
}

/// Law: an escaped message can stand inside a JSON string, so every
/// failure answer is JSON.
pub proof fn lemma_escape_is_json_string_body(s: Seq<char>)
    ensures
        is_json_string_body(escape_json_spec(s)),
    decreases s.len(),
{
    if s.len() > 0 {
        let rest = s.skip(1);
        let e = escape_json_spec(s);
        let tail = escape_json_spec(rest);
        let c = s[0];
        lemma_escape_front(s);
        lemma_escape_is_json_string_body(rest);
        if c == '"' || c == '\\' {
            assert(e.skip(2) =~= tail);
        } else if is_control(c) {
            lemma_hex_round_trip(c);
            assert(e.skip(6) =~= tail);
        } else {
            assert(e.skip(1) =~= tail);
        }
    } else {
        assert(escape_json_spec(s) =~= Seq::<char>::empty());
    }
}

/// The hexadecimal digit of a value below sixteen.
fn hex_char(d: u32) -> (res: char)
    requires
        d < 16,
    ensures
        res == hex_digit(d as int),
{
    if d < 10 {
        ((48 + d) as u8) as char
    } else {
        ((87 + d) as u8) as char
    }
}

/// Writes `s` as the contents of a JSON string: `"` and `\` get a
/// backslash in front, and control characters become `\u00XX`.
pub fn escape_json(s: &str) -> (res: String)
    ensures
        res@ == escape_json_spec(s@),
{
    let mut res = String::new();
    let n = s.unicode_len();
    let mut i: usize = 0;
    while i < n
        invariant
            n == s@.len(),
            i <= n,
            res@ == escape_json_spec(s@.take(i as int)),
        decreases n - i,
    {
        let c = s.get_char(i);
        assert(s@.take(i + 1).drop_last() =~= s@.take(i as int));
        let code = c as u32;
        if c == '"' || c == '\\' {
            push_char(&mut res, '\\');
            push_char(&mut res, c);
        } else if code < 0x20 {
            push_char(&mut res, '\\');
            push_char(&mut res, 'u');
            push_char(&mut res, '0');
            push_char(&mut res, '0');
            push_char(&mut res, hex_char(code / 16));
            push_char(&mut res, hex_char(code % 16));
        } else {
            push_char(&mut res, c);
        }
        assert(res@ =~= escape_json_spec(s@.take(i + 1)));
        i = i + 1;
    }
    assert(s@.take(n as int) =~= s@);
    res
}

/// The answer that reports a failure: `{"success":false,"error":"<message>"}`,
/// with the quotes of the message escaped.
pub fn error_json(message: &str) -> (res: String)
    ensures
        res@ == error_json_spec(message@),
{
    let mut res = String::from_str("{\"success\":false,\"error\":\"");
    let escaped = escape_json(message);
    res.append(escaped.as_str());
    res.append("\"}");
    proof {
        reveal_strlit("{\"success\":false,\"error\":\"");
        reveal_strlit("\"}");
        assert("{\"success\":false,\"error\":\""@ =~= error_json_head());
        assert("\"}"@ =~= json_string_tail());
    }
    res
}

/// The answer to a validation that passed: `{"valid":true}`.
pub fn valid_json() -> (res: String)
    ensures
        res@ == valid_json_spec(),
{
    proof {
        reveal_strlit("{\"valid\":true}");
        assert("{\"valid\":true}"@ =~= valid_json_spec());
    }
    String::from_str("{\"valid\":true}")
}

/// The answer to a validation that failed: `{"valid":false,"error":"<message>"}`,
/// with the quotes of the message escaped.
pub fn invalid_json(message: &str) -> (res: String)
    ensures
        res@ == invalid_json_spec(message@),
{
    let mut res = String::from_str("{\"valid\":false,\"error\":\"");
    let escaped = escape_json(message);
    res.append(escaped.as_str());
    res.append("\"}");
    proof {
        reveal_strlit("{\"valid\":false,\"error\":\"");
        reveal_strlit("\"}");
        assert("{\"valid\":false,\"error\":\""@ =~= invalid_json_head());
        assert("\"}"@ =~= json_string_tail());
    }
    res
}

/// The answer to a validation, whatever its outcome.
pub fn validation_json(result: &Result<(), String>) -> (res: String)
    ensures
        res@ == validation_json_spec(
            match result {
                Ok(_) => Ok(()),
                Err(e) => Err(e@),
            },
        ),
{
    match result {
        Ok(_) => valid_json(),
        Err(e) => invalid_json(e.as_str()),
    }
}

/// Law: inside an answer, `"` is written `\"`, `\` is written `\\`, a
/// control character is written `\u00` and its two lower-case hexadecimal
/// digits, and every other character stands as it is.
pub proof fn lemma_escape_char_literal(c: char)
    ensures
        c == '"' ==> escape_json_spec(seq![c]) == seq!['\\', '"'],
        c == '\\' ==> escape_json_spec(seq![c]) == seq!['\\', '\\'],
        (c as int) < 32 ==> escape_json_spec(seq![c]) == seq![
            '\\',
            'u',
            '0',
            '0',
            seq!['0', '1'][(c as int) / 16],
            seq!['0', '1', '2', '3', '4', '5', '6', '7', '8', '9', 'a', 'b', 'c', 'd', 'e', 'f'][(c as int) % 16],
        ],
        c != '"' && c != '\\' && (c as int) >= 32 ==> escape_json_spec(seq![c]) == seq![c],
{
    let one = seq![c];
    assert(one.drop_last() =~= Seq::<char>::empty());
    assert(escape_json_spec(one.drop_last()) =~= Seq::<char>::empty());
    assert(one.last() == c);
    assert(escape_json_spec(one) =~= escape_char_spec(c));
    if (c as int) < 32 {
        let v = c as int;
        let lo = v % 16;
        assert(seq!['0', '1', '2', '3', '4', '5', '6', '7', '8', '9', 'a', 'b', 'c', 'd', 'e', 'f'][lo] == hex_digit(lo));
        assert(seq!['0', '1'][v / 16] == hex_digit(v / 16));
    }
}

/// Law: the answers are `{"success":false,"error":"<message>"}`,
/// `{"valid":false,"error":"<message>"}` and `{"valid":true}`, the
/// message escaped.
pub proof fn lemma_answers_literal(message: Seq<char>)
    ensures
        error_json_spec(message) == seq!['{', '"', 's', 'u', 'c', 'c', 'e', 's', 's', '"', ':', 'f', 'a', 'l', 's', 'e', ',', '"', 'e', 'r', 'r', 'o', 'r', '"', ':', '"'] + escape_json_spec(message)
            + seq!['"', '}'],
        invalid_json_spec(message) == seq!['{', '"', 'v', 'a', 'l', 'i', 'd', '"', ':', 'f', 'a', 'l', 's', 'e', ',', '"', 'e', 'r', 'r', 'o', 'r', '"', ':', '"'] + escape_json_spec(message)
            + seq!['"', '}'],
        valid_json_spec() == seq!['{', '"', 'v', 'a', 'l', 'i', 'd', '"', ':', 't', 'r', 'u', 'e', '}'],
        validation_json_spec(Ok(())) == seq!['{', '"', 'v', 'a', 'l', 'i', 'd', '"', ':', 't', 'r', 'u', 'e', '}'],
        validation_json_spec(Err(message)) == invalid_json_spec(message),
{
    assert(error_json_spec(message) =~= seq!['{', '"', 's', 'u', 'c', 'c', 'e', 's', 's', '"', ':', 'f', 'a', 'l', 's', 'e', ',', '"', 'e', 'r', 'r', 'o', 'r', '"', ':', '"'] + escape_json_spec(message)
        + seq!['"', '}']);
    assert(invalid_json_spec(message) =~= seq!['{', '"', 'v', 'a', 'l', 'i', 'd', '"', ':', 'f', 'a', 'l', 's', 'e', ',', '"', 'e', 'r', 'r', 'o', 'r', '"', ':', '"'] + escape_json_spec(message)
        + seq!['"', '}']);
    assert(valid_json_spec() =~= seq!['{', '"', 'v', 'a', 'l', 'i', 'd', '"', ':', 't', 'r', 'u', 'e', '}']);
}

} // verus!
