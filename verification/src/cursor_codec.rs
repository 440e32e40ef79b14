//! The text of a controller-bound continuation cursor: a JSON object that
//! ties an opaque cursor to the controller connection, the main thread and
//! the request kind it was issued for.
//!
//! The library writes the object in one canonical form, with JSON string
//! escaping: `{"version":1,"connectionId":N,"mainThreadId":"..",
//! "purpose":"..","cursor":".."}`, and accepts back exactly the texts it
//! writes.

use vstd::prelude::*;

use crate::text::{chars_of, push_char, push_decimal, push_str, same_text, spec_decimal};

verus! {

/// Lowercase hexadecimal digit of `d < 16`.
pub open spec fn hex_digit(d: nat) -> char {
    if d < 10 {
        ((48 + d) as u32) as char
    } else {
        ((87 + d) as u32) as char
    }
}

/// Value of a lowercase hexadecimal digit.
pub open spec fn hex_value(c: char) -> Option<nat> {
    if '0' <= c && c <= '9' {
        Some((c as u32 - 48) as nat)
    } else if 'a' <= c && c <= 'f' {
        Some((c as u32 - 87) as nat)
    } else {
        None
    }
}

/// JSON escape of one character: quote, backslash and control characters
/// are escaped, short forms first; every other character stands as is.
pub open spec fn json_escape_char(c: char) -> Seq<char> {
    if c == '"' {
        seq!['\\', '"']
    } else if c == '\\' {
        seq!['\\', '\\']
    } else if c == '\n' {
        seq!['\\', 'n']
    } else if c == '\r' {
        seq!['\\', 'r']
    } else if c == '\t' {
        seq!['\\', 't']
    } else if c == '\x08' {
        seq!['\\', 'b']
    } else if c == '\x0c' {
        seq!['\\', 'f']
    } else if (c as u32) < 0x20 {
        seq!['\\', 'u', '0', '0', hex_digit((c as u32 / 16) as nat), hex_digit((c as u32 % 16) as nat)]
    } else {
        seq![c]
    }
}

/// JSON escape of a text.
pub open spec fn json_escape(s: Seq<char>) -> Seq<char>
    decreases s.len(),
{
    if s.len() == 0 {
        Seq::empty()
    } else {
        json_escape(s.drop_last()) + json_escape_char(s.last())
    }
}

/// The character a short escape `\e` stands for.
pub open spec fn short_escape(e: char) -> Option<char> {
    if e == '"' {
        Some('"')
    } else if e == '\\' {
        Some('\\')
    } else if e == 'n' {
        Some('\n')
    } else if e == 'r' {
        Some('\r')
    } else if e == 't' {
        Some('\t')
    } else if e == 'b' {
        Some('\x08')
    } else if e == 'f' {
        Some('\x0c')
    } else {
        None
    }
}

/// Reads escapes back: short escapes and `\u00XX`; any other character,
/// including a backslash that starts no such escape, stands for itself.
pub open spec fn json_unescape(t: Seq<char>) -> Seq<char>
    decreases t.len(),
{
    if t.len() == 0 {
        Seq::empty()
    } else if t[0] == '\\' && t.len() >= 2 && short_escape(t[1]) is Some {
        seq![short_escape(t[1])->Some_0] + json_unescape(t.subrange(2, t.len() as int))
    } else if t[0] == '\\' && t.len() >= 6 && t[1] == 'u' && t[2] == '0' && t[3] == '0' && hex_value(
        t[4],
    ) is Some && hex_value(t[5]) is Some {
        seq![((hex_value(t[4])->Some_0 * 16 + hex_value(t[5])->Some_0) as u32) as char]
            + json_unescape(t.subrange(6, t.len() as int))
    } else {
        seq![t[0]] + json_unescape(t.subrange(1, t.len() as int))
    }
}

/// The text of a cursor bound to a connection, main thread and purpose, up
/// to the escaped raw cursor.
pub open spec fn bound_cursor_prefix(
    connection_id: u64,
    main_thread_id: Seq<char>,
    purpose: Seq<char>,
) -> Seq<char> {
    "{\"version\":1,\"connectionId\":"@ + spec_decimal(connection_id as nat)
        + ",\"mainThreadId\":\""@ + json_escape(main_thread_id) + "\",\"purpose\":\""@
        + json_escape(purpose) + "\",\"cursor\":\""@
}

/// The text of `cursor` bound to a connection, main thread and purpose.
pub open spec fn bound_cursor_text(
    connection_id: u64,
    main_thread_id: Seq<char>,
    purpose: Seq<char>,
    cursor: Seq<char>,
) -> Seq<char> {
    bound_cursor_prefix(connection_id, main_thread_id, purpose) + json_escape(cursor) + seq![
        '"',
        '}',
    ]
}

proof fn lemma_escape_prepend(c: char, s: Seq<char>)
    ensures
        json_escape(seq![c] + s) == json_escape_char(c) + json_escape(s),
    decreases s.len(),
{
    if s.len() == 0 {
        let t = seq![c] + s;
        assert(t.drop_last() =~= Seq::<char>::empty());
        assert(t.last() == c);
        assert(json_escape(t.drop_last()) == Seq::<char>::empty());
        assert(json_escape(t) =~= json_escape_char(c));
        assert(json_escape(s) == Seq::<char>::empty());
    } else {
        let t = seq![c] + s;
        assert(t.drop_last() =~= seq![c] + s.drop_last());
        lemma_escape_prepend(c, s.drop_last());
        assert(json_escape(t) =~= json_escape_char(c) + json_escape(s));
    }
}

proof fn lemma_unescape_escape_char(c: char, rest: Seq<char>)
    ensures
        json_unescape(json_escape_char(c) + rest) == seq![c] + json_unescape(rest),
{
    let t = json_escape_char(c) + rest;
    let e = json_escape_char(c);
    if c == '"' || c == '\\' || c == '\n' || c == '\r' || c == '\t' || c == '\x08' || c == '\x0c' {
        assert(t[0] == '\\');
        assert(t[1] == e[1]);
        assert(t.subrange(2, t.len() as int) =~= rest);
    } else if (c as u32) < 0x20 {
        let v = c as u32;
        assert(t[0] == '\\' && t[1] == 'u' && t[2] == '0' && t[3] == '0');
        assert(t[4] == hex_digit((v / 16) as nat));
        assert(t[5] == hex_digit((v % 16) as nat));
        assert(hex_value(t[4]) == Some((v / 16) as nat));
        assert(hex_value(t[5]) == Some((v % 16) as nat));
        assert(short_escape(t[1]) is None);
        assert(((v / 16) * 16 + v % 16) == v);
        assert(((((v / 16) * 16 + v % 16) as u32) as char) == c);
        assert(t.subrange(6, t.len() as int) =~= rest);
    } else {
        assert(t[0] == c);
        assert(t.subrange(1, t.len() as int) =~= rest);
    }
}

/// Reading back an escaped text gives the text.
pub proof fn lemma_unescape_escape(s: Seq<char>)
    ensures
        json_unescape(json_escape(s)) == s,
    decreases s.len(),
{
    if s.len() > 0 {
        let rest = s.drop_first();
        assert(s =~= seq![s[0]] + rest);
        lemma_escape_prepend(s[0], rest);
        lemma_unescape_escape(rest);
        lemma_unescape_escape_char(s[0], json_escape(rest));
    }
}

/// Appends the JSON escape of `s`.
pub fn push_json_escaped(text: &mut String, s: &str)
    ensures
        final(text)@ == old(text)@ + json_escape(s@),
{
    let chars = chars_of(s);
    let mut i: usize = 0;
    while i < chars.len()
        invariant
            chars@ == s@,
            i <= chars@.len(),
            text@ == old(text)@ + json_escape(chars@.subrange(0, i as int)),
        decreases chars@.len() - i,
    {
        let c = chars[i];
        let ghost before = text@;
        if c == '"' {
            push_str(text, "\\\"");
        } else if c == '\\' {
            push_str(text, "\\\\");
        } else if c == '\n' {
            push_str(text, "\\n");
        } else if c == '\r' {
            push_str(text, "\\r");
        } else if c == '\t' {
            push_str(text, "\\t");
        } else if c == '\x08' {
            push_str(text, "\\b");
        } else if c == '\x0c' {
            push_str(text, "\\f");
        } else if (c as u32) < 0x20 {
            push_str(text, "\\u00");
            let v = c as u32;
            push_char(text, hex_char(v / 16));
            push_char(text, hex_char(v % 16));
        } else {
            push_char(text, c);
        }
        proof {
            reveal_strlit("\\\"");
            reveal_strlit("\\\\");
            reveal_strlit("\\n");
            reveal_strlit("\\r");
            reveal_strlit("\\t");
            reveal_strlit("\\b");
            reveal_strlit("\\f");
            reveal_strlit("\\u00");
            assert(text@ =~= before + json_escape_char(c));
            let prefix = chars@.subrange(0, i as int + 1);
            assert(prefix.drop_last() =~= chars@.subrange(0, i as int));
            assert(prefix.last() == c);
        }
        i += 1;
    }
    proof {
        assert(chars@.subrange(0, i as int) =~= s@);
    }
}

/// The lowercase hexadecimal digit of `d < 16`.
fn hex_char(d: u32) -> (c: char)
    requires
        d < 16,
    ensures
        c == hex_digit(d as nat),
{
    if d < 10 {
        ((48 + d) as u8) as char
    } else {
        ((87 + d) as u8) as char
    }
}

/// The bound-cursor text up to the escaped raw cursor.
fn bound_cursor_prefix_text(connection_id: u64, main_thread_id: &str, purpose: &str) -> (text:
    String)
    ensures
        text@ == bound_cursor_prefix(connection_id, main_thread_id@, purpose@),
{
    let mut text = String::new();
    push_str(&mut text, "{\"version\":1,\"connectionId\":");
    push_decimal(&mut text, connection_id);
    push_str(&mut text, ",\"mainThreadId\":\"");
    push_json_escaped(&mut text, main_thread_id);
    push_str(&mut text, "\",\"purpose\":\"");
    push_json_escaped(&mut text, purpose);
    push_str(&mut text, "\",\"cursor\":\"");
    proof {
        assert(text@ =~= bound_cursor_prefix(connection_id, main_thread_id@, purpose@));
    }
    text
}

/// Binds `cursor` to a connection, main thread and purpose.
pub fn encode_bound_cursor(connection_id: u64, main_thread_id: &str, purpose: &str, cursor: &str) -> (text:
    String)
    ensures
        text@ == bound_cursor_text(connection_id, main_thread_id@, purpose@, cursor@),
{
    let mut text = bound_cursor_prefix_text(connection_id, main_thread_id, purpose);
    push_json_escaped(&mut text, cursor);
    push_char(&mut text, '"');
    push_char(&mut text, '}');
    proof {
        assert(text@ =~= bound_cursor_text(connection_id, main_thread_id@, purpose@, cursor@));
    }
    text
}

/// Value of a lowercase hexadecimal digit.
fn hex_digit_value(c: char) -> (value: Option<u32>)
    ensures
        match hex_value(c) {
            Some(v) => value == Some(v as u32),
            None => value is None,
        },
{
    if '0' <= c && c <= '9' {
        Some(c as u32 - 48)
    } else if 'a' <= c && c <= 'f' {
        Some(c as u32 - 87)
    } else {
        None
    }
}

/// The character a short escape stands for.
fn short_escape_char(e: char) -> (c: Option<char>)
    ensures
        c == short_escape(e),
{
    if e == '"' {
        Some('"')
    } else if e == '\\' {
        Some('\\')
    } else if e == 'n' {
        Some('\n')
    } else if e == 'r' {
        Some('\r')
    } else if e == 't' {
        Some('\t')
    } else if e == 'b' {
        Some('\x08')
    } else if e == 'f' {
        Some('\x0c')
    } else {
        None
    }
}

/// Reads the escapes of `chars[from..to]` back.
fn unescape_range(chars: &Vec<char>, from: usize, to: usize) -> (text: String)
    requires
        from <= to <= chars@.len(),
    ensures
        text@ == json_unescape(chars@.subrange(from as int, to as int)),
{
    let mut text = String::new();
    let mut i: usize = from;
    while i < to
        invariant
            from <= i <= to <= chars@.len(),
            text@ + json_unescape(chars@.subrange(i as int, to as int)) == json_unescape(
                chars@.subrange(from as int, to as int),
            ),
        decreases to - i,
    {
        let ghost t = chars@.subrange(i as int, to as int);
        let c = chars[i];
        let mut step: usize = 1;
        let mut decoded = c;
        if c == '\\' && to - i >= 2 {
            match short_escape_char(chars[i + 1]) {
                Some(e) => {
                    decoded = e;
                    step = 2;
                },
                None => {
                    if to - i >= 6 && chars[i + 1] == 'u' && chars[i + 2] == '0' && chars[i + 3]
                        == '0' {
                        match (hex_digit_value(chars[i + 4]), hex_digit_value(chars[i + 5])) {
                            (Some(hi), Some(lo)) => {
                                let v = hi * 16 + lo;
                                decoded = (v as u8) as char;
                                step = 6;
                                proof {
                                    assert(v < 256);
                                    assert(decoded == (v as u32) as char);
                                }
                            },
                            _ => {},
                        }
                    }
                },
            }
        }
        push_char(&mut text, decoded);
        proof {
            assert(t[0] == c);
            if step == 2 {
                assert(t[1] == chars@[i + 1]);
            }
            if step == 6 {
                assert(t[1] == chars@[i + 1]);
                assert(t[2] == chars@[i + 2]);
                assert(t[3] == chars@[i + 3]);
                assert(t[4] == chars@[i + 4]);
                assert(t[5] == chars@[i + 5]);
            }
            if c == '\\' && to - i >= 2 {
                assert(t[1] == chars@[i + 1]);
            }
            if c == '\\' && to - i >= 6 {
                assert(t[1] == chars@[i + 1]);
                assert(t[2] == chars@[i + 2]);
                assert(t[3] == chars@[i + 3]);
                assert(t[4] == chars@[i + 4]);
                assert(t[5] == chars@[i + 5]);
            }
            assert(t.subrange(step as int, t.len() as int) =~= chars@.subrange(
                i + step,
                to as int,
            ));
            assert(json_unescape(t) == seq![decoded] + json_unescape(
                t.subrange(step as int, t.len() as int),
            ));
            assert(text@ + json_unescape(chars@.subrange(i + step, to as int)) =~= (text@.drop_last()
                + json_unescape(t)));
        }
        i = i + step;
    }
    proof {
        assert(chars@.subrange(i as int, to as int) =~= Seq::<char>::empty());
        assert(text@ + Seq::<char>::empty() =~= text@);
    }
    text
}

/// The raw cursor that `bound` binds to the connection, main thread and
/// purpose, if it is the text of such a binding.
pub fn decode_bound_cursor(
    bound: &str,
    connection_id: u64,
    main_thread_id: &str,
    purpose: &str,
) -> (cursor: Option<String>)
    ensures
        match cursor {
            Some(raw) => bound@ == bound_cursor_text(connection_id, main_thread_id@, purpose@, raw@),
            None => forall|raw: Seq<char>|
                bound@ != #[trigger] bound_cursor_text(connection_id, main_thread_id@, purpose@, raw),
        },
        forall|raw: Seq<char>|
            bound@ == #[trigger] bound_cursor_text(connection_id, main_thread_id@, purpose@, raw)
                ==> cursor is Some && cursor->Some_0@ == raw,
{
    let prefix = bound_cursor_prefix_text(connection_id, main_thread_id, purpose);
    let chars = chars_of(bound);
    let prefix_len = prefix.as_str().unicode_len();
    if chars.len() < 2 || chars.len() - 2 < prefix_len {
        proof {
            assert forall|raw: Seq<char>|
                bound@ != #[trigger] bound_cursor_text(connection_id, main_thread_id@, purpose@, raw) by {
                if bound@ == bound_cursor_text(connection_id, main_thread_id@, purpose@, raw) {
                    assert(bound@.len() >= prefix@.len() + 2);
                }
            }
        }
        return None;
    }
    let raw = unescape_range(&chars, prefix_len, chars.len() - 2);
    let expected = encode_bound_cursor(connection_id, main_thread_id, purpose, raw.as_str());
    if same_text(expected.as_str(), bound) {
        proof {
            assert forall|r: Seq<char>|
                bound@ == #[trigger] bound_cursor_text(connection_id, main_thread_id@, purpose@, r)
                    implies raw@ == r by {
                law_bound_cursor_text_is_unambiguous(
                    connection_id,
                    main_thread_id@,
                    purpose@,
                    raw@,
                    connection_id,
                    main_thread_id@,
                    purpose@,
                    r,
                );
            }
        }
        Some(raw)
    } else {
        proof {
            assert forall|r: Seq<char>|
                bound@ != #[trigger] bound_cursor_text(connection_id, main_thread_id@, purpose@, r) by {
                if bound@ == bound_cursor_text(connection_id, main_thread_id@, purpose@, r) {
                    let p = bound_cursor_prefix(connection_id, main_thread_id@, purpose@);
                    assert(chars@.subrange(prefix_len as int, chars@.len() - 2) =~= json_escape(r));
                    lemma_unescape_escape(r);
                }
            }
        }
        None
    }
}

// ---------------------------------------------------------------------------
// A bound cursor names its binding unambiguously.

/// Reads an escaped text up to its closing quote: the text it stands for,
/// and the position of the quote.
pub open spec fn scan_quoted(t: Seq<char>) -> Option<(Seq<char>, int)>
    decreases t.len(),
{
    if t.len() == 0 {
        None
    } else if t[0] == '"' {
        Some((Seq::empty(), 0))
    } else {
        let step: int = if t[0] == '\\' && t.len() >= 2 && short_escape(t[1]) is Some {
            2
        } else if t[0] == '\\' && t.len() >= 6 && t[1] == 'u' && t[2] == '0' && t[3] == '0'
            && hex_value(t[4]) is Some && hex_value(t[5]) is Some {
            6
        } else {
            1
        };
        let c = if step == 2 {
            short_escape(t[1])->Some_0
        } else if step == 6 {
            ((hex_value(t[4])->Some_0 * 16 + hex_value(t[5])->Some_0) as u32) as char
        } else {
            t[0]
        };
        match scan_quoted(t.subrange(step, t.len() as int)) {
            Some((value, end)) => Some((seq![c] + value, end + step)),
            None => None,
        }
    }
}

proof fn lemma_scan_escape_char(c: char, rest: Seq<char>)
    requires
        scan_quoted(rest) is Some,
    ensures
        scan_quoted(json_escape_char(c) + rest) == Some(
            (
                seq![c] + scan_quoted(rest)->Some_0.0,
                scan_quoted(rest)->Some_0.1 + json_escape_char(c).len(),
            ),
        ),
{
    let t = json_escape_char(c) + rest;
    let e = json_escape_char(c);
    if c == '"' || c == '\\' || c == '\n' || c == '\r' || c == '\t' || c == '\x08' || c == '\x0c' {
        assert(t[0] == '\\');
        assert(t[1] == e[1]);
        assert(t.subrange(2, t.len() as int) =~= rest);
    } else if (c as u32) < 0x20 {
        let v = c as u32;
        assert(t[0] == '\\' && t[1] == 'u' && t[2] == '0' && t[3] == '0');
        assert(t[4] == hex_digit((v / 16) as nat));
        assert(t[5] == hex_digit((v % 16) as nat));
        assert(hex_value(t[4]) == Some((v / 16) as nat));
        assert(hex_value(t[5]) == Some((v % 16) as nat));
        assert(short_escape(t[1]) is None);
        assert(((((v / 16) * 16 + v % 16) as u32) as char) == c);
        assert(t.subrange(6, t.len() as int) =~= rest);
    } else {
        assert(t[0] == c);
        assert(t.subrange(1, t.len() as int) =~= rest);
    }
}

/// Scanning an escaped text followed by a quote gives the text back and
/// stops at that quote.
pub proof fn lemma_scan_escaped(x: Seq<char>, rest: Seq<char>)
    ensures
        scan_quoted(json_escape(x) + seq!['"'] + rest) == Some((x, json_escape(x).len() as int)),
    decreases x.len(),
{
    if x.len() == 0 {
        assert(json_escape(x) + seq!['"'] + rest =~= seq!['"'] + rest);
    } else {
        let tail = x.drop_first();
        assert(x =~= seq![x[0]] + tail);
        lemma_escape_prepend(x[0], tail);
        lemma_scan_escaped(tail, rest);
        assert(json_escape(x) + seq!['"'] + rest =~= json_escape_char(x[0]) + (json_escape(tail)
            + seq!['"'] + rest));
        lemma_scan_escape_char(x[0], json_escape(tail) + seq!['"'] + rest);
        assert(seq![x[0]] + tail =~= x);
    }
}

pub open spec fn is_digit(c: char) -> bool {
    '0' <= c && c <= '9'
}

proof fn lemma_decimal_digits(n: nat)
    ensures
        spec_decimal(n).len() >= 1,
        n >= 10 ==> spec_decimal(n).len() >= 2,
        forall|i: int| 0 <= i < spec_decimal(n).len() ==> is_digit(#[trigger] spec_decimal(n)[i]),
    decreases n,
{
    if n >= 10 {
        lemma_decimal_digits(n / 10);
    }
}

proof fn lemma_digit_char_injective(a: nat, b: nat)
    requires
        a < 10,
        b < 10,
        crate::text::digit_char(a) == crate::text::digit_char(b),
    ensures
        a == b,
{
}

proof fn lemma_decimal_injective(a: nat, b: nat)
    requires
        spec_decimal(a) == spec_decimal(b),
    ensures
        a == b,
    decreases a,
{
    lemma_decimal_digits(a);
    lemma_decimal_digits(b);
    if a >= 10 && b >= 10 {
        assert(spec_decimal(a) == spec_decimal(a / 10).push(crate::text::digit_char(a % 10)));
        assert(spec_decimal(b) == spec_decimal(b / 10).push(crate::text::digit_char(b % 10)));
        assert(spec_decimal(a).drop_last() =~= spec_decimal(a / 10));
        assert(spec_decimal(b).drop_last() =~= spec_decimal(b / 10));
        lemma_decimal_injective(a / 10, b / 10);
        let da = spec_decimal(a / 10).push(crate::text::digit_char(a % 10));
        let db = spec_decimal(b / 10).push(crate::text::digit_char(b % 10));
        assert(da.last() == crate::text::digit_char(a % 10));
        assert(db.last() == crate::text::digit_char(b % 10));
        assert(da.last() == db.last());
        lemma_digit_char_injective(a % 10, b % 10);
    } else if a < 10 && b < 10 {
        assert(spec_decimal(a) == seq![crate::text::digit_char(a)]);
        assert(spec_decimal(b) == seq![crate::text::digit_char(b)]);
        let da = seq![crate::text::digit_char(a)];
        let db = seq![crate::text::digit_char(b)];
        assert(da[0] == crate::text::digit_char(a));
        assert(db[0] == crate::text::digit_char(b));
        assert(da[0] == db[0]);
        lemma_digit_char_injective(a, b);
    } else if a < 10 {
        assert(spec_decimal(a) == seq![crate::text::digit_char(a)]);
    } else {
        assert(spec_decimal(b) == seq![crate::text::digit_char(b)]);
    }
}

/// If `a + x == b + y` where `a` and `b` are digit runs and `x` and `y`
/// start with a non-digit, the runs are equal.
proof fn lemma_digit_runs_equal(a: Seq<char>, x: Seq<char>, b: Seq<char>, y: Seq<char>)
    requires
        a + x == b + y,
        forall|i: int| 0 <= i < a.len() ==> is_digit(#[trigger] a[i]),
        forall|i: int| 0 <= i < b.len() ==> is_digit(#[trigger] b[i]),
        x.len() > 0 && !is_digit(x[0]),
        y.len() > 0 && !is_digit(y[0]),
    ensures
        a == b,
        x == y,
{
    let t = a + x;
    if a.len() < b.len() {
        assert(t[a.len() as int] == x[0]);
        assert(t[a.len() as int] == b[a.len() as int]);
    } else if b.len() < a.len() {
        assert(t[b.len() as int] == y[0]);
        assert(t[b.len() as int] == a[b.len() as int]);
    }
    assert(a =~= t.subrange(0, a.len() as int));
    assert(b =~= t.subrange(0, b.len() as int));
    assert(x =~= t.subrange(a.len() as int, t.len() as int));
    assert(y =~= t.subrange(b.len() as int, t.len() as int));
}

/// If `escape(a) + quote + x == escape(b) + quote + y`, then `a == b` and
/// `x == y`.
proof fn lemma_quoted_equal(a: Seq<char>, x: Seq<char>, b: Seq<char>, y: Seq<char>)
    requires
        json_escape(a) + seq!['"'] + x == json_escape(b) + seq!['"'] + y,
    ensures
        a == b,
        x == y,
{
    lemma_scan_escaped(a, x);
    lemma_scan_escaped(b, y);
    let t = json_escape(a) + seq!['"'] + x;
    assert(json_escape(a).len() == json_escape(b).len());
    assert(x =~= t.subrange(json_escape(a).len() + 1int, t.len() as int));
    assert(y =~= t.subrange(json_escape(b).len() + 1int, t.len() as int));
}

/// A bound cursor names its binding unambiguously: two bindings with the
/// same text bind the same cursor to the same connection, main thread and
/// purpose. So a cursor bound for one connection, thread or request kind is
/// never accepted for another.
#[verifier::rlimit(40)]
pub proof fn law_bound_cursor_text_is_unambiguous(
    connection_a: u64,
    main_thread_a: Seq<char>,
    purpose_a: Seq<char>,
    cursor_a: Seq<char>,
    connection_b: u64,
    main_thread_b: Seq<char>,
    purpose_b: Seq<char>,
    cursor_b: Seq<char>,
)
    requires
        bound_cursor_text(connection_a, main_thread_a, purpose_a, cursor_a) == bound_cursor_text(
            connection_b,
            main_thread_b,
            purpose_b,
            cursor_b,
        ),
    ensures
        connection_a == connection_b,
        main_thread_a == main_thread_b,
        purpose_a == purpose_b,
        cursor_a == cursor_b,
{
    let head = "{\"version\":1,\"connectionId\":"@;
    let thread_key = ",\"mainThreadId\":\""@;
    let purpose_key = "\",\"purpose\":\""@;
    let cursor_key = "\",\"cursor\":\""@;
    reveal_strlit("{\"version\":1,\"connectionId\":");
    reveal_strlit(",\"mainThreadId\":\"");
    reveal_strlit("\",\"purpose\":\"");
    reveal_strlit("\",\"cursor\":\"");
    let tail_a = json_escape(cursor_a) + seq!['"', '}'];
    let tail_b = json_escape(cursor_b) + seq!['"', '}'];
    let after_purpose_a = cursor_key.drop_first() + tail_a;
    let after_purpose_b = cursor_key.drop_first() + tail_b;
    let after_thread_a = purpose_key.drop_first() + json_escape(purpose_a) + seq!['"'] + after_purpose_a;
    let after_thread_b = purpose_key.drop_first() + json_escape(purpose_b) + seq!['"'] + after_purpose_b;
    let after_digits_a = thread_key + json_escape(main_thread_a) + seq!['"'] + after_thread_a;
    let after_digits_b = thread_key + json_escape(main_thread_b) + seq!['"'] + after_thread_b;
    let da = spec_decimal(connection_a as nat);
    let db = spec_decimal(connection_b as nat);
    let text_a = bound_cursor_text(connection_a, main_thread_a, purpose_a, cursor_a);
    assert(text_a =~= head + (da + after_digits_a));
    assert(bound_cursor_text(connection_b, main_thread_b, purpose_b, cursor_b) =~= head + (db
        + after_digits_b));
    let text_b = bound_cursor_text(connection_b, main_thread_b, purpose_b, cursor_b);
    assert(da + after_digits_a =~= text_a.subrange(head.len() as int, text_a.len() as int));
    assert(db + after_digits_b =~= text_b.subrange(head.len() as int, text_b.len() as int));
    lemma_decimal_digits(connection_a as nat);
    lemma_decimal_digits(connection_b as nat);
    assert(after_digits_a[0] == ',');
    assert(after_digits_b[0] == ',');
    lemma_digit_runs_equal(da, after_digits_a, db, after_digits_b);
    lemma_decimal_injective(connection_a as nat, connection_b as nat);
    let rest_a = json_escape(main_thread_a) + seq!['"'] + after_thread_a;
    let rest_b = json_escape(main_thread_b) + seq!['"'] + after_thread_b;
    assert(after_digits_a =~= thread_key + rest_a);
    assert(after_digits_b =~= thread_key + rest_b);
    assert(rest_a =~= after_digits_a.subrange(thread_key.len() as int, after_digits_a.len() as int));
    assert(rest_b =~= after_digits_b.subrange(thread_key.len() as int, after_digits_b.len() as int));
    lemma_quoted_equal(main_thread_a, after_thread_a, main_thread_b, after_thread_b);
    let p_a = json_escape(purpose_a) + seq!['"'] + after_purpose_a;
    let p_b = json_escape(purpose_b) + seq!['"'] + after_purpose_b;
    assert(after_thread_a =~= purpose_key.drop_first() + p_a);
    assert(after_thread_b =~= purpose_key.drop_first() + p_b);
    assert(p_a =~= after_thread_a.subrange(purpose_key.len() - 1, after_thread_a.len() as int));
    assert(p_b =~= after_thread_b.subrange(purpose_key.len() - 1, after_thread_b.len() as int));
    lemma_quoted_equal(purpose_a, after_purpose_a, purpose_b, after_purpose_b);
    assert(tail_a =~= after_purpose_a.subrange(cursor_key.len() - 1, after_purpose_a.len() as int));
    assert(tail_b =~= after_purpose_b.subrange(cursor_key.len() - 1, after_purpose_b.len() as int));
    assert(tail_a =~= json_escape(cursor_a) + seq!['"'] + seq!['}']);
    assert(tail_b =~= json_escape(cursor_b) + seq!['"'] + seq!['}']);
    lemma_quoted_equal(cursor_a, seq!['}'], cursor_b, seq!['}']);
}

} // verus!
