//! JSON string literals, as the realtime frames and the map scripts embed
//! text: a quote, the text with `"`, `\` and the control characters escaped,
//! and a closing quote. Each character is escaped as serde_json writes it:
//! the short escapes where JSON has one, `\u00XX` (lower-case hex) for the
//! other control characters, and itself otherwise.
use vstd::prelude::*;

verus! {

/// The lower-case hexadecimal digit of `n`, below 16.
pub open spec fn hex_digit(n: nat) -> char {
    seq!['0', '1', '2', '3', '4', '5', '6', '7', '8', '9', 'a', 'b', 'c', 'd', 'e', 'f'][n as int]
}

/// How one character is written inside a JSON string.
pub open spec fn json_escape(c: char) -> Seq<char> {
    if c == '"' {
        seq!['\\', '"']
    } else if c == '\\' {
        seq!['\\', '\\']
    } else if c == '\u{8}' {
        seq!['\\', 'b']
    } else if c == '\t' {
        seq!['\\', 't']
    } else if c == '\n' {
        seq!['\\', 'n']
    } else if c == '\u{c}' {
        seq!['\\', 'f']
    } else if c == '\r' {
        seq!['\\', 'r']
    } else if (c as nat) < 0x20 {
        seq!['\\', 'u', '0', '0', hex_digit(c as nat / 16), hex_digit(c as nat % 16)]
    } else {
        seq![c]
    }
}

/// The characters of `s`, each written as `json_escape` says.
pub open spec fn json_escaped(s: Seq<char>) -> Seq<char>
    decreases s.len(),
{
    if s.len() == 0 {
        Seq::empty()
    } else {
        json_escaped(s.drop_last()) + json_escape(s.last())
    }
}

/// `s` as a JSON string literal.
pub open spec fn json_string(s: Seq<char>) -> Seq<char> {
    seq!['"'] + json_escaped(s) + seq!['"']
}

/// Text that a JSON string holds without ending it or breaking its line:
/// every quote in it is the second character of an escape, and no control
/// character stands in it as it is.
pub open spec fn safe_inside_quotes(t: Seq<char>) -> bool {
    &&& forall|i: int| 0 <= i < t.len() && #[trigger] t[i] == '"' ==> i > 0 && t[i - 1] == '\\'
    &&& forall|i: int| 0 <= i < t.len() ==> (#[trigger] t[i] as nat) >= 0x20
}

proof fn lemma_hex_digit(n: nat)
    requires
        n < 16,
    ensures
        hex_digit(n) as nat >= 0x30,
        hex_digit(n) != '"',
{
    let digits = seq!['0', '1', '2', '3', '4', '5', '6', '7', '8', '9', 'a', 'b', 'c', 'd', 'e', 'f'];
    assert(hex_digit(n) == digits[n as int]);
    assert(forall|k: int| 0 <= k < 16 ==> (#[trigger] digits[k]) as nat >= 0x30);
}

/// Escaped text can sit between quotes: it cannot end the string early nor
/// break the line, whatever the text held.
pub proof fn escaped_text_stays_inside_its_quotes(s: Seq<char>)
    ensures
        safe_inside_quotes(json_escaped(s)),
    decreases s.len(),
{
    if s.len() > 0 {
        let prefix = json_escaped(s.drop_last());
        let piece = json_escape(s.last());
        escaped_text_stays_inside_its_quotes(s.drop_last());
        let t = json_escaped(s);
        assert(t == prefix + piece);
        let c = s.last();
        assert forall|i: int| 0 <= i < t.len() && #[trigger] t[i] == '"' implies i > 0 && t[i - 1] == '\\' by {
            if i < prefix.len() {
                assert(t[i] == prefix[i]);
                assert(prefix[i] == '"');
                assert(t[i - 1] == prefix[i - 1]);
            } else {
                let j = i - prefix.len();
                assert(t[i] == piece[j]);
                if (c as nat) < 0x20 {
                    lemma_hex_digit(c as nat / 16);
                    lemma_hex_digit(c as nat % 16);
                }
                if j == 0 {
                    assert(piece[0] != '"');
                } else {
                    assert(piece[j - 1] == '\\');
                    assert(t[i - 1] == piece[j - 1]);
                }
            }
        }
        assert forall|i: int| 0 <= i < t.len() implies (#[trigger] t[i] as nat) >= 0x20 by {
            if i < prefix.len() {
                assert(t[i] == prefix[i]);
            } else {
                assert(t[i] == piece[i - prefix.len()]);
                if (c as nat) < 0x20 {
                    lemma_hex_digit(c as nat / 16);
                    lemma_hex_digit(c as nat % 16);
                }
            }
        }
    }
}

fn hex_digit_str(d: u32) -> (r: &'static str)
    requires
        d < 16,
    ensures
        r@ == seq![hex_digit(d as nat)],
{
    if d == 0 {
        proof { reveal_strlit("0"); }
        "0"
    } else if d == 1 {
        proof { reveal_strlit("1"); }
        "1"
    } else if d == 2 {
        proof { reveal_strlit("2"); }
        "2"
    } else if d == 3 {
        proof { reveal_strlit("3"); }
        "3"
    } else if d == 4 {
        proof { reveal_strlit("4"); }
        "4"
    } else if d == 5 {
        proof { reveal_strlit("5"); }
        "5"
    } else if d == 6 {
        proof { reveal_strlit("6"); }
        "6"
    } else if d == 7 {
        proof { reveal_strlit("7"); }
        "7"
    } else if d == 8 {
        proof { reveal_strlit("8"); }
        "8"
    } else if d == 9 {
        proof { reveal_strlit("9"); }
        "9"
    } else if d == 10 {
        proof { reveal_strlit("a"); }
        "a"
    } else if d == 11 {
        proof { reveal_strlit("b"); }
        "b"
    } else if d == 12 {
        proof { reveal_strlit("c"); }
        "c"
    } else if d == 13 {
        proof { reveal_strlit("d"); }
        "d"
    } else if d == 14 {
        proof { reveal_strlit("e"); }
        "e"
    } else {
        proof { reveal_strlit("f"); }
        "f"
    }
}

/// Appends to `out` how the character at `i` of `s` is written inside a
/// JSON string.
fn append_escaped_char(out: &mut String, s: &str, i: usize)
    requires
        i < s@.len(),
        s@.len() <= usize::MAX,
    ensures
        final(out)@ == old(out)@ + json_escape(s@[i as int]),
{
    let c = s.get_char(i);
    if c == '"' {
        proof { reveal_strlit("\\\""); }
        out.append("\\\"");
    } else if c == '\\' {
        proof { reveal_strlit("\\\\"); }
        out.append("\\\\");
    } else if c == '\u{8}' {
        proof { reveal_strlit("\\b"); }
        out.append("\\b");
    } else if c == '\t' {
        proof { reveal_strlit("\\t"); }
        out.append("\\t");
    } else if c == '\n' {
        proof { reveal_strlit("\\n"); }
        out.append("\\n");
    } else if c == '\u{c}' {
        proof { reveal_strlit("\\f"); }
        out.append("\\f");
    } else if c == '\r' {
        proof { reveal_strlit("\\r"); }
        out.append("\\r");
    } else if (c as u32) < 0x20 {
        let code = c as u32;
        proof { reveal_strlit("\\u00"); }
        out.append("\\u00");
        out.append(hex_digit_str(code / 16));
        out.append(hex_digit_str(code % 16));
        assert(code as nat / 16 == c as nat / 16 && code as nat % 16 == c as nat % 16);
    } else {
        out.append(s.substring_char(i, i + 1));
        assert(s@.subrange(i as int, i + 1) =~= seq![c]);
    }
}

/// Writes `s` as a JSON string literal (see `json_escape`).
pub fn json_string_literal(s: &str) -> (r: String)
    ensures
        r@ == json_string(s@),
{
    let n = s.unicode_len();
    let mut out = String::new();
    proof { reveal_strlit("\""); }
    out.append("\"");
    let mut i: usize = 0;
    assert(s@.take(0) =~= Seq::<char>::empty());
    while i < n
        invariant
            n == s@.len(),
            i <= n,
            out@ == seq!['"'] + json_escaped(s@.take(i as int)),
        decreases n - i,
    {
        let ghost before = out@;
        append_escaped_char(&mut out, s, i);
        assert(s@.take(i + 1).drop_last() =~= s@.take(i as int));
        assert(s@.take(i + 1).last() == s@[i as int]);
        assert(out@ =~= seq!['"'] + json_escaped(s@.take(i + 1)));
        i = i + 1;
    }
    assert(s@.take(n as int) =~= s@);
    out.append("\"");
    assert(out@ =~= json_string(s@));
    out
}

} // verus!
