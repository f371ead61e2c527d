//! The configuration document format: a JSON object with the single
//! field `server_url`, pretty-printed with a trailing newline. The
//! renderer escapes the value as a JSON string; the parser accepts
//! exactly such documents (the strictness the spec leaves open) and
//! decodes the escapes the renderer and common serializers emit.

use vstd::prelude::*;
use vstd::string::*;

use crate::text::chars_to_string;

verus! {

/// JSON insignificant whitespace.
pub open spec fn is_json_ws(c: char) -> bool {
    c == ' ' || c == '\t' || c == '\n' || c == '\r'
}

fn is_json_ws_char(c: char) -> (r: bool)
    ensures
        r == is_json_ws(c),
{
    c == ' ' || c == '\t' || c == '\n' || c == '\r'
}

/// Whether `c` is a hexadecimal digit.
pub open spec fn is_hex(c: char) -> bool {
    let u = c as u32;
    (0x30 <= u && u <= 0x39) || (0x61 <= u && u <= 0x66) || (0x41 <= u && u <= 0x46)
}

/// The value of a hexadecimal digit.
pub open spec fn hex_val(c: char) -> int {
    let u = c as u32;
    if 0x30 <= u && u <= 0x39 {
        u - 0x30
    } else if 0x61 <= u && u <= 0x66 {
        u - 0x57
    } else {
        u - 0x37
    }
}

fn is_hex_char(c: char) -> (r: bool)
    ensures
        r == is_hex(c),
{
    let u = c as u32;
    (0x30 <= u && u <= 0x39) || (0x61 <= u && u <= 0x66) || (0x41 <= u && u <= 0x46)
}

fn hex_val_char(c: char) -> (r: u32)
    requires
        is_hex(c),
    ensures
        r as int == hex_val(c),
        r < 16,
{
    let u = c as u32;
    if 0x30 <= u && u <= 0x39 {
        u - 0x30
    } else if 0x61 <= u && u <= 0x66 {
        u - 0x57
    } else {
        u - 0x37
    }
}

/// The lowercase hexadecimal digit for a value below 16.
pub open spec fn hex_char(n: int) -> char {
    if n < 10 {
        ((0x30 + n) as u8) as char
    } else {
        ((0x57 + n) as u8) as char
    }
}

fn hex_char_of(n: u32) -> (c: char)
    requires
        n < 16,
    ensures
        c == hex_char(n as int),
{
    if n < 10 {
        ((0x30 + n) as u8) as char
    } else {
        ((0x57 + n) as u8) as char
    }
}

/// How one character is written inside a JSON string: quote, backslash
/// and the five short-escape controls get a two-character escape, other
/// control characters get `\u00XX`, everything else stands as itself.
pub open spec fn esc_char(c: char) -> Seq<char> {
    if c == '"' {
        seq!['\\', '"']
    } else if c == '\\' {
        seq!['\\', '\\']
    } else if c == '\u{08}' {
        seq!['\\', 'b']
    } else if c == '\u{0C}' {
        seq!['\\', 'f']
    } else if c == '\n' {
        seq!['\\', 'n']
    } else if c == '\r' {
        seq!['\\', 'r']
    } else if c == '\t' {
        seq!['\\', 't']
    } else if (c as u32) < 0x20 {
        seq!['\\', 'u', '0', '0', hex_char((c as u32 as int) / 16), hex_char((c as u32 as int) % 16)]
    } else {
        seq![c]
    }
}

/// The JSON-string encoding of a character sequence.
pub open spec fn escape_json(s: Seq<char>) -> Seq<char>
    decreases s.len(),
{
    if s.len() == 0 {
        Seq::empty()
    } else {
        esc_char(s[0]) + escape_json(s.drop_first())
    }
}

/// Escaping a string one character longer appends that character's
/// escape.
pub proof fn lemma_escape_snoc(a: Seq<char>, c: char)
    ensures
        escape_json(a.push(c)) == escape_json(a) + esc_char(c),
    decreases a.len(),
{
    if a.len() == 0 {
        assert(a.push(c)[0] == c);
        assert(a.push(c).drop_first() =~= a);
        assert(escape_json(a) + esc_char(c) =~= esc_char(c) + Seq::<char>::empty());
        assert(escape_json(a.push(c)) =~= esc_char(c) + Seq::<char>::empty());
    } else {
        assert(a.push(c)[0] == a[0]);
        assert(a.push(c).drop_first() =~= a.drop_first().push(c));
        lemma_escape_snoc(a.drop_first(), c);
        assert(escape_json(a.push(c)) =~= escape_json(a) + esc_char(c));
    }
}

/// Appends the JSON-string encoding of one character.
fn push_esc_char(out: &mut Vec<char>, c: char)
    ensures
        final(out)@ == old(out)@ + esc_char(c),
{
    if c == '"' {
        out.push('\\');
        out.push('"');
    } else if c == '\\' {
        out.push('\\');
        out.push('\\');
    } else if c == '\u{08}' {
        out.push('\\');
        out.push('b');
    } else if c == '\u{0C}' {
        out.push('\\');
        out.push('f');
    } else if c == '\n' {
        out.push('\\');
        out.push('n');
    } else if c == '\r' {
        out.push('\\');
        out.push('r');
    } else if c == '\t' {
        out.push('\\');
        out.push('t');
    } else if (c as u32) < 0x20 {
        out.push('\\');
        out.push('u');
        out.push('0');
        out.push('0');
        out.push(hex_char_of((c as u32) / 16));
        out.push(hex_char_of((c as u32) % 16));
    } else {
        out.push(c);
    }
    proof {
        assert(out@ =~= old(out)@ + esc_char(c));
    }
}

/// The characters of a string, as a vector.
pub fn str_chars(s: &str) -> (r: Vec<char>)
    ensures
        r@ == s@,
{
    let n = s.unicode_len();
    let mut r: Vec<char> = Vec::new();
    let mut i: usize = 0;
    while i < n
        invariant
            0 <= i <= n,
            n == s@.len(),
            r@ == s@.subrange(0, i as int),
        decreases n - i,
    {
        r.push(s.get_char(i));
        proof {
            assert(r@ =~= s@.subrange(0, i + 1));
        }
        i = i + 1;
    }
    proof {
        assert(s@.subrange(0, n as int) =~= s@);
    }
    r
}

/// The JSON-string encoding of a string, as characters.
fn escape_json_chars(s: &str) -> (r: Vec<char>)
    ensures
        r@ == escape_json(s@),
{
    let n = s.unicode_len();
    let mut out: Vec<char> = Vec::new();
    let mut i: usize = 0;
    while i < n
        invariant
            0 <= i <= n,
            n == s@.len(),
            out@ == escape_json(s@.subrange(0, i as int)),
        decreases n - i,
    {
        let c = s.get_char(i);
        push_esc_char(&mut out, c);
        proof {
            assert(s@.subrange(0, i + 1) =~= s@.subrange(0, i as int).push(c));
            lemma_escape_snoc(s@.subrange(0, i as int), c);
        }
        i = i + 1;
    }
    proof {
        assert(s@.subrange(0, n as int) =~= s@);
    }
    out
}

/// The exact text of the configuration document for a given value:
/// pretty-printed with two-space indentation and a trailing newline.
pub open spec fn render_config_spec(u: Seq<char>) -> Seq<char> {
    "{\n  \"server_url\": \""@ + escape_json(u) + "\"\n}\n"@
}

/// Renders the configuration document holding the given value.
pub fn render_config_text(server_url: &str) -> (r: String)
    ensures
        r@ == render_config_spec(server_url@),
{
    let esc = escape_json_chars(server_url);
    let body = chars_to_string(&esc);
    String::from_str("{\n  \"server_url\": \"").concat(body.as_str()).concat("\"\n}\n")
}

/// The index of the first non-whitespace character at or after `i`.
pub open spec fn skip_ws_spec(s: Seq<char>, i: int) -> int
    decreases s.len() - i,
    when 0 <= i <= s.len()
{
    if i < s.len() && is_json_ws(s[i]) {
        skip_ws_spec(s, i + 1)
    } else {
        i
    }
}

/// `skip_ws_spec(s, i)` is the first index at or after `i` that does not
/// hold whitespace.
pub proof fn lemma_skip_ws_at(s: Seq<char>, i: int, j: int)
    requires
        0 <= i <= j <= s.len(),
        forall|k: int| i <= k < j ==> is_json_ws(s[k]),
        j == s.len() || !is_json_ws(s[j]),
    ensures
        skip_ws_spec(s, i) == j,
    decreases j - i,
{
    if i == j {
    } else {
        assert(is_json_ws(s[i]));
        lemma_skip_ws_at(s, i + 1, j);
    }
}

fn skip_json_ws(v: &Vec<char>, i: usize) -> (r: usize)
    requires
        i <= v@.len(),
    ensures
        r as int == skip_ws_spec(v@, i as int),
        i <= r <= v@.len(),
{
    let n = v.len();
    let mut j: usize = i;
    while j < n && is_json_ws_char(v[j])
        invariant
            i <= j <= n,
            n == v@.len(),
            forall|k: int| i <= k < j ==> is_json_ws(v@[k]),
        decreases n - j,
    {
        j = j + 1;
    }
    proof {
        lemma_skip_ws_at(v@, i as int, j as int);
    }
    j
}

/// Whether the `key@.len()` characters of `v` starting at `i` are
/// exactly `key`.
fn seq_match(v: &Vec<char>, i: usize, key: &Vec<char>) -> (r: bool)
    requires
        i + key@.len() <= v@.len(),
    ensures
        r == (v@.subrange(i as int, i as int + key@.len()) == key@),
{
    let n = v.len();
    let m = key.len();
    let mut k: usize = 0;
    while k < m && v[i + k] == key[k]
        invariant
            0 <= k <= m,
            m == key@.len(),
            n == v@.len(),
            i + m <= n,
            forall|j: int| 0 <= j < k ==> v@[i + j] == key@[j],
        decreases m - k,
    {
        k = k + 1;
    }
    if k == m {
        proof {
            assert(v@.subrange(i as int, i as int + key@.len()) =~= key@);
        }
        true
    } else {
        proof {
            assert(v@[i + k] != key@[k as int]);
            assert(v@.subrange(i as int, i as int + key@.len())[k as int] == v@[i + k]);
        }
        false
    }
}

/// The result of reading a JSON string body at `i` (just after the
/// opening quote): the decoded characters and the index just past the
/// closing quote, or `None` if no well-formed string starts there.
/// Accepted escapes: the short ones and `\u00XX` for control characters.
pub open spec fn parse_string_body_spec(s: Seq<char>, i: int) -> Option<(Seq<char>, int)>
    decreases s.len() - i,
    when 0 <= i <= s.len()
{
    if i >= s.len() {
        None
    } else {
        let c = s[i];
        if c == '"' {
            Some((Seq::empty(), i + 1))
        } else if c == '\\' {
            if i + 1 >= s.len() {
                None
            } else {
                let e = s[i + 1];
                if e == 'u' {
                    if s.len() - i < 6 {
                        None
                    } else if s[i + 2] == '0' && s[i + 3] == '0' && is_hex(s[i + 4]) && is_hex(
                        s[i + 5],
                    ) {
                        let hv = hex_val(s[i + 4]) * 16 + hex_val(s[i + 5]);
                        if hv < 0x20 {
                            match parse_string_body_spec(s, i + 6) {
                                None => None,
                                Some((rest, e2)) => Some((seq![(hv as u8) as char] + rest, e2)),
                            }
                        } else {
                            None
                        }
                    } else {
                        None
                    }
                } else {
                    match unescape_short(e) {
                        None => None,
                        Some(d) => match parse_string_body_spec(s, i + 2) {
                            None => None,
                            Some((rest, e2)) => Some((seq![d] + rest, e2)),
                        },
                    }
                }
            }
        } else if (c as u32) < 0x20 {
            None
        } else {
            match parse_string_body_spec(s, i + 1) {
                None => None,
                Some((rest, e2)) => Some((seq![c] + rest, e2)),
            }
        }
    }
}

/// The character a two-character JSON escape stands for.
pub open spec fn unescape_short(c: char) -> Option<char> {
    if c == '"' {
        Some('"')
    } else if c == '\\' {
        Some('\\')
    } else if c == '/' {
        Some('/')
    } else if c == 'b' {
        Some('\u{08}')
    } else if c == 'f' {
        Some('\u{0C}')
    } else if c == 'n' {
        Some('\n')
    } else if c == 'r' {
        Some('\r')
    } else if c == 't' {
        Some('\t')
    } else {
        None
    }
}

fn unescape_short_char(c: char) -> (r: Option<char>)
    ensures
        r == unescape_short(c),
{
    if c == '"' {
        Some('"')
    } else if c == '\\' {
        Some('\\')
    } else if c == '/' {
        Some('/')
    } else if c == 'b' {
        Some('\u{08}')
    } else if c == 'f' {
        Some('\u{0C}')
    } else if c == 'n' {
        Some('\n')
    } else if c == 'r' {
        Some('\r')
    } else if c == 't' {
        Some('\t')
    } else {
        None
    }
}

/// Reads a JSON string body starting at `i`, just after the opening
/// quote.
fn parse_string_body(v: &Vec<char>, i: usize) -> (r: Option<(Vec<char>, usize)>)
    requires
        i <= v@.len(),
    ensures
        (r is Some <==> parse_string_body_spec(v@, i as int) is Some),
        (r matches Some((w, e)) ==> parse_string_body_spec(v@, i as int) == Some((w@, e as int))
            && i < e <= v@.len()),
    decreases v@.len() - i,
{
    if i >= v.len() {
        return None;
    }
    let c = v[i];
    if c == '"' {
        let w: Vec<char> = Vec::new();
        proof {
            assert(w@ =~= Seq::<char>::empty());
        }
        Some((w, i + 1))
    } else if c == '\\' {
        if i + 1 >= v.len() {
            None
        } else {
            let e = v[i + 1];
            if e == 'u' {
                if v.len() - i < 6 {
                    None
                } else if v[i + 2] == '0' && v[i + 3] == '0' && is_hex_char(v[i + 4]) && is_hex_char(
                    v[i + 5],
                ) {
                    let hv: u32 = hex_val_char(v[i + 4]) * 16 + hex_val_char(v[i + 5]);
                    if hv < 0x20 {
                        match parse_string_body(v, i + 6) {
                            None => None,
                            Some((w, e2)) => {
                                let mut w = w;
                                w.insert(0, (hv as u8) as char);
                                proof {
                                    let ghost spec_r = parse_string_body_spec(v@, i as int);
                                    assert(w@ =~= spec_r->Some_0.0);
                                }
                                Some((w, e2))
                            },
                        }
                    } else {
                        None
                    }
                } else {
                    None
                }
            } else {
                match unescape_short_char(e) {
                    None => None,
                    Some(d) => match parse_string_body(v, i + 2) {
                        None => None,
                        Some((w, e2)) => {
                            let mut w = w;
                            w.insert(0, d);
                            proof {
                                let ghost spec_r = parse_string_body_spec(v@, i as int);
                                assert(w@ =~= spec_r->Some_0.0);
                            }
                            Some((w, e2))
                        },
                    },
                }
            }
        }
    } else if (c as u32) < 0x20 {
        None
    } else {
        match parse_string_body(v, i + 1) {
            None => None,
            Some((w, e2)) => {
                let mut w = w;
                w.insert(0, c);
                proof {
                    let ghost spec_r = parse_string_body_spec(v@, i as int);
                    assert(w@ =~= spec_r->Some_0.0);
                }
                Some((w, e2))
            },
        }
    }
}

/// Two characters with the same code point are the same character.
proof fn lemma_char_codepoint(a: char, b: char)
    requires
        a as u32 == b as u32,
    ensures
        a == b,
{
}

/// A hexadecimal digit written by `hex_char` reads back to its value.
pub proof fn lemma_hex_round(n: int)
    requires
        0 <= n < 16,
    ensures
        is_hex(hex_char(n)),
        hex_val(hex_char(n)) == n,
{
}

/// The escape of a string, followed by a closing quote, reads back to
/// exactly that string.
pub proof fn lemma_parse_escaped(u: Seq<char>, s: Seq<char>, i: int)
    requires
        0 <= i,
        i + escape_json(u).len() + 1 <= s.len(),
        forall|k: int| 0 <= k < escape_json(u).len() ==> s[i + k] == escape_json(u)[k],
        s[i + escape_json(u).len()] == '"',
    ensures
        parse_string_body_spec(s, i) == Some((u, i + escape_json(u).len() + 1)),
    decreases u.len(),
{
    if u.len() == 0 {
        assert(escape_json(u).len() == 0);
        assert(s[i] == '"');
        assert(parse_string_body_spec(s, i) == Some((Seq::<char>::empty(), i + 1)));
        assert(Seq::<char>::empty() =~= u);
    } else {
        let c = u[0];
        let rest = u.drop_first();
        assert(escape_json(u) == esc_char(c) + escape_json(rest));
        let ec = esc_char(c);
        let eb = escape_json(rest);
        assert(escape_json(u).len() == ec.len() + eb.len());
        assert(forall|k: int| 0 <= k < ec.len() ==> s[i + k] == ec[k]) by {
            assert(forall|k: int| 0 <= k < ec.len() ==> escape_json(u)[k] == ec[k]);
        }
        assert(forall|k: int| 0 <= k < eb.len() ==> s[i + ec.len() + k] == eb[k]) by {
            assert forall|k: int| 0 <= k < eb.len() implies s[i + ec.len() + k] == eb[k] by {
                assert(s[i + (ec.len() + k)] == escape_json(u)[ec.len() + k]);
                assert(escape_json(u)[ec.len() + k] == eb[k]);
            }
        }
        assert(s[i + ec.len() + eb.len()] == '"');
        lemma_parse_escaped(rest, s, i + ec.len() as int);
        let e2 = i + escape_json(u).len() + 1;
        if c == '"' {
            assert(s[i] == '\\' && s[i + 1] == '"');
            assert(seq!['"'] + rest =~= u);
        } else if c == '\\' {
            assert(s[i] == '\\' && s[i + 1] == '\\');
            assert(seq!['\\'] + rest =~= u);
        } else if c == '\u{08}' {
            assert(seq!['\u{08}'] + rest =~= u);
        } else if c == '\u{0C}' {
            assert(seq!['\u{0C}'] + rest =~= u);
        } else if c == '\n' {
            assert(seq!['\n'] + rest =~= u);
        } else if c == '\r' {
            assert(seq!['\r'] + rest =~= u);
        } else if c == '\t' {
            assert(seq!['\t'] + rest =~= u);
        } else if (c as u32) < 0x20 {
            let cu = c as u32 as int;
            lemma_hex_round(cu / 16);
            lemma_hex_round(cu % 16);
            assert(s[i] == '\\' && s[i + 1] == 'u' && s[i + 2] == '0' && s[i + 3] == '0');
            assert(s[i + 4] == hex_char(cu / 16) && s[i + 5] == hex_char(cu % 16));
            let hv = hex_val(s[i + 4]) * 16 + hex_val(s[i + 5]);
            assert(hv == cu);
            assert(((hv as u8) as char) as u32 == hv);
            assert(c as u32 == hv);
            lemma_char_codepoint((hv as u8) as char, c);
            assert((hv as u8) as char == c);
            assert(seq![c] + rest =~= u);
        } else {
            assert(s[i + 0] == escape_json(u)[0]);
            assert(escape_json(u)[0] == ec[0]);
            assert(s[i] == c);
            assert(seq![c] + rest =~= u);
        }
    }
}

/// Round-trip law: a rendered configuration document parses back to
/// exactly the value it was rendered from, whatever characters the
/// value holds.
pub proof fn lemma_config_round_trip(u: Seq<char>)
    ensures
        parse_config_spec(render_config_spec(u)) == Some(u),
{
    reveal_strlit("{\n  \"server_url\": \"");
    reveal_strlit("\"\n}\n");
    reveal_strlit("\"server_url\"");
    let p = "{\n  \"server_url\": \""@;
    let q = "\"\n}\n"@;
    let body = escape_json(u);
    let s = render_config_spec(u);
    let l = body.len() as int;
    assert(p.len() == 19);
    assert(q.len() == 4);
    assert(s.len() == 23 + l);
    assert(forall|k: int| 0 <= k < 19 ==> s[k] == p[k]);
    assert(forall|k: int| 0 <= k < l ==> s[19 + k] == body[k]) by {
        assert forall|k: int| 0 <= k < l implies s[19 + k] == body[k] by {
            assert(s[19 + k] == (p + body)[19 + k]);
        }
    }
    assert(forall|k: int| 0 <= k < 4 ==> s[19 + l + k] == q[k]);
    assert(skip_ws_spec(s, 0) == 0);
    assert(skip_ws_spec(s, 4) == 4);
    assert(skip_ws_spec(s, 3) == 4);
    assert(skip_ws_spec(s, 2) == 4);
    assert(skip_ws_spec(s, 1) == 4);
    assert(s.subrange(4, 16) =~= "\"server_url\""@);
    assert(skip_ws_spec(s, 16) == 16);
    assert(skip_ws_spec(s, 18) == 18);
    assert(skip_ws_spec(s, 17) == 18);
    assert(s[19 + l] == '"');
    lemma_parse_escaped(u, s, 19);
    assert(parse_string_body_spec(s, 19) == Some((u, 20 + l)));
    assert(skip_ws_spec(s, 21 + l) == 21 + l);
    assert(skip_ws_spec(s, 20 + l) == 21 + l);
    assert(s[21 + l] == '}');
    assert(skip_ws_spec(s, 23 + l) == 23 + l);
    assert(skip_ws_spec(s, 22 + l) == 23 + l);
}

/// The value a configuration document holds: `Some(server_url)` when the
/// text is a JSON object with exactly the `server_url` field holding a
/// string, `None` otherwise.
pub open spec fn parse_config_spec(s: Seq<char>) -> Option<Seq<char>> {
    let i0 = skip_ws_spec(s, 0);
    if !(i0 < s.len() && s[i0] == '{') {
        None
    } else {
        let i1 = skip_ws_spec(s, i0 + 1);
        if !(i1 + 12 <= s.len() && s.subrange(i1, i1 + 12) == "\"server_url\""@) {
            None
        } else {
            let i2 = skip_ws_spec(s, i1 + 12);
            if !(i2 < s.len() && s[i2] == ':') {
                None
            } else {
                let i3 = skip_ws_spec(s, i2 + 1);
                if !(i3 < s.len() && s[i3] == '"') {
                    None
                } else {
                    match parse_string_body_spec(s, i3 + 1) {
                        None => None,
                        Some((val, e)) => {
                            let i4 = skip_ws_spec(s, e);
                            if !(i4 < s.len() && s[i4] == '}') {
                                None
                            } else {
                                let i5 = skip_ws_spec(s, i4 + 1);
                                if i5 == s.len() {
                                    Some(val)
                                } else {
                                    None
                                }
                            }
                        },
                    }
                }
            }
        }
    }
}

/// Reads the configuration document and returns the `server_url` value.
pub fn parse_config_text(text: &str) -> (r: Option<String>)
    ensures
        (r is Some <==> parse_config_spec(text@) is Some),
        (r matches Some(u) ==> parse_config_spec(text@) == Some(u@)),
{
    let v = str_chars(text);
    let n = v.len();
    let i0 = skip_json_ws(&v, 0);
    if !(i0 < n && v[i0] == '{') {
        return None;
    }
    let i1 = skip_json_ws(&v, i0 + 1);
    let key = str_chars("\"server_url\"");
    proof {
        reveal_strlit("\"server_url\"");
    }
    if !(n - i1 >= 12 && seq_match(&v, i1, &key)) {
        return None;
    }
    let i2 = skip_json_ws(&v, i1 + 12);
    if !(i2 < n && v[i2] == ':') {
        return None;
    }
    let i3 = skip_json_ws(&v, i2 + 1);
    if !(i3 < n && v[i3] == '"') {
        return None;
    }
    match parse_string_body(&v, i3 + 1) {
        None => None,
        Some((w, e)) => {
            let i4 = skip_json_ws(&v, e);
            if !(i4 < n && v[i4] == '}') {
                return None;
            }
            let i5 = skip_json_ws(&v, i4 + 1);
            if i5 == n {
                Some(chars_to_string(&w))
            } else {
                None
            }
        },
    }
}

} // verus!
