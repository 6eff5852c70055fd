//! Rendering structured values as JSON text: string escaping and a
//! pretty printer with two-space indentation.

use vstd::prelude::*;
use crate::jsonval::JsonValue;
use crate::text::{i64_to_string, int_dec_of, push_char};
use vstd::string::StringExecFns;

verus! {

/// The lower-case hexadecimal digit for a value between 0 and 15.
pub open spec fn hex_digit(d: int) -> char {
    if d < 10 {
        ((d + 48) as u8) as char
    } else {
        ((d + 87) as u8) as char
    }
}

/// How one character appears inside a JSON string literal: quote and
/// backslash get a backslash, the named control characters their short
/// escapes, other control characters a `\u00..` escape, everything else
/// stands as itself.
pub open spec fn esc_char(c: char) -> Seq<char> {
    if c == '"' {
        seq!['\\', '"']
    } else if c == '\\' {
        seq!['\\', '\\']
    } else if c == '\u{08}' {
        seq!['\\', 'b']
    } else if c == '\u{0c}' {
        seq!['\\', 'f']
    } else if c == '\n' {
        seq!['\\', 'n']
    } else if c == '\r' {
        seq!['\\', 'r']
    } else if c == '\t' {
        seq!['\\', 't']
    } else if (c as u32) < 32 {
        seq![
            '\\',
            'u',
            '0',
            '0',
            hex_digit(((c as u32) / 16) as int),
            hex_digit(((c as u32) % 16) as int),
        ]
    } else {
        seq![c]
    }
}

/// The body of a JSON string literal for the given characters.
pub open spec fn esc_str(s: Seq<char>) -> Seq<char>
    decreases s.len(),
{
    if s.len() == 0 {
        Seq::empty()
    } else {
        esc_char(s[0]) + esc_str(s.skip(1))
    }
}

/// A JSON string literal: quotes around the escaped characters.
pub open spec fn render_string(s: Seq<char>) -> Seq<char> {
    seq!['"'] + esc_str(s) + seq!['"']
}

/// `n` spaces.
pub open spec fn spaces(n: nat) -> Seq<char>
    decreases n,
{
    if n == 0 {
        Seq::empty()
    } else {
        seq![' '] + spaces((n - 1) as nat)
    }
}

/// The pretty JSON text of a value, with `pad` the indentation prefix of
/// the current level: scalars on one line, arrays and objects with one
/// element per line, two more spaces per level, empty ones as `[]` and
/// `{}`.
pub open spec fn spec_render_pretty(v: JsonValue, pad: Seq<char>) -> Seq<char>
    decreases v, 1int, 0int,
{
    match v {
        JsonValue::Null => "null"@,
        JsonValue::Bool(b) => if b {
            "true"@
        } else {
            "false"@
        },
        JsonValue::Int(n) => int_dec_of(n as int),
        JsonValue::Dec(s) => s@,
        JsonValue::Str(s) => render_string(s@),
        JsonValue::Arr(items) => if items@.len() == 0 {
            "[]"@
        } else {
            "["@ + spec_render_arr(items, 0, pad + "  "@) + "\n"@ + pad + "]"@
        },
        JsonValue::Obj(fields) => if fields@.len() == 0 {
            "{}"@
        } else {
            "{"@ + spec_render_obj(fields, 0, pad + "  "@) + "\n"@ + pad + "}"@
        },
    }
}

/// The lines of a non-empty array body from element `i` on, each line a
/// newline, the pad and the element, with a comma after every element but
/// the last.
pub open spec fn spec_render_arr(items: Vec<JsonValue>, i: int, pad: Seq<char>) -> Seq<char>
    decreases items, 0int, items@.len() - i,
{
    if i < 0 || i >= items@.len() {
        Seq::empty()
    } else {
        let line = "\n"@ + pad + spec_render_pretty(items@[i], pad);
        if i == items@.len() - 1 {
            line
        } else {
            line + ","@ + spec_render_arr(items, i + 1, pad)
        }
    }
}

/// The lines of a non-empty object body from field `i` on, each line a
/// newline, the pad, the quoted key, a colon and the value, with a comma
/// after every field but the last.
pub open spec fn spec_render_obj(fields: Vec<(String, JsonValue)>, i: int, pad: Seq<char>) -> Seq<
    char,
>
    decreases fields, 0int, fields@.len() - i,
{
    if i < 0 || i >= fields@.len() {
        Seq::empty()
    } else {
        let line = "\n"@ + pad + render_string(fields@[i].0@) + ": "@
            + spec_render_pretty(fields@[i].1, pad);
        if i == fields@.len() - 1 {
            line
        } else {
            line + ","@ + spec_render_obj(fields, i + 1, pad)
        }
    }
}

/// Appends `n` spaces to a string.
pub fn append_spaces(out: &mut String, n: usize)
    ensures
        final(out)@ == old(out)@ + spaces(n as nat),
{
    let mut k: usize = 0;
    while k < n
        invariant
            k <= n,
            out@ == old(out)@ + spaces(k as nat),
        decreases n - k,
    {
        push_char(out, ' ');
        proof {
            lemma_spaces_push(k as nat);
        }
        k = k + 1;
    }
}

/// `spaces(n + 1)` is `spaces(n)` followed by one more space.
proof fn lemma_spaces_push(n: nat)
    ensures
        spaces(n).push(' ') == spaces(n + 1),
    decreases n,
{
    if n == 0 {
        assert(spaces(0).push(' ') =~= spaces(1));
    } else {
        lemma_spaces_push((n - 1) as nat);
        assert(spaces(n).push(' ') =~= seq![' '] + spaces((n - 1) as nat).push(' '));
        assert(seq![' '] + spaces(n) =~= spaces(n + 1));
    }
}

fn hex_digit_char(d: u32) -> (c: char)
    requires
        d < 16,
    ensures
        c == hex_digit(d as int),
{
    if d < 10 {
        ((d as u8) + 48) as char
    } else {
        ((d as u8) + 87) as char
    }
}

/// Appends the escaped form of the characters of `s` to `out`.
pub fn append_escaped(out: &mut String, s: &str)
    ensures
        final(out)@ == old(out)@ + esc_str(s@),
{
    let chars = crate::text::str_to_chars(s);
    let mut i: usize = 0;
    proof {
        assert(s@.skip(0) =~= s@);
        assert(old(out)@ + Seq::<char>::empty() =~= old(out)@);
    }
    while i < chars.len()
        invariant
            i <= chars@.len(),
            chars@ == s@,
            old(out)@ + esc_str(s@) == out@ + esc_str(s@.skip(i as int)),
        decreases chars@.len() - i,
    {
        let ghost rest = s@.skip(i as int);
        proof {
            assert(rest[0] == s@[i as int]);
            assert(rest.skip(1) =~= s@.skip(i as int + 1));
        }
        let ghost o0 = out@;
        let c = chars[i];
        if c == '"' {
            push_char(out, '\\');
            push_char(out, '"');
        } else if c == '\\' {
            push_char(out, '\\');
            push_char(out, '\\');
        } else if c == '\u{08}' {
            push_char(out, '\\');
            push_char(out, 'b');
        } else if c == '\u{0c}' {
            push_char(out, '\\');
            push_char(out, 'f');
        } else if c == '\n' {
            push_char(out, '\\');
            push_char(out, 'n');
        } else if c == '\r' {
            push_char(out, '\\');
            push_char(out, 'r');
        } else if c == '\t' {
            push_char(out, '\\');
            push_char(out, 't');
        } else if (c as u32) < 32 {
            push_char(out, '\\');
            push_char(out, 'u');
            push_char(out, '0');
            push_char(out, '0');
            push_char(out, hex_digit_char((c as u32) / 16));
            push_char(out, hex_digit_char((c as u32) % 16));
        } else {
            push_char(out, c);
        }
        proof {
            assert(out@ =~= o0 + esc_char(rest[0]));
            assert(old(out)@ + esc_str(s@) =~= out@ + esc_str(s@.skip(i as int + 1))) by {
                assert(esc_str(rest) == esc_char(rest[0]) + esc_str(rest.skip(1)));
                assert(o0 + (esc_char(rest[0]) + esc_str(rest.skip(1))) =~= (o0 + esc_char(
                    rest[0],
                )) + esc_str(rest.skip(1)));
            }
        }
        i = i + 1;
    }
    proof {
        assert(esc_str(s@.skip(s@.len() as int)) =~= Seq::<char>::empty());
        assert(out@ + Seq::<char>::empty() =~= out@);
    }
}

/// Appends the JSON string literal for `s` to `out`.
pub fn append_json_string(out: &mut String, s: &str)
    ensures
        final(out)@ == old(out)@ + render_string(s@),
{
    push_char(out, '"');
    append_escaped(out, s);
    push_char(out, '"');
    proof {
        assert(old(out)@ + render_string(s@) =~= old(out)@.push('"') + esc_str(s@) + seq!['"']);
        assert((old(out)@.push('"') + esc_str(s@)).push('"') =~= old(out)@.push('"') + esc_str(
            s@,
        ) + seq!['"']);
    }
}

/// Appends the pretty JSON text of a value to `out`, with `pad` the
/// indentation prefix of the current level.
pub fn append_pretty(out: &mut String, v: &JsonValue, pad: &str)
    ensures
        final(out)@ == old(out)@ + spec_render_pretty(*v, pad@),
    decreases *v, 1int, 0int,
{
    match v {
        JsonValue::Null => {
            out.append("null");
        },
        JsonValue::Bool(b) => {
            if *b {
                out.append("true");
            } else {
                out.append("false");
            }
        },
        JsonValue::Int(n) => {
            let t = i64_to_string(*n);
            out.append(t.as_str());
        },
        JsonValue::Dec(s) => {
            out.append(s.as_str());
        },
        JsonValue::Str(s) => {
            append_json_string(out, s.as_str());
        },
        JsonValue::Arr(items) => {
            if items.len() == 0 {
                out.append("[]");
            } else {
                let mut inner = String::new();
                inner.append(pad);
                inner.append("  ");
                out.append("[");
                append_arr_items(out, items, 0, inner.as_str());
                out.append("\n");
                out.append(pad);
                out.append("]");
                proof {
                    assert(inner@ =~= pad@ + "  "@);
                    assert(old(out)@ + spec_render_pretty(*v, pad@) =~= old(out)@ + "["@
                        + spec_render_arr(*items, 0, pad@ + "  "@) + "\n"@ + pad@ + "]"@);
                }
            }
        },
        JsonValue::Obj(fields) => {
            if fields.len() == 0 {
                out.append("{}");
            } else {
                let mut inner = String::new();
                inner.append(pad);
                inner.append("  ");
                out.append("{");
                append_obj_fields(out, fields, 0, inner.as_str());
                out.append("\n");
                out.append(pad);
                out.append("}");
                proof {
                    assert(inner@ =~= pad@ + "  "@);
                    assert(old(out)@ + spec_render_pretty(*v, pad@) =~= old(out)@ + "{"@
                        + spec_render_obj(*fields, 0, pad@ + "  "@) + "\n"@ + pad@ + "}"@);
                }
            }
        },
    }
}

/// Appends the body lines of a non-empty array from element `i` on.
fn append_arr_items(out: &mut String, items: &Vec<JsonValue>, i: usize, pad: &str)
    requires
        i < items@.len(),
    ensures
        final(out)@ == old(out)@ + spec_render_arr(*items, i as int, pad@),
    decreases *items, 0int, items@.len() - i,
{
    out.append("\n");
    out.append(pad);
    append_pretty(out, &items[i], pad);
    if i < items.len() - 1 {
        out.append(",");
        append_arr_items(out, items, i + 1, pad);
        proof {
            assert(old(out)@ + spec_render_arr(*items, i as int, pad@) =~= old(out)@ + (
            "\n"@ + pad@ + spec_render_pretty(items@[i as int], pad@)) + ","@
                + spec_render_arr(*items, i as int + 1, pad@));
        }
    } else {
        proof {
            assert(old(out)@ + spec_render_arr(*items, i as int, pad@) =~= old(out)@ + (
            "\n"@ + pad@ + spec_render_pretty(items@[i as int], pad@)));
        }
    }
}

/// Appends the body lines of a non-empty object from field `i` on.
fn append_obj_fields(out: &mut String, fields: &Vec<(String, JsonValue)>, i: usize, pad: &str)
    requires
        i < fields@.len(),
    ensures
        final(out)@ == old(out)@ + spec_render_obj(*fields, i as int, pad@),
    decreases *fields, 0int, fields@.len() - i,
{
    out.append("\n");
    out.append(pad);
    append_json_string(out, fields[i].0.as_str());
    out.append(": ");
    append_pretty(out, &fields[i].1, pad);
    if i < fields.len() - 1 {
        out.append(",");
        append_obj_fields(out, fields, i + 1, pad);
        proof {
            assert(old(out)@ + spec_render_obj(*fields, i as int, pad@) =~= old(out)@ + (
            "\n"@ + pad@ + render_string(fields@[i as int].0@) + ": "@
                + spec_render_pretty(fields@[i as int].1, pad@)) + ","@ + spec_render_obj(
                *fields,
                i as int + 1,
                pad@,
            ));
        }
    } else {
        proof {
            assert(old(out)@ + spec_render_obj(*fields, i as int, pad@) =~= old(out)@ + (
            "\n"@ + pad@ + render_string(fields@[i as int].0@) + ": "@
                + spec_render_pretty(fields@[i as int].1, pad@)));
        }
    }
}

/// The pretty JSON text of a value, starting with no indentation.
pub fn render_pretty(v: &JsonValue) -> (r: String)
    ensures
        r@ == spec_render_pretty(*v, Seq::empty()),
{
    let mut out = String::new();
    append_pretty(&mut out, v, "");
    proof {
        reveal_strlit("");
        assert(""@ =~= Seq::<char>::empty());
        assert(Seq::<char>::empty() + spec_render_pretty(*v, Seq::empty()) =~= spec_render_pretty(
            *v,
            Seq::empty(),
        ));
    }
    out
}

} // verus!
