//! A mathematical model of JSON documents, trusted access to `serde_json`'s
//! parser, and verified JSON string escaping.
//!
//! Parsing is done by `serde_json`; this module gives the parsed document a
//! ghost shape ([`JsonRep`]) so that verified code can read it field by field
//! through a small set of trusted accessors, each of which says exactly what
//! it returns in terms of that shape.

use vstd::prelude::*;

verus! {

/// The shape of a JSON document.
///
/// `Int(i)` stands for exactly those numbers that `serde_json` reports as an
/// `i64` (integers within the `i64` range); every other number — a float, or
/// an integer beyond `i64::MAX` — is `OtherNum`. Objects are maps from key to
/// value; on duplicate keys `serde_json` keeps the last binding.
pub enum JsonRep {
    Null,
    Bool(bool),
    Int(int),
    OtherNum,
    Str(Seq<char>),
    Arr(Seq<JsonRep>),
    Obj(Map<Seq<char>, JsonRep>),
}

impl JsonRep {
    /// The map of an object; the empty map on any other shape.
    pub open spec fn obj_map(self) -> Map<Seq<char>, JsonRep> {
        match self {
            JsonRep::Obj(m) => m,
            _ => Map::empty(),
        }
    }

    /// The elements of an array; the empty sequence on any other shape.
    pub open spec fn arr_elems(self) -> Seq<JsonRep> {
        match self {
            JsonRep::Arr(s) => s,
            _ => Seq::empty(),
        }
    }

    /// The characters of a string; the empty sequence on any other shape.
    pub open spec fn str_chars(self) -> Seq<char> {
        match self {
            JsonRep::Str(s) => s,
            _ => Seq::empty(),
        }
    }

    /// The value of an integer number; zero on any other shape.
    pub open spec fn int_val(self) -> int {
        match self {
            JsonRep::Int(i) => i,
            _ => 0,
        }
    }

    /// Whether this is an object that binds the key.
    pub open spec fn has(self, key: Seq<char>) -> bool {
        self is Obj && self.obj_map().contains_key(key)
    }

    /// The value an object binds to the key.
    pub open spec fn at(self, key: Seq<char>) -> JsonRep {
        self.obj_map()[key]
    }
}

#[verifier::external_type_specification]
#[verifier::external_body]
pub struct ExValue(serde_json::Value);

/// The shape of a parsed `serde_json::Value`.
pub uninterp spec fn json_view(v: serde_json::Value) -> JsonRep;

/// The document that parsing a text yields: `Some` exactly on well-formed
/// JSON, and then the shape of the parsed value.
pub uninterp spec fn json_doc(s: Seq<char>) -> Option<JsonRep>;

/// The text of the parse error that `serde_json` reports for a text that is
/// not well-formed JSON.
pub uninterp spec fn json_err(s: Seq<char>) -> Seq<char>;

/// Relies on `serde_json::from_str::<Value>`: `Ok` exactly when the text is
/// well-formed JSON, and the result is a function of the text alone; on
/// failure the error's own text is handed back.
#[verifier::external_body]
pub(crate) fn parse_json(s: &str) -> (r: Result<serde_json::Value, String>)
    ensures
        r is Ok <==> json_doc(s@) is Some,
        r matches Ok(v) ==> json_doc(s@) matches Some(j) && json_view(v) == j,
        r matches Err(m) ==> m@ == json_err(s@),
{
    match serde_json::from_str::<serde_json::Value>(s) {
        Ok(v) => Ok(v),
        Err(e) => Err(e.to_string()),
    }
}

/// Relies on `serde_json::Value::get` with a string index: `Some` exactly on
/// an object that has the key, and then the value bound to it.
#[verifier::external_body]
pub(crate) fn get_field<'a>(v: &'a serde_json::Value, key: &str) -> (r: Option<
    &'a serde_json::Value,
>)
    ensures
        r is Some <==> json_view(*v).has(key@),
        r matches Some(x) ==> json_view(*v).has(key@) && json_view(*x) == json_view(*v).at(key@),
{
    v.get(key)
}

/// Relies on `serde_json::Value::as_str`: `Some` exactly on a string value,
/// and then its characters.
#[verifier::external_body]
pub(crate) fn get_str(v: &serde_json::Value) -> (r: Option<String>)
    ensures
        r is Some <==> json_view(*v) is Str,
        r matches Some(s) ==> s@ == json_view(*v).str_chars(),
{
    v.as_str().map(|s| s.to_string())
}

/// Relies on `serde_json::Value::as_i64`: `Some` exactly on an integer number
/// within the `i64` range, and then its value.
#[verifier::external_body]
pub(crate) fn get_i64(v: &serde_json::Value) -> (r: Option<i64>)
    ensures
        r is Some <==> json_view(*v) is Int,
        r matches Some(n) ==> n as int == json_view(*v).int_val(),
{
    v.as_i64()
}

/// Relies on `serde_json::Value::as_array`: `Some` exactly on an array value,
/// and then its elements in order.
#[verifier::external_body]
pub(crate) fn get_arr<'a>(v: &'a serde_json::Value) -> (r: Option<&'a Vec<serde_json::Value>>)
    ensures
        r is Some <==> json_view(*v) is Arr,
        r matches Some(a) ==> a@.len() == json_view(*v).arr_elems().len() && (forall|i: int|
            0 <= i < a@.len() ==> #[trigger] json_view(a@[i]) == json_view(*v).arr_elems()[i]),
{
    v.as_array()
}

/// Relies on `serde_json::Value::is_null`: true exactly on the null value.
#[verifier::external_body]
pub(crate) fn is_null(v: &serde_json::Value) -> (r: bool)
    ensures
        r == (json_view(*v) is Null),
{
    v.is_null()
}

/// The lower-case hexadecimal digit for a value below 16.
pub open spec fn hexdig(n: int) -> char {
    if n == 0 {
        '0'
    } else if n == 1 {
        '1'
    } else if n == 2 {
        '2'
    } else if n == 3 {
        '3'
    } else if n == 4 {
        '4'
    } else if n == 5 {
        '5'
    } else if n == 6 {
        '6'
    } else if n == 7 {
        '7'
    } else if n == 8 {
        '8'
    } else if n == 9 {
        '9'
    } else if n == 10 {
        'a'
    } else if n == 11 {
        'b'
    } else if n == 12 {
        'c'
    } else if n == 13 {
        'd'
    } else if n == 14 {
        'e'
    } else {
        'f'
    }
}

/// How one character appears inside a JSON string literal: quotes and
/// backslashes get a backslash, the five control characters with short forms
/// get those, every other control character becomes a `\u00..` sequence, and
/// everything else stands as itself.
pub open spec fn esc_char(c: char) -> Seq<char> {
    if c == '"' {
        seq!['\\', '"']
    } else if c == '\\' {
        seq!['\\', '\\']
    } else if c == '\u{8}' {
        seq!['\\', 'b']
    } else if c == '\t' {
        seq!['\\', 't']
    } else if c == '\n' {
        seq!['\\', 'n']
    } else if c == '\u{c}' {
        seq!['\\', 'f']
    } else if c == '\r' {
        seq!['\\', 'r']
    } else if (c as u32) < 32 {
        seq!['\\', 'u', '0', '0', hexdig((c as u32) as int / 16), hexdig((c as u32) as int % 16)]
    } else {
        seq![c]
    }
}

/// A whole character sequence escaped for use inside a JSON string literal.
pub open spec fn esc(s: Seq<char>) -> Seq<char>
    decreases s.len(),
{
    if s.len() == 0 {
        Seq::empty()
    } else {
        esc(s.drop_last()) + esc_char(s.last())
    }
}

proof fn lemma_esc_step(s: Seq<char>, i: int)
    requires
        0 <= i < s.len(),
    ensures
        esc(s.take(i + 1)) == esc(s.take(i)) + esc_char(s[i]),
{
    assert(s.take(i + 1).drop_last() =~= s.take(i));
    assert(s.take(i + 1).last() == s[i]);
}

/// Relies on `String::push`: appends one character.
#[verifier::external_body]
fn push_char(out: &mut String, c: char)
    ensures
        final(out)@ == old(out)@.push(c),
{
    out.push(c);
}

/// The lower-case hexadecimal digit for a value below 16, as text.
fn hex_str(d: u32) -> (r: &'static str)
    requires
        d < 16,
    ensures
        r@ == seq![hexdig(d as int)],
{
    let r: &'static str = match d {
        0 => "0",
        1 => "1",
        2 => "2",
        3 => "3",
        4 => "4",
        5 => "5",
        6 => "6",
        7 => "7",
        8 => "8",
        9 => "9",
        10 => "a",
        11 => "b",
        12 => "c",
        13 => "d",
        14 => "e",
        _ => "f",
    };
    proof {
        reveal_strlit("0");
        reveal_strlit("1");
        reveal_strlit("2");
        reveal_strlit("3");
        reveal_strlit("4");
        reveal_strlit("5");
        reveal_strlit("6");
        reveal_strlit("7");
        reveal_strlit("8");
        reveal_strlit("9");
        reveal_strlit("a");
        reveal_strlit("b");
        reveal_strlit("c");
        reveal_strlit("d");
        reveal_strlit("e");
        reveal_strlit("f");
    }
    r
}

/// Appends `s`, escaped for a JSON string literal, to `out`.
pub(crate) fn append_escaped(out: &mut String, s: &str)
    ensures
        final(out)@ == old(out)@ + esc(s@),
{
    let n = s.unicode_len();
    let mut i: usize = 0;
    proof {
        assert(s@.take(0) =~= Seq::<char>::empty());
        assert(out@ =~= old(out)@ + esc(s@.take(0)));
    }
    while i < n
        invariant
            n == s@.len(),
            i <= n,
            out@ == old(out)@ + esc(s@.take(i as int)),
        decreases n - i,
    {
        let c = s.get_char(i);
        proof {
            lemma_esc_step(s@, i as int);
        }
        if c == '"' {
            out.append("\\\"");
            proof {
                reveal_strlit("\\\"");
                assert("\\\""@ =~= esc_char(c));
            }
        } else if c == '\\' {
            out.append("\\\\");
            proof {
                reveal_strlit("\\\\");
                assert("\\\\"@ =~= esc_char(c));
            }
        } else if c == '\u{8}' {
            out.append("\\b");
            proof {
                reveal_strlit("\\b");
                assert("\\b"@ =~= esc_char(c));
            }
        } else if c == '\t' {
            out.append("\\t");
            proof {
                reveal_strlit("\\t");
                assert("\\t"@ =~= esc_char(c));
            }
        } else if c == '\n' {
            out.append("\\n");
            proof {
                reveal_strlit("\\n");
                assert("\\n"@ =~= esc_char(c));
            }
        } else if c == '\u{c}' {
            out.append("\\f");
            proof {
                reveal_strlit("\\f");
                assert("\\f"@ =~= esc_char(c));
            }
        } else if c == '\r' {
            out.append("\\r");
            proof {
                reveal_strlit("\\r");
                assert("\\r"@ =~= esc_char(c));
            }
        } else if (c as u32) < 32 {
            let v: u32 = c as u32;
            out.append("\\u00");
            let hi = hex_str(v / 16);
            out.append(hi);
            let lo = hex_str(v % 16);
            out.append(lo);
            proof {
                reveal_strlit("\\u00");
                assert("\\u00"@ + seq![hexdig(v as int / 16)] + seq![hexdig(v as int % 16)]
                    =~= esc_char(c));
            }
        } else {
            push_char(out, c);
            proof {
                assert(out@ =~= old(out)@ + esc(s@.take(i as int)) + esc_char(c));
            }
        }
        proof {
            assert(out@ =~= old(out)@ + esc(s@.take(i as int + 1)));
        }
        i = i + 1;
    }
    proof {
        assert(s@.take(n as int) =~= s@);
    }
}

} // verus!
