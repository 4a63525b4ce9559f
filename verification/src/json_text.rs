//! The JSON text of a [`Json`] value, as handed to the template engine.
use vstd::prelude::*;
use crate::json::{json_entries, json_val, json_vals, lemma_json_entries, lemma_json_vals, Json, JsonVal};
use crate::text::{chars_of, decimal, digit_char, push_decimal, string_push};

verus! {

/// The lowercase hexadecimal digit for `d` in `0..16`.
pub open spec fn hex_digit(d: int) -> char {
    if d < 10 {
        digit_char(d)
    } else if d == 10 {
        'a'
    } else if d == 11 {
        'b'
    } else if d == 12 {
        'c'
    } else if d == 13 {
        'd'
    } else if d == 14 {
        'e'
    } else {
        'f'
    }
}

/// One character inside a JSON string: `"` and `\` behind a backslash,
/// control characters as `\u00XX`, every other character as it is.
pub open spec fn json_char(c: char) -> Seq<char> {
    if c == '"' {
        seq!['\\', '"']
    } else if c == '\\' {
        seq!['\\', '\\']
    } else if (c as u32) < 0x20 {
        seq!['\\', 'u', '0', '0', hex_digit(((c as u32) / 16) as int), hex_digit(((c as u32) % 16) as int)]
    } else {
        seq![c]
    }
}

/// The characters of a JSON string, without its quotes.
pub open spec fn json_chars(s: Seq<char>) -> Seq<char>
    decreases s.len(),
{
    if s.len() == 0 {
        Seq::empty()
    } else {
        json_chars(s.drop_last()) + json_char(s.last())
    }
}

/// A JSON string.
pub open spec fn json_quoted(s: Seq<char>) -> Seq<char> {
    seq!['"'] + json_chars(s) + seq!['"']
}

/// The JSON text of a value: objects keep their entries in order, and a
/// number without an `i64` value is written `null`.
pub open spec fn json_text(v: JsonVal) -> Seq<char>
    decreases v, 1int,
{
    match v {
        JsonVal::Null => "null"@,
        JsonVal::Bool(b) => if b {
            "true"@
        } else {
            "false"@
        },
        JsonVal::Number(n) => match n {
            Some(k) => decimal(k as int),
            None => "null"@,
        },
        JsonVal::Str(s) => json_quoted(s),
        JsonVal::Array(items) => "["@ + json_items_text(items) + "]"@,
        JsonVal::Object(es) => "{"@ + json_entries_text(es) + "}"@,
    }
}

/// The items of an array, separated by commas.
pub open spec fn json_items_text(s: Seq<JsonVal>) -> Seq<char>
    decreases s, 0int,
{
    if s.len() == 0 {
        Seq::empty()
    } else if s.len() == 1 {
        json_text(s[0])
    } else {
        json_items_text(s.subrange(0, s.len() - 1)) + ","@ + json_text(s[s.len() - 1])
    }
}

/// The entries of an object, `"key":value`, separated by commas.
pub open spec fn json_entries_text(es: Seq<(Seq<char>, JsonVal)>) -> Seq<char>
    decreases es, 0int,
{
    if es.len() == 0 {
        Seq::empty()
    } else if es.len() == 1 {
        json_quoted(es[0].0) + ":"@ + json_text(es[0].1)
    } else {
        json_entries_text(es.subrange(0, es.len() - 1)) + ","@ + json_quoted(es[es.len() - 1].0) + ":"@
            + json_text(es[es.len() - 1].1)
    }
}

fn hex_char(d: u32) -> (c: char)
    requires
        d < 16,
    ensures
        c == hex_digit(d as int),
{
    if d == 0 { '0' }
    else if d == 1 { '1' }
    else if d == 2 { '2' }
    else if d == 3 { '3' }
    else if d == 4 { '4' }
    else if d == 5 { '5' }
    else if d == 6 { '6' }
    else if d == 7 { '7' }
    else if d == 8 { '8' }
    else if d == 9 { '9' }
    else if d == 10 { 'a' }
    else if d == 11 { 'b' }
    else if d == 12 { 'c' }
    else if d == 13 { 'd' }
    else if d == 14 { 'e' }
    else { 'f' }
}

fn push_json_char(out: &mut String, c: char)
    ensures
        final(out)@ == old(out)@ + json_char(c),
{
    let ghost start = out@;
    if c == '"' {
        string_push(out, '\\');
        string_push(out, '"');
    } else if c == '\\' {
        string_push(out, '\\');
        string_push(out, '\\');
    } else if (c as u32) < 0x20 {
        let n = c as u32;
        string_push(out, '\\');
        string_push(out, 'u');
        string_push(out, '0');
        string_push(out, '0');
        string_push(out, hex_char(n / 16));
        string_push(out, hex_char(n % 16));
    } else {
        string_push(out, c);
    }
    assert(out@ =~= start + json_char(c));
}

/// Appends a JSON string holding `s`.
pub fn push_json_string(out: &mut String, s: &str)
    ensures
        final(out)@ == old(out)@ + json_quoted(s@),
{
    let ghost start = out@;
    let cs = chars_of(s);
    string_push(out, '"');
    assert(cs@.take(0) =~= Seq::<char>::empty());
    for i in 0..cs.len()
        invariant
            cs@ == s@,
            out@ == start + seq!['"'] + json_chars(cs@.take(i as int)),
    {
        assert(cs@.take(i + 1).drop_last() =~= cs@.take(i as int));
        push_json_char(out, cs[i]);
    }
    assert(cs@.take(cs.len() as int) =~= cs@);
    string_push(out, '"');
    assert(out@ =~= start + json_quoted(s@));
}

/// Appends the JSON text of a value.
#[verifier::loop_isolation(false)]
#[verifier::rlimit(80)]
pub fn push_json(out: &mut String, j: &Json)
    ensures
        final(out)@ == old(out)@ + json_text(j@),
    decreases j,
{
    let ghost start = out@;
    match j {
        Json::Null => out.append("null"),
        Json::Bool(b) => if *b {
            out.append("true")
        } else {
            out.append("false")
        },
        Json::Number(n) => match n {
            Some(k) => push_decimal(out, *k),
            None => out.append("null"),
        },
        Json::Str(s) => push_json_string(out, s.as_str()),
        Json::Array(v) => {
            let ghost items = json_vals(v@);
            proof {
                lemma_json_vals(v@);
            }
            out.append("[");
            let ghost open = out@;
            for i in 0..v.len()
                invariant
                    items == json_vals(v@),
                    items.len() == v@.len(),
                    forall|k: int| 0 <= k < v@.len() ==> #[trigger] items[k] == v@[k]@,
                    out@ == open + json_items_text(items.take(i as int)),
            {
                proof {
                    assert(decreases_to!(*j => v@[i as int]));
                    let t = items.take(i + 1);
                    assert(t.subrange(0, t.len() - 1) =~= items.take(i as int));
                    assert(t[t.len() - 1] == items[i as int]);
                    if i == 0 {
                        assert(t[0] == items[0]);
                    }
                }
                if i > 0 {
                    out.append(",");
                }
                push_json(out, &v[i]);
            }
            assert(items.take(v.len() as int) =~= items);
            out.append("]");
        },
        Json::Object(es) => {
            let ghost ves = json_entries(es@);
            proof {
                lemma_json_entries(es@);
            }
            out.append("{");
            let ghost open = out@;
            for i in 0..es.len()
                invariant
                    ves == json_entries(es@),
                    ves.len() == es@.len(),
                    forall|k: int| 0 <= k < es@.len() ==> #[trigger] ves[k] == (es@[k].0@, es@[k].1@),
                    out@ == open + json_entries_text(ves.take(i as int)),
            {
                proof {
                    assert(decreases_to!(*j => es@[i as int]));
                    assert(decreases_to!(es@[i as int] => es@[i as int].1));
                    let t = ves.take(i + 1);
                    assert(t.subrange(0, t.len() - 1) =~= ves.take(i as int));
                    assert(t[t.len() - 1] == ves[i as int]);
                    if i == 0 {
                        assert(t[0] == ves[0]);
                    }
                }
                if i > 0 {
                    out.append(",");
                }
                push_json_string(out, es[i].0.as_str());
                out.append(":");
                push_json(out, &es[i].1);
            }
            assert(ves.take(es.len() as int) =~= ves);
            out.append("}");
        },
    }
    assert(out@ =~= start + json_text(j@));
}

/// The JSON text of an object with the given entries.
pub fn object_text(es: &Vec<(String, Json)>) -> (t: String)
    ensures
        t@ == json_text(JsonVal::Object(json_entries(es@))),
{
    let mut out = String::new();
    let ghost ves = json_entries(es@);
    proof {
        lemma_json_entries(es@);
    }
    out.append("{");
    let ghost open = out@;
    for i in 0..es.len()
        invariant
            ves == json_entries(es@),
            ves.len() == es@.len(),
            forall|k: int| 0 <= k < es@.len() ==> #[trigger] ves[k] == (es@[k].0@, es@[k].1@),
            out@ == open + json_entries_text(ves.take(i as int)),
    {
        proof {
            let t = ves.take(i + 1);
            assert(t.subrange(0, t.len() - 1) =~= ves.take(i as int));
            assert(t[t.len() - 1] == ves[i as int]);
            if i == 0 {
                assert(t[0] == ves[0]);
            }
        }
        if i > 0 {
            out.append(",");
        }
        push_json_string(&mut out, es[i].0.as_str());
        out.append(":");
        push_json(&mut out, &es[i].1);
    }
    assert(ves.take(es.len() as int) =~= ves);
    out.append("}");
    assert(out@ =~= json_text(JsonVal::Object(ves)));
    out
}

}
