//! The text encoding of the JSON model: every value is rendered to the
//! exact character sequence the specification functions here describe.
use vstd::prelude::*;
use vstd::string::StrSliceExecFns;
use vstd::string::StringExecFns;
use crate::json::JsonValue;
use crate::text::dec_digits;
use crate::text::hex_digit_char;
use crate::text::hex_digit_str;
use crate::text::push_decimal;

verus! {

broadcast use vstd::std_specs::vec::group_vec_axioms;

/// How one character is written inside a JSON string: the short escapes
/// for quote, backslash and the common control characters, `\u00..`
/// escapes for the other control characters, the character itself
/// otherwise.
pub open spec fn spec_escape_char(c: char) -> Seq<char> {
    if c == '"' {
        seq!['\\', '"']
    } else if c == '\\' {
        seq!['\\', '\\']
    } else if c == '\n' {
        seq!['\\', 'n']
    } else if c == '\r' {
        seq!['\\', 'r']
    } else if c == '\t' {
        seq!['\\', 't']
    } else if (c as u32) < 32 {
        seq!['\\', 'u', '0', '0', hex_digit_char((c as u32 / 16) as nat), hex_digit_char(
            (c as u32 % 16) as nat,
        )]
    } else {
        seq![c]
    }
}

/// A character sequence written inside a JSON string.
pub open spec fn spec_escaped(s: Seq<char>) -> Seq<char>
    decreases s.len(),
{
    if s.len() == 0 {
        Seq::<char>::empty()
    } else {
        spec_escape_char(s[0]) + spec_escaped(s.skip(1))
    }
}

/// A whole JSON string token, quotes included.
pub open spec fn spec_string_text(s: Seq<char>) -> Seq<char> {
    seq!['"'] + spec_escaped(s) + seq!['"']
}

/// A JSON integer token.
pub open spec fn spec_int_text(i: int) -> Seq<char> {
    if i < 0 {
        seq!['-'] + dec_digits((-i) as nat)
    } else {
        dec_digits(i as nat)
    }
}

/// The text encoding of one JSON value.
pub open spec fn spec_json_text(v: JsonValue) -> Seq<char>
    decreases v,
{
    match v {
        JsonValue::Null => seq!['n', 'u', 'l', 'l'],
        JsonValue::Bool(b) => if b {
            seq!['t', 'r', 'u', 'e']
        } else {
            seq!['f', 'a', 'l', 's', 'e']
        },
        JsonValue::Int(i) => spec_int_text(i as int),
        JsonValue::Str(s) => spec_string_text(s@),
        JsonValue::Arr(items) => seq!['['] + spec_join_items(items@) + seq![']'],
        JsonValue::Obj(members) => seq!['{'] + spec_join_members(members@) + seq!['}'],
    }
}

/// Array elements joined by commas.
pub open spec fn spec_join_items(items: Seq<JsonValue>) -> Seq<char>
    decreases items,
{
    if items.len() == 0 {
        Seq::<char>::empty()
    } else if items.len() == 1 {
        spec_json_text(items[0])
    } else {
        spec_join_items(items.drop_last()) + seq![','] + spec_json_text(items.last())
    }
}

/// One object member: the quoted key, a colon, the value.
pub open spec fn spec_member_text(m: (String, JsonValue)) -> Seq<char>
    decreases m,
{
    spec_string_text(m.0@) + seq![':'] + spec_json_text(m.1)
}

/// Object members joined by commas.
pub open spec fn spec_join_members(members: Seq<(String, JsonValue)>) -> Seq<char>
    decreases members,
{
    if members.len() == 0 {
        Seq::<char>::empty()
    } else if members.len() == 1 {
        spec_member_text(members[0])
    } else {
        spec_join_members(members.drop_last()) + seq![','] + spec_member_text(members.last())
    }
}

/// Escaping distributes over concatenation.
proof fn lemma_escaped_concat(a: Seq<char>, b: Seq<char>)
    ensures
        spec_escaped(a + b) == spec_escaped(a) + spec_escaped(b),
    decreases a.len(),
{
    if a.len() == 0 {
        assert(a + b =~= b);
        assert(spec_escaped(a) + spec_escaped(b) =~= spec_escaped(b));
    } else {
        assert((a + b)[0] == a[0]);
        assert((a + b).len() > 0);
        assert((a + b).skip(1) =~= a.skip(1) + b);
        lemma_escaped_concat(a.skip(1), b);
        assert(spec_escape_char(a[0]) + (spec_escaped(a.skip(1)) + spec_escaped(b)) =~= (
        spec_escape_char(a[0]) + spec_escaped(a.skip(1))) + spec_escaped(b));
    }
}

/// Escaping one more character extends the escaped prefix.
proof fn lemma_escaped_snoc(s: Seq<char>, i: int)
    requires
        0 <= i < s.len(),
    ensures
        spec_escaped(s.take(i + 1)) == spec_escaped(s.take(i)) + spec_escape_char(s[i]),
{
    assert(s.take(i + 1) =~= s.take(i) + seq![s[i]]);
    lemma_escaped_concat(s.take(i), seq![s[i]]);
    assert(seq![s[i]].skip(1) =~= Seq::<char>::empty());
    assert(spec_escaped(Seq::<char>::empty()) =~= Seq::<char>::empty());
    assert(spec_escaped(seq![s[i]]) =~= spec_escape_char(s[i]));
}

/// Joining one more array element extends the joined prefix.
proof fn lemma_join_items_snoc(items: Seq<JsonValue>, i: int)
    requires
        0 <= i < items.len(),
    ensures
        spec_join_items(items.take(i + 1)) == if i == 0 {
            spec_json_text(items[0])
        } else {
            spec_join_items(items.take(i)) + seq![','] + spec_json_text(items[i])
        },
{
    if i > 0 {
        assert(items.take(i + 1).drop_last() =~= items.take(i));
        assert(items.take(i + 1).last() == items[i]);
    } else {
        assert(items.take(1)[0] == items[0]);
    }
}

/// Joining one more object member extends the joined prefix.
proof fn lemma_join_members_snoc(members: Seq<(String, JsonValue)>, i: int)
    requires
        0 <= i < members.len(),
    ensures
        spec_join_members(members.take(i + 1)) == if i == 0 {
            spec_member_text(members[0])
        } else {
            spec_join_members(members.take(i)) + seq![','] + spec_member_text(members[i])
        },
{
    if i > 0 {
        assert(members.take(i + 1).drop_last() =~= members.take(i));
        assert(members.take(i + 1).last() == members[i]);
    } else {
        assert(members.take(1)[0] == members[0]);
    }
}

/// Appends the escaped contents of `s` (without quotes).
fn escape_into(out: &mut String, s: &str)
    ensures
        final (out)@ == old(out)@ + spec_escaped(s@),
{
    proof {
        reveal_strlit("\\\"");
        reveal_strlit("\\\\");
        reveal_strlit("\\n");
        reveal_strlit("\\r");
        reveal_strlit("\\t");
        reveal_strlit("\\u00");
    }
    let ghost pre: Seq<char> = out@;
    let n = s.unicode_len();
    proof {
        assert(s@.take(0) =~= Seq::<char>::empty());
        assert(pre + spec_escaped(s@.take(0)) =~= pre);
    }
    for i in 0..n
        invariant
            n == s@.len(),
            out@ == pre + spec_escaped(s@.take(i as int)),
    {
        proof {
            reveal_strlit("\\\"");
            reveal_strlit("\\\\");
            reveal_strlit("\\n");
            reveal_strlit("\\r");
            reveal_strlit("\\t");
            reveal_strlit("\\u00");
        }
        let c = s.get_char(i);
        if c == '"' {
            out.append("\\\"");
        } else if c == '\\' {
            out.append("\\\\");
        } else if c == '\n' {
            out.append("\\n");
        } else if c == '\r' {
            out.append("\\r");
        } else if c == '\t' {
            out.append("\\t");
        } else if (c as u32) < 32 {
            out.append("\\u00");
            out.append(hex_digit_str(c as u32 / 16));
            out.append(hex_digit_str(c as u32 % 16));
        } else {
            let one = s.substring_char(i, i + 1);
            proof {
                assert(one@ =~= seq![s@[i as int]]);
            }
            out.append(one);
        }
        proof {
            lemma_escaped_snoc(s@, i as int);
            assert(out@ =~= pre + spec_escaped(s@.take(i + 1)));
        }
    }
    proof {
        assert(s@.take(n as int) =~= s@);
    }
}

/// Appends a whole JSON string token, quotes included.
fn string_into(out: &mut String, s: &str)
    ensures
        final (out)@ == old(out)@ + spec_string_text(s@),
{
    proof {
        reveal_strlit("\"");
    }
    out.append("\"");
    escape_into(out, s);
    out.append("\"");
    proof {
        assert(final (out)@ =~= old(out)@ + spec_string_text(s@));
    }
}

/// Appends a JSON integer token.
fn int_into(out: &mut String, n: i64)
    ensures
        final (out)@ == old(out)@ + spec_int_text(n as int),
{
    proof {
        reveal_strlit("-");
    }
    if n < 0 {
        out.append("-");
        let mag: u64 = if n < -9223372036854775807i64 {
            9223372036854775808u64
        } else {
            (-n) as u64
        };
        proof {
            assert(mag as nat == (-(n as int)) as nat);
        }
        push_decimal(out, mag);
        proof {
            assert(final (out)@ =~= old(out)@ + spec_int_text(n as int));
        }
    } else {
        push_decimal(out, n as u64);
    }
}

/// Appends the text encoding of one JSON value.
fn write_json(out: &mut String, v: &JsonValue)
    ensures
        final (out)@ == old(out)@ + spec_json_text(*v),
    decreases *v,
{
    proof {
        reveal_strlit("null");
        reveal_strlit("true");
        reveal_strlit("false");
        reveal_strlit("[");
        reveal_strlit("]");
        reveal_strlit("{");
        reveal_strlit("}");
        reveal_strlit(",");
        reveal_strlit(":");
    }
    match v {
        JsonValue::Null => {
            out.append("null");
            proof {
                assert(final (out)@ =~= old(out)@ + spec_json_text(*v));
            }
        },
        JsonValue::Bool(b) => {
            if *b {
                out.append("true");
            } else {
                out.append("false");
            }
            proof {
                assert(final (out)@ =~= old(out)@ + spec_json_text(*v));
            }
        },
        JsonValue::Int(i) => {
            int_into(out, *i);
        },
        JsonValue::Str(s) => {
            string_into(out, s.as_str());
        },
        JsonValue::Arr(items) => {
            out.append("[");
            write_items(out, items);
            out.append("]");
            proof {
                assert(final (out)@ =~= old(out)@ + spec_json_text(*v));
            }
        },
        JsonValue::Obj(members) => {
            out.append("{");
            write_members(out, members);
            out.append("}");
            proof {
                assert(final (out)@ =~= old(out)@ + spec_json_text(*v));
            }
        },
    }
}

/// Appends the comma-joined encodings of array elements.
fn write_items(out: &mut String, items: &Vec<JsonValue>)
    ensures
        final (out)@ == old(out)@ + spec_join_items(items@),
    decreases *items,
{
    let ghost pre: Seq<char> = out@;
    let n = items.len();
    proof {
        assert(items@.take(0) =~= Seq::<JsonValue>::empty());
        assert(pre + spec_join_items(items@.take(0)) =~= pre);
    }
    for idx in 0..n
        invariant
            n == items@.len(),
            out@ == pre + spec_join_items(items@.take(idx as int)),
    {
        proof {
            reveal_strlit(",");
            assert(decreases_to!(*items => items@[idx as int]));
        }
        if idx > 0 {
            out.append(",");
        }
        write_json(out, &items[idx]);
        proof {
            lemma_join_items_snoc(items@, idx as int);
            assert(out@ =~= pre + spec_join_items(items@.take(idx + 1)));
        }
    }
    proof {
        assert(items@.take(n as int) =~= items@);
    }
}

/// Appends the comma-joined encodings of object members.
fn write_members(out: &mut String, members: &Vec<(String, JsonValue)>)
    ensures
        final (out)@ == old(out)@ + spec_join_members(members@),
    decreases *members,
{
    let ghost pre: Seq<char> = out@;
    let n = members.len();
    proof {
        assert(members@.take(0) =~= Seq::<(String, JsonValue)>::empty());
        assert(pre + spec_join_members(members@.take(0)) =~= pre);
    }
    for idx in 0..n
        invariant
            n == members@.len(),
            out@ == pre + spec_join_members(members@.take(idx as int)),
    {
        proof {
            reveal_strlit(",");
            reveal_strlit(":");
            assert(decreases_to!(*members => members@[idx as int]));
            assert(decreases_to!(members@[idx as int] => members@[idx as int].1));
            assert(decreases_to!(*members => members@[idx as int].1));
        }
        if idx > 0 {
            out.append(",");
        }
        string_into(out, members[idx].0.as_str());
        out.append(":");
        write_json(out, &members[idx].1);
        proof {
            lemma_join_members_snoc(members@, idx as int);
            assert(out@ =~= pre + spec_join_members(members@.take(idx + 1)));
        }
    }
    proof {
        assert(members@.take(n as int) =~= members@);
    }
}

/// Renders one JSON value as its exact text encoding.
pub fn json_to_string(v: &JsonValue) -> (r: String)
    ensures
        r@ == spec_json_text(*v),
{
    let mut out = String::new();
    write_json(&mut out, v);
    proof {
        assert(out@ =~= spec_json_text(*v));
    }
    out
}

} // verus!
