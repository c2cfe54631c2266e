//! JSON rendering of the success payloads: one record, or an array
//! of records.
//!
//! A record renders as an object with its identifier, when assigned,
//! under `_id` as the canonical hex string, followed by the domain
//! fields. String contents are escaped as JSON requires: quote,
//! backslash and control characters never appear bare.

use vstd::prelude::*;

use crate::oid::{hex_char, hex_char_exec, hex_of_bytes};
use crate::strutil::push_char;
use crate::user::{views_of, User, UserView};

verus! {

/// The escaped rendering of one character inside a JSON string.
pub open spec fn esc_char(c: char) -> Seq<char> {
    if c == '"' {
        seq!['\\', '"']
    } else if c == '\\' {
        seq!['\\', '\\']
    } else if c == '\n' {
        seq!['\\', 'n']
    } else if c == '\r' {
        seq!['\\', 'r']
    } else if c == '\t' {
        seq!['\\', 't']
    } else if (c as u32) < 32 {
        seq!['\\', 'u', '0', '0', hex_char(((c as u32) / 16) as u8), hex_char(((c as u32) % 16) as u8)]
    } else {
        seq![c]
    }
}

/// The escaped rendering of a whole string's contents.
pub open spec fn esc(s: Seq<char>) -> Seq<char>
    decreases s.len(),
{
    if s.len() == 0 {
        Seq::empty()
    } else {
        esc(s.drop_last()) + esc_char(s.last())
    }
}

/// A JSON string literal: the escaped contents between quotes.
pub open spec fn json_string(s: Seq<char>) -> Seq<char> {
    seq!['"'] + esc(s) + seq!['"']
}

/// The JSON object for one record.
pub open spec fn user_json(u: UserView) -> Seq<char> {
    match u.id {
        Some(b) => "{\"_id\":\""@ + hex_of_bytes(b) + "\",\"name\":"@ + json_string(u.name)
            + "}"@,
        None => "{\"name\":"@ + json_string(u.name) + "}"@,
    }
}

/// The comma-separated objects of a record array.
pub open spec fn list_body(s: Seq<UserView>) -> Seq<char>
    decreases s.len(),
{
    if s.len() == 0 {
        Seq::empty()
    } else if s.len() == 1 {
        user_json(s[0])
    } else {
        list_body(s.drop_last()) + ","@ + user_json(s.last())
    }
}

/// The JSON array for a sequence of records.
pub open spec fn users_json(s: Seq<UserView>) -> Seq<char> {
    "["@ + list_body(s) + "]"@
}

proof fn lemma_esc_step(s: Seq<char>, i: int)
    requires
        0 <= i < s.len(),
    ensures
        esc(s.take(i + 1)) == esc(s.take(i)) + esc_char(s[i]),
{
    assert(s.take(i + 1).drop_last() =~= s.take(i));
    assert(s.take(i + 1).last() == s[i]);
}

/// Appends the escaped contents of `s` to `out`.
fn push_escaped(out: &mut String, s: &str)
    ensures
        final(out)@ == old(out)@ + esc(s@),
{
    let n = s.unicode_len();
    let mut i: usize = 0;
    while i < n
        invariant
            n == s@.len(),
            0 <= i <= n,
            out@ =~= old(out)@ + esc(s@.take(i as int)),
        decreases n - i,
    {
        let c = s.get_char(i);
        if c == '"' {
            push_char(out, '\\');
            push_char(out, '"');
        } else if c == '\\' {
            push_char(out, '\\');
            push_char(out, '\\');
        } else if c == '\n' {
            push_char(out, '\\');
            push_char(out, 'n');
        } else if c == '\r' {
            push_char(out, '\\');
            push_char(out, 'r');
        } else if c == '\t' {
            push_char(out, '\\');
            push_char(out, 't');
        } else if (c as u32) < 32 {
            let v = c as u32;
            push_char(out, '\\');
            push_char(out, 'u');
            push_char(out, '0');
            push_char(out, '0');
            push_char(out, hex_char_exec((v / 16) as u8));
            push_char(out, hex_char_exec((v % 16) as u8));
        } else {
            push_char(out, c);
        }
        proof {
            lemma_esc_step(s@, i as int);
            assert(out@ =~= old(out)@ + esc(s@.take(i + 1 as int)));
        }
        i += 1;
    }
    assert(s@.take(n as int) =~= s@);
}

/// Appends a JSON string literal holding `s` to `out`.
fn push_json_string(out: &mut String, s: &str)
    ensures
        final(out)@ == old(out)@ + json_string(s@),
{
    push_char(out, '"');
    push_escaped(out, s);
    push_char(out, '"');
    assert(out@ =~= old(out)@ + json_string(s@));
}

/// Renders one record as its JSON object.
pub fn user_to_json(u: &User) -> (r: String)
    ensures
        r@ == user_json(u@),
{
    let mut out = String::new();
    match &u.id {
        Some(oid) => {
            out.append("{\"_id\":\"");
            let hex = oid.to_hex();
            out.append(hex.as_str());
            out.append("\",\"name\":");
            push_json_string(&mut out, name_of(u));
            out.append("}");
        },
        None => {
            out.append("{\"name\":");
            push_json_string(&mut out, name_of(u));
            out.append("}");
        },
    }
    assert(out@ =~= user_json(u@));
    out
}

/// The record's name field as a borrowed string.
fn name_of(u: &User) -> (r: &str)
    ensures
        r@ == u@.name,
{
    u.name.as_str()
}

/// Renders a set of records as a JSON array, in the given order.
pub fn users_to_json(users: &Vec<User>) -> (r: String)
    ensures
        r@ == users_json(views_of(users@)),
{
    let ghost vs = views_of(users@);
    let mut out = String::new();
    out.append("[");
    let mut i: usize = 0;
    while i < users.len()
        invariant
            vs == views_of(users@),
            vs.len() == users@.len(),
            0 <= i <= users@.len(),
            out@ =~= "["@ + list_body(vs.take(i as int)),
        decreases users@.len() - i,
    {
        if i > 0 {
            out.append(",");
        }
        let piece = user_to_json(&users[i]);
        out.append(piece.as_str());
        proof {
            let t = vs.take(i + 1 as int);
            assert(t.len() == i + 1);
            if i == 0 {
                assert(t[0] == vs[0]);
                assert(list_body(t) == user_json(vs[0]));
            } else {
                assert(t.drop_last() =~= vs.take(i as int));
                assert(t.last() == vs[i as int]);
                assert(list_body(t) == list_body(vs.take(i as int)) + ","@ + user_json(
                    vs[i as int],
                ));
            }
            assert(out@ =~= "["@ + list_body(vs.take(i + 1 as int)));
        }
        i += 1;
    }
    out.append("]");
    proof {
        assert(vs.take(vs.len() as int) =~= vs);
        assert(out@ =~= users_json(vs));
    }
    out
}

} // verus!
