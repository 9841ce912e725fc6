//! The wire document: a small JSON tree, its mathematical model, and a
//! verified renderer that turns a tree into its textual form.
//!
//! Chart configurations are serialized into this tree; the renderer proves
//! that the emitted text is exactly the text that the model prescribes.

use vstd::prelude::*;

verus! {

/// A JSON value as built by the serializers.
///
/// Integers are carried in two exec variants (`Int` for signed, `UInt` for
/// the unsigned values above `i128::MAX`); both stand for the single
/// mathematical `JsonV::Int`. `Num` carries a numeric literal verbatim, for
/// callers whose numbers have no integer representation.
#[derive(Debug)]
pub enum Json {
    Null,
    Bool(bool),
    Int(i128),
    UInt(u128),
    Num(String),
    Str(String),
    Arr(Vec<Json>),
    Obj(Vec<(String, Json)>),
}

/// The mathematical model of a JSON value.
#[verifier::ext_equal]
pub enum JsonV {
    Null,
    Bool(bool),
    Int(int),
    Num(Seq<char>),
    Str(Seq<char>),
    Arr(Seq<JsonV>),
    Obj(Seq<(Seq<char>, JsonV)>),
}

/// The model of a JSON value.
pub open spec fn view_json(j: Json) -> JsonV
    decreases j,
{
    match j {
        Json::Null => JsonV::Null,
        Json::Bool(b) => JsonV::Bool(b),
        Json::Int(i) => JsonV::Int(i as int),
        Json::UInt(u) => JsonV::Int(u as int),
        Json::Num(s) => JsonV::Num(s@),
        Json::Str(s) => JsonV::Str(s@),
        Json::Arr(items) => JsonV::Arr(view_json_seq(items@)),
        Json::Obj(fields) => JsonV::Obj(view_json_fields(fields@)),
    }
}

/// The models of a sequence of JSON values, in order.
pub open spec fn view_json_seq(s: Seq<Json>) -> Seq<JsonV>
    decreases s,
{
    if s.len() == 0 {
        Seq::empty()
    } else {
        view_json_seq(s.drop_last()).push(view_json(s.last()))
    }
}

/// The models of a sequence of object fields, in order.
pub open spec fn view_json_fields(s: Seq<(String, Json)>) -> Seq<(Seq<char>, JsonV)>
    decreases s,
{
    if s.len() == 0 {
        Seq::empty()
    } else {
        view_json_fields(s.drop_last()).push((s.last().0@, view_json(s.last().1)))
    }
}

impl View for Json {
    type V = JsonV;

    open spec fn view(&self) -> JsonV {
        view_json(*self)
    }
}

/// The keys of an object value, in order; empty for any other value.
pub open spec fn obj_keys(v: JsonV) -> Seq<Seq<char>> {
    match v {
        JsonV::Obj(fields) => fields.map(|i: int, f: (Seq<char>, JsonV)| f.0),
        _ => Seq::empty(),
    }
}

/// Whether a field list already binds the given key.
pub open spec fn has_key(fields: Seq<(Seq<char>, JsonV)>, key: Seq<char>) -> bool {
    exists|i: int| 0 <= i < fields.len() && fields[i].0 == key
}

/// Extension fields merged after the typed ones: an extension entry is kept
/// only when no typed field already uses its key, so typed fields win on
/// collision.
pub open spec fn merged_extra(
    typed: Seq<(Seq<char>, JsonV)>,
    extra: Seq<(Seq<char>, JsonV)>,
) -> Seq<(Seq<char>, JsonV)>
    decreases extra,
{
    if extra.len() == 0 {
        Seq::empty()
    } else {
        merged_extra(typed, extra.drop_last()) + (if has_key(typed, extra.last().0) {
            Seq::empty()
        } else {
            seq![extra.last()]
        })
    }
}

/// The decimal digit for one value below ten.
pub open spec fn digit_char(n: nat) -> char {
    if n == 0 {
        '0'
    } else if n == 1 {
        '1'
    } else if n == 2 {
        '2'
    } else if n == 3 {
        '3'
    } else if n == 4 {
        '4'
    } else if n == 5 {
        '5'
    } else if n == 6 {
        '6'
    } else if n == 7 {
        '7'
    } else if n == 8 {
        '8'
    } else {
        '9'
    }
}

/// The decimal text of a natural number, most significant digit first.
pub open spec fn dec_digits(n: nat) -> Seq<char>
    decreases n,
{
    if n < 10 {
        seq![digit_char(n)]
    } else {
        dec_digits(n / 10) + seq![digit_char(n % 10)]
    }
}

/// The decimal text of an integer: a minus sign before the magnitude when
/// negative.
pub open spec fn int_text(i: int) -> Seq<char> {
    if i >= 0 {
        dec_digits(i as nat)
    } else {
        seq!['-'] + dec_digits((-i) as nat)
    }
}

/// The lower-case hexadecimal digit for one value below sixteen.
pub open spec fn hex_char(n: nat) -> char {
    if n < 10 {
        digit_char(n)
    } else if n == 10 {
        'a'
    } else if n == 11 {
        'b'
    } else if n == 12 {
        'c'
    } else if n == 13 {
        'd'
    } else if n == 14 {
        'e'
    } else {
        'f'
    }
}

/// How one character appears inside a JSON string literal: quotes and
/// backslashes gain a backslash, the common control characters use their
/// short escapes, the remaining control characters a `\u00..` escape.
pub open spec fn escaped_char(c: char) -> Seq<char> {
    if c == '"' {
        seq!['\\', '"']
    } else if c == '\\' {
        seq!['\\', '\\']
    } else if c == '\n' {
        seq!['\\', 'n']
    } else if c == '\r' {
        seq!['\\', 'r']
    } else if c == '\t' {
        seq!['\\', 't']
    } else if (c as nat) < 32 {
        seq!['\\', 'u', '0', '0', hex_char((c as nat) / 16), hex_char((c as nat) % 16)]
    } else {
        seq![c]
    }
}

/// A character sequence with every character escaped for a JSON string
/// literal.
pub open spec fn escaped(s: Seq<char>) -> Seq<char>
    decreases s,
{
    if s.len() == 0 {
        Seq::empty()
    } else {
        escaped(s.drop_last()) + escaped_char(s.last())
    }
}

/// A JSON string literal: the escaped characters between double quotes.
pub open spec fn str_text(s: Seq<char>) -> Seq<char> {
    seq!['"'] + escaped(s) + seq!['"']
}

/// The text of a JSON value.
pub open spec fn json_text(v: JsonV) -> Seq<char>
    decreases v, 0nat,
{
    match v {
        JsonV::Null => "null"@,
        JsonV::Bool(b) => if b {
            "true"@
        } else {
            "false"@
        },
        JsonV::Int(i) => int_text(i),
        JsonV::Num(s) => s,
        JsonV::Str(s) => str_text(s),
        JsonV::Arr(items) => seq!['['] + arr_text(items) + seq![']'],
        JsonV::Obj(fields) => seq!['{'] + obj_text(fields) + seq!['}'],
    }
}

/// The comma-separated texts of an array's elements.
pub open spec fn arr_text(items: Seq<JsonV>) -> Seq<char>
    decreases items, 0nat,
{
    if items.len() == 0 {
        Seq::empty()
    } else if items.len() == 1 {
        json_text(items[0])
    } else {
        arr_text(items.drop_last()) + seq![','] + json_text(items.last())
    }
}

/// The comma-separated `"key":value` texts of an object's fields.
pub open spec fn obj_text(fields: Seq<(Seq<char>, JsonV)>) -> Seq<char>
    decreases fields, 0nat,
{
    if fields.len() == 0 {
        Seq::empty()
    } else if fields.len() == 1 {
        field_text(fields[0])
    } else {
        obj_text(fields.drop_last()) + seq![','] + field_text(fields.last())
    }
}

/// The text of one object field.
pub open spec fn field_text(f: (Seq<char>, JsonV)) -> Seq<char>
    decreases f.1, 1nat,
{
    str_text(f.0) + seq![':'] + json_text(f.1)
}

/// Relies on `String::push`: appends the given character to the string.
#[verifier::external_body]
fn push_char(out: &mut String, c: char)
    ensures
        final(out)@ == old(out)@ + seq![c],
{
    out.push(c);
}

/// Appends one decimal digit, for a value below ten.
fn write_digit(out: &mut String, d: u128)
    requires
        d < 10,
    ensures
        final(out)@ == old(out)@ + seq![digit_char(d as nat)],
{
    let c: char = match d {
        0 => '0',
        1 => '1',
        2 => '2',
        3 => '3',
        4 => '4',
        5 => '5',
        6 => '6',
        7 => '7',
        8 => '8',
        _ => '9',
    };
    push_char(out, c);
}

/// Appends the decimal text of a natural number.
pub(crate) fn write_u128_dec(out: &mut String, n: u128)
    ensures
        final(out)@ == old(out)@ + dec_digits(n as nat),
    decreases n,
{
    if n < 10 {
        write_digit(out, n);
    } else {
        write_u128_dec(out, n / 10);
        write_digit(out, n % 10);
    }
}

/// Appends the decimal text of a signed integer.
pub(crate) fn write_i128_dec(out: &mut String, i: i128)
    ensures
        final(out)@ == old(out)@ + int_text(i as int),
{
    if i >= 0 {
        write_u128_dec(out, i as u128);
    } else {
        push_char(out, '-');
        // The magnitude of `i`, computed without negating `i128::MIN`.
        let m: u128 = ((-(i + 1)) as u128) + 1;
        assert(m as nat == (-(i as int)) as nat);
        write_u128_dec(out, m);
    }
}

/// Appends the lower-case hexadecimal digit for a value below sixteen.
fn write_hex_digit(out: &mut String, d: u32)
    requires
        d < 16,
    ensures
        final(out)@ == old(out)@ + seq![hex_char(d as nat)],
{
    let c: char = match d {
        0 => '0',
        1 => '1',
        2 => '2',
        3 => '3',
        4 => '4',
        5 => '5',
        6 => '6',
        7 => '7',
        8 => '8',
        9 => '9',
        10 => 'a',
        11 => 'b',
        12 => 'c',
        13 => 'd',
        14 => 'e',
        _ => 'f',
    };
    push_char(out, c);
}

/// Appends one character in its escaped form.
fn write_escaped_char(out: &mut String, c: char)
    ensures
        final(out)@ == old(out)@ + escaped_char(c),
{
    if c == '"' {
        out.append("\\\"");
        proof {
            reveal_strlit("\\\"");
            assert(final(out)@ =~= old(out)@ + escaped_char(c));
        }
    } else if c == '\\' {
        out.append("\\\\");
        proof {
            reveal_strlit("\\\\");
            assert(final(out)@ =~= old(out)@ + escaped_char(c));
        }
    } else if c == '\n' {
        out.append("\\n");
        proof {
            reveal_strlit("\\n");
            assert(final(out)@ =~= old(out)@ + escaped_char(c));
        }
    } else if c == '\r' {
        out.append("\\r");
        proof {
            reveal_strlit("\\r");
            assert(final(out)@ =~= old(out)@ + escaped_char(c));
        }
    } else if c == '\t' {
        out.append("\\t");
        proof {
            reveal_strlit("\\t");
            assert(final(out)@ =~= old(out)@ + escaped_char(c));
        }
    } else if (c as u32) < 32 {
        out.append("\\u00");
        let code: u32 = c as u32;
        write_hex_digit(out, code / 16);
        write_hex_digit(out, code % 16);
        proof {
            reveal_strlit("\\u00");
            assert(final(out)@ =~= old(out)@ + escaped_char(c));
        }
    } else {
        push_char(out, c);
    }
}

/// Appends the escaped form of every character of a string.
fn write_escaped(out: &mut String, s: &str)
    ensures
        final(out)@ == old(out)@ + escaped(s@),
{
    let n = s.unicode_len();
    assert(s@.take(0) =~= Seq::<char>::empty());
    for i in 0..n
        invariant
            n == s@.len(),
            out@ == old(out)@ + escaped(s@.take(i as int)),
    {
        let c = s.get_char(i);
        write_escaped_char(out, c);
        proof {
            assert(s@.take(i + 1).drop_last() =~= s@.take(i as int));
            assert(s@.take(i + 1).last() == c);
        }
    }
    assert(s@.take(n as int) =~= s@);
}

/// Appends a JSON string literal.
fn write_str_text(out: &mut String, s: &str)
    ensures
        final(out)@ == old(out)@ + str_text(s@),
{
    push_char(out, '"');
    write_escaped(out, s);
    push_char(out, '"');
    assert(final(out)@ =~= old(out)@ + str_text(s@));
}

/// Appends the text of a JSON value.
fn write_json(out: &mut String, j: &Json)
    ensures
        final(out)@ == old(out)@ + json_text(j@),
    decreases *j, 1nat,
{
    match j {
        Json::Null => {
            out.append("null");
        },
        Json::Bool(b) => {
            if *b {
                out.append("true");
            } else {
                out.append("false");
            }
        },
        Json::Int(i) => {
            write_i128_dec(out, *i);
        },
        Json::UInt(u) => {
            write_u128_dec(out, *u);
        },
        Json::Num(s) => {
            out.append(s.as_str());
        },
        Json::Str(s) => {
            write_str_text(out, s.as_str());
        },
        Json::Arr(items) => {
            proof {
                assert(decreases_to!((*j) => (*j)->Arr_0));
            }
            push_char(out, '[');
            write_arr_items(out, items);
            push_char(out, ']');
            assert(final(out)@ =~= old(out)@ + json_text(j@));
        },
        Json::Obj(fields) => {
            proof {
                assert(decreases_to!((*j) => (*j)->Obj_0));
            }
            push_char(out, '{');
            write_obj_fields(out, fields);
            push_char(out, '}');
            assert(final(out)@ =~= old(out)@ + json_text(j@));
        },
    }
}

/// Appends the comma-separated texts of an array's elements.
#[verifier::loop_isolation(false)]
fn write_arr_items(out: &mut String, items: &Vec<Json>)
    ensures
        final(out)@ == old(out)@ + arr_text(view_json_seq(items@)),
    decreases *items, 0nat,
{
    let ghost entry = out@;
    let n = items.len();
    assert(view_json_seq(items@.take(0)) =~= Seq::empty());
    for i in 0..n
        invariant
            out@ == entry + arr_text(view_json_seq(items@.take(i as int))),
        decreases n - i,
    {
        if i > 0 {
            push_char(out, ',');
        }
        proof {
            assert(decreases_to!((*items) => (*items)@));
            assert(decreases_to!(items@ => items@[i as int]));
        }
        write_json(out, &items[i]);
        proof {
            lemma_view_json_seq_take(items@, i as int);
            lemma_view_json_seq_len(items@.take(i as int));
            let prev = view_json_seq(items@.take(i as int));
            let cur = view_json_seq(items@.take(i + 1));
            assert(prev.len() == i);
            if i > 0 {
                assert(cur.drop_last() =~= prev);
                assert(cur.last() == view_json(items@[i as int]));
                assert(arr_text(cur) == arr_text(prev) + seq![','] + json_text(cur.last()));
            } else {
                assert(cur.len() == 1);
                assert(cur[0] == view_json(items@[0]));
                assert(arr_text(cur) == json_text(view_json(items@[0])));
            }
            assert(out@ =~= entry + arr_text(cur));
        }
    }
    assert(items@.take(n as int) =~= items@);
}

/// Appends the comma-separated `"key":value` texts of an object's fields.
#[verifier::loop_isolation(false)]
fn write_obj_fields(out: &mut String, fields: &Vec<(String, Json)>)
    ensures
        final(out)@ == old(out)@ + obj_text(view_json_fields(fields@)),
    decreases *fields, 0nat,
{
    let ghost entry = out@;
    let n = fields.len();
    assert(view_json_fields(fields@.take(0)) =~= Seq::empty());
    for i in 0..n
        invariant
            out@ == entry + obj_text(view_json_fields(fields@.take(i as int))),
        decreases n - i,
    {
        if i > 0 {
            push_char(out, ',');
        }
        write_str_text(out, fields[i].0.as_str());
        push_char(out, ':');
        proof {
            assert(decreases_to!((*fields) => (*fields)@));
            assert(decreases_to!(fields@ => fields@[i as int]));
            assert(decreases_to!(fields@[i as int] => fields@[i as int].1));
        }
        write_json(out, &fields[i].1);
        proof {
            lemma_view_json_fields_take(fields@, i as int);
            lemma_view_json_fields_len(fields@.take(i as int));
            let prev = view_json_fields(fields@.take(i as int));
            let cur = view_json_fields(fields@.take(i + 1));
            let f = (fields@[i as int].0@, view_json(fields@[i as int].1));
            assert(prev.len() == i);
            assert(field_text(f) == str_text(f.0) + seq![':'] + json_text(f.1));
            if i > 0 {
                assert(cur.drop_last() =~= prev);
                assert(cur.last() == f);
                assert(obj_text(cur) == obj_text(prev) + seq![','] + field_text(f));
            } else {
                assert(cur.len() == 1);
                assert(cur[0] == f);
                assert(obj_text(cur) == field_text(f));
            }
            assert(out@ =~= entry + obj_text(cur));
        }
    }
    assert(fields@.take(n as int) =~= fields@);
}

pub(crate) proof fn lemma_view_json_seq_len(s: Seq<Json>)
    ensures
        view_json_seq(s).len() == s.len(),
    decreases s,
{
    if s.len() > 0 {
        lemma_view_json_seq_len(s.drop_last());
    }
}

pub(crate) proof fn lemma_view_json_fields_len(s: Seq<(String, Json)>)
    ensures
        view_json_fields(s).len() == s.len(),
    decreases s,
{
    if s.len() > 0 {
        lemma_view_json_fields_len(s.drop_last());
    }
}

pub(crate) proof fn lemma_view_json_seq_take(s: Seq<Json>, i: int)
    requires
        0 <= i < s.len(),
    ensures
        view_json_seq(s.take(i + 1)) == view_json_seq(s.take(i)).push(view_json(s[i])),
{
    let t = s.take(i + 1);
    assert(t.drop_last() =~= s.take(i));
    assert(t.last() == s[i]);
}

pub(crate) proof fn lemma_view_json_fields_take(s: Seq<(String, Json)>, i: int)
    requires
        0 <= i < s.len(),
    ensures
        view_json_fields(s.take(i + 1)) == view_json_fields(s.take(i)).push(
            (s[i].0@, view_json(s[i].1)),
        ),
{
    let t = s.take(i + 1);
    assert(t.drop_last() =~= s.take(i));
    assert(t.last() == s[i]);
}

pub(crate) proof fn lemma_view_json_seq_push(s: Seq<Json>, x: Json)
    ensures
        view_json_seq(s.push(x)) == view_json_seq(s).push(view_json(x)),
{
    assert(s.push(x).drop_last() =~= s);
    assert(s.push(x).last() == x);
}

pub(crate) proof fn lemma_view_json_fields_push(s: Seq<(String, Json)>, f: (String, Json))
    ensures
        view_json_fields(s.push(f)) == view_json_fields(s).push((f.0@, view_json(f.1))),
{
    assert(s.push(f).drop_last() =~= s);
    assert(s.push(f).last() == f);
}

impl Clone for Json {
    /// A deep copy with the same model as the value it copies.
    #[verifier::loop_isolation(false)]
    fn clone(&self) -> (r: Json)
        ensures
            r@ == self@,
        decreases *self,
    {
        match self {
            Json::Null => Json::Null,
            Json::Bool(b) => Json::Bool(*b),
            Json::Int(i) => Json::Int(*i),
            Json::UInt(u) => Json::UInt(*u),
            Json::Num(s) => Json::Num(s.clone()),
            Json::Str(s) => Json::Str(s.clone()),
            Json::Arr(items) => {
                proof {
                    assert(decreases_to!((*self) => (*self)->Arr_0));
                }
                let n = items.len();
                let mut out: Vec<Json> = Vec::new();
                assert(view_json_seq(items@.take(0)) =~= Seq::empty());
                for i in 0..n
                    invariant
                        out@.len() == i,
                        view_json_seq(out@) == view_json_seq(items@.take(i as int)),
                    decreases n - i,
                {
                    proof {
                        assert(decreases_to!((*items) => (*items)@));
                        assert(decreases_to!(items@ => items@[i as int]));
                    }
                    let c = items[i].clone();
                    let ghost pre = out@;
                    out.push(c);
                    proof {
                        assert(out@ == pre.push(c));
                        lemma_view_json_seq_push(pre, c);
                        lemma_view_json_seq_take(items@, i as int);
                        assert(view_json_seq(out@) == view_json_seq(items@.take(i + 1)));
                    }
                }
                assert(items@.take(n as int) =~= items@);
                Json::Arr(out)
            },
            Json::Obj(fields) => {
                proof {
                    assert(decreases_to!((*self) => (*self)->Obj_0));
                }
                let n = fields.len();
                let mut out: Vec<(String, Json)> = Vec::new();
                assert(view_json_fields(fields@.take(0)) =~= Seq::empty());
                for i in 0..n
                    invariant
                        out@.len() == i,
                        view_json_fields(out@) == view_json_fields(fields@.take(i as int)),
                    decreases n - i,
                {
                    proof {
                        assert(decreases_to!((*fields) => (*fields)@));
                        assert(decreases_to!(fields@ => fields@[i as int]));
                        assert(decreases_to!(fields@[i as int] => fields@[i as int].1));
                    }
                    let k = fields[i].0.clone();
                    let v = fields[i].1.clone();
                    let ghost pre = out@;
                    out.push((k, v));
                    proof {
                        assert(out@ == pre.push((k, v)));
                        lemma_view_json_fields_push(pre, (k, v));
                        lemma_view_json_fields_take(fields@, i as int);
                        assert(view_json_fields(out@) == view_json_fields(fields@.take(i + 1)));
                    }
                }
                assert(fields@.take(n as int) =~= fields@);
                Json::Obj(out)
            },
        }
    }
}

impl Json {
    /// The textual form of this value: exactly the text its model
    /// prescribes.
    pub fn render(&self) -> (out: String)
        ensures
            out@ == json_text(self@),
    {
        let mut out = String::new();
        write_json(&mut out, self);
        out
    }
}

/// The viewed fields of an optional extension bag; absent means none.
pub open spec fn extra_fields_view(extra: Option<Vec<(String, Json)>>) -> Seq<
    (Seq<char>, JsonV),
> {
    match extra {
        Some(v) => view_json_fields(v@),
        None => Seq::empty(),
    }
}

pub(crate) proof fn lemma_view_json_fields_index(s: Seq<(String, Json)>, i: int)
    requires
        0 <= i < s.len(),
    ensures
        view_json_fields(s).len() == s.len(),
        view_json_fields(s)[i] == (s[i].0@, view_json(s[i].1)),
    decreases s,
{
    lemma_view_json_fields_len(s);
    if s.len() > 0 {
        lemma_view_json_fields_len(s.drop_last());
        if i < s.len() - 1 {
            lemma_view_json_fields_index(s.drop_last(), i);
        }
    }
}

/// Whether one of the first `upto` entries uses the given key.
fn have_key_prefix(entries: &Vec<(String, Json)>, upto: usize, key: &String) -> (b: bool)
    requires
        upto <= entries@.len(),
    ensures
        b == has_key(view_json_fields(entries@.take(upto as int)), key@),
{
    let mut found = false;
    for i in 0..upto
        invariant
            upto <= entries@.len(),
            found == exists|j: int| 0 <= j < i && entries@[j].0@ == key@,
    {
        if entries[i].0.eq(key) {
            found = true;
        }
    }
    proof {
        let prefix = entries@.take(upto as int);
        if found {
            let j = choose|j: int| 0 <= j < upto && entries@[j].0@ == key@;
            lemma_view_json_fields_index(prefix, j);
            assert(view_json_fields(prefix)[j].0 == key@);
        } else {
            lemma_view_json_fields_len(prefix);
            assert forall|j: int| 0 <= j < view_json_fields(prefix).len() implies view_json_fields(
                prefix,
            )[j].0 != key@ by {
                lemma_view_json_fields_index(prefix, j);
            }
        }
    }
    found
}

pub(crate) proof fn lemma_merged_extra_take(
    typed: Seq<(Seq<char>, JsonV)>,
    extra: Seq<(Seq<char>, JsonV)>,
    i: int,
)
    requires
        0 <= i < extra.len(),
    ensures
        merged_extra(typed, extra.take(i + 1)) == merged_extra(typed, extra.take(i)) + (if has_key(
            typed,
            extra[i].0,
        ) {
            Seq::<(Seq<char>, JsonV)>::empty()
        } else {
            seq![extra[i]]
        }),
{
    let t = extra.take(i + 1);
    assert(t.drop_last() =~= extra.take(i));
    assert(t.last() == extra[i]);
}

/// Appends the extension fields to a typed field list; an extension entry
/// whose key a typed field already uses is dropped.
pub(crate) fn push_extra_fields(entries: &mut Vec<(String, Json)>, extra: Option<Vec<(String, Json)>>)
    ensures
        view_json_fields(final(entries)@) == view_json_fields(old(entries)@) + merged_extra(
            view_json_fields(old(entries)@),
            extra_fields_view(extra),
        ),
{
    let ghost typed = view_json_fields(old(entries)@);
    match extra {
        Option::None => {
            assert(view_json_fields(entries@) =~= typed + merged_extra(
                typed,
                extra_fields_view(extra),
            ));
        },
        Option::Some(v) => {
            let ghost ev = view_json_fields(v@);
            let typed_len = entries.len();
            let ghost orig = v@;
            let mut rest = v;
            let ghost mut done: int = 0;
            proof {
                assert(entries@.take(typed_len as int) =~= entries@);
                assert(ev.take(0) =~= Seq::empty());
                assert(view_json_fields(entries@) =~= typed + merged_extra(typed, ev.take(0)));
            }
            while rest.len() > 0
                invariant
                    typed_len <= entries@.len(),
                    typed == view_json_fields(entries@.take(typed_len as int)),
                    0 <= done,
                    done + rest@.len() == orig.len(),
                    ev == view_json_fields(orig),
                    forall|i: int| 0 <= i < rest@.len() ==> rest@[i] == orig[done + i],
                    view_json_fields(entries@) == typed + merged_extra(typed, ev.take(done)),
                decreases rest@.len(),
            {
                let (k, jv) = rest.remove(0);
                proof {
                    lemma_view_json_fields_index(orig, done);
                    lemma_view_json_fields_len(orig);
                    lemma_merged_extra_take(typed, ev, done);
                }
                let dup = have_key_prefix(entries, typed_len, &k);
                proof {
                    assert(entries@.take(typed_len as int) == entries@.take(typed_len as int));
                    assert(dup == has_key(typed, k@));
                    assert(ev[done] == (k@, view_json(jv)));
                }
                if !dup {
                    let ghost pre = entries@;
                    entries.push((k, jv));
                    proof {
                        assert(entries@ == pre.push((k, jv)));
                        lemma_view_json_fields_push(pre, (k, jv));
                        assert(entries@.take(typed_len as int) =~= pre.take(typed_len as int));
                        assert(view_json_fields(entries@) =~= typed + merged_extra(
                            typed,
                            ev.take(done + 1),
                        ));
                    }
                } else {
                    proof {
                        assert(view_json_fields(entries@) =~= typed + merged_extra(
                            typed,
                            ev.take(done + 1),
                        ));
                    }
                }
                proof {
                    done = done + 1;
                }
            }
            proof {
                lemma_view_json_fields_len(orig);
                assert(done == orig.len());
                assert(ev.take(done) =~= ev);
            }
        },
    }
}

/// Whether the character is a decimal digit.
pub open spec fn is_digit_char(c: char) -> bool {
    48 <= c as int <= 57
}

/// The first position at or after `i` that does not hold a digit.
pub open spec fn skip_digits(s: Seq<char>, i: int) -> int
    decreases s.len() - i,
{
    if i < 0 || i >= s.len() {
        i
    } else if is_digit_char(s[i]) {
        skip_digits(s, i + 1)
    } else {
        i
    }
}

/// The position after the integer part that starts at `i`, or a negative
/// position when there is none: a single zero, or a nonzero digit
/// followed by digits.
pub open spec fn after_int_part(s: Seq<char>, i: int) -> int {
    if i >= s.len() || !is_digit_char(s[i]) {
        -1
    } else if s[i] == '0' {
        i + 1
    } else {
        skip_digits(s, i)
    }
}

/// The position after the optional fraction part at `j`: a dot demands at
/// least one digit.
pub open spec fn after_frac_part(s: Seq<char>, j: int) -> int {
    if j < 0 {
        -1
    } else if j < s.len() && s[j] == '.' {
        if j + 1 < s.len() && is_digit_char(s[j + 1]) {
            skip_digits(s, j + 1)
        } else {
            -1
        }
    } else {
        j
    }
}

/// The position after the optional exponent part at `k`: an `e` or `E`,
/// an optional sign, and at least one digit.
pub open spec fn after_exp_part(s: Seq<char>, k: int) -> int {
    if k < 0 {
        -1
    } else if k < s.len() && (s[k] == 'e' || s[k] == 'E') {
        let m = if k + 1 < s.len() && (s[k + 1] == '+' || s[k + 1] == '-') {
            k + 2
        } else {
            k + 1
        };
        if m < s.len() && is_digit_char(s[m]) {
            skip_digits(s, m)
        } else {
            -1
        }
    } else {
        k
    }
}

/// Whether the text is a JSON number literal: an optional minus, an
/// integer part, an optional fraction and an optional exponent, covering
/// the whole text.
pub open spec fn is_number_lit(s: Seq<char>) -> bool {
    let start: int = if s.len() > 0 && s[0] == '-' {
        1
    } else {
        0
    };
    after_exp_part(s, after_frac_part(s, after_int_part(s, start))) == s.len()
}

fn skip_digits_from(text: &str, i: usize, n: usize) -> (r: usize)
    requires
        i <= n,
        n == text@.len(),
    ensures
        r == skip_digits(text@, i as int),
        i <= r <= n,
{
    let mut j = i;
    let mut advancing = true;
    while advancing && j < n
        invariant
            i <= j <= n,
            n == text@.len(),
            skip_digits(text@, i as int) == skip_digits(text@, j as int),
            !advancing ==> skip_digits(text@, j as int) == j,
        decreases n - j, (if advancing { 1int } else { 0int }),
    {
        let cu = text.get_char(j) as u32;
        if 48 <= cu && cu <= 57 {
            j = j + 1;
        } else {
            advancing = false;
        }
    }
    j
}

/// Whether the text is a JSON number literal.
pub fn check_number_lit(text: &str) -> (b: bool)
    ensures
        b == is_number_lit(text@),
{
    let n = text.unicode_len();
    let start: usize = if n > 0 && text.get_char(0) == '-' {
        1
    } else {
        0
    };
    if start >= n {
        return false;
    }
    let c0 = text.get_char(start) as u32;
    if c0 < 48 || c0 > 57 {
        return false;
    }
    let j: usize = if c0 == 48 {
        start + 1
    } else {
        skip_digits_from(text, start, n)
    };
    assert(j == after_int_part(text@, start as int));
    let k: usize;
    if j < n && text.get_char(j) == '.' {
        if j + 1 < n {
            let c1 = text.get_char(j + 1) as u32;
            if 48 <= c1 && c1 <= 57 {
                k = skip_digits_from(text, j + 1, n);
            } else {
                return false;
            }
        } else {
            return false;
        }
    } else {
        k = j;
    }
    assert(k == after_frac_part(text@, j as int));
    if k < n && (text.get_char(k) == 'e' || text.get_char(k) == 'E') {
        let m: usize = if k + 1 < n && (text.get_char(k + 1) == '+' || text.get_char(k + 1)
            == '-') {
            k + 2
        } else {
            k + 1
        };
        if m < n {
            let c2 = text.get_char(m) as u32;
            if 48 <= c2 && c2 <= 57 {
                let e = skip_digits_from(text, m, n);
                assert(e == after_exp_part(text@, k as int));
                return e == n;
            }
        }
        assert(after_exp_part(text@, k as int) == -1);
        return false;
    }
    assert(k == after_exp_part(text@, k as int));
    k == n
}

} // verus!
