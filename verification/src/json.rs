//! A JSON document model and its serializer.
//!
//! `Json` carries free-form values (the API's `metadata`-style fields);
//! `jser` is the specification of their wire text, and `push_json`
//! produces exactly that text.

use vstd::prelude::*;
use crate::text::{dec_int, digit_char, push_char, push_i128};

verus! {

/// A JSON value.
#[derive(Debug)]
pub enum Json {
    Null,
    Bool(bool),
    Int(i128),
    Str(String),
    Arr(Vec<Json>),
    Obj(Vec<(String, Json)>),
}

/// The lower-case hexadecimal digit for `d`.
pub open spec fn hex_char(d: int) -> char {
    if d < 10 {
        digit_char(d)
    } else if d == 10 { 'a' }
    else if d == 11 { 'b' }
    else if d == 12 { 'c' }
    else if d == 13 { 'd' }
    else if d == 14 { 'e' }
    else { 'f' }
}

/// The escape text of one character inside a JSON string literal:
/// the two-character short escapes, `\u00..` for the remaining
/// control characters, and the character itself otherwise.
pub open spec fn esc_char(c: char) -> Seq<char> {
    if c == '"' {
        seq!['\\', '"']
    } else if c == '\\' {
        seq!['\\', '\\']
    } else if c == '\u{8}' {
        seq!['\\', 'b']
    } else if c == '\t' {
        seq!['\\', 't']
    } else if c == '\n' {
        seq!['\\', 'n']
    } else if c == '\u{c}' {
        seq!['\\', 'f']
    } else if c == '\r' {
        seq!['\\', 'r']
    } else if (c as u32) < 0x20 {
        seq!['\\', 'u', '0', '0', hex_char(c as u32 as int / 16), hex_char(c as u32 as int % 16)]
    } else {
        seq![c]
    }
}

/// The escaped body of a JSON string literal.
pub open spec fn esc(s: Seq<char>) -> Seq<char>
    decreases s.len(),
{
    if s.len() == 0 {
        Seq::empty()
    } else {
        esc_char(s[0]) + esc(s.drop_first())
    }
}

/// A complete JSON string literal: quotes around the escaped text.
pub open spec fn jstr(s: Seq<char>) -> Seq<char> {
    seq!['"'] + esc(s) + seq!['"']
}

/// The serialized form of a JSON value.
pub open spec fn jser(j: Json) -> Seq<char>
    decreases j, 1int,
{
    match j {
        Json::Null => "null"@,
        Json::Bool(b) => if b { "true"@ } else { "false"@ },
        Json::Int(i) => dec_int(i as int),
        Json::Str(s) => jstr(s@),
        Json::Arr(v) => seq!['['] + jser_items(v@) + seq![']'],
        Json::Obj(m) => seq!['{'] + jser_members(m@) + seq!['}'],
    }
}

/// The comma-separated serializations of array items.
pub open spec fn jser_items(s: Seq<Json>) -> Seq<char>
    decreases s, 0int,
{
    if s.len() == 0 {
        Seq::empty()
    } else if s.len() == 1 {
        jser(s[0])
    } else {
        jser(s[0]) + seq![','] + jser_items(s.drop_first())
    }
}

/// The comma-separated `"key":value` members of an object.
pub open spec fn jser_members(s: Seq<(String, Json)>) -> Seq<char>
    decreases s, 0int,
{
    if s.len() == 0 {
        Seq::empty()
    } else if s.len() == 1 {
        jstr(s[0].0@) + seq![':'] + jser(s[0].1)
    } else {
        jstr(s[0].0@) + seq![':'] + jser(s[0].1) + seq![','] + jser_members(s.drop_first())
    }
}

/// A serialized JSON array around already-serialized items.
pub open spec fn jarr(s: Seq<Json>) -> Seq<char> {
    seq!['['] + jser_items(s) + seq![']']
}

/// The value text of an optional string field: a string literal, or `null`.
pub open spec fn jopt_str(o: Option<String>) -> Seq<char> {
    match o {
        Option::Some(s) => jstr(s@),
        Option::None => "null"@,
    }
}

/// The value text of an optional integer field: its digits, or `null`.
pub open spec fn jopt_int(o: Option<i128>) -> Seq<char> {
    match o {
        Option::Some(i) => dec_int(i as int),
        Option::None => "null"@,
    }
}

/// The value text of an optional `i64` field: its digits, or `null`.
pub open spec fn jopt_i64(o: Option<i64>) -> Seq<char> {
    match o {
        Option::Some(i) => dec_int(i as int),
        Option::None => "null"@,
    }
}

/// The value text of an optional boolean field.
pub open spec fn jopt_bool(o: Option<bool>) -> Seq<char> {
    match o {
        Option::Some(b) => if b { "true"@ } else { "false"@ },
        Option::None => "null"@,
    }
}

/// The value text of an optional free-form JSON field.
pub open spec fn jopt_json(o: Option<Json>) -> Seq<char> {
    match o {
        Option::Some(j) => jser(j),
        Option::None => "null"@,
    }
}

/// The value text of an optional array of free-form JSON values.
pub open spec fn jopt_arr(o: Option<Vec<Json>>) -> Seq<char> {
    match o {
        Option::Some(v) => jarr(v@),
        Option::None => "null"@,
    }
}

/// One `"key":value` member of an object under construction; the key is
/// written verbatim between quotes and the value is already rendered.
pub open spec fn field_text(p: (Seq<char>, Seq<char>)) -> Seq<char> {
    seq!['"'] + p.0 + seq!['"', ':'] + p.1
}

/// The comma-separated members of an object under construction.
pub open spec fn fields_text(s: Seq<(Seq<char>, Seq<char>)>) -> Seq<char>
    decreases s.len(),
{
    if s.len() == 0 {
        Seq::empty()
    } else if s.len() == 1 {
        field_text(s[0])
    } else {
        field_text(s[0]) + seq![','] + fields_text(s.drop_first())
    }
}

/// A whole serialized object: braces around its members.
pub open spec fn obj_ser(s: Seq<(Seq<char>, Seq<char>)>) -> Seq<char> {
    seq!['{'] + fields_text(s) + seq!['}']
}

proof fn lemma_fields_text_push(s: Seq<(Seq<char>, Seq<char>)>, p: (Seq<char>, Seq<char>))
    ensures
        fields_text(s.push(p)) == if s.len() == 0 {
            field_text(p)
        } else {
            fields_text(s) + seq![','] + field_text(p)
        },
    decreases s.len(),
{
    if s.len() == 0 {
        assert(s.push(p)[0] == p);
    } else {
        assert(s.push(p)[0] == s[0]);
        assert(s.push(p).drop_first() =~= s.drop_first().push(p));
        lemma_fields_text_push(s.drop_first(), p);
        if s.len() > 1 {
            assert(field_text(s[0]) + seq![','] + (fields_text(s.drop_first()) + seq![',']
                + field_text(p)) =~= (field_text(s[0]) + seq![','] + fields_text(s.drop_first()))
                + seq![','] + field_text(p));
        }
    }
}

fn exec_hex_char(d: u32) -> (c: char)
    requires
        d < 16,
    ensures
        c == hex_char(d as int),
{
    if d == 0 { '0' }
    else if d == 1 { '1' }
    else if d == 2 { '2' }
    else if d == 3 { '3' }
    else if d == 4 { '4' }
    else if d == 5 { '5' }
    else if d == 6 { '6' }
    else if d == 7 { '7' }
    else if d == 8 { '8' }
    else if d == 9 { '9' }
    else if d == 10 { 'a' }
    else if d == 11 { 'b' }
    else if d == 12 { 'c' }
    else if d == 13 { 'd' }
    else if d == 14 { 'e' }
    else { 'f' }
}

fn push_esc_char(out: &mut String, c: char)
    ensures
        final(out)@ == old(out)@ + esc_char(c),
{
    if c == '"' {
        push_char(out, '\\');
        push_char(out, '"');
    } else if c == '\\' {
        push_char(out, '\\');
        push_char(out, '\\');
    } else if c == '\u{8}' {
        push_char(out, '\\');
        push_char(out, 'b');
    } else if c == '\t' {
        push_char(out, '\\');
        push_char(out, 't');
    } else if c == '\n' {
        push_char(out, '\\');
        push_char(out, 'n');
    } else if c == '\u{c}' {
        push_char(out, '\\');
        push_char(out, 'f');
    } else if c == '\r' {
        push_char(out, '\\');
        push_char(out, 'r');
    } else if (c as u32) < 0x20 {
        push_char(out, '\\');
        push_char(out, 'u');
        push_char(out, '0');
        push_char(out, '0');
        push_char(out, exec_hex_char((c as u32) / 16));
        push_char(out, exec_hex_char((c as u32) % 16));
    } else {
        push_char(out, c);
    }
    proof {
        assert(final(out)@ =~= old(out)@ + esc_char(c));
    }
}

/// Appends the escaped body of a JSON string literal for `s`.
pub fn push_esc(out: &mut String, s: &str)
    ensures
        final(out)@ == old(out)@ + esc(s@),
{
    let n = s.unicode_len();
    let mut i: usize = 0;
    proof {
        assert(s@.skip(0) =~= s@);
    }
    while i < n
        invariant
            n == s@.len(),
            i <= n,
            out@ + esc(s@.skip(i as int)) == old(out)@ + esc(s@),
        decreases n - i,
    {
        let c = s.get_char(i);
        proof {
            assert(s@.skip(i as int).drop_first() =~= s@.skip(i as int + 1));
            assert(s@.skip(i as int)[0] == c);
        }
        let ghost prev = out@;
        push_esc_char(out, c);
        proof {
            assert(prev + (esc_char(c) + esc(s@.skip(i as int + 1))) =~= (prev + esc_char(c))
                + esc(s@.skip(i as int + 1)));
        }
        i = i + 1;
    }
    proof {
        assert(s@.skip(n as int) =~= Seq::<char>::empty());
        assert(out@ + esc(Seq::<char>::empty()) =~= out@);
    }
}

/// Appends a complete JSON string literal for `s`.
pub fn push_jstr(out: &mut String, s: &str)
    ensures
        final(out)@ == old(out)@ + jstr(s@),
{
    push_char(out, '"');
    push_esc(out, s);
    push_char(out, '"');
    proof {
        assert(final(out)@ =~= old(out)@ + jstr(s@));
    }
}

/// Appends the serialized form of a JSON value.
pub fn push_json(out: &mut String, j: &Json)
    ensures
        final(out)@ == old(out)@ + jser(*j),
    decreases *j, 0int, 0int,
{
    match j {
        Json::Null => {
            out.append("null");
        },
        Json::Bool(b) => {
            if *b {
                out.append("true");
            } else {
                out.append("false");
            }
        },
        Json::Int(i) => {
            push_i128(out, *i);
        },
        Json::Str(s) => {
            push_jstr(out, s.as_str());
        },
        Json::Arr(v) => {
            push_char(out, '[');
            push_items(out, v, 0);
            push_char(out, ']');
            proof {
                assert(v@.skip(0) =~= v@);
                assert(final(out)@ =~= old(out)@ + jser(*j));
            }
        },
        Json::Obj(m) => {
            push_char(out, '{');
            push_members(out, m, 0);
            push_char(out, '}');
            proof {
                assert(m@.skip(0) =~= m@);
                assert(final(out)@ =~= old(out)@ + jser(*j));
            }
        },
    }
}

fn push_items(out: &mut String, v: &Vec<Json>, i: usize)
    requires
        i <= v@.len(),
    ensures
        final(out)@ == old(out)@ + jser_items(v@.skip(i as int)),
    decreases v@, v@.len() - i, 1int,
{
    proof {
        assert(v@.skip(i as int).len() == v@.len() - i);
    }
    if i < v.len() {
        proof {
            assert(v@.skip(i as int)[0] == v@[i as int]);
            assert(v@.skip(i as int).drop_first() =~= v@.skip(i as int + 1));
        }
        push_json(out, &v[i]);
        if i + 1 < v.len() {
            push_char(out, ',');
            push_items(out, v, i + 1);
            proof {
                assert(final(out)@ =~= old(out)@ + jser_items(v@.skip(i as int)));
            }
        }
    }
}

fn push_members(out: &mut String, m: &Vec<(String, Json)>, i: usize)
    requires
        i <= m@.len(),
    ensures
        final(out)@ == old(out)@ + jser_members(m@.skip(i as int)),
    decreases m@, m@.len() - i, 1int,
{
    proof {
        assert(m@.skip(i as int).len() == m@.len() - i);
    }
    if i < m.len() {
        proof {
            assert(m@.skip(i as int)[0] == m@[i as int]);
            assert(m@.skip(i as int).drop_first() =~= m@.skip(i as int + 1));
        }
        push_jstr(out, m[i].0.as_str());
        push_char(out, ':');
        push_json(out, &m[i].1);
        if i + 1 < m.len() {
            push_char(out, ',');
            push_members(out, m, i + 1);
        }
        proof {
            assert(final(out)@ =~= old(out)@ + jser_members(m@.skip(i as int)));
        }
    }
}

/// Renders a JSON array of free-form values.
pub fn render_arr(items: &Vec<Json>) -> (r: String)
    ensures
        r@ == jarr(items@),
{
    let mut r = String::new();
    push_char(&mut r, '[');
    push_items(&mut r, items, 0);
    push_char(&mut r, ']');
    proof {
        assert(items@.skip(0) =~= items@);
        assert(r@ =~= jarr(items@));
    }
    r
}

/// The comma-separated string literals of an array of strings.
pub open spec fn jstr_items(ss: Seq<String>) -> Seq<char>
    decreases ss.len(),
{
    if ss.len() == 0 {
        Seq::empty()
    } else if ss.len() == 1 {
        jstr(ss[0]@)
    } else {
        jstr(ss[0]@) + seq![','] + jstr_items(ss.drop_first())
    }
}

/// A serialized JSON array of string literals.
pub open spec fn jarr_str(ss: Seq<String>) -> Seq<char> {
    seq!['['] + jstr_items(ss) + seq![']']
}

/// The value text of an optional array-of-strings field.
pub open spec fn jopt_arr_str(o: Option<Vec<String>>) -> Seq<char> {
    match o {
        Option::Some(v) => jarr_str(v@),
        Option::None => "null"@,
    }
}

fn push_str_items(out: &mut String, v: &Vec<String>, i: usize)
    requires
        i <= v@.len(),
    ensures
        final(out)@ == old(out)@ + jstr_items(v@.skip(i as int)),
    decreases v@.len() - i,
{
    proof {
        assert(v@.skip(i as int).len() == v@.len() - i);
    }
    if i < v.len() {
        proof {
            assert(v@.skip(i as int)[0] == v@[i as int]);
            assert(v@.skip(i as int).drop_first() =~= v@.skip(i as int + 1));
        }
        push_jstr(out, v[i].as_str());
        if i + 1 < v.len() {
            push_char(out, ',');
            push_str_items(out, v, i + 1);
            proof {
                assert(final(out)@ =~= old(out)@ + jstr_items(v@.skip(i as int)));
            }
        }
    }
}

/// Renders a JSON array of string literals.
pub fn render_arr_str(items: &Vec<String>) -> (r: String)
    ensures
        r@ == jarr_str(items@),
{
    let mut r = String::new();
    push_char(&mut r, '[');
    push_str_items(&mut r, items, 0);
    push_char(&mut r, ']');
    proof {
        assert(items@.skip(0) =~= items@);
        assert(r@ =~= jarr_str(items@));
    }
    r
}

/// The comma-separated digits of an array of integers.
pub open spec fn jint_items(s: Seq<i128>) -> Seq<char>
    decreases s.len(),
{
    if s.len() == 0 {
        Seq::empty()
    } else if s.len() == 1 {
        dec_int(s[0] as int)
    } else {
        dec_int(s[0] as int) + seq![','] + jint_items(s.drop_first())
    }
}

/// A serialized JSON array of integers.
pub open spec fn jarr_int(s: Seq<i128>) -> Seq<char> {
    seq!['['] + jint_items(s) + seq![']']
}

fn push_int_items(out: &mut String, v: &Vec<i128>, i: usize)
    requires
        i <= v@.len(),
    ensures
        final(out)@ == old(out)@ + jint_items(v@.skip(i as int)),
    decreases v@.len() - i,
{
    proof {
        assert(v@.skip(i as int).len() == v@.len() - i);
    }
    if i < v.len() {
        proof {
            assert(v@.skip(i as int)[0] == v@[i as int]);
            assert(v@.skip(i as int).drop_first() =~= v@.skip(i as int + 1));
        }
        push_i128(out, v[i]);
        if i + 1 < v.len() {
            push_char(out, ',');
            push_int_items(out, v, i + 1);
            proof {
                assert(final(out)@ =~= old(out)@ + jint_items(v@.skip(i as int)));
            }
        }
    }
}

/// Renders a JSON array of integers.
pub fn render_arr_int(items: &Vec<i128>) -> (r: String)
    ensures
        r@ == jarr_int(items@),
{
    let mut r = String::new();
    push_char(&mut r, '[');
    push_int_items(&mut r, items, 0);
    push_char(&mut r, ']');
    proof {
        assert(items@.skip(0) =~= items@);
        assert(r@ =~= jarr_int(items@));
    }
    r
}

/// An incremental builder for one serialized JSON object.
///
/// The view is the sequence of members written so far, each a pair of
/// raw key text and rendered value text; `finish` returns exactly
/// `obj_ser` of that sequence.
pub struct JsonObj {
    text: String,
    has_fields: bool,
    fields: Ghost<Seq<(Seq<char>, Seq<char>)>>,
}

impl View for JsonObj {
    type V = Seq<(Seq<char>, Seq<char>)>;

    closed spec fn view(&self) -> Seq<(Seq<char>, Seq<char>)> {
        self.fields@
    }
}

impl JsonObj {
    /// The builder's text is the serialization of the members so far.
    pub closed spec fn wf(self) -> bool {
        &&& self.text@ == fields_text(self.fields@)
        &&& self.has_fields <==> self.fields@.len() != 0
    }

    pub fn new() -> (r: JsonObj)
        ensures
            r.wf(),
            r@ == Seq::<(Seq<char>, Seq<char>)>::empty(),
    {
        JsonObj { text: String::new(), has_fields: false, fields: Ghost(Seq::empty()) }
    }

    /// Appends one member whose value text is passed already rendered.
    pub fn field_pre(&mut self, key: &str, value: &str)
        requires
            old(self).wf(),
        ensures
            final(self).wf(),
            final(self)@ == old(self)@.push((key@, value@)),
    {
        if self.has_fields {
            push_char(&mut self.text, ',');
        }
        push_char(&mut self.text, '"');
        self.text.append(key);
        push_char(&mut self.text, '"');
        push_char(&mut self.text, ':');
        self.text.append(value);
        proof {
            lemma_fields_text_push(self.fields@, (key@, value@));
            self.fields@ = self.fields@.push((key@, value@));
            assert(self.text@ =~= fields_text(self.fields@));
        }
        self.has_fields = true;
    }

    /// Appends a string-valued member, escaped as a JSON string literal.
    pub fn field_str(&mut self, key: &str, value: &str)
        requires
            old(self).wf(),
        ensures
            final(self).wf(),
            final(self)@ == old(self)@.push((key@, jstr(value@))),
    {
        let mut v = String::new();
        push_jstr(&mut v, value);
        self.field_pre(key, v.as_str());
    }

    /// Appends an integer-valued member.
    pub fn field_int(&mut self, key: &str, value: i128)
        requires
            old(self).wf(),
        ensures
            final(self).wf(),
            final(self)@ == old(self)@.push((key@, dec_int(value as int))),
    {
        let mut v = String::new();
        push_i128(&mut v, value);
        self.field_pre(key, v.as_str());
    }

    /// Appends a boolean-valued member.
    pub fn field_bool(&mut self, key: &str, value: bool)
        requires
            old(self).wf(),
        ensures
            final(self).wf(),
            final(self)@ == old(self)@.push((key@, if value { "true"@ } else { "false"@ })),
    {
        if value {
            self.field_pre(key, "true");
        } else {
            self.field_pre(key, "false");
        }
    }

    /// Appends a member holding a free-form JSON value.
    pub fn field_json(&mut self, key: &str, value: &Json)
        requires
            old(self).wf(),
        ensures
            final(self).wf(),
            final(self)@ == old(self)@.push((key@, jser(*value))),
    {
        let mut v = String::new();
        push_json(&mut v, value);
        self.field_pre(key, v.as_str());
    }

    /// Appends an optional string member; `None` serializes as `null`.
    pub fn field_opt_str(&mut self, key: &str, value: &Option<String>)
        requires
            old(self).wf(),
        ensures
            final(self).wf(),
            final(self)@ == old(self)@.push((key@, jopt_str(*value))),
    {
        match value {
            Option::Some(s) => self.field_str(key, s.as_str()),
            Option::None => self.field_pre(key, "null"),
        }
    }

    /// Appends an optional integer member; `None` serializes as `null`.
    pub fn field_opt_int(&mut self, key: &str, value: &Option<i128>)
        requires
            old(self).wf(),
        ensures
            final(self).wf(),
            final(self)@ == old(self)@.push((key@, jopt_int(*value))),
    {
        match value {
            Option::Some(i) => self.field_int(key, *i),
            Option::None => self.field_pre(key, "null"),
        }
    }

    /// Appends an optional `i64` member; `None` serializes as `null`.
    pub fn field_opt_i64(&mut self, key: &str, value: &Option<i64>)
        requires
            old(self).wf(),
        ensures
            final(self).wf(),
            final(self)@ == old(self)@.push((key@, jopt_i64(*value))),
    {
        match value {
            Option::Some(i) => self.field_int(key, *i as i128),
            Option::None => self.field_pre(key, "null"),
        }
    }

    /// Appends an optional boolean member; `None` serializes as `null`.
    pub fn field_opt_bool(&mut self, key: &str, value: &Option<bool>)
        requires
            old(self).wf(),
        ensures
            final(self).wf(),
            final(self)@ == old(self)@.push((key@, jopt_bool(*value))),
    {
        match value {
            Option::Some(b) => self.field_bool(key, *b),
            Option::None => self.field_pre(key, "null"),
        }
    }

    /// Appends an optional free-form JSON member; `None` serializes as `null`.
    pub fn field_opt_json(&mut self, key: &str, value: &Option<Json>)
        requires
            old(self).wf(),
        ensures
            final(self).wf(),
            final(self)@ == old(self)@.push((key@, jopt_json(*value))),
    {
        match value {
            Option::Some(j) => self.field_json(key, j),
            Option::None => self.field_pre(key, "null"),
        }
    }

    /// Appends an optional member holding an array of free-form JSON
    /// values; `None` serializes as `null`.
    pub fn field_opt_arr(&mut self, key: &str, value: &Option<Vec<Json>>)
        requires
            old(self).wf(),
        ensures
            final(self).wf(),
            final(self)@ == old(self)@.push((key@, jopt_arr(*value))),
    {
        match value {
            Option::Some(v) => {
                let r = render_arr(v);
                self.field_pre(key, r.as_str());
            },
            Option::None => self.field_pre(key, "null"),
        }
    }

    /// Closes the object and returns its full serialization.
    pub fn finish(self) -> (r: String)
        requires
            self.wf(),
        ensures
            r@ == obj_ser(self@),
    {
        let mut r = String::new();
        push_char(&mut r, '{');
        r.append(self.text.as_str());
        push_char(&mut r, '}');
        proof {
            assert(r@ =~= obj_ser(self@));
        }
        r
    }
}

} // verus!
