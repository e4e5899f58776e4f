//! Query-string building in the `application/x-www-form-urlencoded`
//! format: percent-encoding of values and `key=value` pairs joined
//! with `&`.

use vstd::prelude::*;
use vstd::utf8::encode_utf8;
use crate::text::{dec_int, digit_char, push_char, push_i128};

verus! {

/// The upper-case hexadecimal digit for `d`.
pub open spec fn hex_upper_char(d: int) -> char {
    if d < 10 {
        digit_char(d)
    } else if d == 10 { 'A' }
    else if d == 11 { 'B' }
    else if d == 12 { 'C' }
    else if d == 13 { 'D' }
    else if d == 14 { 'E' }
    else { 'F' }
}

/// Bytes written without encoding: ASCII alphanumerics and `*-._`.
pub open spec fn form_safe(b: u8) -> bool {
    ||| (0x30 <= b && b <= 0x39)
    ||| (0x41 <= b && b <= 0x5a)
    ||| (0x61 <= b && b <= 0x7a)
    ||| b == 0x2a
    ||| b == 0x2d
    ||| b == 0x2e
    ||| b == 0x5f
}

/// The encoding of one byte: space becomes `+`, safe bytes stand as
/// themselves, and every other byte becomes `%` and two upper-case
/// hexadecimal digits.
pub open spec fn form_byte(b: u8) -> Seq<char> {
    if b == 0x20 {
        seq!['+']
    } else if form_safe(b) {
        seq![b as char]
    } else {
        seq!['%', hex_upper_char(b as int / 16), hex_upper_char(b as int % 16)]
    }
}

/// The encoding of a byte sequence.
pub open spec fn form_bytes(bs: Seq<u8>) -> Seq<char>
    decreases bs.len(),
{
    if bs.len() == 0 {
        Seq::empty()
    } else {
        form_byte(bs[0]) + form_bytes(bs.drop_first())
    }
}

/// The encoding of a string value: its UTF-8 bytes, each encoded.
pub open spec fn form_str(s: Seq<char>) -> Seq<char> {
    form_bytes(encode_utf8(s))
}

fn exec_hex_upper_char(d: u8) -> (c: char)
    requires
        d < 16,
    ensures
        c == hex_upper_char(d as int),
{
    if d == 0 { '0' }
    else if d == 1 { '1' }
    else if d == 2 { '2' }
    else if d == 3 { '3' }
    else if d == 4 { '4' }
    else if d == 5 { '5' }
    else if d == 6 { '6' }
    else if d == 7 { '7' }
    else if d == 8 { '8' }
    else if d == 9 { '9' }
    else if d == 10 { 'A' }
    else if d == 11 { 'B' }
    else if d == 12 { 'C' }
    else if d == 13 { 'D' }
    else if d == 14 { 'E' }
    else { 'F' }
}

fn push_form_byte(out: &mut String, b: u8)
    ensures
        final(out)@ == old(out)@ + form_byte(b),
{
    if b == 0x20 {
        push_char(out, '+');
    } else if (0x30 <= b && b <= 0x39) || (0x41 <= b && b <= 0x5a) || (0x61 <= b && b <= 0x7a)
        || b == 0x2a || b == 0x2d || b == 0x2e || b == 0x5f {
        push_char(out, b as char);
    } else {
        push_char(out, '%');
        push_char(out, exec_hex_upper_char(b / 16));
        push_char(out, exec_hex_upper_char(b % 16));
    }
    proof {
        assert(final(out)@ =~= old(out)@ + form_byte(b));
    }
}

/// Appends the form encoding of `s`.
pub fn push_form_str(out: &mut String, s: &str)
    ensures
        final(out)@ == old(out)@ + form_str(s@),
{
    let bs = s.as_bytes_vec();
    let n = bs.len();
    let mut i: usize = 0;
    proof {
        assert(bs@.skip(0) =~= bs@);
    }
    while i < n
        invariant
            n == bs@.len(),
            i <= n,
            bs@ == encode_utf8(s@),
            out@ + form_bytes(bs@.skip(i as int)) == old(out)@ + form_str(s@),
        decreases n - i,
    {
        proof {
            assert(bs@.skip(i as int).drop_first() =~= bs@.skip(i as int + 1));
            assert(bs@.skip(i as int)[0] == bs@[i as int]);
        }
        let ghost prev = out@;
        let b = bs[i];
        push_form_byte(out, b);
        proof {
            assert(prev + (form_byte(b) + form_bytes(bs@.skip(i as int + 1))) =~= (prev
                + form_byte(b)) + form_bytes(bs@.skip(i as int + 1)));
        }
        i = i + 1;
    }
    proof {
        assert(bs@.skip(n as int) =~= Seq::<u8>::empty());
        assert(out@ + form_bytes(Seq::<u8>::empty()) =~= out@);
    }
}

/// One `key=value` pair of a query string; both sides are already
/// rendered text.
pub open spec fn pair_text(p: (Seq<char>, Seq<char>)) -> Seq<char> {
    p.0 + seq!['='] + p.1
}

/// The pairs of a query string, joined with `&`.
pub open spec fn pairs_text(s: Seq<(Seq<char>, Seq<char>)>) -> Seq<char>
    decreases s.len(),
{
    if s.len() == 0 {
        Seq::empty()
    } else if s.len() == 1 {
        pair_text(s[0])
    } else {
        pair_text(s[0]) + seq!['&'] + pairs_text(s.drop_first())
    }
}

proof fn lemma_pairs_text_push(s: Seq<(Seq<char>, Seq<char>)>, p: (Seq<char>, Seq<char>))
    ensures
        pairs_text(s.push(p)) == if s.len() == 0 {
            pair_text(p)
        } else {
            pairs_text(s) + seq!['&'] + pair_text(p)
        },
    decreases s.len(),
{
    if s.len() == 0 {
        assert(s.push(p)[0] == p);
    } else {
        assert(s.push(p)[0] == s[0]);
        assert(s.push(p).drop_first() =~= s.drop_first().push(p));
        lemma_pairs_text_push(s.drop_first(), p);
        if s.len() > 1 {
            assert(pair_text(s[0]) + seq!['&'] + (pairs_text(s.drop_first()) + seq!['&']
                + pair_text(p)) =~= (pair_text(s[0]) + seq!['&'] + pairs_text(s.drop_first()))
                + seq!['&'] + pair_text(p));
        }
    }
}

/// The pair contributed by an optional string parameter: nothing when
/// absent, one form-encoded pair when present.
pub open spec fn opt_str_pair(k: Seq<char>, o: Option<String>) -> Seq<(Seq<char>, Seq<char>)> {
    match o {
        Option::Some(s) => seq![(k, form_str(s@))],
        Option::None => Seq::empty(),
    }
}

/// The pair contributed by an optional integer parameter.
pub open spec fn opt_int_pair(k: Seq<char>, o: Option<i128>) -> Seq<(Seq<char>, Seq<char>)> {
    match o {
        Option::Some(i) => seq![(k, dec_int(i as int))],
        Option::None => Seq::empty(),
    }
}

/// The pair contributed by an optional `i64` parameter.
pub open spec fn opt_i64_pair(k: Seq<char>, o: Option<i64>) -> Seq<(Seq<char>, Seq<char>)> {
    match o {
        Option::Some(i) => seq![(k, dec_int(i as int))],
        Option::None => Seq::empty(),
    }
}

/// The pair contributed by an optional boolean parameter.
pub open spec fn opt_bool_pair(k: Seq<char>, o: Option<bool>) -> Seq<(Seq<char>, Seq<char>)> {
    match o {
        Option::Some(b) => seq![(k, if b { "true"@ } else { "false"@ })],
        Option::None => Seq::empty(),
    }
}

/// An incremental builder for one query string.
///
/// The view is the sequence of pairs written so far, each a pair of raw
/// key text and rendered value text; `finish` returns exactly
/// `pairs_text` of that sequence.
pub struct QueryString {
    text: String,
    has_pairs: bool,
    pairs: Ghost<Seq<(Seq<char>, Seq<char>)>>,
}

impl View for QueryString {
    type V = Seq<(Seq<char>, Seq<char>)>;

    closed spec fn view(&self) -> Seq<(Seq<char>, Seq<char>)> {
        self.pairs@
    }
}

impl QueryString {
    /// The builder's text is the serialization of the pairs so far.
    pub closed spec fn wf(self) -> bool {
        &&& self.text@ == pairs_text(self.pairs@)
        &&& self.has_pairs <==> self.pairs@.len() != 0
    }

    pub fn new() -> (r: QueryString)
        ensures
            r.wf(),
            r@ == Seq::<(Seq<char>, Seq<char>)>::empty(),
    {
        QueryString { text: String::new(), has_pairs: false, pairs: Ghost(Seq::empty()) }
    }

    /// Appends one pair whose value text is passed already rendered.
    pub fn pair_pre(&mut self, key: &str, value: &str)
        requires
            old(self).wf(),
        ensures
            final(self).wf(),
            final(self)@ == old(self)@.push((key@, value@)),
    {
        if self.has_pairs {
            push_char(&mut self.text, '&');
        }
        self.text.append(key);
        push_char(&mut self.text, '=');
        self.text.append(value);
        proof {
            lemma_pairs_text_push(self.pairs@, (key@, value@));
            self.pairs@ = self.pairs@.push((key@, value@));
            assert(self.text@ =~= pairs_text(self.pairs@));
        }
        self.has_pairs = true;
    }

    /// Appends a pair with a form-encoded string value.
    pub fn pair_str(&mut self, key: &str, value: &str)
        requires
            old(self).wf(),
        ensures
            final(self).wf(),
            final(self)@ == old(self)@.push((key@, form_str(value@))),
    {
        let mut v = String::new();
        push_form_str(&mut v, value);
        self.pair_pre(key, v.as_str());
    }

    /// Appends a pair with an integer value.
    pub fn pair_int(&mut self, key: &str, value: i128)
        requires
            old(self).wf(),
        ensures
            final(self).wf(),
            final(self)@ == old(self)@.push((key@, dec_int(value as int))),
    {
        let mut v = String::new();
        push_i128(&mut v, value);
        self.pair_pre(key, v.as_str());
    }

    /// Appends a pair with a boolean value, written `true` or `false`.
    pub fn pair_bool(&mut self, key: &str, value: bool)
        requires
            old(self).wf(),
        ensures
            final(self).wf(),
            final(self)@ == old(self)@.push((key@, if value { "true"@ } else { "false"@ })),
    {
        if value {
            self.pair_pre(key, "true");
        } else {
            self.pair_pre(key, "false");
        }
    }

    /// Returns the full query-string text.
    pub fn finish(self) -> (r: String)
        requires
            self.wf(),
        ensures
            r@ == pairs_text(self@),
    {
        self.text
    }
}

} // verus!
