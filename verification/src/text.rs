//! Character-level helpers shared by the rest of the library.

use vstd::prelude::*;

verus! {

broadcast use vstd::string::group_string_axioms;

/// The text of an optional string.
pub open spec fn opt_view(o: Option<String>) -> Option<Seq<char>> {
    match o {
        Some(s) => Some(s@),
        None => None,
    }
}

/// Appends one character to a string (`String::push`).
#[verifier::external_body]
pub(crate) fn push_char(s: &mut String, c: char)
    ensures
        final(s)@ == old(s)@.push(c),
{
    s.push(c);
}

/// The characters of `s`, in order.
pub fn chars_of(s: &str) -> (v: Vec<char>)
    ensures
        v@ == s@,
{
    let mut v: Vec<char> = Vec::new();
    for c in it: s.chars()
        invariant
            v@ == it.seq().take(it.index()),
    {
        v.push(c);
    }
    v
}


/// `s` cut to at most `n` characters.
pub open spec fn spec_prefix(s: Seq<char>, n: nat) -> Seq<char> {
    if s.len() <= n {
        s
    } else {
        s.take(n as int)
    }
}

/// The characters of `v` from position `from` on, as a string.
pub fn string_from(v: &Vec<char>, from: usize) -> (res: String)
    requires
        from <= v@.len(),
    ensures
        res@ == v@.skip(from as int),
{
    let mut res = String::new();
    let mut i: usize = from;
    while i < v.len()
        invariant
            from <= i <= v@.len(),
            res@ == v@.subrange(from as int, i as int),
        decreases v.len() - i,
    {
        push_char(&mut res, v[i]);
        assert(v@.subrange(from as int, i + 1) =~= v@.subrange(from as int, i as int).push(v@[i as int]));
        i = i + 1;
    }
    assert(v@.subrange(from as int, i as int) =~= v@.skip(from as int));
    res
}

/// Whether `s` begins with `prefix`.
pub open spec fn has_prefix(s: Seq<char>, prefix: Seq<char>) -> bool {
    prefix.len() <= s.len() && s.take(prefix.len() as int) == prefix
}

/// Whether the characters of `v` begin with those of `prefix`.
pub fn starts_with_chars(v: &Vec<char>, prefix: &Vec<char>) -> (res: bool)
    ensures
        res == has_prefix(v@, prefix@),
{
    if prefix.len() > v.len() {
        return false;
    }
    let mut i: usize = 0;
    while i < prefix.len()
        invariant
            prefix@.len() <= v@.len(),
            i <= prefix@.len(),
            forall|j: int| 0 <= j < i ==> v@[j] == prefix@[j],
        decreases prefix.len() - i,
    {
        if v[i] != prefix[i] {
            assert(v@.take(prefix@.len() as int)[i as int] != prefix@[i as int]);
            return false;
        }
        i = i + 1;
    }
    assert(v@.take(prefix@.len() as int) =~= prefix@);
    true
}

/// Whether two texts are equal, compared character by character.
pub fn str_eq(a: &str, b: &str) -> (res: bool)
    ensures
        res == (a@ == b@),
{
    let va = chars_of(a);
    let vb = chars_of(b);
    chars_eq(&va, &vb)
}

/// The first `n` characters of `s` (all of `s` when it is shorter).
pub fn prefix_chars(s: &str, n: usize) -> (res: String)
    ensures
        res@ == spec_prefix(s@, n as nat),
{
    let mut res = String::new();
    let mut count: usize = 0;
    for c in it: s.chars()
        invariant
            count as int == if it.index() <= n { it.index() } else { n as int },
            res@ == spec_prefix(it.seq().take(it.index()), n as nat),
    {
        if count < n {
            assert(it.seq().take(it.index() + 1) =~= it.seq().take(it.index()).push(c));
            push_char(&mut res, c);
            count = count + 1;
        } else {
            assert(spec_prefix(it.seq().take(it.index() + 1), n as nat) =~= spec_prefix(
                it.seq().take(it.index()),
                n as nat,
            ));
        }
    }
    res
}

/// ASCII lower-casing of one character; every other character is kept.
pub open spec fn lower_ascii_char(c: char) -> char {
    if 'A' <= c && c <= 'Z' {
        ((c as u32) + 32) as char
    } else {
        c
    }
}

/// ASCII lower-casing of a text.
pub open spec fn lower_ascii_seq(s: Seq<char>) -> Seq<char> {
    s.map_values(|c: char| lower_ascii_char(c))
}

fn lower_char(c: char) -> (res: char)
    ensures
        res == lower_ascii_char(c),
{
    if 'A' <= c && c <= 'Z' {
        let code: u32 = (c as u32) + 32;
        let b: u8 = code as u8;
        b as char
    } else {
        c
    }
}

/// The characters of `s`, ASCII-lower-cased.
pub fn lower_ascii(s: &str) -> (v: Vec<char>)
    ensures
        v@ == lower_ascii_seq(s@),
{
    let mut v: Vec<char> = Vec::new();
    for c in it: s.chars()
        invariant
            v@ == lower_ascii_seq(it.seq().take(it.index())),
    {
        assert(it.seq().take(it.index() + 1) =~= it.seq().take(it.index()).push(c));
        v.push(lower_char(c));
        assert(v@ =~= lower_ascii_seq(it.seq().take(it.index() + 1)));
    }
    v
}

/// Whether two character vectors hold the same text.
pub fn chars_eq(a: &Vec<char>, b: &Vec<char>) -> (res: bool)
    ensures
        res == (a@ == b@),
{
    if a.len() != b.len() {
        return false;
    }
    let mut i: usize = 0;
    while i < a.len()
        invariant
            i <= a.len(),
            a.len() == b.len(),
            forall|j: int| 0 <= j < i ==> a@[j] == b@[j],
        decreases a.len() - i,
    {
        if a[i] != b[i] {
            return false;
        }
        i = i + 1;
    }
    assert(a@ =~= b@);
    true
}


/// The decimal digit character for a value below 10.
pub open spec fn digit_char(d: nat) -> char {
    seq!['0', '1', '2', '3', '4', '5', '6', '7', '8', '9'][d as int]
}

proof fn lemma_digit_char(d: nat)
    requires
        d < 10,
    ensures
        is_digit_char(digit_char(d)),
        digit_value(digit_char(d)) == d,
{
    let ds = seq!['0', '1', '2', '3', '4', '5', '6', '7', '8', '9'];
    assert(ds[0] == '0' && ds[1] == '1' && ds[2] == '2' && ds[3] == '3' && ds[4] == '4');
    assert(ds[5] == '5' && ds[6] == '6' && ds[7] == '7' && ds[8] == '8' && ds[9] == '9');
}

/// Decimal text of a natural number, without leading zeros.
pub open spec fn nat_decimal(n: nat) -> Seq<char>
    decreases n,
{
    if n < 10 {
        seq![digit_char(n)]
    } else {
        nat_decimal(n / 10).push(digit_char(n % 10))
    }
}

/// Decimal text of an integer: a `-` before the digits of a negative value.
pub open spec fn int_decimal(i: int) -> Seq<char> {
    if i < 0 {
        seq!['-'] + nat_decimal((-i) as nat)
    } else {
        nat_decimal(i as nat)
    }
}

fn digit(d: u64) -> (c: char)
    requires
        d < 10,
    ensures
        c == digit_char(d as nat),
{
    proof {
        let ds = seq!['0', '1', '2', '3', '4', '5', '6', '7', '8', '9'];
        assert(ds[0] == '0' && ds[1] == '1' && ds[2] == '2' && ds[3] == '3' && ds[4] == '4');
        assert(ds[5] == '5' && ds[6] == '6' && ds[7] == '7' && ds[8] == '8' && ds[9] == '9');
    }
    match d {
        0 => '0',
        1 => '1',
        2 => '2',
        3 => '3',
        4 => '4',
        5 => '5',
        6 => '6',
        7 => '7',
        8 => '8',
        _ => '9',
    }
}

fn push_nat_decimal(out: &mut String, n: u64)
    ensures
        final(out)@ == old(out)@ + nat_decimal(n as nat),
    decreases n,
{
    if n >= 10 {
        push_nat_decimal(out, n / 10);
    }
    push_char(out, digit(n % 10));
    proof {
        if n >= 10 {
            assert(nat_decimal(n as nat) == nat_decimal((n / 10) as nat).push(
                digit_char((n % 10) as nat),
            ));
        }
    }
}

/// Appends the decimal text of `i` to `out`.
pub fn push_i64_decimal(out: &mut String, i: i64)
    ensures
        final(out)@ == old(out)@ + int_decimal(i as int),
{
    if i < 0 {
        push_char(out, '-');
        let wide: i128 = i as i128;
        let magnitude: u64 = (-wide) as u64;
        push_nat_decimal(out, magnitude);
        proof {
            assert(final(out)@ =~= old(out)@ + (seq!['-'] + nat_decimal((-i) as nat)));
        }
    } else {
        let magnitude: u64 = i as u64;
        push_nat_decimal(out, magnitude);
    }
}

/// Appends the decimal text of `n` to `out`.
pub fn push_u64_decimal(out: &mut String, n: u64)
    ensures
        final(out)@ == old(out)@ + int_decimal(n as int),
{
    push_nat_decimal(out, n);
}

/// Decimal text of `i` (what `i.to_string()` gives).
pub fn i64_to_decimal(i: i64) -> (res: String)
    ensures
        res@ == int_decimal(i as int),
{
    let mut res = String::new();
    push_i64_decimal(&mut res, i);
    assert(res@ =~= int_decimal(i as int));
    res
}

/// Whether a character is an ASCII decimal digit.
pub open spec fn is_digit_char(c: char) -> bool {
    '0' <= c && c <= '9'
}

/// Value of a character that is a decimal digit.
pub open spec fn digit_value(c: char) -> nat {
    ((c as u32) - 48) as nat
}

/// Whether every character of `s` is a decimal digit.
pub open spec fn all_digits(s: Seq<char>) -> bool {
    forall|k: int| 0 <= k < s.len() ==> is_digit_char(#[trigger] s[k])
}

/// Value of a run of decimal digits, most significant first.
pub open spec fn digits_value(s: Seq<char>) -> nat
    decreases s.len(),
{
    if s.len() == 0 {
        0
    } else {
        digits_value(s.drop_last()) * 10 + digit_value(s.last())
    }
}

/// Whether a number text starts with a sign character.
pub open spec fn has_sign(s: Seq<char>) -> bool {
    s.len() > 0 && (s[0] == '-' || s[0] == '+')
}

/// The digits part of a number text: what follows an optional sign.
pub open spec fn unsigned_part(s: Seq<char>) -> Seq<char> {
    if has_sign(s) {
        s.drop_first()
    } else {
        s
    }
}

/// What `str::parse::<i64>` accepts: an optional `+` or `-`, then one or more
/// decimal digits whose value (negated after `-`) lies in the `i64` range.
pub open spec fn spec_parse_i64(s: Seq<char>) -> Option<i64> {
    let negative = s.len() > 0 && s[0] == '-';
    let body = unsigned_part(s);
    if body.len() == 0 || !all_digits(body) {
        None
    } else {
        let v: int = if negative {
            -(digits_value(body) as int)
        } else {
            digits_value(body) as int
        };
        if i64::MIN <= v <= i64::MAX {
            Some(v as i64)
        } else {
            None
        }
    }
}

proof fn lemma_digits_value_push(s: Seq<char>, c: char)
    ensures
        digits_value(s.push(c)) == digits_value(s) * 10 + digit_value(c),
{
    assert(s.push(c).drop_last() =~= s);
}

proof fn lemma_digits_value_monotone(s: Seq<char>, t: Seq<char>)
    requires
        all_digits(s + t),
    ensures
        digits_value(s + t) >= digits_value(s),
    decreases t.len(),
{
    if t.len() > 0 {
        let u = t.drop_last();
        assert((s + t).drop_last() =~= s + u);
        assert(all_digits(s + u)) by {
            assert forall|k: int| 0 <= k < (s + u).len() implies is_digit_char(
                #[trigger] (s + u)[k],
            ) by {
                assert((s + u)[k] == (s + t)[k]);
            }
        }
        lemma_digits_value_monotone(s, u);
    }
}

/// Reads a decimal `i64` the way `str::parse::<i64>` does.
pub fn parse_i64(s: &str) -> (res: Option<i64>)
    ensures
        res == spec_parse_i64(s@),
{
    let chars = chars_of(s);
    let n = chars.len();
    if n == 0 {
        return None;
    }
    let negative = chars[0] == '-';
    let signed = negative || chars[0] == '+';
    let start: usize = if signed {
        1
    } else {
        0
    };
    let ghost body = unsigned_part(s@);
    assert(signed == has_sign(s@));
    assert(body =~= s@.subrange(start as int, n as int));
    if start == n {
        return None;
    }
    let limit: u64 = if negative {
        9223372036854775808
    } else {
        9223372036854775807
    };
    let mut acc: u64 = 0;
    let mut i: usize = start;
    while i < n
        invariant
            chars@ == s@,
            n == chars@.len(),
            body == unsigned_part(s@),
            negative == (s@.len() > 0 && s@[0] == '-'),
            start <= i <= n,
            start < n,
            body == s@.subrange(start as int, n as int),
            acc as nat == digits_value(body.take(i - start)),
            acc <= limit,
            all_digits(body.take(i - start)),
            limit == (if negative {
                9223372036854775808u64
            } else {
                9223372036854775807u64
            }),
        decreases n - i,
    {
        let c = chars[i];
        let ghost prefix = body.take(i - start);
        assert(body.take(i + 1 - start) =~= prefix.push(c));
        if !('0' <= c && c <= '9') {
            assert(!all_digits(body)) by {
                assert(body[i - start] == c);
            }
            assert(spec_parse_i64(s@) is None);
            return None;
        }
        proof {
            lemma_digits_value_push(prefix, c);
        }
        let d: u64 = (c as u64) - 48;
        if acc > (limit - d) / 10 {
            proof {
                let q = (limit - d) / 10;
                assert(acc * 10 + d > limit) by (nonlinear_arith)
                    requires
                        acc > q,
                        q == (limit - d) / 10,
                        d <= limit,
                ;
                assert(digits_value(prefix.push(c)) > limit);
                if all_digits(body) {
                    assert(body =~= prefix.push(c) + body.skip(i + 1 - start));
                    lemma_digits_value_monotone(prefix.push(c), body.skip(i + 1 - start));
                }
            }
            assert(spec_parse_i64(s@) is None);
            return None;
        }
        acc = acc * 10 + d;
        i = i + 1;
    }
    assert(body.take(n - start) =~= body);
    if negative {
        if acc == 9223372036854775808 {
            Some(i64::MIN)
        } else {
            let v: i64 = acc as i64;
            Some(-v)
        }
    } else {
        Some(acc as i64)
    }
}

proof fn lemma_nat_decimal_digits(n: nat)
    ensures
        nat_decimal(n).len() > 0,
        all_digits(nat_decimal(n)),
        digits_value(nat_decimal(n)) == n,
    decreases n,
{
    lemma_digit_char(n % 10);
    if n < 10 {
        assert(nat_decimal(n).drop_last() =~= Seq::<char>::empty());
        assert(digits_value(Seq::<char>::empty()) == 0);
    } else {
        lemma_nat_decimal_digits(n / 10);
        let p = nat_decimal(n / 10);
        lemma_digits_value_push(p, digit_char(n % 10));
        lemma_digit_char(n % 10);
        assert forall|k: int| 0 <= k < p.push(digit_char(n % 10)).len() implies is_digit_char(
            #[trigger] p.push(digit_char(n % 10))[k],
        ) by {
            if k < p.len() {
                assert(p.push(digit_char(n % 10))[k] == p[k]);
            }
        }
    }
}

/// Reading back the decimal text of an `i64` gives the same value.
pub proof fn lemma_parse_decimal_roundtrip(i: i64)
    ensures
        spec_parse_i64(int_decimal(i as int)) == Some(i),
{
    let text = int_decimal(i as int);
    if i < 0 {
        let m = nat_decimal((-i) as nat);
        lemma_nat_decimal_digits((-i) as nat);
        assert(text.drop_first() =~= m);
    } else {
        lemma_nat_decimal_digits(i as nat);
        let m = nat_decimal(i as nat);
        assert(is_digit_char(m[0]));
    }
}

/// The JSON escape of one character, as `serde_json` writes it inside a
/// string: quote, backslash and control characters are escaped.
pub open spec fn json_escape_char(c: char) -> Seq<char> {
    if c == '"' {
        seq!['\\', '"']
    } else if c == '\\' {
        seq!['\\', '\\']
    } else if c == '\u{8}' {
        seq!['\\', 'b']
    } else if c == '\u{c}' {
        seq!['\\', 'f']
    } else if c == '\n' {
        seq!['\\', 'n']
    } else if c == '\r' {
        seq!['\\', 'r']
    } else if c == '\t' {
        seq!['\\', 't']
    } else if (c as u32) < 32 {
        seq![
            '\\',
            'u',
            '0',
            '0',
            crate::crypto::hex_digit_lower(((c as u32) / 16) as u8),
            crate::crypto::hex_digit_lower(((c as u32) % 16) as u8),
        ]
    } else {
        seq![c]
    }
}

/// JSON escape of a whole text.
pub open spec fn json_escape(s: Seq<char>) -> Seq<char>
    decreases s.len(),
{
    if s.len() == 0 {
        Seq::empty()
    } else {
        json_escape(s.drop_last()) + json_escape_char(s.last())
    }
}

/// A text as a JSON string literal.
pub open spec fn json_string(s: Seq<char>) -> Seq<char> {
    seq!['"'] + json_escape(s) + seq!['"']
}

/// `serde_json::to_string` on a string slice: the claim is that the result is
/// the JSON string literal `json_string` of the text, as serde_json's escape
/// table writes it (quote, backslash and control characters escaped, a
/// control character without short form as `\u00` and two lower-case hex
/// digits). Serialising a string slice into memory does not fail.
#[verifier::external_body]
fn json_string_literal(s: &str) -> (res: String)
    ensures
        res@ == json_string(s@),
{
    match serde_json::to_string(s) {
        Ok(text) => text,
        Err(_) => String::new(),
    }
}

/// Appends `s` to `out` as a JSON string literal.
pub fn push_json_string(out: &mut String, s: &str)
    ensures
        final(out)@ == old(out)@ + json_string(s@),
{
    let literal = json_string_literal(s);
    out.append(literal.as_str());
}

} // verus!
