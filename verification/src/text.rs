//! Character-level helpers: decimal numerals, substring search and string building.
use vstd::prelude::*;

verus! {

/// The characters of `s`, in order.
pub fn chars_of(s: &str) -> (r: Vec<char>)
    ensures
        r@ == s@,
{
    let mut v: Vec<char> = Vec::new();
    for c in it: s.chars()
        invariant
            it.seq() == s@,
            v@ == s@.take(it.index() as int),
            it.index() <= s@.len(),
    {
        assert(c == s@[it.index() as int]);
        v.push(c);
        assert(v@ =~= s@.take(it.index() + 1));
    }
    assert(v@ =~= s@);
    v
}

/// Whether two texts are the same sequence of characters.
pub fn text_eq(a: &str, b: &str) -> (r: bool)
    ensures
        r == (a@ == b@),
{
    let x = chars_of(a);
    let y = chars_of(b);
    if x.len() != y.len() {
        return false;
    }
    let mut i: usize = 0;
    while i < x.len()
        invariant
            x@ == a@,
            y@ == b@,
            x.len() == y.len(),
            i <= x.len(),
            forall|k: int| 0 <= k < i ==> x@[k] == y@[k],
        decreases x.len() - i,
    {
        if x[i] != y[i] {
            return false;
        }
        i = i + 1;
    }
    assert(x@ =~= y@);
    true
}

/// `needle` occurs in `hay` as a contiguous run of characters.
pub open spec fn occurs_in(hay: Seq<char>, needle: Seq<char>) -> bool {
    exists|i: int| #![trigger hay.subrange(i, i + needle.len())]
        0 <= i && i + needle.len() <= hay.len() && hay.subrange(i, i + needle.len()) == needle
}

fn occurs_at(hay: &Vec<char>, needle: &Vec<char>, at: usize) -> (r: bool)
    requires
        at + needle.len() <= hay.len(),
    ensures
        r == (hay@.subrange(at as int, at + needle.len()) == needle@),
{
    let mut k: usize = 0;
    while k < needle.len()
        invariant
            at + needle.len() <= hay.len(),
            k <= needle.len(),
            forall|j: int| 0 <= j < k ==> hay@[at + j] == needle@[j],
        decreases needle.len() - k,
    {
        if hay[at + k] != needle[k] {
            assert(hay@.subrange(at as int, at + needle.len())[k as int] != needle@[k as int]);
            return false;
        }
        k = k + 1;
    }
    assert(hay@.subrange(at as int, at + needle.len()) =~= needle@);
    true
}

/// Whether `needle` occurs in `hay`.
pub fn contains_text(hay: &Vec<char>, needle: &Vec<char>) -> (r: bool)
    ensures
        r == occurs_in(hay@, needle@),
{
    if needle.len() > hay.len() {
        return false;
    }
    if needle.len() == 0 {
        assert(hay@.subrange(0int, 0int + needle@.len()) =~= needle@);
        return true;
    }
    let last = hay.len() - needle.len();
    let mut at: usize = 0;
    while at <= last
        invariant
            last + needle.len() == hay.len(),
            needle.len() > 0,
            at <= last + 1,
            forall|i: int| 0 <= i < at ==> #[trigger] hay@.subrange(i, i + needle.len()) != needle@,
        decreases last + 1 - at,
    {
        if occurs_at(hay, needle, at) {
            return true;
        }
        at = at + 1;
    }
    false
}

// ---------------------------------------------------------------------------
// Decimal numerals
// ---------------------------------------------------------------------------

pub open spec fn is_digit(c: char) -> bool {
    '0' <= c && c <= '9'
}

pub open spec fn all_digits(s: Seq<char>) -> bool {
    forall|i: int| 0 <= i < s.len() ==> is_digit(#[trigger] s[i])
}

pub open spec fn digit_value(c: char) -> nat {
    (c as int - '0' as int) as nat
}

/// The number that a run of decimal digits denotes (most significant first).
pub open spec fn digits_value(s: Seq<char>) -> nat
    decreases s.len(),
{
    if s.len() == 0 {
        0
    } else {
        digits_value(s.drop_last()) * 10 + digit_value(s.last())
    }
}

/// The magnitude written by `d`, where `d` must be a nonempty run of decimal digits.
pub open spec fn magnitude(d: Seq<char>) -> Option<nat> {
    if d.len() > 0 && all_digits(d) {
        Some(digits_value(d))
    } else {
        None
    }
}

/// The digits of an unsigned numeral: one leading `+` is allowed.
pub open spec fn unsigned_digits(s: Seq<char>) -> Seq<char> {
    if s.len() > 0 && s[0] == '+' {
        s.drop_first()
    } else {
        s
    }
}

/// What `str::parse::<u64>` accepts: an optional `+`, then one or more decimal
/// digits, denoting a value that fits in a `u64`.
pub open spec fn spec_parse_u64(s: Seq<char>) -> Option<u64> {
    match magnitude(unsigned_digits(s)) {
        Some(n) => if n <= u64::MAX { Some(n as u64) } else { None },
        None => None,
    }
}

/// What `str::parse::<u32>` accepts (as for `u64`, with the `u32` range).
pub open spec fn spec_parse_u32(s: Seq<char>) -> Option<u32> {
    match magnitude(unsigned_digits(s)) {
        Some(n) => if n <= u32::MAX { Some(n as u32) } else { None },
        None => None,
    }
}

/// What `str::parse::<i64>` accepts: an optional `+` or `-`, then one or more
/// decimal digits, denoting a value in the `i64` range.
pub open spec fn spec_parse_i64(s: Seq<char>) -> Option<i64> {
    if s.len() > 0 && s[0] == '-' {
        match magnitude(s.drop_first()) {
            Some(n) => if n <= 0x8000_0000_0000_0000 { Some((-n) as i64) } else { None },
            None => None,
        }
    } else {
        match magnitude(unsigned_digits(s)) {
            Some(n) => if n <= i64::MAX { Some(n as i64) } else { None },
            None => None,
        }
    }
}

proof fn lemma_prefix_value_le(s: Seq<char>, k: int)
    requires
        0 <= k <= s.len(),
    ensures
        digits_value(s.take(k)) <= digits_value(s),
    decreases s.len(),
{
    if k == s.len() {
        assert(s.take(k) =~= s);
    } else {
        lemma_prefix_value_le(s.drop_last(), k);
        assert(s.drop_last().take(k) =~= s.take(k));
    }
}

/// The magnitude written by `chars[start..]`, when it is at most `u64::MAX`.
fn read_magnitude(chars: &Vec<char>, start: usize) -> (r: Option<u64>)
    requires
        start <= chars.len(),
    ensures
        r == match magnitude(chars@.skip(start as int)) {
            Some(n) => if n <= u64::MAX { Some(n as u64) } else { None },
            None => None,
        },
{
    let ghost d = chars@.skip(start as int);
    if start >= chars.len() {
        return None;
    }
    let mut acc: u64 = 0;
    let mut i: usize = start;
    while i < chars.len()
        invariant
            start < chars.len(),
            d == chars@.skip(start as int),
            start <= i <= chars.len(),
            all_digits(d.take(i - start)),
            acc as nat == digits_value(d.take(i - start)),
        decreases chars.len() - i,
    {
        let c = chars[i];
        assert(d[i - start] == c);
        if !('0' <= c && c <= '9') {
            assert(!all_digits(d));
            return None;
        }
        let dv: u64 = (c as u32 - '0' as u32) as u64;
        assert(d.take(i - start + 1).drop_last() =~= d.take(i - start));
        assert(d.take(i - start + 1).last() == c);
        assert(dv as nat == digit_value(c));
        if acc > (u64::MAX - dv) / 10 {
            assert(acc * 10 + dv > u64::MAX) by (nonlinear_arith)
                requires acc > (u64::MAX - dv) / 10, dv <= 9;
            proof {
                lemma_prefix_value_le(d, i - start + 1);
            }
            return None;
        }
        assert(acc * 10 + dv <= u64::MAX) by (nonlinear_arith)
            requires acc <= (u64::MAX - dv) / 10, dv <= 9;
        acc = acc * 10 + dv;
        assert(all_digits(d.take(i - start + 1)));
        i = i + 1;
    }
    assert(d.take(i - start) =~= d);
    Some(acc)
}

/// Parses a `u64` written in decimal, as `str::parse::<u64>` does.
pub fn parse_u64(s: &str) -> (r: Option<u64>)
    ensures
        r == spec_parse_u64(s@),
{
    let chars = chars_of(s);
    if chars.len() > 0 && chars[0] == '+' {
        assert(chars@.skip(1) =~= s@.drop_first());
        read_magnitude(&chars, 1)
    } else {
        assert(chars@.skip(0) =~= s@);
        read_magnitude(&chars, 0)
    }
}

/// Parses a `u32` written in decimal, as `str::parse::<u32>` does.
pub fn parse_u32(s: &str) -> (r: Option<u32>)
    ensures
        r == spec_parse_u32(s@),
{
    match parse_u64(s) {
        Some(n) => if n <= u32::MAX as u64 { Some(n as u32) } else { None },
        None => None,
    }
}

/// Parses an `i64` written in decimal, as `str::parse::<i64>` does.
pub fn parse_i64(s: &str) -> (r: Option<i64>)
    ensures
        r == spec_parse_i64(s@),
{
    let chars = chars_of(s);
    if chars.len() > 0 && chars[0] == '-' {
        assert(chars@.skip(1) =~= s@.drop_first());
        match read_magnitude(&chars, 1) {
            Some(n) => {
                if n < 0x8000_0000_0000_0000u64 {
                    Some(-(n as i64))
                } else if n == 0x8000_0000_0000_0000u64 {
                    Some(i64::MIN)
                } else {
                    None
                }
            },
            None => None,
        }
    } else {
        let start: usize = if chars.len() > 0 && chars[0] == '+' { 1 } else { 0 };
        assert(chars@.skip(start as int) =~= unsigned_digits(s@));
        match read_magnitude(&chars, start) {
            Some(n) => if n <= i64::MAX as u64 { Some(n as i64) } else { None },
            None => None,
        }
    }
}

/// The decimal digit character for `d < 10`.
pub open spec fn digit_char(d: nat) -> char {
    (d + '0' as nat) as char
}

/// The decimal numeral of `n`, without leading zeros.
pub open spec fn decimal_text(n: nat) -> Seq<char>
    decreases n,
{
    if n < 10 {
        seq![digit_char(n)]
    } else {
        decimal_text(n / 10).push(digit_char(n % 10))
    }
}

fn digit_text(d: u64) -> (t: &'static str)
    requires
        d < 10,
    ensures
        t@ == seq![digit_char(d as nat)],
{
    proof {
        reveal_strlit("0");
        reveal_strlit("1");
        reveal_strlit("2");
        reveal_strlit("3");
        reveal_strlit("4");
        reveal_strlit("5");
        reveal_strlit("6");
        reveal_strlit("7");
        reveal_strlit("8");
        reveal_strlit("9");
    }
    let t = match d {
        0 => "0",
        1 => "1",
        2 => "2",
        3 => "3",
        4 => "4",
        5 => "5",
        6 => "6",
        7 => "7",
        8 => "8",
        _ => "9",
    };
    assert(t@ =~= seq![digit_char(d as nat)]);
    t
}

/// Appends the decimal numeral of `n` to `out`.
pub fn push_decimal(out: &mut String, n: u64)
    ensures
        final(out)@ == old(out)@ + decimal_text(n as nat),
    decreases n,
{
    if n >= 10 {
        push_decimal(out, n / 10);
    }
    out.append(digit_text(n % 10));
    proof {
        assert(final(out)@ =~= old(out)@ + decimal_text(n as nat));
    }
}

proof fn lemma_decimal_text(n: nat)
    ensures
        decimal_text(n).len() > 0,
        all_digits(decimal_text(n)),
        decimal_text(n)[0] != '+',
        digits_value(decimal_text(n)) == n,
    decreases n,
{
    let d = n % 10;
    assert(digit_value(digit_char(d)) == d);
    if n < 10 {
        assert(decimal_text(n).drop_last() =~= Seq::<char>::empty());
        assert(digits_value(Seq::<char>::empty()) == 0);
        assert(decimal_text(n).last() == digit_char(n));
        assert(digits_value(decimal_text(n)) == n);
    }
    if n >= 10 {
        lemma_decimal_text(n / 10);
        let t = decimal_text(n);
        assert(t.drop_last() =~= decimal_text(n / 10));
        assert(t[0] == decimal_text(n / 10)[0]);
        assert(t.last() == digit_char(d));
        assert((n / 10) * 10 + d == n);
        assert(digits_value(t) == n);
    }
}

/// A number written in decimal reads back as itself.
pub proof fn law_decimal_round_trip(n: u64)
    ensures
        spec_parse_u64(decimal_text(n as nat)) == Some(n),
{
    lemma_decimal_text(n as nat);
}

/// The decimal numeral of an integer, with a leading `-` when it is negative, as
/// `i64::to_string` writes it.
pub open spec fn signed_decimal_text(n: int) -> Seq<char> {
    if n < 0 {
        seq!['-'] + decimal_text((-n) as nat)
    } else {
        decimal_text(n as nat)
    }
}

/// An `i64` written in decimal, sign included, reads back as itself.
pub proof fn law_i64_text_round_trip(n: i64)
    ensures
        spec_parse_i64(signed_decimal_text(n as int)) == Some(n),
{
    if n < 0 {
        let m = (-(n as int)) as nat;
        lemma_decimal_text(m);
        let t = signed_decimal_text(n as int);
        assert(t.drop_first() =~= decimal_text(m));
        assert(t[0] == '-');
    } else {
        lemma_decimal_text(n as nat);
        let t = decimal_text(n as nat);
        assert(is_digit(t[0]));
    }
}

/// A text occurs in any text built around it, and a text occurs in another only
/// where the other is built around it.
pub proof fn law_occurs_in_context(before: Seq<char>, needle: Seq<char>, after: Seq<char>)
    ensures
        occurs_in(before + needle + after, needle),
        occurs_in(before, needle) ==> needle.len() <= before.len(),
        occurs_in(before, needle) ==> exists|a: Seq<char>, b: Seq<char>| before == a + needle + b,
{
    let h = before + needle + after;
    let i = before.len() as int;
    assert(h.subrange(i, i + needle.len()) =~= needle);
    if occurs_in(before, needle) {
        let k = choose|k: int| #![trigger before.subrange(k, k + needle.len())]
            0 <= k && k + needle.len() <= before.len() && before.subrange(k, k + needle.len()) == needle;
        let a = before.subrange(0, k);
        let b = before.subrange(k + needle.len(), before.len() as int);
        assert(before =~= a + needle + b);
    }
}

} // verus!
