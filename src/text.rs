//! Character-level helpers shared by the formatters and parsers.
use vstd::prelude::*;

verus! {

/// `String::push` appends exactly the given character.
pub assume_specification[ String::push ](s: &mut String, ch: char)
    ensures
        final(s)@ == old(s)@.push(ch),
;

/// The characters of `s`, in order.
pub fn chars_of(s: &str) -> (r: Vec<char>)
    ensures
        r@ == s@,
{
    let n = s.unicode_len();
    let mut out: Vec<char> = Vec::new();
    let mut i: usize = 0;
    while i < n
        invariant
            n == s@.len(),
            i <= n,
            out@ == s@.take(i as int),
        decreases n - i,
    {
        let c = s.get_char(i);
        out.push(c);
        i += 1;
        assert(out@ =~= s@.take(i as int));
    }
    assert(out@ =~= s@);
    out
}

/// Appends every character of `cs` to `out`.
pub fn push_chars(out: &mut String, cs: &Vec<char>)
    ensures
        final(out)@ == old(out)@ + cs@,
{
    let mut i: usize = 0;
    while i < cs.len()
        invariant
            i <= cs@.len(),
            out@ == old(out)@ + cs@.take(i as int),
        decreases cs@.len() - i,
    {
        out.push(cs[i]);
        i += 1;
        assert(out@ =~= old(out)@ + cs@.take(i as int));
    }
    assert(cs@.take(cs@.len() as int) =~= cs@);
}

/// Appends the characters of `s` to `out`.
pub fn push_str(out: &mut String, s: &str)
    ensures
        final(out)@ == old(out)@ + s@,
{
    let cs = chars_of(s);
    push_chars(out, &cs);
}

/// The lowercase hexadecimal digit of a value below sixteen.
pub open spec fn hex_char(d: nat) -> char {
    if d == 0 { '0' }
    else if d == 1 { '1' }
    else if d == 2 { '2' }
    else if d == 3 { '3' }
    else if d == 4 { '4' }
    else if d == 5 { '5' }
    else if d == 6 { '6' }
    else if d == 7 { '7' }
    else if d == 8 { '8' }
    else if d == 9 { '9' }
    else if d == 10 { 'a' }
    else if d == 11 { 'b' }
    else if d == 12 { 'c' }
    else if d == 13 { 'd' }
    else if d == 14 { 'e' }
    else { 'f' }
}

/// The value of a hexadecimal digit of either case, if `c` is one.
pub open spec fn hex_value(c: char) -> Option<nat> {
    if '0' <= c && c <= '9' { Some((c as nat - '0' as nat) as nat) }
    else if 'a' <= c && c <= 'f' { Some((c as nat - 'a' as nat + 10) as nat) }
    else if 'A' <= c && c <= 'F' { Some((c as nat - 'A' as nat + 10) as nat) }
    else { None }
}

/// The lowercase form of a hexadecimal digit; other characters are unchanged.
pub open spec fn hex_lower(c: char) -> char {
    match hex_value(c) {
        Some(v) => hex_char(v),
        None => c,
    }
}

/// The decimal digits of `n`, most significant first, without leading zeros.
pub open spec fn dec_text(n: nat) -> Seq<char>
    decreases n,
{
    if n < 10 {
        seq![hex_char(n)]
    } else {
        dec_text(n / 10).push(hex_char(n % 10))
    }
}

/// The lowercase hexadecimal digits of `n`, most significant first, without leading zeros.
pub open spec fn hex_text(n: nat) -> Seq<char>
    decreases n,
{
    if n < 16 {
        seq![hex_char(n)]
    } else {
        hex_text(n / 16).push(hex_char(n % 16))
    }
}

/// The lowercase hexadecimal digit of `d`.
pub fn hex_digit(d: u64) -> (c: char)
    requires
        d < 16,
    ensures
        c == hex_char(d as nat),
{
    if d == 0 { '0' }
    else if d == 1 { '1' }
    else if d == 2 { '2' }
    else if d == 3 { '3' }
    else if d == 4 { '4' }
    else if d == 5 { '5' }
    else if d == 6 { '6' }
    else if d == 7 { '7' }
    else if d == 8 { '8' }
    else if d == 9 { '9' }
    else if d == 10 { 'a' }
    else if d == 11 { 'b' }
    else if d == 12 { 'c' }
    else if d == 13 { 'd' }
    else if d == 14 { 'e' }
    else { 'f' }
}

/// The value of the hexadecimal digit `c`, if it is one.
pub fn hex_digit_value(c: char) -> (r: Option<u8>)
    ensures
        r matches Some(v) ==> hex_value(c) == Some(v as nat),
        r is None ==> hex_value(c) is None,
{
    if '0' <= c && c <= '9' {
        Some(((c as u32) - ('0' as u32)) as u8)
    } else if 'a' <= c && c <= 'f' {
        Some(((c as u32) - ('a' as u32) + 10) as u8)
    } else if 'A' <= c && c <= 'F' {
        Some(((c as u32) - ('A' as u32) + 10) as u8)
    } else {
        None
    }
}

/// Appends the decimal form of `n` to `out`.
pub fn push_decimal(out: &mut String, n: u64)
    ensures
        final(out)@ == old(out)@ + dec_text(n as nat),
    decreases n,
{
    if n >= 10 {
        push_decimal(out, n / 10);
    }
    out.push(hex_digit(n % 10));
    assert(out@ =~= old(out)@ + dec_text(n as nat)) by {
        reveal_with_fuel(dec_text, 2);
    }
}

/// Appends the lowercase hexadecimal form of `n` to `out`.
pub fn push_hex(out: &mut String, n: u64)
    ensures
        final(out)@ == old(out)@ + hex_text(n as nat),
    decreases n,
{
    if n >= 16 {
        push_hex(out, n / 16);
    }
    out.push(hex_digit(n % 16));
    assert(out@ =~= old(out)@ + hex_text(n as nat)) by {
        reveal_with_fuel(hex_text, 2);
    }
}

/// `p` begins `s`.
pub open spec fn is_prefix(p: Seq<char>, s: Seq<char>) -> bool {
    p.len() <= s.len() && s.take(p.len() as int) == p
}

/// Whether two texts are equal.
pub fn text_eq(a: &str, b: &str) -> (r: bool)
    ensures
        r == (a@ == b@),
{
    let x = chars_of(a);
    let y = chars_of(b);
    if x.len() != y.len() {
        return false;
    }
    let mut i: usize = 0;
    while i < x.len()
        invariant
            x@ == a@,
            y@ == b@,
            x@.len() == y@.len(),
            i <= x@.len(),
            forall|k: int| 0 <= k < i ==> x@[k] == y@[k],
        decreases x@.len() - i,
    {
        if x[i] != y[i] {
            return false;
        }
        i += 1;
    }
    assert(a@ =~= b@);
    true
}

/// The rest of `s` after `prefix`, if `s` begins with it.
pub fn strip_prefix(s: &str, prefix: &str) -> (r: Option<String>)
    ensures
        r is Some <==> is_prefix(prefix@, s@),
        r matches Some(t) ==> s@ == prefix@ + t@,
{
    let x = chars_of(s);
    let p = chars_of(prefix);
    if p.len() > x.len() {
        return None;
    }
    let mut i: usize = 0;
    while i < p.len()
        invariant
            x@ == s@,
            p@ == prefix@,
            p@.len() <= x@.len(),
            i <= p@.len(),
            forall|k: int| 0 <= k < i ==> x@[k] == p@[k],
        decreases p@.len() - i,
    {
        if x[i] != p[i] {
            assert(s@.take(prefix@.len() as int)[i as int] != prefix@[i as int]);
            return None;
        }
        i += 1;
    }
    assert(s@.take(prefix@.len() as int) =~= prefix@);
    let rest = s.substring_char(p.len(), x.len());
    let out = String::from_str(rest);
    assert(s@ =~= prefix@ + out@);
    Some(out)
}

/// Every character of `d` is a decimal digit.
pub open spec fn all_decimal(d: Seq<char>) -> bool {
    forall|i: int| 0 <= i < d.len() ==> '0' <= #[trigger] d[i] && d[i] <= '9'
}

/// The number that the decimal digits `d` write.
pub open spec fn digits_value(d: Seq<char>) -> nat
    decreases d.len(),
{
    if d.len() == 0 {
        0
    } else {
        digits_value(d.drop_last()) * 10 + (d.last() as nat - '0' as nat) as nat
    }
}

/// The 16-bit unsigned integer that `s` writes in decimal, with an optional
/// leading `+`.
pub open spec fn u16_from_text(s: Seq<char>) -> Option<u16> {
    let d = if s.len() > 0 && s[0] == '+' { s.drop_first() } else { s };
    if d.len() > 0 && all_decimal(d) && digits_value(d) <= 65535 {
        Some(digits_value(d) as u16)
    } else {
        None
    }
}

/// A longer prefix of a digit string never writes a smaller number.
proof fn lemma_digits_value_grows(d: Seq<char>, i: int, j: int)
    requires
        all_decimal(d),
        0 <= i <= j <= d.len(),
    ensures
        digits_value(d.take(i)) <= digits_value(d.take(j)),
    decreases j - i,
{
    if i < j {
        lemma_digits_value_grows(d, i, j - 1);
        assert(d.take(j).drop_last() =~= d.take(j - 1));
        assert('0' <= d[j - 1]);
    }
}

/// Reads a 16-bit unsigned integer written in decimal, with an optional leading `+`.
pub fn parse_u16(s: &str) -> (r: Option<u16>)
    ensures
        r == u16_from_text(s@),
{
    let cs = chars_of(s);
    let start: usize = if cs.len() > 0 && cs[0] == '+' { 1 } else { 0 };
    let ghost d = if s@.len() > 0 && s@[0] == '+' { s@.drop_first() } else { s@ };
    if start >= cs.len() {
        return None;
    }
    let mut v: u32 = 0;
    let mut i: usize = start;
    while i < cs.len()
        invariant
            cs@ == s@,
            start <= i <= cs@.len(),
            d == s@.subrange(start as int, cs@.len() as int),
            d == (if s@.len() > 0 && s@[0] == '+' { s@.drop_first() } else { s@ }),
            forall|k: int| 0 <= k < i - start ==> '0' <= #[trigger] d[k] && d[k] <= '9',
            v as nat == digits_value(d.take(i - start)),
            v <= 65535,
        decreases cs@.len() - i,
    {
        let c = cs[i];
        if !('0' <= c && c <= '9') {
            assert(d[i - start] == c);
            assert(!all_decimal(d));
            assert(u16_from_text(s@) is None);
            return None;
        }
        assert(d.take(i - start + 1).drop_last() =~= d.take(i - start));
        v = v * 10 + ((c as u32) - ('0' as u32));
        i += 1;
        if v > 65535 {
            proof {
                if all_decimal(d) {
                    lemma_digits_value_grows(d, i - start, d.len() as int);
                    assert(d.take(d.len() as int) =~= d);
                    assert(digits_value(d) > 65535);
                }
                assert(u16_from_text(s@) is None);
            }
            return None;
        }
    }
    assert(d.take(d.len() as int) =~= d);
    Some(v as u16)
}

/// Every character of `d` is a hexadecimal digit.
pub open spec fn all_hex(d: Seq<char>) -> bool {
    forall|i: int| 0 <= i < d.len() ==> (#[trigger] hex_value(d[i])) is Some
}

/// The number that the hexadecimal digits `d` write.
pub open spec fn hex_digits_value(d: Seq<char>) -> nat
    decreases d.len(),
{
    if d.len() == 0 {
        0
    } else {
        hex_digits_value(d.drop_last()) * 16 + hex_value(d.last()).unwrap()
    }
}

/// The value of a hexadecimal digit written by `hex_char`.
pub proof fn lemma_hex_char_value(d: nat)
    requires
        d < 16,
    ensures
        hex_value(hex_char(d)) == Some(d),
{
}

/// The digits `hex_text` writes read back as the number.
pub proof fn lemma_hex_text_value(n: nat)
    ensures
        hex_digits_value(hex_text(n)) == n,
        hex_text(n).len() > 0,
        all_hex(hex_text(n)),
    decreases n,
{
    if n < 16 {
        lemma_hex_char_value(n);
        let t = hex_text(n);
        assert(t.drop_last() =~= Seq::<char>::empty());
        assert(hex_digits_value(t.drop_last()) == 0);
        assert(t.last() == hex_char(n));
    } else {
        lemma_hex_text_value(n / 16);
        lemma_hex_char_value(n % 16);
        let t = hex_text(n);
        assert(t.drop_last() =~= hex_text(n / 16));
        assert(t.last() == hex_char(n % 16));
        assert(hex_digits_value(t) == hex_digits_value(t.drop_last()) * 16 + hex_value(t.last()).unwrap());
        assert(n == (n / 16) * 16 + n % 16);
        assert forall|i: int| 0 <= i < t.len() implies (#[trigger] hex_value(t[i])) is Some by {
            if i < t.len() - 1 {
                assert(t[i] == hex_text(n / 16)[i]);
            }
        }
    }
}

/// Distinct numbers have distinct hexadecimal texts.
pub proof fn lemma_hex_text_injective(a: nat, b: nat)
    ensures
        hex_text(a) == hex_text(b) ==> a == b,
{
    lemma_hex_text_value(a);
    lemma_hex_text_value(b);
}

/// The 64-bit unsigned integer that the hexadecimal digits `d` write.
pub open spec fn u64_from_hex(d: Seq<char>) -> Option<u64> {
    if d.len() > 0 && all_hex(d) && hex_digits_value(d) <= u64::MAX {
        Some(hex_digits_value(d) as u64)
    } else {
        None
    }
}

/// A longer prefix of a hexadecimal digit string never writes a smaller number.
proof fn lemma_hex_digits_value_grows(d: Seq<char>, i: int, j: int)
    requires
        all_hex(d),
        0 <= i <= j <= d.len(),
    ensures
        hex_digits_value(d.take(i)) <= hex_digits_value(d.take(j)),
    decreases j - i,
{
    if i < j {
        lemma_hex_digits_value_grows(d, i, j - 1);
        assert(d.take(j).drop_last() =~= d.take(j - 1));
        assert(hex_value(d[j - 1]) is Some);
    }
}

/// Reads a 64-bit unsigned integer written in hexadecimal digits of either case.
pub fn parse_hex_u64(s: &str) -> (r: Option<u64>)
    ensures
        r == u64_from_hex(s@),
{
    let cs = chars_of(s);
    if cs.len() == 0 {
        return None;
    }
    let mut v: u64 = 0;
    let mut i: usize = 0;
    while i < cs.len()
        invariant
            cs@ == s@,
            i <= cs@.len(),
            forall|k: int| 0 <= k < i ==> (#[trigger] hex_value(s@[k])) is Some,
            v as nat == hex_digits_value(s@.take(i as int)),
        decreases cs@.len() - i,
    {
        let c = cs[i];
        match hex_digit_value(c) {
            None => {
                assert(!all_hex(s@));
                return None;
            },
            Some(d) => {
                assert(s@.take(i + 1).drop_last() =~= s@.take(i as int));
                assert(s@.take(i + 1).last() == c);
                if v > (u64::MAX - d as u64) / 16 {
                    proof {
                        assert(v * 16 + d > u64::MAX) by (nonlinear_arith)
                            requires v > (u64::MAX - d as u64) / 16, d < 16;
                        if all_hex(s@) {
                            lemma_hex_digits_value_grows(s@, i + 1, s@.len() as int);
                            assert(s@.take(s@.len() as int) =~= s@);
                        }
                    }
                    return None;
                }
                v = v * 16 + d as u64;
                i += 1;
            },
        }
    }
    assert(s@.take(s@.len() as int) =~= s@);
    Some(v)
}

} // verus!
