//! Value types shared by every component: MAC addresses, VLAN ids, port speeds
//! and the small enumerations of port and FDB state.
use vstd::prelude::*;
use crate::text::{all_hex, chars_of, hex_char, hex_digit, hex_digit_value, hex_lower, hex_value, lemma_hex_char_value};

verus! {

/// Opaque 64-bit hardware object identifier issued by the vendor library.
pub type SaiOid = u64;

/// True of the characters that may separate the digits of a MAC address.
pub open spec fn is_mac_separator(c: char) -> bool {
    c == ':' || c == '-' || c == '.'
}

/// `s` with every separator character removed.
pub open spec fn strip_separators(s: Seq<char>) -> Seq<char>
    decreases s.len(),
{
    if s.len() == 0 {
        seq![]
    } else {
        let rest = strip_separators(s.drop_last());
        if is_mac_separator(s.last()) {
            rest
        } else {
            rest.push(s.last())
        }
    }
}

/// The byte written by the two hexadecimal digits `hi` and `lo`.
pub open spec fn byte_of(hi: char, lo: char) -> u8 {
    (hex_value(hi).unwrap() * 16 + hex_value(lo).unwrap()) as u8
}

/// The six bytes written by twelve hexadecimal digits.
pub open spec fn decode_mac_digits(d: Seq<char>) -> Seq<u8> {
    Seq::new(6, |j: int| byte_of(d[2 * j], d[2 * j + 1]))
}

/// The MAC address that `s` denotes: twelve hexadecimal digits of either case,
/// with any number of `:`, `-` or `.` separators among them.
pub open spec fn mac_from_text(s: Seq<char>) -> Option<Seq<u8>> {
    let d = strip_separators(s);
    if d.len() == 12 && all_hex(d) {
        Some(decode_mac_digits(d))
    } else {
        None
    }
}

/// The canonical text of six bytes: lowercase digit pairs joined by colons.
pub open spec fn mac_text(b: Seq<u8>) -> Seq<char> {
    Seq::new(
        17,
        |i: int|
            if i % 3 == 2 {
                ':'
            } else if i % 3 == 0 {
                hex_char((b[i / 3] / 16) as nat)
            } else {
                hex_char((b[i / 3] % 16) as nat)
            },
    )
}

/// Twelve digits in lowercase colon form.
pub open spec fn canonical_mac_digits(d: Seq<char>) -> Seq<char> {
    Seq::new(17, |i: int| if i % 3 == 2 { ':' } else { hex_lower(d[2 * (i / 3) + i % 3]) })
}

/// A 6-byte MAC address.
#[derive(Debug, Clone, Copy, PartialEq, Eq, Hash)]
pub struct MacAddress(pub [u8; 6]);

/// Why a text is not a MAC address.
#[derive(Debug, Clone, Copy, PartialEq, Eq)]
pub enum MacParseError {
    /// Not exactly twelve digits once separators are removed.
    WrongLength,
    /// A character that is neither a separator nor a hexadecimal digit.
    InvalidHexDigit,
}

impl MacAddress {
    pub fn new(bytes: [u8; 6]) -> (r: Self)
        ensures
            r.0@ == bytes@,
    {
        MacAddress(bytes)
    }

    pub fn as_bytes(&self) -> (r: &[u8; 6])
        ensures
            r@ == self.0@,
    {
        &self.0
    }

    /// Reads a MAC address written as twelve hexadecimal digits of either
    /// case, separated anywhere by `:`, `-` or `.`.
    pub fn parse(s: &str) -> (r: Result<MacAddress, MacParseError>)
        ensures
            r matches Ok(m) ==> mac_from_text(s@) == Some(m.0@),
            r is Err <==> mac_from_text(s@) is None,
            r == Err::<MacAddress, MacParseError>(MacParseError::WrongLength) <==> strip_separators(s@).len() != 12,
    {
        let cs = chars_of(s);
        let mut digits: Vec<char> = Vec::new();
        let mut i: usize = 0;
        while i < cs.len()
            invariant
                cs@ == s@,
                i <= cs@.len(),
                digits@ == strip_separators(s@.take(i as int)),
            decreases cs@.len() - i,
        {
            let c = cs[i];
            assert(s@.take(i + 1).drop_last() =~= s@.take(i as int));
            if !(c == ':' || c == '-' || c == '.') {
                digits.push(c);
            }
            i += 1;
        }
        assert(s@.take(cs@.len() as int) =~= s@);
        if digits.len() != 12 {
            return Err(MacParseError::WrongLength);
        }
        let mut bytes: Vec<u8> = Vec::new();
        let mut j: usize = 0;
        while j < 6
            invariant
                digits@ == strip_separators(s@),
                digits@.len() == 12,
                j <= 6,
                bytes@.len() == j,
                forall|k: int| 0 <= k < 2 * j ==> (#[trigger] hex_value(digits@[k])) is Some,
                forall|k: int| 0 <= k < j ==> bytes@[k] == byte_of(digits@[2 * k], digits@[2 * k + 1]),
            decreases 6 - j,
        {
            let hi = hex_digit_value(digits[2 * j]);
            let lo = hex_digit_value(digits[2 * j + 1]);
            match (hi, lo) {
                (Some(h), Some(l)) => {
                    bytes.push(h * 16 + l);
                },
                _ => {
                    assert(!all_hex(digits@));
                    return Err(MacParseError::InvalidHexDigit);
                },
            }
            j += 1;
        }
        let arr: [u8; 6] = [bytes[0], bytes[1], bytes[2], bytes[3], bytes[4], bytes[5]];
        assert(all_hex(digits@));
        assert(arr@ =~= decode_mac_digits(digits@));
        Ok(MacAddress(arr))
    }

    /// The address in lowercase colon form, `xx:xx:xx:xx:xx:xx`.
    pub fn to_string(&self) -> (r: String)
        ensures
            r@ == mac_text(self.0@),
    {
        let mut out = String::new();
        let mut j: usize = 0;
        while j < 6
            invariant
                j <= 6,
                out@ == mac_text(self.0@).take(if j == 0 { 0 } else { 3 * j - 1 }),
            decreases 6 - j,
        {
            let b = self.0[j];
            if j > 0 {
                out.push(':');
            }
            out.push(hex_digit((b / 16) as u64));
            out.push(hex_digit((b % 16) as u64));
            j += 1;
            assert(out@ =~= mac_text(self.0@).take(3 * j - 1));
        }
        assert(out@ =~= mac_text(self.0@));
        out
    }
}

impl core::str::FromStr for MacAddress {
    type Err = MacParseError;

    fn from_str(s: &str) -> Result<MacAddress, MacParseError> {
        MacAddress::parse(s)
    }
}

/// The digits left in a prefix of the canonical text once separators are removed.
proof fn lemma_strip_mac_text_prefix(b: Seq<u8>, n: int)
    requires
        b.len() == 6,
        0 <= n <= 17,
    ensures
        strip_separators(mac_text(b).take(n)).len() == n - n / 3,
        forall|k: int|
            0 <= k < n - n / 3 ==> #[trigger] strip_separators(mac_text(b).take(n))[k]
                == mac_text(b)[k + k / 2],
    decreases n,
{
    let t = mac_text(b);
    if n > 0 {
        let m = n - 1;
        lemma_strip_mac_text_prefix(b, m);
        let p = t.take(n);
        assert(p.drop_last() =~= t.take(m));
        assert(p.last() == t[m]);
        if m % 3 == 2 {
            assert(is_mac_separator(p.last()));
            assert(strip_separators(p) == strip_separators(t.take(m)));
            assert(n / 3 == m / 3 + 1);
        } else {
            let x = if m % 3 == 0 { (b[m / 3] / 16) as nat } else { (b[m / 3] % 16) as nat };
            assert(t[m] == hex_char(x));
            assert(!is_mac_separator(p.last()));
            assert(strip_separators(p) == strip_separators(t.take(m)).push(t[m]));
            let k = m - m / 3;
            assert(k + k / 2 == m);
            assert(n / 3 == m / 3);
        }
    } else {
        assert(t.take(0) =~= Seq::<char>::empty());
    }
}

/// Each digit of the canonical text, once separators are removed.
proof fn lemma_strip_mac_text(b: Seq<u8>, k: int)
    requires
        b.len() == 6,
        0 <= k < 12,
    ensures
        strip_separators(mac_text(b)).len() == 12,
        strip_separators(mac_text(b))[k] == mac_text(b)[k + k / 2],
{
    lemma_strip_mac_text_prefix(b, 17);
    assert(mac_text(b).take(17) =~= mac_text(b));
}

/// Reading the canonical text of an address gives the address back.
pub proof fn lemma_mac_parse_format(b: Seq<u8>)
    requires
        b.len() == 6,
    ensures
        mac_from_text(mac_text(b)) == Some(b),
{
    let t = mac_text(b);
    let d = strip_separators(t);
    lemma_strip_mac_text(b, 0);
    assert forall|k: int| 0 <= k < d.len() implies (#[trigger] hex_value(d[k])) is Some by {
        lemma_strip_mac_text(b, k);
        let i = k + k / 2;
        if i % 3 == 0 {
            lemma_hex_char_value((b[i / 3] / 16) as nat);
        } else {
            lemma_hex_char_value((b[i / 3] % 16) as nat);
        }
    }
    assert forall|j: int| 0 <= j < 6 implies #[trigger] decode_mac_digits(d)[j] == b[j] by {
        lemma_strip_mac_text(b, 2 * j);
        lemma_strip_mac_text(b, 2 * j + 1);
        assert((2 * j + 1) / 2 == j);
        assert(d[2 * j] == t[3 * j]);
        assert(d[2 * j + 1] == t[3 * j + 1]);
        lemma_hex_char_value((b[j] / 16) as nat);
        lemma_hex_char_value((b[j] % 16) as nat);
    }
    assert(decode_mac_digits(d) =~= b);
}

/// Formatting an accepted text gives its digits in lowercase colon form.
pub proof fn lemma_mac_format_parse(s: Seq<char>)
    requires
        mac_from_text(s) is Some,
    ensures
        mac_text(mac_from_text(s).unwrap()) == canonical_mac_digits(strip_separators(s)),
{
    let d = strip_separators(s);
    let b = mac_from_text(s).unwrap();
    assert forall|i: int| 0 <= i < 17 implies #[trigger] mac_text(b)[i] == canonical_mac_digits(d)[i] by {
        if i % 3 != 2 {
            let j = i / 3;
            let h = hex_value(d[2 * j]).unwrap();
            let l = hex_value(d[2 * j + 1]).unwrap();
            assert(hex_value(d[2 * j]) is Some);
            assert(hex_value(d[2 * j + 1]) is Some);
            assert(h < 16 && l < 16);
            assert(b[j] == h * 16 + l);
            assert((h * 16 + l) / 16 == h) by (nonlinear_arith) requires h < 16, l < 16;
            assert((h * 16 + l) % 16 == l) by (nonlinear_arith) requires h < 16, l < 16;
        }
    }
    assert(mac_text(b) =~= canonical_mac_digits(d));
}

/// VLAN id, an integer in `[1, 4094]`.
#[derive(Debug, Clone, Copy, PartialEq, Eq, Hash)]
pub struct VlanId(u16);

/// The range of VLAN ids.
pub open spec fn valid_vlan_id(id: int) -> bool {
    1 <= id <= 4094
}

impl VlanId {
    #[verifier::type_invariant]
    spec fn in_range(self) -> bool {
        valid_vlan_id(self.0 as int)
    }

    /// The id this value holds.
    pub closed spec fn value(self) -> u16 {
        self.0
    }

    /// Accepts exactly the ids in `[1, 4094]`.
    pub fn new(id: u16) -> (r: Option<Self>)
        ensures
            r is Some <==> valid_vlan_id(id as int),
            r matches Some(v) ==> v.value() == id,
    {
        if 1 <= id && id <= 4094 {
            Some(VlanId(id))
        } else {
            None
        }
    }

    pub fn get(&self) -> (r: u16)
        ensures
            r == self.value(),
            valid_vlan_id(r as int),
    {
        proof {
            use_type_invariant(self);
        }
        self.0
    }
}

/// VLAN member tagging mode.
#[derive(Debug, Clone, Copy, PartialEq, Eq)]
pub enum VlanTaggingMode {
    Untagged,
    Tagged,
    Priority,
}

/// Port operational status.
#[derive(Debug, Clone, Copy, PartialEq, Eq)]
pub enum PortOperStatus {
    Up,
    Down,
    Testing,
    Unknown,
}

/// Port administrative status.
#[derive(Debug, Clone, Copy, PartialEq, Eq)]
pub enum PortAdminStatus {
    Up,
    Down,
}

/// FDB entry type.
#[derive(Debug, Clone, Copy, PartialEq, Eq)]
pub enum FdbEntryType {
    Dynamic,
    Static,
}

/// Port speed.
#[derive(Debug, Clone, Copy, PartialEq, Eq, Structural)]
pub enum PortSpeed {
    Speed1G,
    Speed10G,
    Speed25G,
    Speed40G,
    Speed50G,
    Speed100G,
    Speed200G,
    Speed400G,
}

/// The speed in Mbps.
pub open spec fn speed_mbps(s: PortSpeed) -> u32 {
    match s {
        PortSpeed::Speed1G => 1000,
        PortSpeed::Speed10G => 10000,
        PortSpeed::Speed25G => 25000,
        PortSpeed::Speed40G => 40000,
        PortSpeed::Speed50G => 50000,
        PortSpeed::Speed100G => 100000,
        PortSpeed::Speed200G => 200000,
        PortSpeed::Speed400G => 400000,
    }
}

/// The speed whose rate is `m` Mbps, if there is one.
pub open spec fn speed_from_mbps(m: u32) -> Option<PortSpeed> {
    if m == 1000 { Some(PortSpeed::Speed1G) }
    else if m == 10000 { Some(PortSpeed::Speed10G) }
    else if m == 25000 { Some(PortSpeed::Speed25G) }
    else if m == 40000 { Some(PortSpeed::Speed40G) }
    else if m == 50000 { Some(PortSpeed::Speed50G) }
    else if m == 100000 { Some(PortSpeed::Speed100G) }
    else if m == 200000 { Some(PortSpeed::Speed200G) }
    else if m == 400000 { Some(PortSpeed::Speed400G) }
    else { None }
}

impl PortSpeed {
    /// The speed whose rate is `mbps`, if there is one.
    pub fn from_mbps(mbps: u32) -> (r: Option<Self>)
        ensures
            r == speed_from_mbps(mbps),
    {
        match mbps {
            1000 => Some(PortSpeed::Speed1G),
            10000 => Some(PortSpeed::Speed10G),
            25000 => Some(PortSpeed::Speed25G),
            40000 => Some(PortSpeed::Speed40G),
            50000 => Some(PortSpeed::Speed50G),
            100000 => Some(PortSpeed::Speed100G),
            200000 => Some(PortSpeed::Speed200G),
            400000 => Some(PortSpeed::Speed400G),
            _ => None,
        }
    }

    pub fn as_mbps(&self) -> (r: u32)
        ensures
            r == speed_mbps(*self),
    {
        match self {
            PortSpeed::Speed1G => 1000,
            PortSpeed::Speed10G => 10000,
            PortSpeed::Speed25G => 25000,
            PortSpeed::Speed40G => 40000,
            PortSpeed::Speed50G => 50000,
            PortSpeed::Speed100G => 100000,
            PortSpeed::Speed200G => 200000,
            PortSpeed::Speed400G => 400000,
        }
    }
}

/// Reading back the rate of a speed gives the same speed, and a rate that
/// names a speed is that speed's rate.
pub proof fn lemma_speed_round_trip(s: PortSpeed, m: u32)
    ensures
        speed_from_mbps(speed_mbps(s)) == Some(s),
        speed_from_mbps(m) matches Some(t) ==> speed_mbps(t) == m,
{
}

} // verus!
