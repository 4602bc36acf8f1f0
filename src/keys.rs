//! Key formatters of the state store.
use vstd::prelude::*;
use crate::error::RacoonError;
use crate::text::{dec_text, hex_text, is_prefix, lemma_hex_text_injective, lemma_hex_text_value, parse_hex_u64, u64_from_hex, parse_u16, push_decimal, push_hex, push_str, strip_prefix, u16_from_text};
use crate::types::{valid_vlan_id, VlanId};

verus! {

/// `Vlan{id}`.
pub open spec fn vlan_key(id: u16) -> Seq<char> {
    "Vlan"@ + dec_text(id as nat)
}

/// `0x{hex}` of a hardware identifier.
pub open spec fn oid_text(oid: u64) -> Seq<char> {
    "0x"@ + hex_text(oid as nat)
}

/// Format VLAN key: `Vlan{id}`.
pub fn vlan(vlan_id: VlanId) -> (r: String)
    ensures
        r@ == vlan_key(vlan_id.value()),
{
    let mut out = String::new();
    push_str(&mut out, "Vlan");
    push_decimal(&mut out, vlan_id.get() as u64);
    assert(out@ =~= vlan_key(vlan_id.value()));
    out
}

/// Format VLAN member key: `Vlan{id}|{port}`.
pub fn vlan_member(vlan_id: VlanId, port: &str) -> (r: String)
    ensures
        r@ == vlan_key(vlan_id.value()) + "|"@ + port@,
{
    let mut out = vlan(vlan_id);
    push_str(&mut out, "|");
    push_str(&mut out, port);
    out
}

/// Format port key: the port name itself.
pub fn port(port_name: &str) -> (r: String)
    ensures
        r@ == port_name@,
{
    let mut out = String::new();
    push_str(&mut out, port_name);
    assert(out@ =~= port_name@);
    out
}

/// Format LAG key: `PortChannel{id}`.
pub fn lag(lag_id: u32) -> (r: String)
    ensures
        r@ == "PortChannel"@ + dec_text(lag_id as nat),
{
    let mut out = String::new();
    push_str(&mut out, "PortChannel");
    push_decimal(&mut out, lag_id as u64);
    assert(out@ =~= "PortChannel"@ + dec_text(lag_id as nat));
    out
}

/// Format LAG member key: `PortChannel{id}|{port}`.
pub fn lag_member(lag_id: u32, port: &str) -> (r: String)
    ensures
        r@ == "PortChannel"@ + dec_text(lag_id as nat) + "|"@ + port@,
{
    let mut out = lag(lag_id);
    push_str(&mut out, "|");
    push_str(&mut out, port);
    out
}

/// Format FDB key: `Vlan{id}:{mac}`.
pub fn fdb(vlan_id: VlanId, mac: &str) -> (r: String)
    ensures
        r@ == vlan_key(vlan_id.value()) + ":"@ + mac@,
{
    let mut out = vlan(vlan_id);
    push_str(&mut out, ":");
    push_str(&mut out, mac);
    out
}

/// Format hardware state key: `{object_type}:0x{oid-hex}`.
pub fn asic_state(object_type: &str, oid: u64) -> (r: String)
    ensures
        r@ == object_type@ + ":"@ + oid_text(oid),
{
    let mut out = String::new();
    push_str(&mut out, object_type);
    push_str(&mut out, ":0x");
    push_hex(&mut out, oid);
    proof {
        reveal_strlit(":0x");
        reveal_strlit(":");
        reveal_strlit("0x");
    }
    assert(out@ =~= object_type@ + ":"@ + oid_text(oid));
    out
}

/// Configuration key of a VLAN name: `VLAN|{name}`.
pub open spec fn config_vlan_key(name: Seq<char>) -> Seq<char> {
    "VLAN|"@ + name
}

/// Application key of a VLAN name: `VLAN_TABLE:{name}`.
pub open spec fn appl_vlan_key(name: Seq<char>) -> Seq<char> {
    "VLAN_TABLE:"@ + name
}

/// Hardware-state key of a VLAN object: `ASIC_STATE:SAI_OBJECT_TYPE_VLAN:0x{oid-hex}`.
pub open spec fn asic_vlan_key(oid: u64) -> Seq<char> {
    "ASIC_STATE:SAI_OBJECT_TYPE_VLAN:"@ + oid_text(oid)
}

/// The numeric id a VLAN name carries: the number after a leading `Vlan`, or
/// the whole name read as a number when it does not start with `Vlan`.
pub open spec fn vlan_name_number(name: Seq<char>) -> Option<u16> {
    if is_prefix("Vlan"@, name) {
        u16_from_text(name.subrange("Vlan"@.len() as int, name.len() as int))
    } else {
        u16_from_text(name)
    }
}

/// The error for a VLAN name whose id is unreadable or out of range.
pub open spec fn vlan_name_error(name: Seq<char>) -> RacoonError {
    match vlan_name_number(name) {
        Some(n) => RacoonError::InvalidVlanId(n),
        None => RacoonError::InvalidVlanId(0),
    }
}

/// The VLAN a name such as `Vlan100` denotes.
pub fn parse_vlan_name(name: &str) -> (r: Result<VlanId, RacoonError>)
    ensures
        r is Ok <==> (vlan_name_number(name@) matches Some(n) && valid_vlan_id(n as int)),
        r matches Ok(v) ==> vlan_name_number(name@) == Some(v.value()),
        r matches Err(e) ==> e == vlan_name_error(name@),
{
    let number = match strip_prefix(name, "Vlan") {
        Some(rest) => {
            assert(rest@ == name@.subrange("Vlan"@.len() as int, name@.len() as int));
            parse_u16(rest.as_str())
        },
        None => parse_u16(name),
    };
    match number {
        Some(n) => match VlanId::new(n) {
            Some(v) => Ok(v),
            None => Err(RacoonError::InvalidVlanId(n)),
        },
        None => Err(RacoonError::InvalidVlanId(0)),
    }
}

/// The names that follow `prefix` in the keys that start with it, in order.
pub open spec fn names_under(keys: Seq<Seq<char>>, prefix: Seq<char>) -> Seq<Seq<char>>
    decreases keys.len(),
{
    if keys.len() == 0 {
        seq![]
    } else {
        let rest = names_under(keys.drop_last(), prefix);
        let k = keys.last();
        if is_prefix(prefix, k) {
            rest.push(k.subrange(prefix.len() as int, k.len() as int))
        } else {
            rest
        }
    }
}

/// The characters of each text.
pub open spec fn texts_view(v: Seq<String>) -> Seq<Seq<char>> {
    v.map_values(|s: String| s@)
}

/// For the keys that start with `prefix`, the rest of each key, in order.
pub fn strip_key_prefix(keys: &Vec<String>, prefix: &str) -> (r: Vec<String>)
    ensures
        texts_view(r@) == names_under(texts_view(keys@), prefix@),
{
    let mut out: Vec<String> = Vec::new();
    let mut i: usize = 0;
    while i < keys.len()
        invariant
            i <= keys@.len(),
            texts_view(out@) == names_under(texts_view(keys@.take(i as int)), prefix@),
        decreases keys@.len() - i,
    {
        let ghost before = out@;
        let ghost ks1 = texts_view(keys@.take(i + 1));
        let ghost k = keys@[i as int]@;
        assert(ks1.drop_last() =~= texts_view(keys@.take(i as int)));
        assert(ks1.last() == k);
        match strip_prefix(keys[i].as_str(), prefix) {
            Some(rest) => {
                assert(rest@ =~= k.subrange(prefix@.len() as int, k.len() as int));
                out.push(rest);
                assert(texts_view(out@) =~= texts_view(before).push(rest@));
                assert(names_under(ks1, prefix@) == names_under(ks1.drop_last(), prefix@).push(
                    k.subrange(prefix@.len() as int, k.len() as int)));
            },
            None => {
                assert(names_under(ks1, prefix@) == names_under(ks1.drop_last(), prefix@));
            },
        }
        i += 1;
    }
    assert(keys@.take(keys@.len() as int) =~= keys@);
    out
}

/// `VLAN_TABLE:{name}`.
pub fn appl_vlan_key_of(name: &str) -> (r: String)
    ensures
        r@ == appl_vlan_key(name@),
{
    let mut out = String::new();
    push_str(&mut out, "VLAN_TABLE:");
    push_str(&mut out, name);
    assert(out@ =~= appl_vlan_key(name@));
    out
}

/// `VLAN|{name}`.
pub fn config_vlan_key_of(name: &str) -> (r: String)
    ensures
        r@ == config_vlan_key(name@),
{
    let mut out = String::new();
    push_str(&mut out, "VLAN|");
    push_str(&mut out, name);
    assert(out@ =~= config_vlan_key(name@));
    out
}

/// `0x{oid-hex}`.
pub fn oid_text_of(oid: u64) -> (r: String)
    ensures
        r@ == oid_text(oid),
{
    let mut out = String::new();
    push_str(&mut out, "0x");
    push_hex(&mut out, oid);
    assert(out@ =~= oid_text(oid));
    out
}

/// `ASIC_STATE:SAI_OBJECT_TYPE_VLAN:0x{oid-hex}`.
pub fn asic_vlan_key_of(oid: u64) -> (r: String)
    ensures
        r@ == asic_vlan_key(oid),
{
    let mut out = String::new();
    push_str(&mut out, "ASIC_STATE:SAI_OBJECT_TYPE_VLAN:");
    push_str(&mut out, "0x");
    push_hex(&mut out, oid);
    assert(out@ =~= asic_vlan_key(oid));
    out
}

/// Distinct hardware identifiers have distinct hardware-state keys.
pub proof fn lemma_asic_vlan_key_injective(a: u64, b: u64)
    ensures
        asic_vlan_key(a) == asic_vlan_key(b) ==> a == b,
{
    if asic_vlan_key(a) == asic_vlan_key(b) {
        let p = "ASIC_STATE:SAI_OBJECT_TYPE_VLAN:"@ + "0x"@;
        assert(asic_vlan_key(a) =~= p + hex_text(a as nat));
        assert(asic_vlan_key(b) =~= p + hex_text(b as nat));
        assert(hex_text(a as nat) =~= asic_vlan_key(a).subrange(p.len() as int, asic_vlan_key(a).len() as int));
        assert(hex_text(b as nat) =~= asic_vlan_key(b).subrange(p.len() as int, asic_vlan_key(b).len() as int));
        lemma_hex_text_injective(a as nat, b as nat);
    }
}

/// The hardware identifier a hardware-state key names, when it is a VLAN
/// object key `ASIC_STATE:SAI_OBJECT_TYPE_VLAN:0x{hex}`.
pub open spec fn asic_vlan_key_oid(k: Seq<char>) -> Option<u64> {
    let p = "ASIC_STATE:SAI_OBJECT_TYPE_VLAN:0x"@;
    if is_prefix(p, k) {
        u64_from_hex(k.subrange(p.len() as int, k.len() as int))
    } else {
        None
    }
}

/// Reads the hardware identifier from a VLAN object's hardware-state key.
pub fn oid_of_asic_vlan_key(key: &str) -> (r: Option<u64>)
    ensures
        r == asic_vlan_key_oid(key@),
{
    match strip_prefix(key, "ASIC_STATE:SAI_OBJECT_TYPE_VLAN:0x") {
        Some(rest) => {
            assert(rest@ == key@.subrange("ASIC_STATE:SAI_OBJECT_TYPE_VLAN:0x"@.len() as int, key@.len() as int));
            parse_hex_u64(rest.as_str())
        },
        None => None,
    }
}

/// The key written for an identifier reads back as that identifier.
pub proof fn lemma_asic_vlan_key_oid(oid: u64)
    ensures
        asic_vlan_key_oid(asic_vlan_key(oid)) == Some(oid),
{
    let p = "ASIC_STATE:SAI_OBJECT_TYPE_VLAN:0x"@;
    let k = asic_vlan_key(oid);
    assert(p =~= "ASIC_STATE:SAI_OBJECT_TYPE_VLAN:"@ + "0x"@) by {
        reveal_strlit("ASIC_STATE:SAI_OBJECT_TYPE_VLAN:0x");
        reveal_strlit("ASIC_STATE:SAI_OBJECT_TYPE_VLAN:");
        reveal_strlit("0x");
    }
    assert(k =~= p + hex_text(oid as nat));
    assert(k.take(p.len() as int) =~= p);
    assert(k.subrange(p.len() as int, k.len() as int) =~= hex_text(oid as nat));
    lemma_hex_text_value(oid as nat);
}

} // verus!
