//! The record's persisted wire layout.
//!
//! A [`Property`] is stored as a fixed-width little-endian byte string with
//! the fields in a fixed order; external tools that read persisted records
//! depend on this exact shape. [`property_to_bytes`] writes it,
//! [`property_from_bytes`] reads it back, and the lemmas prove that the two
//! are exact inverses: decoding accepts precisely the strings the encoder
//! can produce.

use vstd::prelude::*;
use vstd::bytes::{
    lemma_auto_spec_u64_to_from_le_bytes, spec_u64_from_le_bytes, spec_u64_to_le_bytes,
    u64_from_le_bytes, u64_to_le_bytes,
};
use vstd::slice::{slice_index_get, slice_subrange};
use crate::account::AccountId;
use crate::property::Property;

verus! {

/// The width of one persisted record: owner identity, issued and unsold
/// share counts, rent pool, share unit identity, address discriminator,
/// listing flag, per-share price and creation time, in that order.
pub const PROPERTY_LEN: usize = 32 + 8 + 8 + 8 + 32 + 1 + 1 + 8 + 8;

/// An identity on the wire: its four 64-bit words, little-endian, in order.
pub open spec fn spec_account_id_to_bytes(a: AccountId) -> Seq<u8> {
    spec_u64_to_le_bytes(a.w0) + spec_u64_to_le_bytes(a.w1) + spec_u64_to_le_bytes(a.w2)
        + spec_u64_to_le_bytes(a.w3)
}

/// The identity read back from 32 bytes.
pub open spec fn spec_account_id_from_bytes(s: Seq<u8>) -> AccountId
    recommends
        s.len() == 32,
{
    AccountId {
        w0: spec_u64_from_le_bytes(s.subrange(0, 8)),
        w1: spec_u64_from_le_bytes(s.subrange(8, 16)),
        w2: spec_u64_from_le_bytes(s.subrange(16, 24)),
        w3: spec_u64_from_le_bytes(s.subrange(24, 32)),
    }
}

/// How the listing flag is persisted: one byte, `1` for listed, `0` for not.
pub open spec fn spec_bool_byte(b: bool) -> u8 {
    if b {
        1u8
    } else {
        0u8
    }
}

/// A record on the wire: every field in layout order, integers little-endian
/// and the creation time in two's complement.
pub open spec fn spec_property_to_bytes(p: Property) -> Seq<u8> {
    spec_account_id_to_bytes(p.owner) + spec_u64_to_le_bytes(p.total_shares)
        + spec_u64_to_le_bytes(p.available_shares) + spec_u64_to_le_bytes(p.rent_pool)
        + spec_account_id_to_bytes(p.share_mint) + seq![p.bump] + seq![
        spec_bool_byte(p.is_listed),
    ] + spec_u64_to_le_bytes(p.share_price_lamports) + spec_u64_to_le_bytes(p.created_at as u64)
}

/// The record read back from a byte string: `None` unless the string has
/// exactly the layout's width and a valid (zero or one) listing flag.
pub open spec fn spec_property_from_bytes(s: Seq<u8>) -> Option<Property> {
    if s.len() != PROPERTY_LEN {
        None
    } else if s[89] != 0 && s[89] != 1 {
        None
    } else {
        Some(
            (Property {
                owner: spec_account_id_from_bytes(s.subrange(0, 32)),
                total_shares: spec_u64_from_le_bytes(s.subrange(32, 40)),
                available_shares: spec_u64_from_le_bytes(s.subrange(40, 48)),
                rent_pool: spec_u64_from_le_bytes(s.subrange(48, 56)),
                share_mint: spec_account_id_from_bytes(s.subrange(56, 88)),
                bump: s[88],
                is_listed: s[89] == 1,
                share_price_lamports: spec_u64_from_le_bytes(s.subrange(90, 98)),
                created_at: spec_u64_from_le_bytes(s.subrange(98, 106)) as i64,
            }),
        )
    }
}

/// Appends one little-endian 64-bit integer to the buffer.
fn push_u64_le(out: &mut Vec<u8>, x: u64)
    ensures
        final(out)@ == old(out)@ + spec_u64_to_le_bytes(x),
{
    let mut bytes = u64_to_le_bytes(x);
    out.append(&mut bytes);
}

/// Appends one identity, word by word, to the buffer.
fn push_account_id(out: &mut Vec<u8>, a: &AccountId)
    ensures
        final(out)@ == old(out)@ + spec_account_id_to_bytes(*a),
{
    push_u64_le(out, a.w0);
    push_u64_le(out, a.w1);
    push_u64_le(out, a.w2);
    push_u64_le(out, a.w3);
    proof {
        assert(out@ =~= old(out)@ + spec_account_id_to_bytes(*a));
    }
}

/// Serializes a record into its persisted layout.
pub fn property_to_bytes(p: &Property) -> (out: Vec<u8>)
    ensures
        out@ == spec_property_to_bytes(*p),
        out@.len() == PROPERTY_LEN,
{
    let mut out: Vec<u8> = Vec::new();
    push_account_id(&mut out, &p.owner);
    push_u64_le(&mut out, p.total_shares);
    push_u64_le(&mut out, p.available_shares);
    push_u64_le(&mut out, p.rent_pool);
    push_account_id(&mut out, &p.share_mint);
    out.push(p.bump);
    out.push(if p.is_listed { 1 } else { 0 });
    push_u64_le(&mut out, p.share_price_lamports);
    push_u64_le(&mut out, #[verifier::truncate] (p.created_at as u64));
    proof {
        lemma_auto_spec_u64_to_from_le_bytes();
        assert(out@ =~= spec_property_to_bytes(*p));
    }
    out
}

/// Reads one identity starting at `offset`.
fn read_account_id(bytes: &[u8], offset: usize) -> (a: AccountId)
    requires
        offset + 32 <= bytes@.len(),
        offset + 32 <= usize::MAX,
    ensures
        a == spec_account_id_from_bytes(bytes@.subrange(offset as int, offset + 32)),
{
    let w0 = u64_from_le_bytes(slice_subrange(bytes, offset, offset + 8));
    let w1 = u64_from_le_bytes(slice_subrange(bytes, offset + 8, offset + 16));
    let w2 = u64_from_le_bytes(slice_subrange(bytes, offset + 16, offset + 24));
    let w3 = u64_from_le_bytes(slice_subrange(bytes, offset + 24, offset + 32));
    proof {
        let whole = bytes@.subrange(offset as int, offset + 32);
        assert(bytes@.subrange(offset as int, offset + 8) =~= whole.subrange(0, 8));
        assert(bytes@.subrange(offset + 8, offset + 16) =~= whole.subrange(8, 16));
        assert(bytes@.subrange(offset + 16, offset + 24) =~= whole.subrange(16, 24));
        assert(bytes@.subrange(offset + 24, offset + 32) =~= whole.subrange(24, 32));
    }
    AccountId { w0, w1, w2, w3 }
}

/// Deserializes a record from its persisted layout. Returns `None` exactly
/// when the bytes are not a record the encoder could have written: a wrong
/// length, or a listing flag that is neither zero nor one.
pub fn property_from_bytes(bytes: &[u8]) -> (r: Option<Property>)
    ensures
        r == spec_property_from_bytes(bytes@),
{
    if bytes.len() != PROPERTY_LEN {
        return None;
    }
    let listed_byte: u8 = *slice_index_get(bytes, 89);
    if listed_byte != 0 && listed_byte != 1 {
        return None;
    }
    let owner = read_account_id(bytes, 0);
    let total_shares = u64_from_le_bytes(slice_subrange(bytes, 32, 40));
    let available_shares = u64_from_le_bytes(slice_subrange(bytes, 40, 48));
    let rent_pool = u64_from_le_bytes(slice_subrange(bytes, 48, 56));
    let share_mint = read_account_id(bytes, 56);
    let bump: u8 = *slice_index_get(bytes, 88);
    let share_price_lamports = u64_from_le_bytes(slice_subrange(bytes, 90, 98));
    let created_word = u64_from_le_bytes(slice_subrange(bytes, 98, 106));
    let created_at: i64 = #[verifier::truncate] (created_word as i64);
    Some(
        Property {
            owner,
            total_shares,
            available_shares,
            rent_pool,
            share_mint,
            bump,
            is_listed: listed_byte == 1,
            share_price_lamports,
            created_at,
        },
    )
}

/// Decoding an identity's encoding gives the identity back.
pub proof fn lemma_account_id_bytes_round_trip(a: AccountId)
    ensures
        spec_account_id_from_bytes(spec_account_id_to_bytes(a)) == a,
{
    lemma_auto_spec_u64_to_from_le_bytes();
    let s = spec_account_id_to_bytes(a);
    assert(s.subrange(0, 8) =~= spec_u64_to_le_bytes(a.w0));
    assert(s.subrange(8, 16) =~= spec_u64_to_le_bytes(a.w1));
    assert(s.subrange(16, 24) =~= spec_u64_to_le_bytes(a.w2));
    assert(s.subrange(24, 32) =~= spec_u64_to_le_bytes(a.w3));
}

/// Decoding an encoded record gives the record back: the persisted layout
/// loses nothing.
pub proof fn lemma_property_bytes_round_trip(p: Property)
    ensures
        spec_property_from_bytes(spec_property_to_bytes(p)) == Some(p),
{
    lemma_auto_spec_u64_to_from_le_bytes();
    lemma_account_id_bytes_round_trip(p.owner);
    lemma_account_id_bytes_round_trip(p.share_mint);
    let s = spec_property_to_bytes(p);
    assert(s.len() == PROPERTY_LEN);
    assert(s.subrange(0, 32) =~= spec_account_id_to_bytes(p.owner));
    assert(s.subrange(32, 40) =~= spec_u64_to_le_bytes(p.total_shares));
    assert(s.subrange(40, 48) =~= spec_u64_to_le_bytes(p.available_shares));
    assert(s.subrange(48, 56) =~= spec_u64_to_le_bytes(p.rent_pool));
    assert(s.subrange(56, 88) =~= spec_account_id_to_bytes(p.share_mint));
    assert(s[88] == p.bump);
    assert(s[89] == spec_bool_byte(p.is_listed));
    assert(s.subrange(90, 98) =~= spec_u64_to_le_bytes(p.share_price_lamports));
    assert(s.subrange(98, 106) =~= spec_u64_to_le_bytes(p.created_at as u64));
    let c: i64 = p.created_at;
    assert(((c as u64) as i64) == c) by (bit_vector);
}

/// Encoding a decoded record gives the bytes back: decoding accepts exactly
/// the encoder's image, so no two byte strings read as the same record.
pub proof fn lemma_property_bytes_complete(s: Seq<u8>)
    ensures
        spec_property_from_bytes(s) matches Some(p) ==> spec_property_to_bytes(p) == s,
{
    if spec_property_from_bytes(s) is Some {
        let p = spec_property_from_bytes(s)->Some_0;
        lemma_auto_spec_u64_to_from_le_bytes();
        let w: u64 = spec_u64_from_le_bytes(s.subrange(98, 106));
        assert(((w as i64) as u64) == w) by (bit_vector);
        assert(spec_account_id_to_bytes(p.owner) =~= s.subrange(0, 32));
        assert(spec_account_id_to_bytes(p.share_mint) =~= s.subrange(56, 88));
        assert(spec_property_to_bytes(p) =~= s);
    }
}

} // verus!
