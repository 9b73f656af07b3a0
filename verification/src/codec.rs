use crate::state::BondingCurve;
use vstd::bytes::lemma_auto_spec_u64_to_from_le_bytes;
use vstd::bytes::spec_u64_from_le_bytes;
use vstd::bytes::spec_u64_to_le_bytes;
use vstd::bytes::u64_from_le_bytes;
use vstd::bytes::u64_to_le_bytes;
use vstd::prelude::*;
use vstd::slice::slice_subrange;

verus! {

/// Persisted layout of a curve record: `token_supply` as eight
/// little-endian bytes, then `base_price` as eight little-endian bytes,
/// sixteen bytes in all.  Storage-header framing around the record is the
/// backend's concern and is not part of the layout.
pub open spec fn spec_record_bytes(curve: BondingCurve) -> Seq<u8> {
    spec_u64_to_le_bytes(curve.token_supply) + spec_u64_to_le_bytes(curve.base_price)
}

/// Serializes a curve record into its 16-byte persisted layout.
pub fn encode_record(curve: &BondingCurve) -> (bytes: Vec<u8>)
    ensures
        bytes@ == spec_record_bytes(*curve),
        bytes@.len() == BondingCurve::LEN,
{
    proof {
        lemma_auto_spec_u64_to_from_le_bytes();
    }
    let mut bytes = u64_to_le_bytes(curve.token_supply);
    let mut tail = u64_to_le_bytes(curve.base_price);
    bytes.append(&mut tail);
    bytes
}

/// Reads a curve record back from its 16-byte persisted layout; the
/// result is exactly the record whose encoding is `bytes`.
pub fn decode_record(bytes: &[u8]) -> (curve: BondingCurve)
    requires
        bytes@.len() == BondingCurve::LEN,
    ensures
        curve.token_supply == spec_u64_from_le_bytes(bytes@.subrange(0, 8)),
        curve.base_price == spec_u64_from_le_bytes(bytes@.subrange(8, 16)),
        spec_record_bytes(curve) == bytes@,
{
    let supply_bytes = slice_subrange(bytes, 0, 8);
    let price_bytes = slice_subrange(bytes, 8, 16);
    let curve = BondingCurve {
        token_supply: u64_from_le_bytes(supply_bytes),
        base_price: u64_from_le_bytes(price_bytes),
    };
    proof {
        lemma_auto_spec_u64_to_from_le_bytes();
        assert(spec_record_bytes(curve) =~= bytes@);
    }
    curve
}

/// The persisted layout is injective: two records with the same encoding
/// hold the same supply and the same base price.  Together with the
/// contracts of `encode_record` and `decode_record` this makes the
/// encode-decode round trip the identity.
pub proof fn lemma_record_bytes_injective(c: BondingCurve, d: BondingCurve)
    requires
        spec_record_bytes(c) == spec_record_bytes(d),
    ensures
        c == d,
{
    lemma_auto_spec_u64_to_from_le_bytes();
    assert(spec_record_bytes(c).subrange(0, 8) =~= spec_u64_to_le_bytes(c.token_supply));
    assert(spec_record_bytes(c).subrange(8, 16) =~= spec_u64_to_le_bytes(c.base_price));
    assert(spec_record_bytes(d).subrange(0, 8) =~= spec_u64_to_le_bytes(d.token_supply));
    assert(spec_record_bytes(d).subrange(8, 16) =~= spec_u64_to_le_bytes(d.base_price));
}

} // verus!
