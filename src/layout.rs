//! The stored form of a counter record:
//! an 8-byte type tag, the count as 8 little-endian bytes, then the
//! authority's 32 bytes; `Counter::SPACE` bytes in all.

use vstd::prelude::*;
use vstd::bytes::{
    lemma_auto_spec_u64_to_from_le_bytes,
    spec_u64_from_le_bytes,
    spec_u64_to_le_bytes,
    u64_from_le_bytes,
    u64_to_le_bytes,
};
use vstd::slice::slice_subrange;
use crate::pubkey::{Pubkey, PUBKEY_BYTES};
use crate::state::{Counter, DISCRIMINATOR_LEN};

verus! {

/// The type tag of a counter record: the first eight bytes of the SHA-256
/// digest of `account:Counter`.
pub open spec fn counter_discriminator() -> Seq<u8> {
    seq![255u8, 176u8, 4u8, 245u8, 188u8, 253u8, 124u8, 25u8]
}

/// The bytes that store `c`.
pub open spec fn encode_counter(c: Counter) -> Seq<u8> {
    counter_discriminator() + spec_u64_to_le_bytes(c.count) + c.authority@
}

/// Whether `data` starts with a counter record: it is long enough and
/// begins with the counter's type tag.
pub open spec fn holds_counter(data: Seq<u8>) -> bool {
    data.len() >= Counter::SPACE && data.subrange(0, DISCRIMINATOR_LEN as int)
        == counter_discriminator()
}

/// The type tag of a counter record.
pub fn discriminator() -> (r: Vec<u8>)
    ensures
        r@ == counter_discriminator(),
{
    let r: Vec<u8> = vec![255u8, 176u8, 4u8, 245u8, 188u8, 253u8, 124u8, 25u8];
    assert(r@ =~= counter_discriminator());
    r
}

impl Counter {
    /// The stored form of the record.
    pub fn try_serialize(&self) -> (r: Vec<u8>)
        ensures
            r@ == encode_counter(*self),
            r@.len() == Counter::SPACE,
    {
        let mut out = discriminator();
        let mut count_bytes = u64_to_le_bytes(self.count);
        out.append(&mut count_bytes);
        let ghost head = out@;
        assert(self.authority@.len() == PUBKEY_BYTES);
        let mut i: usize = 0;
        while i < PUBKEY_BYTES
            invariant
                0 <= i <= PUBKEY_BYTES,
                head == counter_discriminator() + spec_u64_to_le_bytes(self.count),
                head.len() == 16,
                self.authority@.len() == PUBKEY_BYTES,
                out@ == head + self.authority@.subrange(0, i as int),
            decreases PUBKEY_BYTES - i,
        {
            out.push(self.authority.bytes[i]);
            i = i + 1;
            assert(out@ =~= head + self.authority@.subrange(0, i as int));
        }
        assert(self.authority@.subrange(0, PUBKEY_BYTES as int) =~= self.authority@);
        out
    }

    /// Reads the record stored at the start of `data`; `None` when `data`
    /// is too short or does not begin with the counter's type tag.
    pub fn try_deserialize(data: &[u8]) -> (r: Option<Counter>)
        ensures
            r is Some <==> holds_counter(data@),
            r matches Some(c) ==> encode_counter(c) == data@.subrange(0, Counter::SPACE as int),
    {
        if data.len() < Counter::SPACE {
            return None;
        }
        let tag = discriminator();
        let mut i: usize = 0;
        while i < DISCRIMINATOR_LEN
            invariant
                0 <= i <= DISCRIMINATOR_LEN,
                data@.len() >= Counter::SPACE,
                tag@ == counter_discriminator(),
                forall|j: int| 0 <= j < i ==> data@[j] == tag@[j],
            decreases DISCRIMINATOR_LEN - i,
        {
            if data[i] != tag[i] {
                assert(data@.subrange(0, DISCRIMINATOR_LEN as int)[i as int] != tag@[i as int]);
                return None;
            }
            i = i + 1;
        }
        assert(data@.subrange(0, DISCRIMINATOR_LEN as int) =~= counter_discriminator());
        let count_slice = slice_subrange(data, DISCRIMINATOR_LEN, DISCRIMINATOR_LEN + 8);
        let count = u64_from_le_bytes(count_slice);
        let mut bytes: [u8; 32] = [0u8; 32];
        let mut k: usize = 0;
        while k < PUBKEY_BYTES
            invariant
                0 <= k <= PUBKEY_BYTES,
                data@.len() >= Counter::SPACE,
                bytes@.len() == PUBKEY_BYTES,
                forall|j: int| 0 <= j < k ==> bytes@[j] == data@[16 + j],
            decreases PUBKEY_BYTES - k,
        {
            bytes[k] = data[16 + k];
            k = k + 1;
        }
        let c = Counter { count, authority: Pubkey { bytes } };
        proof {
            lemma_auto_spec_u64_to_from_le_bytes();
            assert(count_slice@ =~= data@.subrange(8, 16));
            assert(spec_u64_to_le_bytes(count) == data@.subrange(8, 16));
            assert(c.authority@ =~= data@.subrange(16, 48));
            assert(encode_counter(c) =~= data@.subrange(0, Counter::SPACE as int));
        }
        Some(c)
    }
}

/// Stored records are told apart by their bytes: two records with the same
/// stored form have the same count and the same authority, and every stored
/// form is recognised as a counter record.
pub proof fn lemma_encoding_round_trip(c: Counter, d: Counter)
    ensures
        encode_counter(c).len() == Counter::SPACE,
        holds_counter(encode_counter(c)),
        encode_counter(c).subrange(0, Counter::SPACE as int) == encode_counter(c),
        encode_counter(c) == encode_counter(d) ==> c.count == d.count && c.authority@
            == d.authority@,
{
    lemma_auto_spec_u64_to_from_le_bytes();
    let ec = encode_counter(c);
    assert(ec.subrange(0, 8) =~= counter_discriminator());
    assert(ec.subrange(0, Counter::SPACE as int) =~= ec);
    if ec == encode_counter(d) {
        let ed = encode_counter(d);
        assert(ec.subrange(8, 16) =~= spec_u64_to_le_bytes(c.count));
        assert(ed.subrange(8, 16) =~= spec_u64_to_le_bytes(d.count));
        assert(ec.subrange(16, 48) =~= c.authority@);
        assert(ed.subrange(16, 48) =~= d.authority@);
    }
}

} // verus!
