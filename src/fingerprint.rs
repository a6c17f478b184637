use vstd::prelude::*;

verus! {

/// The identity of an account that owns kitties: 32 opaque bytes.
#[derive(Clone, Copy, Debug)]
pub struct AccountId(pub [u8; 32]);

impl PartialEq for AccountId {
    fn eq(&self, other: &AccountId) -> (r: bool) {
        let mut i: usize = 0;
        while i < 32
            invariant
                i <= 32,
                forall|j: int| 0 <= j < i ==> self.0@[j] == other.0@[j],
            decreases 32 - i,
        {
            if self.0[i] != other.0[i] {
                return false;
            }
            i = i + 1;
        }
        assert(self.0 =~= other.0);
        true
    }
}

impl vstd::std_specs::cmp::PartialEqSpecImpl for AccountId {
    open spec fn obeys_eq_spec() -> bool {
        true
    }

    open spec fn eq_spec(&self, other: &AccountId) -> bool {
        *self == *other
    }
}

impl Eq for AccountId {
}

/// The name of BLAKE2b with a 16-byte output, applied to `data`.
pub uninterp spec fn blake2_128_of(data: Seq<u8>) -> Seq<u8>;

/// Relies on `sp_io::hashing::blake2_128`: the 16-byte BLAKE2b digest of
/// `data`, which depends on the bytes of `data` alone.
#[verifier::external_body]
fn blake2_128(data: &[u8]) -> (r: [u8; 16])
    ensures
        r@ == blake2_128_of(data@),
{
    sp_io::hashing::blake2_128(data)
}

/// The canonical encoding of an identifier: its four bytes, least
/// significant first.
pub open spec fn encode_id(id: u32) -> Seq<u8> {
    seq![
        (id & 0xff) as u8,
        ((id >> 8u32) & 0xff) as u8,
        ((id >> 16u32) & 0xff) as u8,
        ((id >> 24u32) & 0xff) as u8,
    ]
}

/// The bytes a kitty's DNA is hashed from: the encoded identifier followed
/// by the owner's 32 bytes.
pub open spec fn dna_preimage(id: u32, owner: AccountId) -> Seq<u8> {
    encode_id(id) + owner.0@
}

/// The DNA of the kitty with identifier `id` owned by `owner`.
pub open spec fn dna_of(id: u32, owner: AccountId) -> Seq<u8> {
    blake2_128_of(dna_preimage(id, owner))
}

/// The bytes that the DNA of kitty `id` owned by `owner` is hashed from.
pub fn encode_dna_input(id: u32, owner: &AccountId) -> (r: Vec<u8>)
    ensures
        r@ == dna_preimage(id, *owner),
{
    let mut v: Vec<u8> = Vec::new();
    v.push((id & 0xff) as u8);
    v.push(((id >> 8u32) & 0xff) as u8);
    v.push(((id >> 16u32) & 0xff) as u8);
    v.push(((id >> 24u32) & 0xff) as u8);
    assert(v@ =~= encode_id(id));
    let mut i: usize = 0;
    while i < 32
        invariant
            i <= 32,
            owner.0@.len() == 32,
            v@ =~= encode_id(id) + owner.0@.subrange(0, i as int),
        decreases 32 - i,
    {
        v.push(owner.0[i]);
        i = i + 1;
        assert(v@ =~= encode_id(id) + owner.0@.subrange(0, i as int));
    }
    assert(owner.0@.subrange(0, 32) =~= owner.0@);
    v
}

/// The DNA of the kitty with identifier `id` owned by `owner`.
pub fn kitty_dna(id: u32, owner: &AccountId) -> (r: [u8; 16])
    ensures
        r@ == dna_of(id, *owner),
{
    let input = encode_dna_input(id, owner);
    blake2_128(input.as_slice())
}

/// Different identifiers have different encodings.
pub proof fn lemma_encode_id_injective(a: u32, b: u32)
    requires
        encode_id(a) == encode_id(b),
    ensures
        a == b,
{
    let (ea, eb) = (encode_id(a), encode_id(b));
    assert(ea[0] == eb[0] && ea[1] == eb[1] && ea[2] == eb[2] && ea[3] == eb[3]);
    assert(a == b) by (bit_vector)
        requires
            (a & 0xff) as u8 == (b & 0xff) as u8,
            ((a >> 8u32) & 0xff) as u8 == ((b >> 8u32) & 0xff) as u8,
            ((a >> 16u32) & 0xff) as u8 == ((b >> 16u32) & 0xff) as u8,
            ((a >> 24u32) & 0xff) as u8 == ((b >> 24u32) & 0xff) as u8,
    ;
}

/// Kitties with different identifiers have their DNA hashed from different
/// bytes, whoever owns them.
pub proof fn lemma_dna_preimages_differ(id1: u32, owner1: AccountId, id2: u32, owner2: AccountId)
    requires
        id1 != id2,
    ensures
        dna_preimage(id1, owner1) != dna_preimage(id2, owner2),
{
    if dna_preimage(id1, owner1) == dna_preimage(id2, owner2) {
        assert(dna_preimage(id1, owner1).subrange(0, 4) =~= encode_id(id1));
        assert(dna_preimage(id2, owner2).subrange(0, 4) =~= encode_id(id2));
        lemma_encode_id_injective(id1, id2);
    }
}

} // verus!
