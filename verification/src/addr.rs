//! Account addresses and the trusted boundary to the host's address
//! derivation: deriving a program address plus disambiguation byte from
//! seeds, hashing schedule contents, and parsing addresses from text.

use core::str::FromStr;
use vstd::prelude::*;

verus! {

/// A 32-byte account address on the hosting ledger.
#[derive(Clone, Copy, Debug, PartialEq, Eq, Hash)]
pub struct Address(pub [u8; 32]);

impl View for Address {
    type V = Seq<u8>;

    open spec fn view(&self) -> Seq<u8> {
        self.0@
    }
}

impl Address {
    /// The raw bytes of the address.
    pub fn to_bytes(&self) -> (r: [u8; 32])
        ensures
            r@ == self@,
    {
        self.0
    }

    /// The bytes of the address as a growable buffer, for use as a seed.
    pub fn to_vec(&self) -> (r: Vec<u8>)
        ensures
            r@ == self@,
    {
        bytes32_to_vec(&self.0)
    }

    /// Byte-wise equality of two addresses.
    pub fn matches(&self, other: &Address) -> (r: bool)
        ensures
            r <==> self@ == other@,
    {
        let mut i: usize = 0;
        while i < 32
            invariant
                i <= 32,
                forall|k: int| 0 <= k < i ==> self.0@[k] == other.0@[k],
            decreases 32 - i,
        {
            if self.0[i] != other.0[i] {
                return false;
            }
            i += 1;
        }
        proof {
            assert(self.0@ =~= other.0@);
        }
        true
    }
}

/// Reads 32 bytes starting at `off`.
pub fn read_bytes32(data: &[u8], off: usize) -> (r: [u8; 32])
    requires
        off + 32 <= data@.len(),
    ensures
        r@ == data@.subrange(off as int, off as int + 32),
{
    let n: usize = data.len();
    let mut out: [u8; 32] = [0u8; 32];
    let mut i: usize = 0;
    while i < 32
        invariant
            i <= 32,
            off + 32 <= n,
            n == data@.len(),
            forall|k: int| 0 <= k < i ==> out@[k] == data@[off + k],
        decreases 32 - i,
    {
        out[i] = *vstd::slice::slice_index_get(data, off + i);
        i += 1;
    }
    proof {
        assert(out@ =~= data@.subrange(off as int, off as int + 32));
    }
    out
}

/// Reads a fixed number of bytes starting at `off`.
pub fn read_bytes_array<const N: usize>(data: &[u8], off: usize) -> (r: [u8; N])
    requires
        off + N <= data@.len(),
    ensures
        r@ == data@.subrange(off as int, off as int + N as int),
{
    let n: usize = data.len();
    let mut out: [u8; N] = vstd::array::array_fill_for_copy_types::<u8, N>(0);
    let mut i: usize = 0;
    while i < N
        invariant
            i <= N,
            off + N <= n,
            n == data@.len(),
            out@.len() == N,
            forall|k: int| 0 <= k < i ==> out@[k] == data@[off + k],
        decreases N - i,
    {
        out[i] = *vstd::slice::slice_index_get(data, off + i);
        i += 1;
    }
    proof {
        assert(out@ =~= data@.subrange(off as int, off as int + N as int));
    }
    out
}

/// Copies 32 fixed bytes into a growable buffer.
pub fn bytes32_to_vec(b: &[u8; 32]) -> (r: Vec<u8>)
    ensures
        r@ == b@,
{
    let mut r: Vec<u8> = Vec::new();
    r.extend_from_slice(b.as_slice());
    r
}

/// The address of the host's account-creation program: all bytes zero.
pub fn system_program_address() -> (r: Address)
    ensures
        r@ == Seq::new(32, |i: int| 0u8),
{
    let a = Address([0u8; 32]);
    proof {
        assert(a@ =~= Seq::new(32, |i: int| 0u8));
    }
    a
}

/// The derived program address and disambiguation byte for a seed list under
/// a program id, or `None` when no disambiguation byte yields a valid
/// off-curve address. The host defines this derivation; it is a pure
/// function of the seeds and the program id.
pub uninterp spec fn pda_of(seeds: Seq<Seq<u8>>, program_id: Seq<u8>) -> Option<(Seq<u8>, u8)>;

/// The SHA-256 digest (32 bytes) of a byte sequence.
pub uninterp spec fn sha256_of(input: Seq<u8>) -> Seq<u8>;

/// The address bytes that base-58 text decodes to, or `None` when the text
/// is not a valid 32-byte encoding.
pub uninterp spec fn decoded_address_of(s: Seq<char>) -> Option<Seq<u8>>;

/// The concatenation of a sequence of byte sequences.
pub open spec fn concat_bytes(parts: Seq<Seq<u8>>) -> Seq<u8>
    decreases parts.len(),
{
    if parts.len() == 0 {
        Seq::empty()
    } else {
        parts.first() + concat_bytes(parts.drop_first())
    }
}

/// A one-part concatenation is that part itself.
pub proof fn lemma_concat_bytes_single(parts: Seq<Seq<u8>>)
    requires
        parts.len() == 1,
    ensures
        concat_bytes(parts) == parts[0],
{
    assert(concat_bytes(parts.drop_first()) == Seq::<u8>::empty());
    assert(concat_bytes(parts) =~= parts[0]);
}

/// Relies on `Pubkey::try_find_program_address` of solana-pubkey: it returns
/// the derived address and bump for the seeds and program id, a pure function
/// of its arguments, and `None` when no bump produces a valid address.
#[verifier::external_body]
pub(crate) fn try_find_pda(seeds: &Vec<Vec<u8>>, program_id: &Address) -> (r: Option<(Address, u8)>)
    ensures
        (match r {
            Some(p) => pda_of(seeds.deep_view(), program_id@) == Some((p.0@, p.1)),
            None => pda_of(seeds.deep_view(), program_id@) is None,
        }),
{
    let seed_refs: Vec<&[u8]> = seeds.iter().map(|s| s.as_slice()).collect();
    let pid = solana_program::pubkey::Pubkey::new_from_array(program_id.0);
    solana_program::pubkey::Pubkey::try_find_program_address(&seed_refs, &pid)
        .map(|(pk, bump)| (Address(pk.to_bytes()), bump))
}

/// Relies on `solana_program::hash::hashv`: it returns the 32-byte SHA-256
/// digest of the concatenation of the input slices, a pure function of the
/// input bytes.
#[verifier::external_body]
pub(crate) fn hashv_digest(inputs: &Vec<Vec<u8>>) -> (r: [u8; 32])
    ensures
        r@ == sha256_of(concat_bytes(inputs.deep_view())),
{
    let input_refs: Vec<&[u8]> = inputs.iter().map(|s| s.as_slice()).collect();
    solana_program::hash::hashv(&input_refs).to_bytes()
}

/// Relies on `Pubkey::from_str` of solana-pubkey: base-58 decoding succeeds
/// exactly on well-formed 32-byte encodings and depends on the characters
/// alone.
#[verifier::external_body]
pub(crate) fn decode_address(s: &str) -> (r: Option<Address>)
    ensures
        (match r {
            Some(a) => decoded_address_of(s@) == Some(a@),
            None => decoded_address_of(s@) is None,
        }),
{
    match solana_program::pubkey::Pubkey::from_str(s) {
        Ok(p) => Some(Address(p.to_bytes())),
        Err(_) => None,
    }
}

} // verus!
