//! Byte-level building blocks shared by every contract: account addresses,
//! content equality of buffers, and the big-endian and length-prefixed
//! encodings that the sync payloads and storage keys are made of.
use vstd::prelude::*;
use vstd::string::StringSliceAdditionalSpecFns;

verus! {

/// A 32-byte account address.
#[derive(Clone, Copy, Debug, PartialEq, Eq)]
pub struct Address {
    pub bytes: [u8; 32],
}

impl View for Address {
    type V = Seq<u8>;

    open spec fn view(&self) -> Seq<u8> {
        self.bytes@
    }
}

/// The all-zero address.
pub open spec fn is_zero_address(a: Seq<u8>) -> bool {
    forall|i: int| 0 <= i < a.len() ==> a[i] == 0u8
}

/// The bytes of an address, if there is one.
pub open spec fn address_view(a: Option<Address>) -> Option<Seq<u8>> {
    match a {
        Some(x) => Some(x@),
        None => None,
    }
}

impl Address {
    /// The address made of the given bytes.
    pub fn new(bytes: [u8; 32]) -> (a: Address)
        ensures
            a.bytes == bytes,
            a@ == bytes@,
    {
        Address { bytes }
    }

    /// The all-zero address, which the framework returns as a default.
    pub fn zero() -> (a: Address)
        ensures
            a@.len() == 32,
            is_zero_address(a@),
    {
        let a = Address { bytes: [0u8; 32] };
        assert(is_zero_address(a@));
        a
    }

    /// Whether every byte of the address is zero.
    pub fn is_zero(&self) -> (r: bool)
        ensures
            r == is_zero_address(self@),
    {
        let mut i: usize = 0;
        while i < 32
            invariant
                i <= 32,
                self@.len() == 32,
                forall|j: int| 0 <= j < i ==> self@[j] == 0u8,
            decreases 32 - i,
        {
            if self.bytes[i] != 0 {
                return false;
            }
            i = i + 1;
        }
        true
    }

    /// Whether both addresses hold the same bytes.
    pub fn same(&self, other: &Address) -> (r: bool)
        ensures
            r == (self@ == other@),
    {
        let mut i: usize = 0;
        while i < 32
            invariant
                i <= 32,
                self@.len() == 32,
                other@.len() == 32,
                forall|j: int| 0 <= j < i ==> self@[j] == other@[j],
            decreases 32 - i,
        {
            if self.bytes[i] != other.bytes[i] {
                return false;
            }
            i = i + 1;
        }
        assert(self@ =~= other@);
        true
    }

    /// The address as an owned byte buffer.
    pub fn to_vec(&self) -> (v: Vec<u8>)
        ensures
            v@ == self@,
    {
        let mut v: Vec<u8> = Vec::new();
        let mut i: usize = 0;
        while i < 32
            invariant
                i <= 32,
                self@.len() == 32,
                v@ == self@.subrange(0, i as int),
            decreases 32 - i,
        {
            v.push(self.bytes[i]);
            i = i + 1;
        }
        assert(v@ =~= self@);
        v
    }
}

/// Whether two buffers hold the same bytes.
pub fn bytes_eq(a: &Vec<u8>, b: &Vec<u8>) -> (r: bool)
    ensures
        r == (a@ == b@),
{
    if a.len() != b.len() {
        return false;
    }
    let mut i: usize = 0;
    while i < a.len()
        invariant
            i <= a@.len(),
            a@.len() == b@.len(),
            forall|j: int| 0 <= j < i ==> a@[j] == b@[j],
        decreases a@.len() - i,
    {
        if a[i] != b[i] {
            return false;
        }
        i = i + 1;
    }
    assert(a@ =~= b@);
    true
}

/// Appends every byte of `src` to `dest`.
pub fn append_bytes(dest: &mut Vec<u8>, src: &[u8])
    ensures
        final(dest)@ == old(dest)@ + src@,
{
    let ghost start = dest@;
    let mut i: usize = 0;
    while i < src.len()
        invariant
            i <= src@.len(),
            dest@ == start + src@.subrange(0, i as int),
        decreases src@.len() - i,
    {
        dest.push(src[i]);
        i = i + 1;
        assert(dest@ =~= start + src@.subrange(0, i as int));
    }
    assert(src@.subrange(0, src@.len() as int) =~= src@);
}

/// Appends the UTF-8 bytes of a text to `dest`.
pub fn append_text(dest: &mut Vec<u8>, text: &str)
    ensures
        final(dest)@ == old(dest)@ + text.spec_bytes(),
{
    append_bytes(dest, text.as_bytes());
}

/// The four big-endian bytes of a `u32`, as `u32::to_be_bytes` gives them.
pub open spec fn u32_be(n: u32) -> Seq<u8> {
    seq![(n >> 24u32) as u8, (n >> 16u32) as u8, (n >> 8u32) as u8, n as u8]
}

/// The eight big-endian bytes of a `u64`, as `u64::to_be_bytes` gives them.
pub open spec fn u64_be(n: u64) -> Seq<u8> {
    seq![
        (n >> 56u64) as u8,
        (n >> 48u64) as u8,
        (n >> 40u64) as u8,
        (n >> 32u64) as u8,
        (n >> 24u64) as u8,
        (n >> 16u64) as u8,
        (n >> 8u64) as u8,
        n as u8,
    ]
}

/// Appends the big-endian bytes of `n`.
pub fn append_u32_be(dest: &mut Vec<u8>, n: u32)
    ensures
        final(dest)@ == old(dest)@ + u32_be(n),
{
    dest.push((n >> 24u32) as u8);
    dest.push((n >> 16u32) as u8);
    dest.push((n >> 8u32) as u8);
    dest.push(n as u8);
    assert(dest@ =~= old(dest)@ + u32_be(n));
}

/// Appends the big-endian bytes of `n`.
pub fn append_u64_be(dest: &mut Vec<u8>, n: u64)
    ensures
        final(dest)@ == old(dest)@ + u64_be(n),
{
    dest.push((n >> 56u64) as u8);
    dest.push((n >> 48u64) as u8);
    dest.push((n >> 40u64) as u8);
    dest.push((n >> 32u64) as u8);
    dest.push((n >> 24u64) as u8);
    dest.push((n >> 16u64) as u8);
    dest.push((n >> 8u64) as u8);
    dest.push(n as u8);
    assert(dest@ =~= old(dest)@ + u64_be(n));
}

/// A value preceded by its length as four big-endian bytes. The length is
/// cut to 32 bits, as the contracts' `len as u32` cuts it.
pub open spec fn len_prefixed(value: Seq<u8>) -> Seq<u8> {
    u32_be(value.len() as u32) + value
}

/// Appends `value` preceded by its length as four big-endian bytes.
pub fn push_len_prefixed(dest: &mut Vec<u8>, value: &Vec<u8>)
    ensures
        final(dest)@ == old(dest)@ + len_prefixed(value@),
{
    let len: u32 = value.len() as u32;
    append_u32_be(dest, len);
    append_bytes(dest, value.as_slice());
    assert(dest@ =~= old(dest)@ + len_prefixed(value@));
}

/// The big-endian number that four bytes spell.
pub open spec fn u32_from_be(s: Seq<u8>) -> u32 {
    ((s[0] as u32) << 24u32) | ((s[1] as u32) << 16u32) | ((s[2] as u32) << 8u32) | (s[3] as u32)
}

/// Reading back the big-endian bytes of a `u32` gives the number.
pub proof fn lemma_u32_be_roundtrip(n: u32)
    ensures
        u32_be(n).len() == 4,
        u32_from_be(u32_be(n)) == n,
{
    let b0: u8 = (n >> 24u32) as u8;
    let b1: u8 = (n >> 16u32) as u8;
    let b2: u8 = (n >> 8u32) as u8;
    let b3: u8 = n as u8;
    assert(((b0 as u32) << 24u32) | ((b1 as u32) << 16u32) | ((b2 as u32) << 8u32) | (b3 as u32)
        == n) by (bit_vector)
        requires
            b0 == (n >> 24u32) as u8,
            b1 == (n >> 16u32) as u8,
            b2 == (n >> 8u32) as u8,
            b3 == n as u8,
    ;
}

/// A length-prefixed value can be read back from the front of a sequence:
/// the prefix fixes the length, so the value and what follows are determined,
/// for values shorter than 2^32 bytes.
pub proof fn lemma_len_prefixed_split(a: Seq<u8>, rest_a: Seq<u8>, b: Seq<u8>, rest_b: Seq<u8>)
    requires
        a.len() <= u32::MAX,
        b.len() <= u32::MAX,
        len_prefixed(a) + rest_a == len_prefixed(b) + rest_b,
    ensures
        a == b,
        rest_a == rest_b,
{
    let x = len_prefixed(a) + rest_a;
    let y = len_prefixed(b) + rest_b;
    lemma_u32_be_roundtrip(a.len() as u32);
    lemma_u32_be_roundtrip(b.len() as u32);
    assert(x.subrange(0, 4) =~= u32_be(a.len() as u32));
    assert(y.subrange(0, 4) =~= u32_be(b.len() as u32));
    assert(a.len() == b.len());
    assert(x.subrange(4, 4 + a.len() as int) =~= a);
    assert(y.subrange(4, 4 + b.len() as int) =~= b);
    assert(x.subrange(4 + a.len() as int, x.len() as int) =~= rest_a);
    assert(y.subrange(4 + b.len() as int, y.len() as int) =~= rest_b);
}

/// Distinct numbers have distinct big-endian bytes.
pub proof fn lemma_u64_be_injective(a: u64, b: u64)
    requires
        u64_be(a) == u64_be(b),
    ensures
        a == b,
{
    assert(u64_be(a)[0] == u64_be(b)[0]);
    assert(u64_be(a)[1] == u64_be(b)[1]);
    assert(u64_be(a)[2] == u64_be(b)[2]);
    assert(u64_be(a)[3] == u64_be(b)[3]);
    assert(u64_be(a)[4] == u64_be(b)[4]);
    assert(u64_be(a)[5] == u64_be(b)[5]);
    assert(u64_be(a)[6] == u64_be(b)[6]);
    assert(u64_be(a)[7] == u64_be(b)[7]);
    assert(a == b) by (bit_vector)
        requires
            (a >> 56u64) as u8 == (b >> 56u64) as u8,
            (a >> 48u64) as u8 == (b >> 48u64) as u8,
            (a >> 40u64) as u8 == (b >> 40u64) as u8,
            (a >> 32u64) as u8 == (b >> 32u64) as u8,
            (a >> 24u64) as u8 == (b >> 24u64) as u8,
            (a >> 16u64) as u8 == (b >> 16u64) as u8,
            (a >> 8u64) as u8 == (b >> 8u64) as u8,
            a as u8 == b as u8,
    ;
}

/// A big-endian `u64` can be read back from the front of a sequence.
pub proof fn lemma_u64_be_split(a: u64, rest_a: Seq<u8>, b: u64, rest_b: Seq<u8>)
    requires
        u64_be(a) + rest_a == u64_be(b) + rest_b,
    ensures
        a == b,
        rest_a == rest_b,
{
    let x = u64_be(a) + rest_a;
    assert(x.subrange(0, 8) =~= u64_be(a));
    assert((u64_be(b) + rest_b).subrange(0, 8) =~= u64_be(b));
    lemma_u64_be_injective(a, b);
    assert(x.subrange(8, x.len() as int) =~= rest_a);
    assert((u64_be(b) + rest_b).subrange(8, x.len() as int) =~= rest_b);
}

} // verus!
