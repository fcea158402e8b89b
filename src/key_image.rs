//! Key images and their wire form.
use vstd::prelude::*;

use crate::error::ConversionError;

verus! {

/// Length in bytes of a key image (a compressed curve point).
pub const KEY_IMAGE_LEN: usize = 32;

/// The first `count` little-endian bytes of `n`.
pub open spec fn le_bytes(n: nat, count: nat) -> Seq<u8>
    decreases count,
{
    if count == 0 {
        Seq::empty()
    } else {
        seq![(n % 256) as u8] + le_bytes(n / 256, (count - 1) as nat)
    }
}

proof fn lemma_le_bytes_len(n: nat, count: nat)
    ensures
        le_bytes(n, count).len() == count,
    decreases count,
{
    if count > 0 {
        lemma_le_bytes_len(n / 256, (count - 1) as nat);
    }
}

/// A key image: the fixed-size tag that marks a spent output.
#[derive(Debug)]
pub struct KeyImage {
    bytes: Vec<u8>,
}

/// The wire form of a key image: bytes of any length.
#[derive(Debug)]
pub struct ExternalKeyImage {
    pub data: Vec<u8>,
}

impl KeyImage {
    /// The image's bytes.
    pub closed spec fn view(&self) -> Seq<u8> {
        self.bytes@
    }

    /// Every key image has exactly `KEY_IMAGE_LEN` bytes.
    pub closed spec fn wf(&self) -> bool {
        self.bytes@.len() == KEY_IMAGE_LEN
    }

    /// The key image whose first eight bytes are `n` in little-endian order
    /// and whose other bytes are zero.
    pub fn from_u64(n: u64) -> (r: KeyImage)
        ensures
            r.wf(),
            r@ == le_bytes(n as nat, 8) + Seq::new(24, |i: int| 0u8),
    {
        let mut bytes: Vec<u8> = Vec::new();
        let mut cur: u64 = n;
        let mut i: usize = 0;
        while i < 8
            invariant
                i <= 8,
                bytes@ + le_bytes(cur as nat, (8 - i) as nat) == le_bytes(n as nat, 8),
            decreases 8 - i,
        {
            proof {
                let k = (8 - i) as nat;
                assert(le_bytes(cur as nat, k) == seq![(cur as nat % 256) as u8] + le_bytes(
                    cur as nat / 256,
                    (k - 1) as nat,
                ));
                assert(bytes@.push((cur % 256) as u8) + le_bytes(cur as nat / 256, (k - 1) as nat)
                    =~= bytes@ + le_bytes(cur as nat, k));
            }
            bytes.push((cur % 256) as u8);
            cur = cur / 256;
            i = i + 1;
        }
        assert(le_bytes(cur as nat, 0) =~= Seq::<u8>::empty());
        assert(bytes@ =~= le_bytes(n as nat, 8));
        proof {
            lemma_le_bytes_len(n as nat, 8);
        }
        let ghost prefix = bytes@;
        while i < KEY_IMAGE_LEN
            invariant
                8 <= i <= KEY_IMAGE_LEN,
                bytes@ =~= prefix + Seq::new((i - 8) as nat, |j: int| 0u8),
                prefix.len() == 8,
            decreases KEY_IMAGE_LEN - i,
        {
            bytes.push(0u8);
            i = i + 1;
        }
        KeyImage { bytes }
    }

    /// The image's bytes.
    pub fn as_bytes(&self) -> (r: &[u8])
        ensures
            r@ == self@,
    {
        self.bytes.as_slice()
    }

    /// Reads a key image from its wire form; the data must have exactly
    /// `KEY_IMAGE_LEN` bytes.
    pub fn try_from_external(src: &ExternalKeyImage) -> (r: Result<KeyImage, ConversionError>)
        ensures
            r is Ok <==> src.data@.len() == KEY_IMAGE_LEN,
            r matches Ok(k) ==> k.wf() && k@ == src.data@,
            r matches Err(e) ==> e == ConversionError::ArrayCastError,
    {
        if src.data.len() == KEY_IMAGE_LEN {
            Ok(KeyImage { bytes: src.data.clone() })
        } else {
            Err(ConversionError::ArrayCastError)
        }
    }

    /// Whether two key images hold the same bytes.
    pub fn same_as(&self, other: &KeyImage) -> (r: bool)
        ensures
            r == (self@ == other@),
    {
        let n = self.bytes.len();
        if n != other.bytes.len() {
            return false;
        }
        let mut i: usize = 0;
        while i < n
            invariant
                n == self.bytes@.len() == other.bytes@.len(),
                i <= n,
                forall|j: int| 0 <= j < i ==> self.bytes@[j] == other.bytes@[j],
            decreases n - i,
        {
            if self.bytes[i] != other.bytes[i] {
                return false;
            }
            i = i + 1;
        }
        assert(self.bytes@ =~= other.bytes@);
        true
    }
}

impl PartialEq for KeyImage {
    fn eq(&self, other: &KeyImage) -> (r: bool) {
        self.same_as(other)
    }
}

impl vstd::std_specs::cmp::PartialEqSpecImpl for KeyImage {
    open spec fn obeys_eq_spec() -> bool {
        true
    }

    open spec fn eq_spec(&self, other: &KeyImage) -> bool {
        self@ == other@
    }
}

impl Eq for KeyImage {

}

impl ExternalKeyImage {
    /// The wire form of a key image: its bytes.
    pub fn from_key_image(src: &KeyImage) -> (r: ExternalKeyImage)
        ensures
            r.data@ == src@,
    {
        ExternalKeyImage { data: src.bytes.clone() }
    }
}

} // verus!
