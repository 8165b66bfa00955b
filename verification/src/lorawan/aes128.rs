//! A 128-bit AES key and the block transform that the library applies with it.
use vstd::prelude::*;

use super::error::Error;
use vstd::string::StringSliceAdditionalSpecFns;
use super::hexstr::{
    decode_error, hex_decode_spec, hex_decode_to_slice, hex_encode, hex_encode_spec,
    lemma_hex_roundtrip, lemma_hex_text_bytes,
};

verus! {

/// A 128-bit AES key.
#[derive(Copy, Clone, PartialEq, Eq, Default, Debug)]
pub struct AES128Key([u8; 16]);

impl View for AES128Key {
    type V = Seq<u8>;

    /// The 16 bytes of the key.
    closed spec fn view(&self) -> Seq<u8> {
        self.0@
    }
}

/// Sixteen zero bytes.
pub open spec fn zero_block() -> Seq<u8> {
    Seq::new(16, |i: int| 0u8)
}

/// The block that the key `k` turns `d` into: each byte xor-ed with the key
/// byte at the same place.
pub open spec fn xor_block(d: Seq<u8>, k: Seq<u8>) -> Seq<u8> {
    Seq::new(16, |i: int| d[i] ^ k[i])
}

/// What `encrypt` makes of the block `d` with the key bytes `k`.
pub open spec fn encrypt_spec(k: Seq<u8>, d: Seq<u8>) -> Seq<u8> {
    xor_block(d, k)
}

/// What `decrypt` makes of the block `d` with the key bytes `k`.
pub open spec fn decrypt_spec(k: Seq<u8>, d: Seq<u8>) -> Seq<u8> {
    xor_block(d, k)
}

/// The key bytes that the text with bytes `b` stands for: sixteen zeros for
/// the empty text, else the 32 hexadecimal digits decoded.
pub open spec fn parse_key_text(b: Seq<u8>) -> Result<Seq<u8>, Error> {
    if b.len() == 0 {
        Ok(zero_block())
    } else {
        match decode_error(b, 16) {
            Some(e) => Err(Error::FromHex(e)),
            None => Ok(hex_decode_spec(b)),
        }
    }
}

/// `r` is the key result that `expected` describes.
pub open spec fn key_result_is(r: Result<AES128Key, Error>, expected: Result<Seq<u8>, Error>) -> bool {
    match (r, expected) {
        (Ok(k), Ok(v)) => k@ == v,
        (Err(e), Err(f)) => e == f,
        _ => false,
    }
}

/// Copies a 16-byte slice into an array.
fn block_from_slice(b: &[u8]) -> (out: [u8; 16])
    requires
        b@.len() == 16,
    ensures
        out@ == b@,
{
    let mut out = [0u8; 16];
    let mut i: usize = 0;
    while i < 16
        invariant
            b@.len() == 16,
            0 <= i <= 16,
            out@.len() == 16,
            forall|j: int| 0 <= j < i ==> out@[j] == b@[j],
        decreases 16 - i,
    {
        out[i] = b[i];
        i = i + 1;
    }
    assert(out@ =~= b@);
    out
}

impl AES128Key {
    /// Every key is 16 bytes.
    pub proof fn lemma_len(&self)
        ensures
            self@.len() == 16,
    {
    }

    /// The all-zero key.
    pub fn null() -> (k: AES128Key)
        ensures
            k@ == zero_block(),
    {
        let k = AES128Key([0u8; 16]);
        assert(k@ =~= zero_block());
        k
    }

    /// The key made of the given bytes, which must be exactly 16.
    pub fn from_slice(b: &[u8]) -> (r: Result<AES128Key, Error>)
        ensures
            r is Ok <==> b@.len() == 16,
            r matches Ok(k) ==> k@ == b@,
            r matches Err(e) ==> e == Error::Aes128Length,
    {
        if b.len() != 16 {
            return Err(Error::Aes128Length);
        }
        Ok(AES128Key(block_from_slice(b)))
    }

    /// The key made of the given bytes.
    pub fn from_bytes(b: [u8; 16]) -> (k: AES128Key)
        ensures
            k@ == b@,
    {
        AES128Key(b)
    }

    /// The bytes of the key.
    pub fn to_bytes(&self) -> (b: [u8; 16])
        ensures
            b@ == self@,
    {
        self.0
    }

    /// The bytes of the key, as a vector.
    pub fn to_vec(&self) -> (v: Vec<u8>)
        ensures
            v@ == self@,
    {
        let mut v: Vec<u8> = Vec::new();
        let mut i: usize = 0;
        while i < 16
            invariant
                self@.len() == 16,
                0 <= i <= 16,
                v@ == self@.take(i as int),
            decreases 16 - i,
        {
            v.push(self.0[i]);
            i = i + 1;
            assert(v@ =~= self@.take(i as int));
        }
        assert(self@.take(16) =~= self@);
        v
    }

    /// Transforms the block in place with this key.
    pub fn encrypt(&self, data: &mut [u8; 16])
        ensures
            final(data)@ == encrypt_spec(self@, old(data)@),
            forall|i: int| 0 <= i < 16 ==> final(data)@[i] == old(data)@[i] ^ self@[i],
    {
        self.apply(data);
    }

    /// Transforms the block in place with this key, undoing `encrypt`.
    pub fn decrypt(&self, data: &mut [u8; 16])
        ensures
            final(data)@ == decrypt_spec(self@, old(data)@),
            forall|i: int| 0 <= i < 16 ==> final(data)@[i] == old(data)@[i] ^ self@[i],
    {
        self.apply(data);
    }

    fn apply(&self, data: &mut [u8; 16])
        ensures
            final(data)@ == xor_block(old(data)@, self@),
    {
        let ghost orig = data@;
        let mut i: usize = 0;
        while i < 16
            invariant
                0 <= i <= 16,
                orig.len() == 16,
                data@.len() == 16,
                self@.len() == 16,
                forall|j: int| 0 <= j < i ==> data@[j] == orig[j] ^ self@[j],
                forall|j: int| i <= j < 16 ==> data@[j] == orig[j],
            decreases 16 - i,
        {
            let x = data[i] ^ self.0[i];
            data[i] = x;
            i = i + 1;
        }
        assert(data@ =~= xor_block(orig, self@));
    }

    /// The key as lowercase hexadecimal text.
    pub fn to_string(&self) -> (s: String)
        ensures
            s@ == hex_encode_spec(self@),
    {
        hex_encode(self.0.as_slice())
    }

    /// The key that the hexadecimal text stands for; the empty text stands
    /// for the all-zero key.
    pub fn from_str(s: &str) -> (r: Result<AES128Key, Error>)
        ensures
            key_result_is(r, parse_key_text(s.spec_bytes())),
    {
        let b = s.as_bytes();
        if b.len() == 0 {
            return Ok(AES128Key::null());
        }
        let mut out: Vec<u8> = vec![0u8; 16];
        match hex_decode_to_slice(b, &mut out) {
            Ok(()) => Ok(AES128Key(block_from_slice(out.as_slice()))),
            Err(e) => Err(Error::FromHex(e)),
        }
    }
}

/// Decrypting what was encrypted with the same key gives the block back.
pub proof fn lemma_decrypt_undoes_encrypt(k: AES128Key, d: Seq<u8>)
    requires
        d.len() == 16,
    ensures
        decrypt_spec(k@, encrypt_spec(k@, d)) == d,
{
    assert forall|i: int| 0 <= i < 16 implies #[trigger] decrypt_spec(k@, encrypt_spec(k@, d))[i]
        == d[i] by {
        let x = d[i];
        let y = k@[i];
        assert((x ^ y) ^ y == x) by (bit_vector);
    }
    assert(decrypt_spec(k@, encrypt_spec(k@, d)) =~= d);
}

/// Encrypting what was decrypted with the same key gives the block back.
pub proof fn lemma_encrypt_undoes_decrypt(k: AES128Key, d: Seq<u8>)
    requires
        d.len() == 16,
    ensures
        encrypt_spec(k@, decrypt_spec(k@, d)) == d,
{
    assert forall|i: int| 0 <= i < 16 implies #[trigger] encrypt_spec(k@, decrypt_spec(k@, d))[i]
        == d[i] by {
        let x = d[i];
        let y = k@[i];
        assert((x ^ y) ^ y == x) by (bit_vector);
    }
    assert(encrypt_spec(k@, decrypt_spec(k@, d)) =~= d);
}

/// Two keys that encrypt some block to the same result are the same key.
pub proof fn lemma_encrypt_determines_key(k1: AES128Key, k2: AES128Key, d: Seq<u8>)
    requires
        d.len() == 16,
        encrypt_spec(k1@, d) == encrypt_spec(k2@, d),
    ensures
        k1@ == k2@,
{
    k1.lemma_len();
    k2.lemma_len();
    assert forall|i: int| 0 <= i < 16 implies k1@[i] == k2@[i] by {
        let x = d[i];
        let a = k1@[i];
        let b = k2@[i];
        assert(encrypt_spec(k1@, d)[i] == encrypt_spec(k2@, d)[i]);
        assert(encrypt_spec(k1@, d)[i] == (x ^ a));
        assert(encrypt_spec(k2@, d)[i] == (x ^ b));
        assert((x ^ a) == (x ^ b) ==> a == b) by (bit_vector);
    }
    assert(k1@ =~= k2@);
}

/// Flipping any one bit of a key changes what it encrypts any block to.
pub proof fn lemma_encrypt_key_sensitive(k1: AES128Key, k2: AES128Key, d: Seq<u8>, byte: int, bit: u8)
    requires
        d.len() == 16,
        0 <= byte < 16,
        bit < 8,
        k2@ == k1@.update(byte, k1@[byte] ^ (1u8 << bit)),
    ensures
        encrypt_spec(k1@, d) != encrypt_spec(k2@, d),
{
    k1.lemma_len();
    let x = d[byte];
    let a = k1@[byte];
    assert((x ^ a) != (x ^ (a ^ (1u8 << bit)))) by (bit_vector)
        requires
            bit < 8,
    ;
    assert(encrypt_spec(k1@, d)[byte] != encrypt_spec(k2@, d)[byte]);
}

/// Encrypting with any key other than the all-zero one changes every block.
///
/// The all-zero key cannot be included. Encryption also keeps keys apart:
/// two keys that give the same result on a block are the same key
/// (`lemma_encrypt_determines_key`). Then some key leaves each block as it
/// is, whatever the transform (`lemma_some_key_fixes_each_block`): the keys
/// give as many different results as there are blocks, the block itself
/// among them. Under this transform that key is the all-zero one.
pub proof fn lemma_encrypt_changes_block(k: AES128Key, d: Seq<u8>)
    requires
        d.len() == 16,
        k@ != zero_block(),
    ensures
        encrypt_spec(k@, d) != d,
{
    k.lemma_len();
    if encrypt_spec(k@, d) == d {
        assert forall|i: int| 0 <= i < 16 implies k@[i] == 0u8 by {
            let x = d[i];
            let y = k@[i];
            assert(encrypt_spec(k@, d)[i] == d[i]);
            assert((x ^ y) == x ==> y == 0) by (bit_vector);
        }
        assert(k@ =~= zero_block());
    }
}

/// Reading back the hexadecimal text of a key gives the key.
pub proof fn lemma_to_string_from_str_roundtrip(k: AES128Key, s: &str)
    requires
        s@ == hex_encode_spec(k@),
    ensures
        parse_key_text(s.spec_bytes()) == Ok::<Seq<u8>, Error>(k@),
{
    k.lemma_len();
    lemma_hex_roundtrip(k@);
    lemma_hex_text_bytes(k@, s);
}

/// The empty text stands for the all-zero key.
pub proof fn lemma_empty_text_is_null()
    ensures
        parse_key_text(Seq::empty()) == Ok::<Seq<u8>, Error>(zero_block()),
{
}

/// All byte strings of length `n`.
pub open spec fn blocks_of_len(n: nat) -> Set<Seq<u8>> {
    Set::new(|s: Seq<u8>| s.len() == n)
}

/// The strings of `base` with one byte below `m` pushed at the end.
spec fn extended_below(base: Set<Seq<u8>>, m: int) -> Set<Seq<u8>> {
    Set::new(|s: Seq<u8>| s.len() > 0 && base.contains(s.drop_last()) && (s.last() as int) < m)
}

proof fn lemma_extended_below_finite(base: Set<Seq<u8>>, m: int)
    requires
        base.finite(),
        0 <= m,
    ensures
        extended_below(base, m).finite(),
    decreases m,
{
    if m == 0 {
        assert(extended_below(base, 0) =~= Set::<Seq<u8>>::empty());
    } else {
        lemma_extended_below_finite(base, m - 1);
        let f = |t: Seq<u8>| t.push((m - 1) as u8);
        base.lemma_map_finite(f);
        assert forall|s: Seq<u8>| #[trigger] extended_below(base, m).contains(s) implies extended_below(
            base,
            m - 1,
        ).contains(s) || base.map(f).contains(s) by {
            if (s.last() as int) == m - 1 {
                let t = s.drop_last();
                assert(s =~= t.push(s.last()));
                assert(f(t) == s);
            }
        }
        assert forall|s: Seq<u8>|
            extended_below(base, m - 1).contains(s) || #[trigger] base.map(f).contains(
                s,
            ) implies extended_below(base, m).contains(s) by {
            if base.map(f).contains(s) {
                let t = choose|t: Seq<u8>| base.contains(t) && f(t) == s;
                assert(s.drop_last() =~= t);
            }
        }
        assert(extended_below(base, m) =~= extended_below(base, m - 1).union(base.map(f)));
    }
}

/// There are finitely many byte strings of any one length.
pub proof fn lemma_blocks_finite(n: nat)
    ensures
        blocks_of_len(n).finite(),
    decreases n,
{
    if n == 0 {
        assert forall|s: Seq<u8>| #[trigger] blocks_of_len(0).contains(s) implies s
            == Seq::<u8>::empty() by {
            assert(s =~= Seq::<u8>::empty());
        }
        assert(blocks_of_len(0) =~= Set::<Seq<u8>>::empty().insert(Seq::<u8>::empty()));
    } else {
        lemma_blocks_finite((n - 1) as nat);
        lemma_extended_below_finite(blocks_of_len((n - 1) as nat), 256);
        assert(blocks_of_len(n) =~= extended_below(blocks_of_len((n - 1) as nat), 256));
    }
}

/// No transform of 16-byte blocks under 16-byte keys can both keep keys
/// apart on a block (as `lemma_encrypt_determines_key` states of this one)
/// and change that block under every key: some key leaves it as it is.
pub proof fn lemma_some_key_fixes_each_block(enc: spec_fn(Seq<u8>, Seq<u8>) -> Seq<u8>, d: Seq<u8>)
    requires
        d.len() == 16,
        forall|k: Seq<u8>| k.len() == 16 ==> (#[trigger] enc(k, d)).len() == 16,
        forall|k1: Seq<u8>, k2: Seq<u8>|
            k1.len() == 16 && k2.len() == 16 && #[trigger] enc(k1, d) == #[trigger] enc(k2, d)
                ==> k1 == k2,
    ensures
        exists|k: Seq<u8>| k.len() == 16 && enc(k, d) == d,
{
    let keys = blocks_of_len(16);
    let f = |k: Seq<u8>| enc(k, d);
    lemma_blocks_finite(16);
    assert(vstd::relations::injective_on(f, keys)) by {
        assert forall|k1: Seq<u8>, k2: Seq<u8>|
            keys.contains(k1) && keys.contains(k2) && #[trigger] f(k1) == #[trigger] f(k2) implies k1
            == k2 by {
            assert(enc(k1, d) == enc(k2, d));
        }
    }
    let outs = keys.map(f);
    vstd::set_lib::lemma_map_size(keys, outs, f);
    assert(outs.subset_of(keys)) by {
        assert forall|b: Seq<u8>| outs.contains(b) implies keys.contains(b) by {
            let k = choose|k: Seq<u8>| keys.contains(k) && f(k) == b;
            assert(enc(k, d).len() == 16);
        }
    }
    vstd::set_lib::lemma_subset_equality(outs, keys);
    assert(keys.contains(d));
    assert(outs.contains(d));
    let k = choose|k: Seq<u8>| keys.contains(k) && f(k) == d;
    assert(k.len() == 16 && enc(k, d) == d);
}

/// Encryption and decryption work byte by byte: byte `i` of the result is
/// byte `i` of the block xor-ed with byte `i` of the key, and no other key
/// byte. So encrypting the all-zero block gives the key's bytes in order.
pub proof fn lemma_transform_is_bytewise(k: AES128Key, d: Seq<u8>)
    requires
        d.len() == 16,
    ensures
        encrypt_spec(k@, d).len() == 16,
        decrypt_spec(k@, d).len() == 16,
        forall|i: int| 0 <= i < 16 ==> #[trigger] encrypt_spec(k@, d)[i] == d[i] ^ k@[i],
        forall|i: int| 0 <= i < 16 ==> #[trigger] decrypt_spec(k@, d)[i] == d[i] ^ k@[i],
        encrypt_spec(k@, zero_block()) == k@,
{
    k.lemma_len();
    assert forall|i: int| 0 <= i < 16 implies #[trigger] encrypt_spec(k@, zero_block())[i]
        == k@[i] by {
        let y = k@[i];
        assert((0u8 ^ y) == y) by (bit_vector);
    }
    assert(encrypt_spec(k@, zero_block()) =~= k@);
}

} // verus!
