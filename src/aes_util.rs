//! AES-128 for the saved connections, with the store's own padding: a
//! partial last block gets a marker byte counting the zeros that follow it,
//! and whole-block content whose end could be read as such a marker gets one
//! more block that says so; taking the padding off gives the content back.

use vstd::prelude::*;
use vstd::string::StringExecFns;
use aes::cipher::generic_array::GenericArray;
use aes::cipher::{BlockDecrypt, BlockEncrypt, KeyInit};
use aes::Aes128;
use crate::error::AesError;
use crate::namespace::bytes_of;
use crate::text::{decimal_text, unsigned_decimal_string};

verus! {

/// The key and block length of AES-128.
pub const LENGTH_16: usize = 16;

/// `n` zero bytes.
pub open spec fn zeros(n: nat) -> Seq<u8> {
    Seq::new(n, |i: int| 0u8)
}

/// The first `j` bytes of `d`, read from their end after `zero_count` zeros:
/// at the first byte that is not zero, a byte equal to the zeros seen marks
/// where the content ended; any other byte means there was no padding.
pub open spec fn unpad_from(d: Seq<u8>, j: int, zero_count: nat) -> Seq<u8>
    decreases j,
{
    if j <= 0 {
        d
    } else if d[j - 1] == 0 {
        unpad_from(d, j - 1, zero_count + 1)
    } else if zero_count == d[j - 1] {
        d.subrange(0, j - 1)
    } else {
        d
    }
}

/// Decrypted bytes with their padding taken off.
pub open spec fn unpadded(d: Seq<u8>) -> Seq<u8> {
    unpad_from(d, d.len() as int, 0)
}

/// The content padded to whole blocks. A partial last block of `r` bytes is
/// followed by the byte `15 - r` and that many zeros; with 15 bytes, by the
/// byte 16 and a block of zeros. Whole-block content gets a block of 15 and
/// zeros exactly when its own end would be read as padding.
pub open spec fn padded(c: Seq<u8>) -> Seq<u8> {
    let r = c.len() % 16;
    if r == 15 {
        c + seq![16u8] + zeros(16)
    } else if r > 0 {
        c + seq![(15 - r) as u8] + zeros((15 - r) as nat)
    } else if unpadded(c) != c {
        c + seq![15u8] + zeros(15)
    } else {
        c
    }
}

proof fn lemma_skip_zeros(d: Seq<u8>, j: int, z: nat, k: int)
    requires
        0 <= k <= j <= d.len(),
        forall|i: int| j - k <= i < j ==> d[i] == 0,
    ensures
        unpad_from(d, j, z) == unpad_from(d, j - k, z + k as nat),
    decreases k,
{
    if k > 0 {
        lemma_skip_zeros(d, j - 1, z + 1, k - 1);
    }
}

proof fn lemma_unpad_shape(d: Seq<u8>, j: int, z: nat)
    requires
        0 <= j <= d.len(),
    ensures
        unpad_from(d, j, z) == d || unpad_from(d, j, z).len() < d.len(),
    decreases j,
{
    if j > 0 && d[j - 1] == 0 {
        lemma_unpad_shape(d, j - 1, z + 1);
    }
}

proof fn lemma_unpad_marker(c: Seq<u8>, m: u8)
    requires
        1 <= m <= 16,
    ensures
        unpadded(c + seq![m] + zeros(m as nat)) == c,
{
    let d = c + seq![m] + zeros(m as nat);
    let n = c.len() as int;
    assert forall|i: int| d.len() - m <= i < d.len() implies d[i] == 0 by {
        assert(d[i] == zeros(m as nat)[i - n - 1]);
    }
    lemma_skip_zeros(d, d.len() as int, 0, m as int);
    assert(d[n] == m);
    assert(d.subrange(0, n) =~= c);
}

/// Taking the padding off padded content gives the content back.
pub proof fn lemma_unpad_padded(c: Seq<u8>)
    ensures
        unpadded(padded(c)) == c,
{
    let r = c.len() % 16;
    if r == 15 {
        lemma_unpad_marker(c, 16);
    } else if r > 0 {
        lemma_unpad_marker(c, (15 - r) as u8);
    } else if unpadded(c) != c {
        lemma_unpad_marker(c, 15);
    }
}

/// What AES-128 makes of whole blocks under a key, block by block.
pub uninterp spec fn aes128_encrypted(key: Seq<u8>, data: Seq<u8>) -> Seq<u8>;

/// What AES-128 decryption makes of whole blocks under a key, block by block.
pub uninterp spec fn aes128_decrypted(key: Seq<u8>, data: Seq<u8>) -> Seq<u8>;

/// The message for a key of the wrong length.
pub open spec fn key_length_message(len: nat) -> Seq<char> {
    "Invalid aes key length: "@ + decimal_text(len as int) + ", expect: 16"@
}

/// Relies on `aes::Aes128` (`KeyInit::new`, `BlockEncrypt::encrypt_blocks`):
/// each 16-byte block is encrypted in place under the 16-byte key.
#[verifier::external_body]
fn aes128_encrypt(key: &[u8], data: Vec<u8>) -> (r: Vec<u8>)
    requires
        key@.len() == 16,
        data@.len() % 16 == 0,
    ensures
        r@ == aes128_encrypted(key@, data@),
        r@.len() == data@.len(),
{
    let cipher = Aes128::new(GenericArray::from_slice(key));
    let mut blocks: Vec<_> = data.chunks(16).map(GenericArray::clone_from_slice).collect();
    cipher.encrypt_blocks(&mut blocks);
    blocks.iter().flat_map(|b| b.iter().copied()).collect()
}

/// Relies on `aes::Aes128` (`KeyInit::new`, `BlockDecrypt::decrypt_blocks`):
/// each 16-byte block is decrypted in place under the 16-byte key.
#[verifier::external_body]
fn aes128_decrypt(key: &[u8], data: &[u8]) -> (r: Vec<u8>)
    requires
        key@.len() == 16,
        data@.len() % 16 == 0,
    ensures
        r@ == aes128_decrypted(key@, data@),
        r@.len() == data@.len(),
{
    let cipher = Aes128::new(GenericArray::from_slice(key));
    let mut blocks: Vec<_> = data.chunks(16).map(GenericArray::clone_from_slice).collect();
    cipher.decrypt_blocks(&mut blocks);
    blocks.iter().flat_map(|b| b.iter().copied()).collect()
}

/// The message for a key of `len` bytes.
fn key_length_text(len: usize) -> (r: String)
    ensures
        r@ == key_length_message(len as nat),
{
    let mut m = "Invalid aes key length: ".to_owned();
    m.append(unsigned_decimal_string(len as u64).as_str());
    m.append(", expect: 16");
    m
}

fn push_zeros(out: &mut Vec<u8>, n: usize)
    ensures
        final(out)@ == old(out)@ + zeros(n as nat),
{
    let mut i: usize = 0;
    while i < n
        invariant
            i <= n,
            out@ == old(out)@ + zeros(i as nat),
        decreases n - i,
    {
        out.push(0u8);
        i = i + 1;
        assert(out@ =~= old(out)@ + zeros(i as nat));
    }
}

/// The content padded to whole blocks.
pub fn encode_aes_block_content_16(content: &[u8]) -> (r: Vec<u8>)
    ensures
        r@ == padded(content@),
        r@.len() % 16 == 0,
{
    let n = content.len();
    let rem = n % 16;
    let mut out = bytes_of(content);
    if rem == 15 {
        out.push(16u8);
        push_zeros(&mut out, 16);
    } else if rem > 0 {
        out.push((15 - rem) as u8);
        push_zeros(&mut out, 15 - rem);
    } else {
        let unpadded_now = decode_aes_block_content_16(content);
        proof {
            lemma_unpad_shape(content@, content@.len() as int, 0);
        }
        if unpadded_now.len() < n {
            out.push(15u8);
            push_zeros(&mut out, 15);
        }
    }
    out
}

/// Decrypted bytes with their padding taken off.
pub fn decode_aes_block_content_16(data: &[u8]) -> (r: Vec<u8>)
    ensures
        r@ == unpadded(data@),
{
    let mut j: usize = data.len();
    let mut zero_count: usize = 0;
    while j > 0
        invariant
            j <= data@.len(),
            zero_count <= data@.len() - j,
            unpadded(data@) == unpad_from(data@, j as int, zero_count as nat),
        decreases j,
    {
        let b = data[j - 1];
        if b == 0 {
            zero_count = zero_count + 1;
        } else if zero_count == b as usize {
            let mut out: Vec<u8> = Vec::new();
            let mut i: usize = 0;
            while i < j - 1
                invariant
                    i <= j - 1,
                    j <= data@.len(),
                    out@ == data@.subrange(0, i as int),
                decreases j - 1 - i,
            {
                out.push(data[i]);
                i = i + 1;
                assert(out@ =~= data@.subrange(0, i as int));
            }
            return out;
        } else {
            return bytes_of(data);
        }
        j = j - 1;
    }
    bytes_of(data)
}

/// Encrypts content under a 16-byte key.
pub fn encrypt_128(key: &[u8], content: &[u8]) -> (r: Result<Vec<u8>, AesError>)
    ensures
        key@.len() == 16 ==> (r matches Ok(v) && v@ == aes128_encrypted(key@, padded(content@))),
        key@.len() != 16 ==> (r matches Err(AesError::InvalidKeyLength(m)) && m@
            == key_length_message(key@.len())),
{
    if key.len() != LENGTH_16 {
        return Err(AesError::InvalidKeyLength(key_length_text(key.len())));
    }
    let blocks = encode_aes_block_content_16(content);
    Ok(aes128_encrypt(key, blocks))
}

/// Decrypts whole blocks under a 16-byte key and takes the padding off.
pub fn decrypt_128(key: &[u8], content: &[u8]) -> (r: Result<Vec<u8>, AesError>)
    ensures
        key@.len() != 16 ==> (r matches Err(AesError::InvalidKeyLength(m)) && m@
            == key_length_message(key@.len())),
        key@.len() == 16 && content@.len() % 16 != 0 ==> r == Err::<Vec<u8>, AesError>(
            AesError::InvalidBlockLength,
        ),
        key@.len() == 16 && content@.len() % 16 == 0 ==> (r matches Ok(v) && v@ == unpadded(
            aes128_decrypted(key@, content@),
        )),
{
    if key.len() != LENGTH_16 {
        return Err(AesError::InvalidKeyLength(key_length_text(key.len())));
    }
    if content.len() % LENGTH_16 != 0 {
        return Err(AesError::InvalidBlockLength);
    }
    let plain = aes128_decrypt(key, content);
    Ok(decode_aes_block_content_16(plain.as_slice()))
}

/// Decrypts under one key and encrypts again under another.
pub fn reencrypt_128(content: &[u8], old_key: &[u8], new_key: &[u8]) -> (r: Result<Vec<u8>, AesError>)
    ensures
        old_key@.len() == 16 && new_key@.len() == 16 && content@.len() % 16 == 0 ==> (r matches Ok(v) && v@ == aes128_encrypted(
            new_key@,
            padded(unpadded(aes128_decrypted(old_key@, content@))),
        )),
        old_key@.len() == 16 && content@.len() % 16 == 0 && new_key@.len() != 16 ==> (
        r matches Err(AesError::InvalidKeyLength(m)) && m@ == key_length_message(new_key@.len())),
        old_key@.len() != 16 || content@.len() % 16 != 0 ==> r.is_err(),
{
    let plain = decrypt_128(old_key, content)?;
    encrypt_128(new_key, plain.as_slice())
}

} // verus!
