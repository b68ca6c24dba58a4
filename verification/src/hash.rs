//! The digest by which the registry knows a file.

use vstd::prelude::*;
use crate::text::push_char;

verus! {

/// The SHA-512 digest of `data`.
pub uninterp spec fn sha512(data: Seq<u8>) -> Seq<u8>;

/// Computes the digest with `Digest::digest` of the digest crate on
/// `Sha512` of sha2, which hashes the bytes it is given and nothing else.
#[verifier::external_body]
fn sha512_digest(data: &[u8]) -> (r: Vec<u8>)
    ensures
        r@ == sha512(data@),
{
    <sha2::Sha512 as sha2::Digest>::digest(data).to_vec()
}

/// The character of one hexadecimal digit, in lower case.
pub open spec fn hex_digit(n: nat) -> char {
    if n < 10 {
        crate::prompt::digit(n)
    } else if n == 10 {
        'a'
    } else if n == 11 {
        'b'
    } else if n == 12 {
        'c'
    } else if n == 13 {
        'd'
    } else if n == 14 {
        'e'
    } else {
        'f'
    }
}

/// `data` in hexadecimal: two lower-case digits for each byte, the high one
/// first.
pub open spec fn hex_text(data: Seq<u8>) -> Seq<char>
    decreases data.len(),
{
    if data.len() == 0 {
        Seq::empty()
    } else {
        hex_text(data.drop_last()).push(hex_digit(data.last() as nat / 16)).push(
            hex_digit(data.last() as nat % 16),
        )
    }
}

fn hex_char(n: u8) -> (r: char)
    requires
        n < 16,
    ensures
        r == hex_digit(n as nat),
{
    if n == 0 {
        '0'
    } else if n == 1 {
        '1'
    } else if n == 2 {
        '2'
    } else if n == 3 {
        '3'
    } else if n == 4 {
        '4'
    } else if n == 5 {
        '5'
    } else if n == 6 {
        '6'
    } else if n == 7 {
        '7'
    } else if n == 8 {
        '8'
    } else if n == 9 {
        '9'
    } else if n == 10 {
        'a'
    } else if n == 11 {
        'b'
    } else if n == 12 {
        'c'
    } else if n == 13 {
        'd'
    } else if n == 14 {
        'e'
    } else {
        'f'
    }
}

/// Writes `data` in hexadecimal.
pub fn to_hex(data: &[u8]) -> (r: String)
    ensures
        r@ == hex_text(data@),
{
    let mut out = String::new();
    let mut i: usize = 0;
    proof {
        assert(data@.take(0) =~= Seq::<u8>::empty());
    }
    while i < data.len()
        invariant
            i <= data.len(),
            out@ == hex_text(data@.take(i as int)),
        decreases data.len() - i,
    {
        let byte: u8 = data[i];
        proof {
            let head = data@.take(i + 1);
            assert(head.drop_last() =~= data@.take(i as int));
            assert(head.last() == byte);
        }
        push_char(&mut out, hex_char(byte / 16));
        push_char(&mut out, hex_char(byte % 16));
        i = i + 1;
    }
    proof {
        assert(data@.take(data.len() as int) =~= data@);
    }
    out
}

/// The SHA-512 digest of the contents of a file, in hexadecimal.
pub fn hash_file(contents: &[u8]) -> (r: String)
    ensures
        r@ == hex_text(sha512(contents@)),
{
    let digest = sha512_digest(contents);
    to_hex(digest.as_slice())
}

} // verus!
