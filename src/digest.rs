use vstd::prelude::*;

verus! {

/// The MD5 digest of a byte sequence (16 bytes).
pub uninterp spec fn md5_digest(data: Seq<u8>) -> Seq<u8>;

/// The sixteen lower-case hexadecimal digits, in order.
pub open spec fn hex_table() -> Seq<char> {
    seq!['0', '1', '2', '3', '4', '5', '6', '7', '8', '9', 'a', 'b', 'c', 'd', 'e', 'f']
}

/// Lower-case hexadecimal text of a byte sequence: two digits per byte,
/// high nibble first.
pub open spec fn hex_lower(b: Seq<u8>) -> Seq<char> {
    Seq::new(
        (2 * b.len()) as nat,
        |i: int|
            if i % 2 == 0 {
                hex_table()[b[i / 2] as int / 16]
            } else {
                hex_table()[b[i / 2] as int % 16]
            },
    )
}

/// The digest text that the remote service expects: MD5 in lower-case hex.
pub open spec fn md5_hex(data: Seq<u8>) -> Seq<char> {
    hex_lower(md5_digest(data))
}

/// Relies on `md5::Md5` through `digest::Digest::digest`: the MD5 digest of
/// `data`, whose output size is 16 bytes.
#[verifier::external_body]
fn md5_bytes(data: &[u8]) -> (r: Vec<u8>)
    ensures
        r@ == md5_digest(data@),
        r@.len() == 16,
{
    <md5::Md5 as md5::Digest>::digest(data).to_vec()
}

/// Relies on `hex::encode`: each byte becomes two digits of
/// `0123456789abcdef`, high nibble first.
#[verifier::external_body]
fn hex_encode(b: &[u8]) -> (r: String)
    ensures
        r@ == hex_lower(b@),
{
    hex::encode(b)
}

/// MD5 of `data` as 32 lower-case hexadecimal digits.
pub fn md5_hex_string(data: &[u8]) -> (r: String)
    ensures
        r@ == md5_hex(data@),
        r@.len() == 32,
{
    let d = md5_bytes(data);
    hex_encode(d.as_slice())
}

} // verus!
