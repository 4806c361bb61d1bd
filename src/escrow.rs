use vstd::prelude::*;
use crate::table::append_bytes_to;

verus! {

/// The SHA-256 digest of a byte string.
pub uninterp spec fn sha256_of(data: Seq<u8>) -> Seq<u8>;

/// Relies on sp_io::hashing::sha2_256: the 32-byte SHA-256 digest of its input.
#[verifier::external_body]
pub(crate) fn sha2_256(data: &Vec<u8>) -> (r: Vec<u8>)
    ensures
        r@ == sha256_of(data@),
        r@.len() == 32,
{
    sp_io::hashing::sha2_256(data.as_slice()).to_vec()
}

/// The ASCII code of the upper-case hexadecimal digit for `n < 16`.
pub open spec fn hex_digit_upper(n: u8) -> u8 {
    if n < 10 {
        (48 + n) as u8
    } else {
        (55 + n) as u8
    }
}

/// Two upper-case hexadecimal digits for each byte, high nibble first.
pub open spec fn hex_upper(s: Seq<u8>) -> Seq<u8>
    decreases s.len(),
{
    if s.len() == 0 {
        Seq::empty()
    } else {
        seq![hex_digit_upper(s[0] / 16), hex_digit_upper(s[0] % 16)] + hex_upper(s.drop_first())
    }
}

/// Relies on hex::encode_upper: two upper-case digits per byte, high nibble first.
#[verifier::external_body]
fn encode_upper(data: &Vec<u8>) -> (r: Vec<u8>)
    ensures
        r@ == hex_upper(data@),
{
    hex::encode_upper(data.as_slice()).into_bytes()
}

/// The version string of the fungible-token transfer application, `ics20-1`.
pub open spec fn transfer_version() -> Seq<u8> {
    seq![105u8, 99u8, 115u8, 50u8, 48u8, 45u8, 49u8]
}

/// What is hashed to derive a channel's escrow account:
/// the version, a zero byte, then `port/channel`.
pub open spec fn escrow_preimage(port: Seq<u8>, channel: Seq<u8>) -> Seq<u8> {
    transfer_version() + seq![0u8] + port + seq![47u8] + channel
}

/// The escrow address of a channel: `0x` and the upper-case hex of the digest.
pub open spec fn escrow_address(port: Seq<u8>, channel: Seq<u8>) -> Seq<u8> {
    seq![48u8, 120u8] + hex_upper(sha256_of(escrow_preimage(port, channel)))
}

/// The hex rendering is twice as long as its input.
pub proof fn lemma_hex_upper_len(s: Seq<u8>)
    ensures
        hex_upper(s).len() == 2 * s.len(),
    decreases s.len(),
{
    if s.len() > 0 {
        lemma_hex_upper_len(s.drop_first());
    }
}

/// The escrow address of a channel depends on the port and channel alone: equal
/// inputs give the same address, and so does every later computation of it.
pub proof fn lemma_escrow_deterministic(p1: Seq<u8>, c1: Seq<u8>, p2: Seq<u8>, c2: Seq<u8>)
    requires
        p1 == p2,
        c1 == c2,
    ensures
        escrow_address(p1, c1) == escrow_address(p2, c2),
{
}

/// The escrow account of the channel `channel_id` on port `port_id`: the
/// upper-case hex of the SHA-256 digest of the version string, a zero byte and
/// `port_id/channel_id`, after `0x`.
pub fn get_channel_escrow_address(port_id: &Vec<u8>, channel_id: &Vec<u8>) -> (r: Vec<u8>)
    ensures
        r@ == escrow_address(port_id@, channel_id@),
        r@.len() == 66,
{
    let mut data: Vec<u8> = vec![105u8, 99u8, 115u8, 50u8, 48u8, 45u8, 49u8];
    data.push(0u8);
    append_bytes_to(&mut data, port_id);
    data.push(47u8);
    append_bytes_to(&mut data, channel_id);
    assert(data@ =~= escrow_preimage(port_id@, channel_id@));
    let hash = sha2_256(&data);
    let hex = encode_upper(&hash);
    let mut r: Vec<u8> = vec![48u8, 120u8];
    append_bytes_to(&mut r, &hex);
    proof {
        lemma_hex_upper_len(hash@);
    }
    assert(r@ =~= escrow_address(port_id@, channel_id@));
    r
}

} // verus!
