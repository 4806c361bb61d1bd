use vstd::prelude::*;
use crate::escrow::{sha256_of, sha2_256};
use crate::table::{append_bytes_to, copy_bytes};

verus! {

/// A height on a chain: its revision and the block height within it.
#[derive(Debug, Clone, Copy, PartialEq, Eq, Structural)]
pub struct Height {
    pub revision_number: u64,
    pub revision_height: u64,
}

/// What a fungible-token transfer packet carries; the amount is a decimal string.
#[derive(Debug)]
pub struct TransferPacketData {
    pub denom: Vec<u8>,
    pub amount: Vec<u8>,
    pub sender: Vec<u8>,
    pub receiver: Vec<u8>,
}

/// A packet between two channel ends.
#[derive(Debug)]
pub struct Packet {
    pub sequence: u64,
    pub source_port: Vec<u8>,
    pub source_channel: Vec<u8>,
    pub destination_port: Vec<u8>,
    pub destination_channel: Vec<u8>,
    pub data: TransferPacketData,
    pub timeout_height: Height,
    pub timeout_timestamp: u64,
}

/// The answer of the receiving application.
#[derive(Debug)]
pub enum Acknowledgement {
    Success,
    Error(Vec<u8>),
}

/// `{"amount":"..","denom":"..","receiver":"..","sender":".."}`, the fields
/// written as they are.
pub open spec fn packet_data_bytes(denom: Seq<u8>, amount: Seq<u8>, sender: Seq<u8>, receiver: Seq<u8>) -> Seq<u8> {
    seq![123u8, 34u8, 97u8, 109u8, 111u8, 117u8, 110u8, 116u8, 34u8, 58u8, 34u8] + amount + seq![34u8, 44u8, 34u8, 100u8, 101u8, 110u8, 111u8, 109u8, 34u8, 58u8, 34u8] + denom + seq![34u8, 44u8, 34u8, 114u8, 101u8, 99u8, 101u8, 105u8, 118u8, 101u8, 114u8, 34u8, 58u8, 34u8]
        + receiver + seq![34u8, 44u8, 34u8, 115u8, 101u8, 110u8, 100u8, 101u8, 114u8, 34u8, 58u8, 34u8] + sender + seq![34u8, 125u8]
}

/// The bytes of a success acknowledgement, `{"result":"AQ=="}`.
pub open spec fn success_ack_bytes() -> Seq<u8> {
    seq![123u8, 34u8, 114u8, 101u8, 115u8, 117u8, 108u8, 116u8, 34u8, 58u8, 34u8, 65u8, 81u8, 61u8, 61u8, 34u8, 125u8]
}

/// The bytes of a failure acknowledgement, `{"error":"msg"}`.
pub open spec fn error_ack_bytes(msg: Seq<u8>) -> Seq<u8> {
    seq![123u8, 34u8, 101u8, 114u8, 114u8, 111u8, 114u8, 34u8, 58u8, 34u8] + msg + seq![34u8, 125u8]
}

/// Eight big-endian bytes of `x`.
pub open spec fn be64(x: u64) -> Seq<u8> {
    seq![
        (x >> 56u64) as u8,
        (x >> 48u64) as u8,
        (x >> 40u64) as u8,
        (x >> 32u64) as u8,
        (x >> 24u64) as u8,
        (x >> 16u64) as u8,
        (x >> 8u64) as u8,
        x as u8,
    ]
}

/// The commitment to a sent packet: the digest of its timeout timestamp, its
/// timeout height and the digest of its data.
pub open spec fn packet_commitment(timeout_timestamp: u64, timeout_height: Height, data: Seq<u8>) -> Seq<u8> {
    sha256_of(be64(timeout_timestamp) + be64(timeout_height.revision_number) + be64(
        timeout_height.revision_height,
    ) + sha256_of(data))
}

impl TransferPacketData {
    pub open spec fn spec_bytes(&self) -> Seq<u8> {
        packet_data_bytes(self.denom@, self.amount@, self.sender@, self.receiver@)
    }

    /// The encoded packet data.
    pub fn to_bytes(&self) -> (r: Vec<u8>)
        ensures
            r@ == self.spec_bytes(),
    {
        let mut r: Vec<u8> = vec![123u8, 34u8, 97u8, 109u8, 111u8, 117u8, 110u8, 116u8, 34u8, 58u8, 34u8];
        append_bytes_to(&mut r, &self.amount);
        let s1: Vec<u8> = vec![34u8, 44u8, 34u8, 100u8, 101u8, 110u8, 111u8, 109u8, 34u8, 58u8, 34u8];
        append_bytes_to(&mut r, &s1);
        append_bytes_to(&mut r, &self.denom);
        let s2: Vec<u8> = vec![34u8, 44u8, 34u8, 114u8, 101u8, 99u8, 101u8, 105u8, 118u8, 101u8, 114u8, 34u8, 58u8, 34u8];
        append_bytes_to(&mut r, &s2);
        append_bytes_to(&mut r, &self.receiver);
        let s3: Vec<u8> = vec![34u8, 44u8, 34u8, 115u8, 101u8, 110u8, 100u8, 101u8, 114u8, 34u8, 58u8, 34u8];
        append_bytes_to(&mut r, &s3);
        append_bytes_to(&mut r, &self.sender);
        let s4: Vec<u8> = vec![34u8, 125u8];
        append_bytes_to(&mut r, &s4);
        assert(r@ =~= self.spec_bytes());
        r
    }

    /// A copy of the packet data.
    pub fn duplicate(&self) -> (r: Self)
        ensures
            r.denom@ == self.denom@,
            r.amount@ == self.amount@,
            r.sender@ == self.sender@,
            r.receiver@ == self.receiver@,
    {
        TransferPacketData {
            denom: copy_bytes(&self.denom),
            amount: copy_bytes(&self.amount),
            sender: copy_bytes(&self.sender),
            receiver: copy_bytes(&self.receiver),
        }
    }
}

impl Acknowledgement {
    pub open spec fn spec_bytes(&self) -> Seq<u8> {
        match self {
            Acknowledgement::Success => success_ack_bytes(),
            Acknowledgement::Error(m) => error_ack_bytes(m@),
        }
    }

    /// The encoded acknowledgement.
    pub fn to_bytes(&self) -> (r: Vec<u8>)
        ensures
            r@ == self.spec_bytes(),
    {
        match self {
            Acknowledgement::Success => {
                let r: Vec<u8> = vec![123u8, 34u8, 114u8, 101u8, 115u8, 117u8, 108u8, 116u8, 34u8, 58u8, 34u8, 65u8, 81u8, 61u8, 61u8, 34u8, 125u8];
                assert(r@ =~= success_ack_bytes());
                r
            },
            Acknowledgement::Error(m) => {
                let mut r: Vec<u8> = vec![123u8, 34u8, 101u8, 114u8, 114u8, 111u8, 114u8, 34u8, 58u8, 34u8];
                append_bytes_to(&mut r, m);
                let t: Vec<u8> = vec![34u8, 125u8];
                append_bytes_to(&mut r, &t);
                assert(r@ =~= error_ack_bytes(m@));
                r
            },
        }
    }

    /// Whether the acknowledgement reports success.
    pub fn is_success(&self) -> (r: bool)
        ensures
            r == (self is Success),
    {
        match self {
            Acknowledgement::Success => true,
            Acknowledgement::Error(_) => false,
        }
    }
}

/// Appends the eight big-endian bytes of `x`.
fn push_be64(r: &mut Vec<u8>, x: u64)
    ensures
        final(r)@ == old(r)@ + be64(x),
{
    let ghost start = r@;
    r.push((x >> 56u64) as u8);
    r.push((x >> 48u64) as u8);
    r.push((x >> 40u64) as u8);
    r.push((x >> 32u64) as u8);
    r.push((x >> 24u64) as u8);
    r.push((x >> 16u64) as u8);
    r.push((x >> 8u64) as u8);
    r.push(x as u8);
    assert(r@ =~= start + be64(x));
}

impl Packet {
    /// The commitment stored when the packet is sent.
    pub open spec fn spec_commitment(&self) -> Seq<u8> {
        packet_commitment(self.timeout_timestamp, self.timeout_height, self.data.spec_bytes())
    }

    /// The commitment stored when the packet is sent.
    pub fn commitment(&self) -> (r: Vec<u8>)
        ensures
            r@ == self.spec_commitment(),
    {
        let data = self.data.to_bytes();
        let data_hash = sha2_256(&data);
        let mut buf: Vec<u8> = Vec::new();
        push_be64(&mut buf, self.timeout_timestamp);
        push_be64(&mut buf, self.timeout_height.revision_number);
        push_be64(&mut buf, self.timeout_height.revision_height);
        append_bytes_to(&mut buf, &data_hash);
        assert(buf@ =~= be64(self.timeout_timestamp) + be64(self.timeout_height.revision_number)
            + be64(self.timeout_height.revision_height) + sha256_of(self.data.spec_bytes()));
        sha2_256(&buf)
    }
}

} // verus!
