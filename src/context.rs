use vstd::prelude::*;
use crate::assets::AssetRegistry;
use crate::error::Error;
use crate::ledger::Ledger;
use crate::packet::Height;
use crate::router::Router;
use crate::table::{ByteTable, append_bytes_to, copy_bytes};
use crate::transfer::TransferModule;

verus! {

/// The first segment of each kind of storage key.
#[derive(Debug, Clone, Copy, PartialEq, Eq, Structural)]
pub enum PathKind {
    /// `clientStates`: a client's state.
    ClientState,
    /// `consensusStates`: a client's consensus state at a height.
    ConsensusState,
    /// `connections`: a connection end.
    Connection,
    /// `channelEnds`: a channel end.
    ChannelEnd,
    /// `nextSequenceSend`: the next sequence to send on a channel.
    NextSequenceSend,
    /// `nextSequenceRecv`: the next sequence to receive on a channel.
    NextSequenceRecv,
    /// `nextSequenceAck`: the next sequence to acknowledge on a channel.
    NextSequenceAck,
    /// `commitments`: a sent packet's commitment.
    Commitment,
    /// `receipts`: the receipt of a received packet.
    Receipt,
    /// `acks`: the hash of a written acknowledgement.
    Ack,
    /// `writeAckEvents`: the acknowledgement written for a received packet.
    WriteAckEvent,
}

/// The bytes of a key kind's first segment.
pub open spec fn kind_prefix(k: PathKind) -> Seq<u8> {
    match k {
        PathKind::ClientState => seq![99u8, 108u8, 105u8, 101u8, 110u8, 116u8, 83u8, 116u8, 97u8, 116u8, 101u8, 115u8],
        PathKind::ConsensusState => seq![99u8, 111u8, 110u8, 115u8, 101u8, 110u8, 115u8, 117u8, 115u8, 83u8, 116u8, 97u8, 116u8, 101u8, 115u8],
        PathKind::Connection => seq![99u8, 111u8, 110u8, 110u8, 101u8, 99u8, 116u8, 105u8, 111u8, 110u8, 115u8],
        PathKind::ChannelEnd => seq![99u8, 104u8, 97u8, 110u8, 110u8, 101u8, 108u8, 69u8, 110u8, 100u8, 115u8],
        PathKind::NextSequenceSend => seq![110u8, 101u8, 120u8, 116u8, 83u8, 101u8, 113u8, 117u8, 101u8, 110u8, 99u8, 101u8, 83u8, 101u8, 110u8, 100u8],
        PathKind::NextSequenceRecv => seq![110u8, 101u8, 120u8, 116u8, 83u8, 101u8, 113u8, 117u8, 101u8, 110u8, 99u8, 101u8, 82u8, 101u8, 99u8, 118u8],
        PathKind::NextSequenceAck => seq![110u8, 101u8, 120u8, 116u8, 83u8, 101u8, 113u8, 117u8, 101u8, 110u8, 99u8, 101u8, 65u8, 99u8, 107u8],
        PathKind::Commitment => seq![99u8, 111u8, 109u8, 109u8, 105u8, 116u8, 109u8, 101u8, 110u8, 116u8, 115u8],
        PathKind::Receipt => seq![114u8, 101u8, 99u8, 101u8, 105u8, 112u8, 116u8, 115u8],
        PathKind::Ack => seq![97u8, 99u8, 107u8, 115u8],
        PathKind::WriteAckEvent => seq![119u8, 114u8, 105u8, 116u8, 101u8, 65u8, 99u8, 107u8, 69u8, 118u8, 101u8, 110u8, 116u8, 115u8],
    }
}

fn kind_prefix_bytes(k: PathKind) -> (r: Vec<u8>)
    ensures
        r@ == kind_prefix(k),
{
    let r = match k {
        PathKind::ClientState => vec![99u8, 108u8, 105u8, 101u8, 110u8, 116u8, 83u8, 116u8, 97u8, 116u8, 101u8, 115u8],
        PathKind::ConsensusState => vec![99u8, 111u8, 110u8, 115u8, 101u8, 110u8, 115u8, 117u8, 115u8, 83u8, 116u8, 97u8, 116u8, 101u8, 115u8],
        PathKind::Connection => vec![99u8, 111u8, 110u8, 110u8, 101u8, 99u8, 116u8, 105u8, 111u8, 110u8, 115u8],
        PathKind::ChannelEnd => vec![99u8, 104u8, 97u8, 110u8, 110u8, 101u8, 108u8, 69u8, 110u8, 100u8, 115u8],
        PathKind::NextSequenceSend => vec![110u8, 101u8, 120u8, 116u8, 83u8, 101u8, 113u8, 117u8, 101u8, 110u8, 99u8, 101u8, 83u8, 101u8, 110u8, 100u8],
        PathKind::NextSequenceRecv => vec![110u8, 101u8, 120u8, 116u8, 83u8, 101u8, 113u8, 117u8, 101u8, 110u8, 99u8, 101u8, 82u8, 101u8, 99u8, 118u8],
        PathKind::NextSequenceAck => vec![110u8, 101u8, 120u8, 116u8, 83u8, 101u8, 113u8, 117u8, 101u8, 110u8, 99u8, 101u8, 65u8, 99u8, 107u8],
        PathKind::Commitment => vec![99u8, 111u8, 109u8, 109u8, 105u8, 116u8, 109u8, 101u8, 110u8, 116u8, 115u8],
        PathKind::Receipt => vec![114u8, 101u8, 99u8, 101u8, 105u8, 112u8, 116u8, 115u8],
        PathKind::Ack => vec![97u8, 99u8, 107u8, 115u8],
        PathKind::WriteAckEvent => vec![119u8, 114u8, 105u8, 116u8, 101u8, 65u8, 99u8, 107u8, 69u8, 118u8, 101u8, 110u8, 116u8, 115u8],
    };
    assert(r@ =~= kind_prefix(k));
    r
}

/// The decimal digits of `n`, most significant first, without leading zeros.
pub open spec fn decimal(n: nat) -> Seq<u8>
    decreases n,
{
    if n < 10 {
        seq![(48 + n) as u8]
    } else {
        decimal(n / 10) + seq![(48 + n % 10) as u8]
    }
}

/// The decimal rendering of `n`.
pub fn decimal_bytes(n: u128) -> (r: Vec<u8>)
    ensures
        r@ == decimal(n as nat),
    decreases n,
{
    if n < 10 {
        let r = vec![48u8 + n as u8];
        assert(r@ =~= decimal(n as nat));
        r
    } else {
        let mut r = decimal_bytes(n / 10);
        r.push(48u8 + (n % 10) as u8);
        assert(r@ =~= decimal(n as nat));
        r
    }
}

/// `prefix/a`.
pub open spec fn path1(k: PathKind, a: Seq<u8>) -> Seq<u8> {
    kind_prefix(k) + seq![47u8] + a
}

/// `prefix/a/b`.
pub open spec fn path2(k: PathKind, a: Seq<u8>, b: Seq<u8>) -> Seq<u8> {
    path1(k, a) + seq![47u8] + b
}

/// `prefix/a/b/n`, with `n` in decimal.
pub open spec fn path3(k: PathKind, a: Seq<u8>, b: Seq<u8>, n: u64) -> Seq<u8> {
    path2(k, a, b) + seq![47u8] + decimal(n as nat)
}

/// The key `prefix/a`.
pub fn make_path1(k: PathKind, a: &Vec<u8>) -> (r: Vec<u8>)
    ensures
        r@ == path1(k, a@),
{
    let mut r = kind_prefix_bytes(k);
    r.push(47u8);
    append_bytes_to(&mut r, a);
    r
}

/// The key `prefix/a/b`.
pub fn make_path2(k: PathKind, a: &Vec<u8>, b: &Vec<u8>) -> (r: Vec<u8>)
    ensures
        r@ == path2(k, a@, b@),
{
    let mut r = make_path1(k, a);
    r.push(47u8);
    append_bytes_to(&mut r, b);
    r
}

/// The key `prefix/a/b/n`.
pub fn make_path3(k: PathKind, a: &Vec<u8>, b: &Vec<u8>, n: u64) -> (r: Vec<u8>)
    ensures
        r@ == path3(k, a@, b@, n),
{
    let mut r = make_path2(k, a, b);
    r.push(47u8);
    let d = decimal_bytes(n as u128);
    append_bytes_to(&mut r, &d);
    r
}

/// `consensusStates/{client_id}/{revision}-{height}`.
pub open spec fn consensus_path(client_id: Seq<u8>, h: Height) -> Seq<u8> {
    path1(PathKind::ConsensusState, client_id) + seq![47u8] + decimal(h.revision_number as nat)
        + seq![45u8] + decimal(h.revision_height as nat)
}

fn make_consensus_path(client_id: &Vec<u8>, h: Height) -> (r: Vec<u8>)
    ensures
        r@ == consensus_path(client_id@, h),
{
    let mut r = make_path1(PathKind::ConsensusState, client_id);
    r.push(47u8);
    let a = decimal_bytes(h.revision_number as u128);
    append_bytes_to(&mut r, &a);
    r.push(45u8);
    let b = decimal_bytes(h.revision_height as u128);
    append_bytes_to(&mut r, &b);
    r
}

/// The three per-channel packet counters.
#[derive(Debug, Clone, Copy, PartialEq, Eq, Structural)]
pub enum Direction {
    Send,
    Recv,
    Ack,
}

/// The key kind of a counter.
pub open spec fn direction_kind(d: Direction) -> PathKind {
    match d {
        Direction::Send => PathKind::NextSequenceSend,
        Direction::Recv => PathKind::NextSequenceRecv,
        Direction::Ack => PathKind::NextSequenceAck,
    }
}

fn direction_kind_exec(d: Direction) -> (r: PathKind)
    ensures
        r == direction_kind(d),
{
    match d {
        Direction::Send => PathKind::NextSequenceSend,
        Direction::Recv => PathKind::NextSequenceRecv,
        Direction::Ack => PathKind::NextSequenceAck,
    }
}

/// The protocol state of the host chain: the key-value store, the packet
/// counters, the asset registry, the ledger and the router, with the facts of
/// the host that the protocol reads.
pub struct Context {
    pub store: ByteTable<Vec<u8>>,
    pub sequences: ByteTable<u64>,
    pub assets: AssetRegistry,
    pub ledger: Ledger,
    pub router: Router<TransferModule>,
    pub host_height: u64,
    pub host_timestamp: u64,
    pub commitment_prefix: Vec<u8>,
}

impl Context {
    pub open spec fn wf(&self) -> bool {
        &&& self.store.wf()
        &&& self.sequences.wf()
        &&& self.assets.wf()
        &&& self.ledger.wf()
        &&& self.router.wf()
    }

    /// A counter's value; a counter never written is 0.
    pub open spec fn next_sequence(&self, d: Direction, port: Seq<u8>, channel: Seq<u8>) -> u64 {
        let k = path2(direction_kind(d), port, channel);
        if self.sequences@.contains_key(k) {
            self.sequences@[k]
        } else {
            0
        }
    }

    /// A context with an empty store and ledger.
    pub fn new(
        router: Router<TransferModule>,
        assets: AssetRegistry,
        host_height: u64,
        host_timestamp: u64,
        commitment_prefix: Vec<u8>,
    ) -> (r: Self)
        requires
            router.wf(),
            assets.wf(),
        ensures
            r.wf(),
            r.store@ == Map::<Seq<u8>, Vec<u8>>::empty(),
            r.sequences@ == Map::<Seq<u8>, u64>::empty(),
            r.router@ == router@,
            r.assets@ == assets@,
            forall|d: crate::ledger::Denom, a: Seq<u8>| #[trigger] r.ledger.balance(d, a) == 0,
            r.host_height == host_height,
            r.host_timestamp == host_timestamp,
            r.commitment_prefix@ == commitment_prefix@,
    {
        Context {
            store: ByteTable::new(),
            sequences: ByteTable::new(),
            assets,
            ledger: Ledger::new(),
            router,
            host_height,
            host_timestamp,
            commitment_prefix,
        }
    }

    /// The router, for the protocol engine to dispatch through.
    pub fn router(&self) -> (r: &Router<TransferModule>)
        ensures
            *r == self.router,
    {
        &self.router
    }

    /// The router, to be changed in place.
    pub fn router_mut(&mut self) -> (r: &mut Router<TransferModule>)
        ensures
            *r == old(self).router,
            final(self).router == *final(r),
            final(self).store == old(self).store,
            final(self).sequences == old(self).sequences,
            final(self).assets == old(self).assets,
            final(self).ledger == old(self).ledger,
            final(self).host_height == old(self).host_height,
            final(self).host_timestamp == old(self).host_timestamp,
            final(self).commitment_prefix == old(self).commitment_prefix,
    {
        &mut self.router
    }

    /// The latest block height of the host chain.
    pub fn host_height(&self) -> (r: u64)
        ensures
            r == self.host_height,
    {
        self.host_height
    }

    /// The host chain's current time.
    pub fn host_timestamp(&self) -> (r: u64)
        ensures
            r == self.host_timestamp,
    {
        self.host_timestamp
    }

    /// The prefix under which the store's commitments are proved.
    pub fn commitment_prefix(&self) -> (r: Vec<u8>)
        ensures
            r@ == self.commitment_prefix@,
    {
        copy_bytes(&self.commitment_prefix)
    }

    /// A counter of a channel.
    pub fn get_next_sequence(&self, d: Direction, port_id: &Vec<u8>, channel_id: &Vec<u8>) -> (r: u64)
        requires
            self.wf(),
        ensures
            r == self.next_sequence(d, port_id@, channel_id@),
    {
        let k = make_path2(direction_kind_exec(d), port_id, channel_id);
        match self.sequences.get(&k) {
            Some(v) => *v,
            None => 0,
        }
    }

    /// Sets a counter of a channel.
    pub fn store_next_sequence(&mut self, d: Direction, port_id: &Vec<u8>, channel_id: &Vec<u8>, seq: u64)
        requires
            old(self).wf(),
        ensures
            final(self).wf(),
            final(self).sequences@ == old(self).sequences@.insert(
                path2(direction_kind(d), port_id@, channel_id@),
                seq,
            ),
            final(self).store == old(self).store,
            final(self).assets == old(self).assets,
            final(self).ledger == old(self).ledger,
            final(self).router == old(self).router,
    {
        let k = make_path2(direction_kind_exec(d), port_id, channel_id);
        self.sequences.insert(k, seq);
    }

    /// Hands out the current value of a counter and advances it by one; refused
    /// with `Overflow`, changing nothing, where it is at its largest value.
    pub fn increase_next_sequence(&mut self, d: Direction, port_id: &Vec<u8>, channel_id: &Vec<u8>) -> (r: Result<u64, Error>)
        requires
            old(self).wf(),
        ensures
            final(self).wf(),
            old(self).next_sequence(d, port_id@, channel_id@) == u64::MAX ==> r == Err::<u64, Error>(
                Error::Overflow,
            ) && *final(self) == *old(self),
            old(self).next_sequence(d, port_id@, channel_id@) < u64::MAX ==> r == Ok::<u64, Error>(
                old(self).next_sequence(d, port_id@, channel_id@),
            ) && final(self).sequences@ == old(self).sequences@.insert(
                path2(direction_kind(d), port_id@, channel_id@),
                (old(self).next_sequence(d, port_id@, channel_id@) + 1) as u64,
            ) && final(self).next_sequence(d, port_id@, channel_id@) == old(self).next_sequence(
                d,
                port_id@,
                channel_id@,
            ) + 1,
            final(self).store == old(self).store,
            final(self).assets == old(self).assets,
            final(self).ledger == old(self).ledger,
            final(self).router == old(self).router,
    {
        let cur = self.get_next_sequence(d, port_id, channel_id);
        if cur == u64::MAX {
            return Err(Error::Overflow);
        }
        self.store_next_sequence(d, port_id, channel_id, cur + 1);
        Ok(cur)
    }

    /// The bytes stored under `key`, copied.
    fn get_blob(&self, key: &Vec<u8>) -> (r: Option<Vec<u8>>)
        requires
            self.wf(),
        ensures
            match r {
                Some(v) => self.store@.contains_key(key@) && v@ == self.store@[key@]@,
                None => !self.store@.contains_key(key@),
            },
    {
        match self.store.get(key) {
            Some(v) => Some(copy_bytes(v)),
            None => None,
        }
    }

    /// Stores `value` under `key`.
    fn set_blob(&mut self, key: Vec<u8>, value: Vec<u8>)
        requires
            old(self).wf(),
        ensures
            final(self).wf(),
            final(self).store@ == old(self).store@.insert(key@, value),
            final(self).sequences == old(self).sequences,
            final(self).assets == old(self).assets,
            final(self).ledger == old(self).ledger,
            final(self).router == old(self).router,
    {
        self.store.insert(key, value);
    }

    /// Stores a client's state under `clientStates/{client_id}`.
    pub fn store_client_state(&mut self, client_id: &Vec<u8>, value: Vec<u8>)
        requires
            old(self).wf(),
        ensures
            final(self).wf(),
            final(self).store@ == old(self).store@.insert(path1(PathKind::ClientState, client_id@), value),
            final(self).sequences == old(self).sequences,
            final(self).assets == old(self).assets,
            final(self).ledger == old(self).ledger,
            final(self).router == old(self).router,
    {
        let k = make_path1(PathKind::ClientState, client_id);
        self.set_blob(k, value);
    }

    /// A client's state; `ClientIdNotFound` where none is stored.
    pub fn client_state(&self, client_id: &Vec<u8>) -> (r: Result<Vec<u8>, Error>)
        requires
            self.wf(),
        ensures
            match r {
                Ok(v) => self.store@.contains_key(path1(PathKind::ClientState, client_id@)) && v@ == self.store@[path1(PathKind::ClientState, client_id@)]@,
                Err(e) => e == Error::ClientIdNotFound && !self.store@.contains_key(path1(PathKind::ClientState, client_id@)),
            },
    {
        let k = make_path1(PathKind::ClientState, client_id);
        match self.get_blob(&k) {
            Some(v) => Ok(v),
            None => Err(Error::ClientIdNotFound),
        }
    }

    /// Stores a client's consensus state at `height`.
    pub fn store_consensus_state(&mut self, client_id: &Vec<u8>, height: Height, value: Vec<u8>)
        requires
            old(self).wf(),
        ensures
            final(self).wf(),
            final(self).store@ == old(self).store@.insert(consensus_path(client_id@, height), value),
            final(self).sequences == old(self).sequences,
            final(self).assets == old(self).assets,
            final(self).ledger == old(self).ledger,
            final(self).router == old(self).router,
    {
        let k = make_consensus_path(client_id, height);
        self.set_blob(k, value);
    }

    /// A client's consensus state at `height`, if stored.
    pub fn consensus_state(&self, client_id: &Vec<u8>, height: Height) -> (r: Option<Vec<u8>>)
        requires
            self.wf(),
        ensures
            match r {
                Some(v) => self.store@.contains_key(consensus_path(client_id@, height)) && v@ == self.store@[consensus_path(client_id@, height)]@,
                None => !self.store@.contains_key(consensus_path(client_id@, height)),
            },
    {
        let k = make_consensus_path(client_id, height);
        self.get_blob(&k)
    }

    /// Stores a connection end under `connections/{connection_id}`.
    pub fn store_connection_end(&mut self, connection_id: &Vec<u8>, value: Vec<u8>)
        requires
            old(self).wf(),
        ensures
            final(self).wf(),
            final(self).store@ == old(self).store@.insert(path1(PathKind::Connection, connection_id@), value),
            final(self).sequences == old(self).sequences,
            final(self).assets == old(self).assets,
            final(self).ledger == old(self).ledger,
            final(self).router == old(self).router,
    {
        let k = make_path1(PathKind::Connection, connection_id);
        self.set_blob(k, value);
    }

    /// A connection end, if stored.
    pub fn connection_end(&self, connection_id: &Vec<u8>) -> (r: Option<Vec<u8>>)
        requires
            self.wf(),
        ensures
            match r {
                Some(v) => self.store@.contains_key(path1(PathKind::Connection, connection_id@)) && v@ == self.store@[path1(PathKind::Connection, connection_id@)]@,
                None => !self.store@.contains_key(path1(PathKind::Connection, connection_id@)),
            },
    {
        let k = make_path1(PathKind::Connection, connection_id);
        self.get_blob(&k)
    }

    /// Stores a channel end under `channelEnds/{port_id}/{channel_id}`.
    pub fn store_channel_end(&mut self, port_id: &Vec<u8>, channel_id: &Vec<u8>, value: Vec<u8>)
        requires
            old(self).wf(),
        ensures
            final(self).wf(),
            final(self).store@ == old(self).store@.insert(path2(PathKind::ChannelEnd, port_id@, channel_id@), value),
            final(self).sequences == old(self).sequences,
            final(self).assets == old(self).assets,
            final(self).ledger == old(self).ledger,
            final(self).router == old(self).router,
    {
        let k = make_path2(PathKind::ChannelEnd, port_id, channel_id);
        self.set_blob(k, value);
    }

    /// A channel end, if stored.
    pub fn channel_end(&self, port_id: &Vec<u8>, channel_id: &Vec<u8>) -> (r: Option<Vec<u8>>)
        requires
            self.wf(),
        ensures
            match r {
                Some(v) => self.store@.contains_key(path2(PathKind::ChannelEnd, port_id@, channel_id@)) && v@ == self.store@[path2(PathKind::ChannelEnd, port_id@, channel_id@)]@,
                None => !self.store@.contains_key(path2(PathKind::ChannelEnd, port_id@, channel_id@)),
            },
    {
        let k = make_path2(PathKind::ChannelEnd, port_id, channel_id);
        self.get_blob(&k)
    }

    /// Stores the commitment of packet `seq` of a channel.
    pub fn store_packet_commitment(&mut self, port_id: &Vec<u8>, channel_id: &Vec<u8>, seq: u64, value: Vec<u8>)
        requires
            old(self).wf(),
        ensures
            final(self).wf(),
            final(self).store@ == old(self).store@.insert(path3(PathKind::Commitment, port_id@, channel_id@, seq), value),
            final(self).sequences == old(self).sequences,
            final(self).assets == old(self).assets,
            final(self).ledger == old(self).ledger,
            final(self).router == old(self).router,
    {
        let k = make_path3(PathKind::Commitment, port_id, channel_id, seq);
        self.set_blob(k, value);
    }

    /// The commitment of packet `seq` of a channel, if stored.
    pub fn packet_commitment(&self, port_id: &Vec<u8>, channel_id: &Vec<u8>, seq: u64) -> (r: Option<Vec<u8>>)
        requires
            self.wf(),
        ensures
            match r {
                Some(v) => self.store@.contains_key(path3(PathKind::Commitment, port_id@, channel_id@, seq)) && v@ == self.store@[path3(PathKind::Commitment, port_id@, channel_id@, seq)]@,
                None => !self.store@.contains_key(path3(PathKind::Commitment, port_id@, channel_id@, seq)),
            },
    {
        let k = make_path3(PathKind::Commitment, port_id, channel_id, seq);
        self.get_blob(&k)
    }

    /// Drops the commitment of packet `seq` of a channel.
    pub fn delete_packet_commitment(&mut self, port_id: &Vec<u8>, channel_id: &Vec<u8>, seq: u64)
        requires
            old(self).wf(),
        ensures
            final(self).wf(),
            final(self).store@ == old(self).store@.remove(path3(PathKind::Commitment, port_id@, channel_id@, seq)),
            final(self).sequences == old(self).sequences,
            final(self).assets == old(self).assets,
            final(self).ledger == old(self).ledger,
            final(self).router == old(self).router,
    {
        let k = make_path3(PathKind::Commitment, port_id, channel_id, seq);
        self.store.remove(&k);
    }

    /// Stores the acknowledgement hash of packet `seq` of a channel.
    pub fn store_packet_acknowledgement(&mut self, port_id: &Vec<u8>, channel_id: &Vec<u8>, seq: u64, value: Vec<u8>)
        requires
            old(self).wf(),
        ensures
            final(self).wf(),
            final(self).store@ == old(self).store@.insert(path3(PathKind::Ack, port_id@, channel_id@, seq), value),
            final(self).sequences == old(self).sequences,
            final(self).assets == old(self).assets,
            final(self).ledger == old(self).ledger,
            final(self).router == old(self).router,
    {
        let k = make_path3(PathKind::Ack, port_id, channel_id, seq);
        self.set_blob(k, value);
    }

    /// The acknowledgement hash of packet `seq` of a channel, if stored.
    pub fn packet_acknowledgement(&self, port_id: &Vec<u8>, channel_id: &Vec<u8>, seq: u64) -> (r: Option<Vec<u8>>)
        requires
            self.wf(),
        ensures
            match r {
                Some(v) => self.store@.contains_key(path3(PathKind::Ack, port_id@, channel_id@, seq)) && v@ == self.store@[path3(PathKind::Ack, port_id@, channel_id@, seq)]@,
                None => !self.store@.contains_key(path3(PathKind::Ack, port_id@, channel_id@, seq)),
            },
    {
        let k = make_path3(PathKind::Ack, port_id, channel_id, seq);
        self.get_blob(&k)
    }

    /// Drops the acknowledgement hash of packet `seq` of a channel.
    pub fn delete_packet_acknowledgement(&mut self, port_id: &Vec<u8>, channel_id: &Vec<u8>, seq: u64)
        requires
            old(self).wf(),
        ensures
            final(self).wf(),
            final(self).store@ == old(self).store@.remove(path3(PathKind::Ack, port_id@, channel_id@, seq)),
            final(self).sequences == old(self).sequences,
            final(self).assets == old(self).assets,
            final(self).ledger == old(self).ledger,
            final(self).router == old(self).router,
    {
        let k = make_path3(PathKind::Ack, port_id, channel_id, seq);
        self.store.remove(&k);
    }

    /// Marks packet `seq` of a channel as received.
    pub fn store_packet_receipt(&mut self, port_id: &Vec<u8>, channel_id: &Vec<u8>, seq: u64)
        requires
            old(self).wf(),
        ensures
            final(self).wf(),
            final(self).store@.dom() == old(self).store@.dom().insert(path3(PathKind::Receipt, port_id@, channel_id@, seq)),
            final(self).store@[path3(PathKind::Receipt, port_id@, channel_id@, seq)]@ == seq![1u8],
            forall|k: Seq<u8>| k != path3(PathKind::Receipt, port_id@, channel_id@, seq) ==> #[trigger] final(self).store@.get(k) == old(self).store@.get(k),
            final(self).sequences == old(self).sequences,
            final(self).assets == old(self).assets,
            final(self).ledger == old(self).ledger,
            final(self).router == old(self).router,
    {
        let k = make_path3(PathKind::Receipt, port_id, channel_id, seq);
        self.set_blob(k, vec![1u8]);
    }

    /// Whether packet `seq` of a channel was received.
    pub fn has_packet_receipt(&self, port_id: &Vec<u8>, channel_id: &Vec<u8>, seq: u64) -> (r: bool)
        requires
            self.wf(),
        ensures
            r == self.store@.contains_key(path3(PathKind::Receipt, port_id@, channel_id@, seq)),
    {
        let k = make_path3(PathKind::Receipt, port_id, channel_id, seq);
        self.store.contains(&k)
    }

    /// Stores the acknowledgement event written for packet `seq` of a channel
    /// under `writeAckEvents/{port_id}/{channel_id}/{seq}`.
    pub fn store_write_ack(&mut self, port_id: &Vec<u8>, channel_id: &Vec<u8>, seq: u64, event: Vec<u8>)
        requires
            old(self).wf(),
        ensures
            final(self).wf(),
            final(self).store@ == old(self).store@.insert(path3(PathKind::WriteAckEvent, port_id@, channel_id@, seq), event),
            final(self).sequences == old(self).sequences,
            final(self).assets == old(self).assets,
            final(self).ledger == old(self).ledger,
            final(self).router == old(self).router,
    {
        let k = make_path3(PathKind::WriteAckEvent, port_id, channel_id, seq);
        self.set_blob(k, event);
    }
}

/// Keys of different kinds never coincide where their first bytes differ.
pub proof fn lemma_path3_first_byte(k: PathKind, a: Seq<u8>, b: Seq<u8>, n: u64)
    ensures
        path3(k, a, b, n).len() > 0,
        path3(k, a, b, n)[0] == kind_prefix(k)[0],
{
    assert(kind_prefix(k).len() > 0);
    assert((kind_prefix(k) + seq![47u8] + a)[0] == kind_prefix(k)[0]);
    assert(path1(k, a)[0] == kind_prefix(k)[0]);
    assert(path2(k, a, b)[0] == kind_prefix(k)[0]);
    assert((path2(k, a, b) + seq![47u8])[0] == kind_prefix(k)[0]);
}

} // verus!
