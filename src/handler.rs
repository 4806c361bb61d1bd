use vstd::prelude::*;
use crate::context::{lemma_path3_first_byte, path2, path3, Context, Direction, PathKind};
use crate::error::Error;
use crate::escrow::{sha256_of, sha2_256};
use crate::packet::{Acknowledgement, Height, Packet};
use crate::table::{bytes_eq, copy_bytes};
use crate::transfer::{recv_applied, recv_succeeds, refund_error, refunded, send_post, TransferModule};

verus! {

/// A protocol message in its wire form: a type URL and the encoded message.
#[derive(Debug)]
pub struct Any {
    pub type_url: Vec<u8>,
    pub value: Vec<u8>,
}

/// A decoded packet message, as the protocol engine hands it on.
#[derive(Debug)]
pub enum IbcMessage {
    /// A user's request to send tokens over a channel.
    Transfer {
        source_port: Vec<u8>,
        source_channel: Vec<u8>,
        destination_port: Vec<u8>,
        destination_channel: Vec<u8>,
        denom: Vec<u8>,
        amount: u128,
        sender: Vec<u8>,
        receiver: Vec<u8>,
        timeout_height: Height,
        timeout_timestamp: u64,
    },
    /// A packet that arrives on one of this chain's channels.
    RecvPacket(Packet),
    /// The acknowledgement of a packet this chain sent.
    AcknowledgePacket(Packet, Acknowledgement),
    /// A packet this chain sent that timed out.
    TimeoutPacket(Packet),
}

/// What receiving a packet does. Without a route it is refused. A packet whose
/// receipt is stored is a replay: nothing changes and no acknowledgement is
/// written. Otherwise, unless the receive counter is exhausted, the handler's
/// acknowledgement is returned and the receipt, the acknowledgement event and
/// the acknowledgement's hash are stored, whether or not the transfer took
/// effect, and the receive counter advances by one.
pub open spec fn recv_post(old: Context, new: Context, packet: Packet, r: Result<Option<Acknowledgement>, Error>) -> bool {
    let dp = packet.destination_port@;
    let dc = packet.destination_channel@;
    let receipt = path3(PathKind::Receipt, dp, dc, packet.sequence);
    let ack_key = path3(PathKind::Ack, dp, dc, packet.sequence);
    let event_key = path3(PathKind::WriteAckEvent, dp, dc, packet.sequence);
    let count = old.next_sequence(Direction::Recv, dp, dc);
    &&& new.wf()
    &&& !old.router@.contains_key(dp) ==> r == Err::<Option<Acknowledgement>, Error>(Error::RouteNotFound)
        && new == old
    &&& old.router@.contains_key(dp) && old.store@.contains_key(receipt) ==> r == Ok::<
        Option<Acknowledgement>,
        Error,
    >(None) && new == old
    &&& old.router@.contains_key(dp) && !old.store@.contains_key(receipt) && count == u64::MAX ==> r
        == Err::<Option<Acknowledgement>, Error>(Error::Overflow) && new == old
    &&& old.router@.contains_key(dp) && !old.store@.contains_key(receipt) && count < u64::MAX ==> r is Ok
        && r->Ok_0 is Some
    &&& (r matches Ok(Some(ack)) ==> {
        let native = old.router@[dp].native_token_name@;
        &&& (ack is Success) == recv_succeeds(old, native, packet)
        &&& ack is Success ==> recv_applied(old, new, native, packet)
        &&& ack is Error ==> new.ledger == old.ledger && new.assets == old.assets
        &&& new.store@.contains_key(receipt)
        &&& new.store@.contains_key(ack_key)
        &&& new.store@[ack_key]@ == sha256_of(ack.spec_bytes())
        &&& new.store@.contains_key(event_key)
        &&& new.store@[event_key]@ == ack.spec_bytes()
        &&& forall|k: Seq<u8>|
            k != receipt && k != ack_key && k != event_key ==> #[trigger] new.store@.get(k) == old.store@.get(k)
        &&& new.sequences@ == old.sequences@.insert(path2(PathKind::NextSequenceRecv, dp, dc), (count + 1) as u64)
        &&& new.router == old.router
    })
}

/// Receives a packet through the handler routed for its destination port.
pub fn recv_packet(ctx: &mut Context, packet: &Packet) -> (r: Result<Option<Acknowledgement>, Error>)
    requires
        old(ctx).wf(),
    ensures
        recv_post(*old(ctx), *final(ctx), *packet, r),
{
    let module = match ctx.router.get_route(&packet.destination_port) {
        Some(m) => m.duplicate(),
        None => {
            return Err(Error::RouteNotFound);
        },
    };
    if ctx.has_packet_receipt(&packet.destination_port, &packet.destination_channel, packet.sequence) {
        return Ok(None);
    }
    let count = ctx.get_next_sequence(Direction::Recv, &packet.destination_port, &packet.destination_channel);
    if count == u64::MAX {
        return Err(Error::Overflow);
    }
    let ack = module.on_recv_packet(ctx, packet);
    let ghost s1 = ctx.store@;
    ctx.store_packet_receipt(&packet.destination_port, &packet.destination_channel, packet.sequence);
    let ghost s2 = ctx.store@;
    let bytes = ack.to_bytes();
    ctx.store_write_ack(&packet.destination_port, &packet.destination_channel, packet.sequence, copy_bytes(&bytes));
    let ghost s3 = ctx.store@;
    let hash = sha2_256(&bytes);
    ctx.store_packet_acknowledgement(&packet.destination_port, &packet.destination_channel, packet.sequence, hash);
    ctx.store_next_sequence(Direction::Recv, &packet.destination_port, &packet.destination_channel, count + 1);
    proof {
        let dp = packet.destination_port@;
        let dc = packet.destination_channel@;
        let receipt = path3(PathKind::Receipt, dp, dc, packet.sequence);
        let ack_key = path3(PathKind::Ack, dp, dc, packet.sequence);
        let event_key = path3(PathKind::WriteAckEvent, dp, dc, packet.sequence);
        lemma_path3_first_byte(PathKind::Receipt, dp, dc, packet.sequence);
        lemma_path3_first_byte(PathKind::Ack, dp, dc, packet.sequence);
        lemma_path3_first_byte(PathKind::WriteAckEvent, dp, dc, packet.sequence);
        assert(receipt != ack_key && receipt != event_key && ack_key != event_key);
        assert(s2.contains_key(receipt));
        assert(s3.contains_key(receipt));
        assert(ctx.store@.contains_key(receipt));
        assert(s3[event_key]@ == ack.spec_bytes());
        assert forall|k: Seq<u8>| k != receipt && k != ack_key && k != event_key implies #[trigger] ctx.store@.get(k)
            == old(ctx).store@.get(k) by {
            assert(s2.get(k) == s1.get(k));
            assert(s3.get(k) == s2.get(k));
            assert(ctx.store@.get(k) == s3.get(k));
        }
    }
    Ok(Some(ack))
}

/// Checks that the commitment stored for a sent packet is the packet's own.
fn check_commitment(ctx: &Context, packet: &Packet) -> (r: Result<(), Error>)
    requires
        ctx.wf(),
    ensures
        !ctx.store@.contains_key(path3(PathKind::Commitment, packet.source_port@, packet.source_channel@, packet.sequence))
            ==> r == Err::<(), Error>(Error::CommitmentNotFound),
        ctx.store@.contains_key(path3(PathKind::Commitment, packet.source_port@, packet.source_channel@, packet.sequence))
            ==> (r is Ok <==> ctx.store@[path3(PathKind::Commitment, packet.source_port@, packet.source_channel@, packet.sequence)]@
            == packet.spec_commitment()),
        r is Err ==> r == Err::<(), Error>(Error::CommitmentNotFound) || r == Err::<(), Error>(Error::CommitmentMismatch),
{
    match ctx.packet_commitment(&packet.source_port, &packet.source_channel, packet.sequence) {
        None => Err(Error::CommitmentNotFound),
        Some(stored) => {
            let expected = packet.commitment();
            if bytes_eq(&stored, &expected) {
                Ok(())
            } else {
                Err(Error::CommitmentMismatch)
            }
        },
    }
}

/// The commitment of the packet is stored, and it is the packet's.
pub open spec fn commitment_matches(ctx: Context, packet: Packet) -> bool {
    let k = path3(PathKind::Commitment, packet.source_port@, packet.source_channel@, packet.sequence);
    ctx.store@.contains_key(k) && ctx.store@[k]@ == packet.spec_commitment()
}

/// What handling a sent packet's acknowledgement does. It is refused, changing
/// nothing, without a route, without the packet's own commitment, with an
/// exhausted acknowledge counter, or where a failure's refund is refused.
/// Otherwise a failure refunds the sender, the commitment is cleared and the
/// acknowledge counter advances by one.
pub open spec fn ack_post(old: Context, new: Context, packet: Packet, ack: Acknowledgement, r: Result<(), Error>) -> bool {
    let sp = packet.source_port@;
    let sc = packet.source_channel@;
    let count = old.next_sequence(Direction::Ack, sp, sc);
    &&& new.wf()
    &&& r is Err ==> new == old
    &&& !old.router@.contains_key(sp) ==> r == Err::<(), Error>(Error::RouteNotFound)
    &&& old.router@.contains_key(sp) && !commitment_matches(old, packet) ==> r is Err
    &&& old.router@.contains_key(sp) && commitment_matches(old, packet) ==> (r is Ok <==> count < u64::MAX && (
    ack is Success || refund_error(old, old.router@[sp].native_token_name@, packet) is None))
    &&& (r is Ok ==> {
        &&& commitment_matches(old, packet)
        &&& new.store@ == old.store@.remove(path3(PathKind::Commitment, sp, sc, packet.sequence))
        &&& new.sequences@ == old.sequences@.insert(path2(PathKind::NextSequenceAck, sp, sc), (count + 1) as u64)
        &&& new.assets == old.assets
        &&& new.router == old.router
        &&& ack is Success ==> new.ledger == old.ledger
        &&& ack is Error ==> refunded(old, new, old.router@[sp].native_token_name@, packet)
    })
}

/// Handles the acknowledgement of a sent packet through the handler routed for
/// its source port.
pub fn acknowledge_packet(ctx: &mut Context, packet: &Packet, ack: &Acknowledgement) -> (r: Result<(), Error>)
    requires
        old(ctx).wf(),
    ensures
        ack_post(*old(ctx), *final(ctx), *packet, *ack, r),
{
    let module = match ctx.router.get_route(&packet.source_port) {
        Some(m) => m.duplicate(),
        None => {
            return Err(Error::RouteNotFound);
        },
    };
    match check_commitment(ctx, packet) {
        Ok(()) => {},
        Err(e) => {
            return Err(e);
        },
    }
    let count = ctx.get_next_sequence(Direction::Ack, &packet.source_port, &packet.source_channel);
    if count == u64::MAX {
        return Err(Error::Overflow);
    }
    match module.on_acknowledge_packet(ctx, packet, ack) {
        Ok(()) => {},
        Err(e) => {
            return Err(e);
        },
    }
    ctx.delete_packet_commitment(&packet.source_port, &packet.source_channel, packet.sequence);
    ctx.store_next_sequence(Direction::Ack, &packet.source_port, &packet.source_channel, count + 1);
    Ok(())
}

/// What handling a timed-out packet does. It is refused, changing nothing,
/// without a route, without the packet's own commitment, or where the refund
/// is refused. Otherwise the sender is refunded and the commitment cleared; a
/// timeout is no acknowledgement, so no counter moves.
pub open spec fn timeout_post(old: Context, new: Context, packet: Packet, r: Result<(), Error>) -> bool {
    let sp = packet.source_port@;
    &&& new.wf()
    &&& r is Err ==> new == old
    &&& !old.router@.contains_key(sp) ==> r == Err::<(), Error>(Error::RouteNotFound)
    &&& old.router@.contains_key(sp) && !commitment_matches(old, packet) ==> r is Err
    &&& old.router@.contains_key(sp) && commitment_matches(old, packet) ==> (r is Ok <==> refund_error(
        old,
        old.router@[sp].native_token_name@,
        packet,
    ) is None)
    &&& (r is Ok ==> {
        &&& commitment_matches(old, packet)
        &&& new.store@ == old.store@.remove(path3(PathKind::Commitment, sp, packet.source_channel@, packet.sequence))
        &&& new.sequences == old.sequences
        &&& new.assets == old.assets
        &&& new.router == old.router
        &&& refunded(old, new, old.router@[sp].native_token_name@, packet)
    })
}

/// Handles a sent packet that timed out through the handler routed for its
/// source port.
pub fn timeout_packet(ctx: &mut Context, packet: &Packet) -> (r: Result<(), Error>)
    requires
        old(ctx).wf(),
    ensures
        timeout_post(*old(ctx), *final(ctx), *packet, r),
{
    let module = match ctx.router.get_route(&packet.source_port) {
        Some(m) => m.duplicate(),
        None => {
            return Err(Error::RouteNotFound);
        },
    };
    match check_commitment(ctx, packet) {
        Ok(()) => {},
        Err(e) => {
            return Err(e);
        },
    }
    match module.on_timeout_packet(ctx, packet) {
        Ok(()) => {},
        Err(e) => {
            return Err(e);
        },
    }
    ctx.delete_packet_commitment(&packet.source_port, &packet.source_channel, packet.sequence);
    Ok(())
}

/// What a message that was handled produced.
#[derive(Debug)]
pub enum Outcome {
    /// The packet that a transfer sent.
    Sent(Packet),
    /// The acknowledgement of a received packet; none for a replay.
    Received(Option<Acknowledgement>),
    /// A sent packet's acknowledgement was handled.
    Acknowledged,
    /// A sent packet's timeout was handled.
    TimedOut,
}

/// The port whose route handles the message.
pub open spec fn message_port(msg: IbcMessage) -> Seq<u8> {
    match msg {
        IbcMessage::Transfer { source_port, .. } => source_port@,
        IbcMessage::RecvPacket(p) => p.destination_port@,
        IbcMessage::AcknowledgePacket(p, _) => p.source_port@,
        IbcMessage::TimeoutPacket(p) => p.source_port@,
    }
}

/// Without a route a message is refused with `RouteNotFound`.
pub open spec fn routed(routes: Map<Seq<u8>, TransferModule>, msg: IbcMessage, r: Result<Outcome, Error>) -> bool {
    !routes.contains_key(message_port(msg)) ==> r == Err::<Outcome, Error>(Error::RouteNotFound)
}

/// What handling one message does: the postcondition of the handler for its
/// kind, with the handler's result in the matching outcome.
pub open spec fn dispatch_post(old: Context, msg: IbcMessage, r: Result<Outcome, Error>, new: Context) -> bool {
    match msg {
        IbcMessage::Transfer {
            source_port,
            source_channel,
            destination_port,
            destination_channel,
            denom,
            amount,
            sender,
            receiver,
            timeout_height,
            timeout_timestamp,
        } => if !old.router@.contains_key(source_port@) {
            r == Err::<Outcome, Error>(Error::RouteNotFound) && new == old && new.wf()
        } else {
            let sent = match r {
                Ok(Outcome::Sent(p)) => Some(Ok::<Packet, Error>(p)),
                Err(e) => Some(Err::<Packet, Error>(e)),
                _ => None,
            };
            sent is Some && send_post(
                old,
                new,
                old.router@[source_port@].native_token_name@,
                source_port@,
                source_channel@,
                destination_port@,
                destination_channel@,
                denom@,
                amount,
                sender@,
                receiver@,
                timeout_height,
                timeout_timestamp,
                sent->Some_0,
            )
        },
        IbcMessage::RecvPacket(p) => match r {
            Ok(Outcome::Received(a)) => recv_post(old, new, p, Ok(a)),
            Err(e) => recv_post(old, new, p, Err(e)),
            _ => false,
        },
        IbcMessage::AcknowledgePacket(p, a) => match r {
            Ok(Outcome::Acknowledged) => ack_post(old, new, p, a, Ok(())),
            Err(e) => ack_post(old, new, p, a, Err(e)),
            _ => false,
        },
        IbcMessage::TimeoutPacket(p) => match r {
            Ok(Outcome::TimedOut) => timeout_post(old, new, p, Ok(())),
            Err(e) => timeout_post(old, new, p, Err(e)),
            _ => false,
        },
    }
}

/// Handles one message. A message that is refused leaves the context as it was.
pub fn dispatch(ctx: &mut Context, msg: &IbcMessage) -> (r: Result<Outcome, Error>)
    requires
        old(ctx).wf(),
    ensures
        final(ctx).wf(),
        dispatch_post(*old(ctx), *msg, r, *final(ctx)),
        r is Err ==> *final(ctx) == *old(ctx),
        final(ctx).router == old(ctx).router,
        routed(old(ctx).router@, *msg, r),
{
    match msg {
        IbcMessage::Transfer {
            source_port,
            source_channel,
            destination_port,
            destination_channel,
            denom,
            amount,
            sender,
            receiver,
            timeout_height,
            timeout_timestamp,
        } => {
            let module = match ctx.router.get_route(source_port) {
                Some(m) => m.duplicate(),
                None => {
                    return Err(Error::RouteNotFound);
                },
            };
            match module.send_transfer(
                ctx,
                source_port,
                source_channel,
                destination_port,
                destination_channel,
                denom,
                *amount,
                sender,
                receiver,
                *timeout_height,
                *timeout_timestamp,
            ) {
                Ok(p) => Ok(Outcome::Sent(p)),
                Err(e) => Err(e),
            }
        },
        IbcMessage::RecvPacket(p) => match recv_packet(ctx, p) {
            Ok(a) => Ok(Outcome::Received(a)),
            Err(e) => Err(e),
        },
        IbcMessage::AcknowledgePacket(p, a) => match acknowledge_packet(ctx, p, a) {
            Ok(()) => Ok(Outcome::Acknowledged),
            Err(e) => Err(e),
        },
        IbcMessage::TimeoutPacket(p) => match timeout_packet(ctx, p) {
            Ok(()) => Ok(Outcome::TimedOut),
            Err(e) => Err(e),
        },
    }
}

/// Handles a batch of messages in order, one at a time: there are contexts
/// `s[0] ..= s[n]`, from the context before to the context after, such that
/// message `i` is handled on `s[i]`, with result `i`, and leaves `s[i + 1]`. A
/// refused message is recorded in its place and leaves the context as it was;
/// the messages after it are handled all the same.
pub fn deliver(ctx: &mut Context, messages: &Vec<IbcMessage>) -> (results: Vec<Result<Outcome, Error>>)
    requires
        old(ctx).wf(),
    ensures
        final(ctx).wf(),
        results@.len() == messages@.len(),
        exists|s: Seq<Context>|
            s.len() == messages@.len() + 1 && s[0] == *old(ctx) && s[messages@.len() as int] == *final(ctx)
                && forall|i: int|
                0 <= i < messages@.len() ==> dispatch_post(s[i], messages@[i], #[trigger] results@[i], s[i + 1]),
        final(ctx).router == old(ctx).router,
        forall|i: int| 0 <= i < results@.len() ==> routed(old(ctx).router@, messages@[i], #[trigger] results@[i]),
        (forall|i: int| 0 <= i < results@.len() ==> #[trigger] results@[i] is Err) ==> *final(ctx) == *old(ctx),
{
    let mut results: Vec<Result<Outcome, Error>> = Vec::new();
    let ghost mut states: Seq<Context> = seq![*ctx];
    let mut i: usize = 0;
    while i < messages.len()
        invariant
            ctx.wf(),
            0 <= i <= messages@.len(),
            results@.len() == i,
            states.len() == i + 1,
            states[0] == *old(ctx),
            states[i as int] == *ctx,
            forall|j: int| 0 <= j < i ==> dispatch_post(states[j], messages@[j], #[trigger] results@[j], states[j + 1]),
            ctx.router == old(ctx).router,
            forall|j: int| 0 <= j < i ==> routed(old(ctx).router@, messages@[j], #[trigger] results@[j]),
            (forall|j: int| 0 <= j < i ==> #[trigger] results@[j] is Err) ==> *ctx == *old(ctx),
        decreases messages@.len() - i,
    {
        let ghost prev = results@;
        let ghost prev_states = states;
        let r = dispatch(ctx, &messages[i]);
        results.push(r);
        proof {
            states = states.push(*ctx);
            assert forall|j: int| 0 <= j < i + 1 implies dispatch_post(states[j], messages@[j], #[trigger] results@[j], states[j + 1]) by {
                if j < i {
                    assert(results@[j] == prev[j]);
                    assert(states[j] == prev_states[j] && states[j + 1] == prev_states[j + 1]);
                }
            }
            assert forall|j: int| 0 <= j < i + 1 implies routed(old(ctx).router@, messages@[j], #[trigger] results@[j]) by {
                if j < i {
                    assert(results@[j] == prev[j]);
                }
            }
            if forall|j: int| 0 <= j < i + 1 ==> #[trigger] results@[j] is Err {
                assert forall|j: int| 0 <= j < i implies #[trigger] prev[j] is Err by {
                    assert(results@[j] == prev[j]);
                }
                assert(results@[i as int] is Err);
            }
        }
        i += 1;
    }
    results
}

} // verus!
