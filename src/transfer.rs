use vstd::prelude::*;
use crate::context::{decimal, decimal_bytes, path2, path3, Context, Direction, PathKind};
use crate::assets::{fresh_asset_id, lemma_next_asset_id_unique};
use crate::error::Error;
use crate::escrow::{escrow_address, get_channel_escrow_address};
use crate::ledger::{Denom, Ledger};
use crate::packet::{Acknowledgement, Height, Packet, TransferPacketData};
use crate::table::{append_bytes_to, bytes_eq, copy_bytes};

verus! {

/// Whether every byte is an ASCII digit.
pub open spec fn all_digits(s: Seq<u8>) -> bool {
    forall|i: int| 0 <= i < s.len() ==> 48 <= #[trigger] s[i] <= 57
}

/// The number that a string of ASCII digits spells.
pub open spec fn digits_value(s: Seq<u8>) -> nat
    decreases s.len(),
{
    if s.len() == 0 {
        0
    } else {
        10 * digits_value(s.drop_last()) + (s.last() - 48) as nat
    }
}

/// The amount that a packet's decimal amount string states: one or more
/// digits, the value no larger than `u128::MAX`.
pub open spec fn parsed_amount(s: Seq<u8>) -> Option<u128> {
    if s.len() > 0 && all_digits(s) && digits_value(s) <= u128::MAX {
        Some(digits_value(s) as u128)
    } else {
        None
    }
}

proof fn lemma_digits_value_grows(s: Seq<u8>, i: int)
    requires
        all_digits(s),
        0 <= i <= s.len(),
    ensures
        digits_value(s.subrange(0, i)) <= digits_value(s),
    decreases s.len() - i,
{
    if i < s.len() {
        lemma_digits_value_grows(s, i + 1);
        let p = s.subrange(0, i + 1);
        assert(p.drop_last() =~= s.subrange(0, i));
        assert(p.last() == s[i]);
    } else {
        assert(s.subrange(0, i) =~= s);
    }
}

/// Reads a decimal amount.
pub fn parse_amount(s: &Vec<u8>) -> (r: Option<u128>)
    ensures
        r == parsed_amount(s@),
{
    if s.len() == 0 {
        return None;
    }
    let mut acc: u128 = 0;
    let mut i: usize = 0;
    while i < s.len()
        invariant
            0 <= i <= s@.len(),
            forall|j: int| 0 <= j < i ==> 48 <= #[trigger] s@[j] <= 57,
            acc as nat == digits_value(s@.subrange(0, i as int)),
        decreases s@.len() - i,
    {
        let c = s[i];
        if c < 48 || c > 57 {
            assert(!all_digits(s@));
            return None;
        }
        let d = (c - 48) as u128;
        let ghost p = s@.subrange(0, i + 1);
        assert(p.drop_last() =~= s@.subrange(0, i as int));
        if acc > (u128::MAX - d) / 10 {
            proof {
                assert(10 * acc + d > u128::MAX) by (nonlinear_arith)
                    requires
                        acc > (u128::MAX - d) / 10,
                        d <= 9,
                ;
                assert(forall|j: int| 0 <= j < i + 1 ==> 48 <= #[trigger] s@[j] <= 57);
                if all_digits(s@) {
                    lemma_digits_value_grows(s@, i + 1);
                }
            }
            return None;
        }
        assert(10 * acc + d <= u128::MAX) by (nonlinear_arith)
            requires
                acc <= (u128::MAX - d) / 10,
                d <= 9,
        ;
        acc = 10 * acc + d;
        i += 1;
    }
    assert(s@.subrange(0, s@.len() as int) =~= s@);
    Some(acc)
}

/// Whether `s` begins with `prefix`.
pub open spec fn has_prefix(s: Seq<u8>, prefix: Seq<u8>) -> bool {
    prefix.len() <= s.len() && s.subrange(0, prefix.len() as int) == prefix
}

/// Whether `s` begins with `prefix`.
pub fn starts_with(s: &Vec<u8>, prefix: &Vec<u8>) -> (r: bool)
    ensures
        r == has_prefix(s@, prefix@),
{
    if prefix.len() > s.len() {
        return false;
    }
    let mut i: usize = 0;
    while i < prefix.len()
        invariant
            prefix@.len() <= s@.len(),
            0 <= i <= prefix@.len(),
            forall|j: int| 0 <= j < i ==> s@[j] == prefix@[j],
        decreases prefix@.len() - i,
    {
        if s[i] != prefix[i] {
            assert(s@.subrange(0, prefix@.len() as int)[i as int] != prefix@[i as int]);
            return false;
        }
        i += 1;
    }
    assert(s@.subrange(0, prefix@.len() as int) =~= prefix@);
    true
}

/// The bytes of `s` from position `start` on.
pub fn suffix_from(s: &Vec<u8>, start: usize) -> (r: Vec<u8>)
    requires
        start <= s@.len(),
    ensures
        r@ == s@.subrange(start as int, s@.len() as int),
{
    let mut r: Vec<u8> = Vec::new();
    let mut i: usize = start;
    while i < s.len()
        invariant
            start <= i <= s@.len(),
            r@ == s@.subrange(start as int, i as int),
        decreases s@.len() - i,
    {
        r.push(s[i]);
        i += 1;
        assert(r@ =~= s@.subrange(start as int, i as int));
    }
    r
}

/// `port/channel/`, the trace prefix that a channel puts before a denomination.
pub open spec fn trace_prefix(port: Seq<u8>, channel: Seq<u8>) -> Seq<u8> {
    port + seq![47u8] + channel + seq![47u8]
}

/// `port/channel/`.
pub fn make_trace_prefix(port: &Vec<u8>, channel: &Vec<u8>) -> (r: Vec<u8>)
    ensures
        r@ == trace_prefix(port@, channel@),
{
    let mut r = crate::table::copy_bytes(port);
    r.push(47u8);
    crate::table::append_bytes_to(&mut r, channel);
    r.push(47u8);
    assert(r@ =~= trace_prefix(port@, channel@));
    r
}

/// The fungible-token transfer application.
pub struct TransferModule {
    /// The name of the chain's native token.
    pub native_token_name: Vec<u8>,
}

/// `amount` of `d` left `from` and reached `to`; every other balance is as it was.
pub open spec fn moved(old: Ledger, new: Ledger, d: Denom, from: Seq<u8>, to: Seq<u8>, amount: u128) -> bool {
    &&& from != to ==> new.balance(d, from) == old.balance(d, from) - amount && new.balance(d, to)
        == old.balance(d, to) + amount
    &&& from == to ==> new.balance(d, from) == old.balance(d, from)
    &&& forall|d2: Denom, a2: Seq<u8>|
        (d2, a2) != (d, from) && (d2, a2) != (d, to) ==> #[trigger] new.balance(d2, a2)
            == old.balance(d2, a2)
}

/// `from` holds `amount` of `d`, and `to` can take it.
pub open spec fn can_move(l: Ledger, d: Denom, from: Seq<u8>, to: Seq<u8>, amount: u128) -> bool {
    l.balance(d, from) >= amount && (from == to || l.balance(d, to) + amount <= u128::MAX)
}

/// `amount` of `d` was credited to `to`; every other balance is as it was.
pub open spec fn minted(old: Ledger, new: Ledger, d: Denom, to: Seq<u8>, amount: u128) -> bool {
    &&& new.balance(d, to) == old.balance(d, to) + amount
    &&& forall|d2: Denom, a2: Seq<u8>|
        (d2, a2) != (d, to) ==> #[trigger] new.balance(d2, a2) == old.balance(d2, a2)
}

/// `amount` of `d` was debited from `from`; every other balance is as it was.
pub open spec fn burnt(old: Ledger, new: Ledger, d: Denom, from: Seq<u8>, amount: u128) -> bool {
    &&& new.balance(d, from) == old.balance(d, from) - amount
    &&& forall|d2: Denom, a2: Seq<u8>|
        (d2, a2) != (d, from) ==> #[trigger] new.balance(d2, a2) == old.balance(d2, a2)
}

/// The store holds `v` under `k` and is otherwise as it was.
pub open spec fn put_bytes(old: Map<Seq<u8>, Vec<u8>>, new: Map<Seq<u8>, Vec<u8>>, k: Seq<u8>, v: Seq<u8>) -> bool {
    &&& new.dom() == old.dom().insert(k)
    &&& new[k]@ == v
    &&& forall|k2: Seq<u8>| k2 != k ==> #[trigger] new.get(k2) == old.get(k2)
}

/// Whether sending `denom` over the channel would be refused, and with which
/// error: the counter is exhausted, the asset is unknown, or the ledger refuses.
pub open spec fn send_error(
    ctx: Context,
    native: Seq<u8>,
    port: Seq<u8>,
    channel: Seq<u8>,
    denom: Seq<u8>,
    amount: u128,
    sender: Seq<u8>,
) -> Option<Error> {
    let esc = escrow_address(port, channel);
    if ctx.next_sequence(Direction::Send, port, channel) == u64::MAX {
        Some(Error::Overflow)
    } else if denom == native {
        if ctx.ledger.balance(Denom::Native, sender) < amount {
            Some(Error::InsufficientFunds)
        } else if !can_move(ctx.ledger, Denom::Native, sender, esc, amount) {
            Some(Error::Overflow)
        } else {
            None
        }
    } else if !ctx.assets@.contains_key(denom) {
        Some(Error::InvalidTokenId)
    } else if ctx.ledger.balance(Denom::Asset(ctx.assets@[denom]), sender) < amount {
        Some(Error::InsufficientFunds)
    } else {
        None
    }
}

/// The packet's denomination carries the trace prefix of the sending channel:
/// the token left this chain over that channel and now returns.
pub open spec fn is_returning(p: Packet) -> bool {
    has_prefix(p.data.denom@, trace_prefix(p.source_port@, p.source_channel@))
}

/// A returning denomination without the sending channel's trace prefix.
pub open spec fn base_denom(p: Packet) -> Seq<u8> {
    p.data.denom@.subrange(
        trace_prefix(p.source_port@, p.source_channel@).len() as int,
        p.data.denom@.len() as int,
    )
}

/// The voucher denomination under which a foreign token is held here.
pub open spec fn voucher_denom(p: Packet) -> Seq<u8> {
    trace_prefix(p.destination_port@, p.destination_channel@) + p.data.denom@
}

/// What the receiver is credited in, where that can be resolved: for a
/// returning token the native token or the registered asset of the base
/// denomination; otherwise the voucher's asset, registered or about to be.
pub open spec fn recv_denom(ctx: Context, native: Seq<u8>, p: Packet) -> Option<Denom> {
    if is_returning(p) {
        if base_denom(p) == native {
            Some(Denom::Native)
        } else if ctx.assets@.contains_key(base_denom(p)) {
            Some(Denom::Asset(ctx.assets@[base_denom(p)]))
        } else {
            None
        }
    } else if ctx.assets@.contains_key(voucher_denom(p)) {
        Some(Denom::Asset(ctx.assets@[voucher_denom(p)]))
    } else {
        match fresh_asset_id(ctx.assets@) {
            Some(n) => Some(Denom::Asset(n)),
            None => None,
        }
    }
}

/// Whether receiving the packet takes effect: the amount parses, the
/// denomination resolves, and the ledger accepts the unescrow or the mint.
pub open spec fn recv_succeeds(ctx: Context, native: Seq<u8>, p: Packet) -> bool {
    match (parsed_amount(p.data.amount@), recv_denom(ctx, native, p)) {
        (Some(a), Some(d)) => if is_returning(p) {
            can_move(ctx.ledger, d, escrow_address(p.destination_port@, p.destination_channel@), p.data.receiver@, a)
        } else {
            ctx.ledger.balance(d, p.data.receiver@) + a <= u128::MAX
        },
        _ => false,
    }
}

/// Why refunding the packet's tokens to its sender would be refused, if it would.
pub open spec fn refund_error(ctx: Context, native: Seq<u8>, p: Packet) -> Option<Error> {
    match parsed_amount(p.data.amount@) {
        None => Some(Error::InvalidDecode),
        Some(a) => if p.data.denom@ == native {
            let esc = escrow_address(p.source_port@, p.source_channel@);
            if ctx.ledger.balance(Denom::Native, esc) < a {
                Some(Error::InsufficientFunds)
            } else if !can_move(ctx.ledger, Denom::Native, esc, p.data.sender@, a) {
                Some(Error::Overflow)
            } else {
                None
            }
        } else if !ctx.assets@.contains_key(p.data.denom@) {
            Some(Error::InvalidTokenId)
        } else if ctx.ledger.balance(Denom::Asset(ctx.assets@[p.data.denom@]), p.data.sender@) + a
            > u128::MAX {
            Some(Error::Overflow)
        } else {
            None
        },
    }
}

/// The ledger effect of a refund: the native token leaves the escrow account
/// of the sending channel, a registered asset is minted back.
pub open spec fn refunded(old: Context, new: Context, native: Seq<u8>, p: Packet) -> bool {
    let a = parsed_amount(p.data.amount@)->Some_0;
    if p.data.denom@ == native {
        moved(old.ledger, new.ledger, Denom::Native, escrow_address(p.source_port@, p.source_channel@), p.data.sender@, a)
    } else {
        minted(old.ledger, new.ledger, Denom::Asset(old.assets@[p.data.denom@]), p.data.sender@, a)
    }
}

/// The effect of a received packet that took effect.
pub open spec fn recv_applied(old: Context, new: Context, native: Seq<u8>, p: Packet) -> bool {
    let a = parsed_amount(p.data.amount@)->Some_0;
    let d = recv_denom(old, native, p)->Some_0;
    &&& new.router == old.router
    &&& is_returning(p) ==> new.assets@ == old.assets@ && moved(
        old.ledger,
        new.ledger,
        d,
        escrow_address(p.destination_port@, p.destination_channel@),
        p.data.receiver@,
        a,
    )
    &&& !is_returning(p) ==> minted(old.ledger, new.ledger, d, p.data.receiver@, a)
    &&& !is_returning(p) && old.assets@.contains_key(voucher_denom(p)) ==> new.assets@ == old.assets@
    &&& !is_returning(p) && !old.assets@.contains_key(voucher_denom(p)) ==> new.assets@
        == old.assets@.insert(voucher_denom(p), d->Asset_0)
}

fn failure_ack() -> (r: Acknowledgement)
    ensures
        r is Error,
{
    Acknowledgement::Error(vec![
        102u8, 117u8, 110u8, 103u8, 105u8, 98u8, 108u8, 101u8, 32u8, 116u8, 111u8, 107u8, 101u8, 110u8,
        32u8, 116u8, 114u8, 97u8, 110u8, 115u8, 102u8, 101u8, 114u8, 32u8, 102u8, 97u8, 105u8, 108u8,
        101u8, 100u8,
    ])
}

/// What sending tokens does: the exact refusal, or the packet, the advanced
/// send counter, the stored commitment and the escrow or burn.
pub open spec fn send_post(
    old: Context,
    new: Context,
    native: Seq<u8>,
    sp: Seq<u8>,
    sc: Seq<u8>,
    dp: Seq<u8>,
    dc: Seq<u8>,
    denom: Seq<u8>,
    amount: u128,
    sender: Seq<u8>,
    receiver: Seq<u8>,
    th: Height,
    tt: u64,
    r: Result<Packet, Error>,
) -> bool {
    &&& new.wf()
    &&& (send_error(old, native, sp, sc, denom, amount, sender) matches Some(e) ==> r == Err::<Packet, Error>(e)
        && new == old)
    &&& send_error(old, native, sp, sc, denom, amount, sender) is None ==> r is Ok
    &&& (r matches Ok(p) ==> {
                let seq = old.next_sequence(Direction::Send, sp, sc);
                &&& p.sequence == seq
                &&& p.source_port@ == sp
                &&& p.source_channel@ == sc
                &&& p.destination_port@ == dp
                &&& p.destination_channel@ == dc
                &&& p.data.denom@ == denom
                &&& p.data.amount@ == decimal(amount as nat)
                &&& p.data.sender@ == sender
                &&& p.data.receiver@ == receiver
                &&& p.timeout_height == th
                &&& p.timeout_timestamp == tt
                &&& new.sequences@ == old.sequences@.insert(
                    path2(PathKind::NextSequenceSend, sp, sc),
                    (seq + 1) as u64,
                )
                &&& new.next_sequence(Direction::Send, sp, sc) == seq + 1
                &&& put_bytes(
                    old.store@,
                    new.store@,
                    path3(PathKind::Commitment, sp, sc, seq),
                    p.spec_commitment(),
                )
                &&& new.assets == old.assets
                &&& new.router == old.router
                &&& denom == native ==> moved(
                    old.ledger,
                    new.ledger,
                    Denom::Native,
                    sender,
                    escrow_address(sp, sc),
                    amount,
                )
                &&& denom != native ==> burnt(
                    old.ledger,
                    new.ledger,
                    Denom::Asset(old.assets@[denom]),
                    sender,
                    amount,
                )
            })
}

impl TransferModule {
    /// A copy of the module.
    pub fn duplicate(&self) -> (r: Self)
        ensures
            r.native_token_name@ == self.native_token_name@,
    {
        TransferModule { native_token_name: copy_bytes(&self.native_token_name) }
    }

    /// Sends `amount` of `denom` from `sender` over the channel `source_channel`
    /// of `source_port`. The native token moves into the channel's escrow
    /// account; a registered asset is burnt. The packet takes the next send
    /// sequence, its commitment is stored, and the counter advances by one. A
    /// refusal changes nothing.
    pub fn send_transfer(
        &self,
        ctx: &mut Context,
        source_port: &Vec<u8>,
        source_channel: &Vec<u8>,
        destination_port: &Vec<u8>,
        destination_channel: &Vec<u8>,
        denom: &Vec<u8>,
        amount: u128,
        sender: &Vec<u8>,
        receiver: &Vec<u8>,
        timeout_height: Height,
        timeout_timestamp: u64,
    ) -> (r: Result<Packet, Error>)
        requires
            old(ctx).wf(),
        ensures
            final(ctx).wf(),
            send_post(
                *old(ctx),
                *final(ctx),
                self.native_token_name@,
                source_port@,
                source_channel@,
                destination_port@,
                destination_channel@,
                denom@,
                amount,
                sender@,
                receiver@,
                timeout_height,
                timeout_timestamp,
                r,
            ),
    {
        let seq = ctx.get_next_sequence(Direction::Send, source_port, source_channel);
        if seq == u64::MAX {
            return Err(Error::Overflow);
        }
        if bytes_eq(denom, &self.native_token_name) {
            let esc = get_channel_escrow_address(source_port, source_channel);
            match ctx.ledger.transfer(Denom::Native, sender, &esc, amount) {
                Ok(()) => {},
                Err(e) => {
                    return Err(e);
                },
            }
        } else {
            let id = match ctx.assets.try_get_asset_id(denom) {
                Ok(id) => id,
                Err(e) => {
                    return Err(e);
                },
            };
            match ctx.ledger.burn(Denom::Asset(id), sender, amount) {
                Ok(()) => {},
                Err(e) => {
                    return Err(e);
                },
            }
        }
        let packet = Packet {
            sequence: seq,
            source_port: copy_bytes(source_port),
            source_channel: copy_bytes(source_channel),
            destination_port: copy_bytes(destination_port),
            destination_channel: copy_bytes(destination_channel),
            data: TransferPacketData {
                denom: copy_bytes(denom),
                amount: decimal_bytes(amount),
                sender: copy_bytes(sender),
                receiver: copy_bytes(receiver),
            },
            timeout_height,
            timeout_timestamp,
        };
        let commitment = packet.commitment();
        ctx.store_packet_commitment(source_port, source_channel, seq, commitment);
        ctx.store_next_sequence(Direction::Send, source_port, source_channel, seq + 1);
        Ok(packet)
    }

    /// Handles a received packet. A returning token leaves the receiving
    /// channel's escrow account for the receiver; a foreign token is minted as
    /// a voucher, whose denomination is registered on first sight. Any failure
    /// yields a failure acknowledgement and changes nothing.
    pub fn on_recv_packet(&self, ctx: &mut Context, packet: &Packet) -> (ack: Acknowledgement)
        requires
            old(ctx).wf(),
        ensures
            final(ctx).wf(),
            (ack is Success) == recv_succeeds(*old(ctx), self.native_token_name@, *packet),
            ack is Error ==> *final(ctx) == *old(ctx),
            ack is Success ==> recv_applied(*old(ctx), *final(ctx), self.native_token_name@, *packet)
                && final(ctx).store == old(ctx).store && final(ctx).sequences == old(ctx).sequences,
    {
        let amount = match parse_amount(&packet.data.amount) {
            Some(a) => a,
            None => {
                return failure_ack();
            },
        };
        let prefix = make_trace_prefix(&packet.source_port, &packet.source_channel);
        if starts_with(&packet.data.denom, &prefix) {
            let base = suffix_from(&packet.data.denom, prefix.len());
            let d = if bytes_eq(&base, &self.native_token_name) {
                Denom::Native
            } else {
                match ctx.assets.try_get_asset_id(&base) {
                    Ok(id) => Denom::Asset(id),
                    Err(_) => {
                        return failure_ack();
                    },
                }
            };
            let esc = get_channel_escrow_address(&packet.destination_port, &packet.destination_channel);
            match ctx.ledger.transfer(d, &esc, &packet.data.receiver, amount) {
                Ok(()) => Acknowledgement::Success,
                Err(_) => failure_ack(),
            }
        } else {
            let mut voucher = make_trace_prefix(&packet.destination_port, &packet.destination_channel);
            append_bytes_to(&mut voucher, &packet.data.denom);
            match ctx.assets.try_get_asset_id(&voucher) {
                Ok(id) => match ctx.ledger.mint(Denom::Asset(id), &packet.data.receiver, amount) {
                    Ok(()) => Acknowledgement::Success,
                    Err(_) => failure_ack(),
                },
                Err(_) => {
                    let next = ctx.assets.next_asset_id();
                    proof {
                        lemma_next_asset_id_unique(ctx.assets@, next);
                    }
                    match next {
                        None => failure_ack(),
                        Some(id) => {
                            let b = ctx.ledger.balance_of(Denom::Asset(id), &packet.data.receiver);
                            if b > u128::MAX - amount {
                                return failure_ack();
                            }
                            let reg = ctx.assets.register(voucher, id);
                            proof {
                                if crate::assets::id_in_use(old(ctx).assets@, id) {
                                    let k = choose|k: Seq<u8>| #[trigger] old(ctx).assets@.contains_key(k) && old(ctx).assets@[k] == id;
                                    assert(old(ctx).assets@[k] < id);
                                }
                            }
                            let _ = ctx.ledger.mint(Denom::Asset(id), &packet.data.receiver, amount);
                            Acknowledgement::Success
                        },
                    }
                },
            }
        }
    }

    /// Returns the packet's tokens to its sender: the native token leaves the
    /// sending channel's escrow account, a registered asset is minted back. A
    /// refusal changes nothing.
    pub fn refund_packet_token(&self, ctx: &mut Context, packet: &Packet) -> (r: Result<(), Error>)
        requires
            old(ctx).wf(),
        ensures
            final(ctx).wf(),
            refund_error(*old(ctx), self.native_token_name@, *packet) matches Some(e) ==> r == Err::<(), Error>(e)
                && *final(ctx) == *old(ctx),
            refund_error(*old(ctx), self.native_token_name@, *packet) is None ==> r is Ok,
            r is Ok ==> refunded(*old(ctx), *final(ctx), self.native_token_name@, *packet) && final(ctx).store
                == old(ctx).store && final(ctx).sequences == old(ctx).sequences && final(ctx).assets
                == old(ctx).assets && final(ctx).router == old(ctx).router,
    {
        let amount = match parse_amount(&packet.data.amount) {
            Some(a) => a,
            None => {
                return Err(Error::InvalidDecode);
            },
        };
        if bytes_eq(&packet.data.denom, &self.native_token_name) {
            let esc = get_channel_escrow_address(&packet.source_port, &packet.source_channel);
            ctx.ledger.transfer(Denom::Native, &esc, &packet.data.sender, amount)
        } else {
            let id = match ctx.assets.try_get_asset_id(&packet.data.denom) {
                Ok(id) => id,
                Err(e) => {
                    return Err(e);
                },
            };
            ctx.ledger.mint(Denom::Asset(id), &packet.data.sender, amount)
        }
    }

    /// Handles the acknowledgement of a sent packet: a failure refunds the
    /// sender, a success changes nothing.
    pub fn on_acknowledge_packet(&self, ctx: &mut Context, packet: &Packet, ack: &Acknowledgement) -> (r: Result<(), Error>)
        requires
            old(ctx).wf(),
        ensures
            final(ctx).wf(),
            ack is Success ==> r is Ok && *final(ctx) == *old(ctx),
            ack is Error ==> (refund_error(*old(ctx), self.native_token_name@, *packet) matches Some(e)
                ==> r == Err::<(), Error>(e) && *final(ctx) == *old(ctx)),
            ack is Error && refund_error(*old(ctx), self.native_token_name@, *packet) is None ==> r is Ok
                && refunded(*old(ctx), *final(ctx), self.native_token_name@, *packet) && final(ctx).store
                == old(ctx).store && final(ctx).sequences == old(ctx).sequences && final(ctx).assets
                == old(ctx).assets && final(ctx).router == old(ctx).router,
    {
        if ack.is_success() {
            Ok(())
        } else {
            self.refund_packet_token(ctx, packet)
        }
    }

    /// Handles a packet that timed out: the sender is refunded.
    pub fn on_timeout_packet(&self, ctx: &mut Context, packet: &Packet) -> (r: Result<(), Error>)
        requires
            old(ctx).wf(),
        ensures
            final(ctx).wf(),
            refund_error(*old(ctx), self.native_token_name@, *packet) matches Some(e) ==> r == Err::<(), Error>(e)
                && *final(ctx) == *old(ctx),
            refund_error(*old(ctx), self.native_token_name@, *packet) is None ==> r is Ok && refunded(
                *old(ctx),
                *final(ctx),
                self.native_token_name@,
                *packet,
            ) && final(ctx).store == old(ctx).store && final(ctx).sequences == old(ctx).sequences
                && final(ctx).assets == old(ctx).assets && final(ctx).router == old(ctx).router,
    {
        self.refund_packet_token(ctx, packet)
    }
}

} // verus!
