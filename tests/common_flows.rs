use ibc_host::assets::{AssetRegistry, GenesisConfig};
use ibc_host::context::{Context, Direction};
use ibc_host::error::Error;
use ibc_host::escrow::get_channel_escrow_address;
use ibc_host::handler::{acknowledge_packet, deliver, dispatch, recv_packet, timeout_packet, IbcMessage, Outcome};
use ibc_host::ledger::Denom;
use ibc_host::packet::{Acknowledgement, Height, Packet, TransferPacketData};
use ibc_host::router::SubstrateRouterBuilder;
use ibc_host::runtime::IbcModule;
use ibc_host::transfer::TransferModule;

const SENDER: &[u8] = b"alice";
const RECEIVER: &[u8] = b"bob";

fn b(s: &str) -> Vec<u8> {
    s.as_bytes().to_vec()
}

fn setup_with(assets: AssetRegistry) -> Context {
    let mut builder = SubstrateRouterBuilder::new();
    IbcModule::add_module(&mut builder, b("DEMO"));
    Context::new(builder.build(), assets, 10, 1000, b("ibc"))
}

fn setup() -> Context {
    setup_with(AssetRegistry::new())
}

fn transfer_msg(denom: &str, amount: u128) -> IbcMessage {
    IbcMessage::Transfer {
        source_port: b("transfer"),
        source_channel: b("channel-0"),
        destination_port: b("transfer"),
        destination_channel: b("channel-5"),
        denom: b(denom),
        amount,
        sender: SENDER.to_vec(),
        receiver: RECEIVER.to_vec(),
        timeout_height: Height { revision_number: 0, revision_height: 100 },
        timeout_timestamp: 0,
    }
}

fn incoming(seq: u64, denom: &str, amount: &str) -> Packet {
    Packet {
        sequence: seq,
        source_port: b("transfer"),
        source_channel: b("channel-3"),
        destination_port: b("transfer"),
        destination_channel: b("channel-0"),
        data: TransferPacketData {
            denom: b(denom),
            amount: b(amount),
            sender: b("carol"),
            receiver: RECEIVER.to_vec(),
        },
        timeout_height: Height { revision_number: 0, revision_height: 100 },
        timeout_timestamp: 0,
    }
}

fn send_native(ctx: &mut Context, amount: u128) -> Result<Packet, Error> {
    match dispatch(ctx, &transfer_msg("DEMO", amount)) {
        Ok(Outcome::Sent(p)) => Ok(p),
        Ok(_) => panic!("a transfer yields a packet"),
        Err(e) => Err(e),
    }
}

fn escrow0() -> Vec<u8> {
    get_channel_escrow_address(&b("transfer"), &b("channel-0"))
}

#[test]
fn escrow_address_is_the_upper_hex_digest() {
    let a = escrow0();
    assert_eq!(
        String::from_utf8(a.clone()).unwrap(),
        "0xED23C6F4443F49C4B08F856350A5D2C65A20323533F2ABE47AA1880680965FA0"
    );
    assert_eq!(a, escrow0());
    assert_ne!(a, get_channel_escrow_address(&b("transfer"), &b("channel-1")));
}

#[test]
fn send_native_escrows_and_commits() {
    let mut ctx = setup();
    ctx.ledger.mint(Denom::Native, &SENDER.to_vec(), 1000).unwrap();
    ctx.store_next_sequence(Direction::Send, &b("transfer"), &b("channel-0"), 1);
    let p = send_native(&mut ctx, 100).unwrap();
    assert_eq!(p.sequence, 1);
    assert_eq!(p.data.amount, b("100"));
    assert_eq!(ctx.ledger.balance_of(Denom::Native, &SENDER.to_vec()), 900);
    assert_eq!(ctx.ledger.balance_of(Denom::Native, &escrow0()), 100);
    let stored = ctx.packet_commitment(&b("transfer"), &b("channel-0"), 1).unwrap();
    assert_eq!(stored, p.commitment());
    assert_eq!(stored.len(), 32);
    assert_eq!(ctx.get_next_sequence(Direction::Send, &b("transfer"), &b("channel-0")), 2);
}

#[test]
fn sequences_advance_by_one_per_sent_packet() {
    let mut ctx = setup();
    ctx.ledger.mint(Denom::Native, &SENDER.to_vec(), 1000).unwrap();
    ctx.store_next_sequence(Direction::Send, &b("transfer"), &b("channel-0"), 1);
    let p1 = send_native(&mut ctx, 10).unwrap();
    let p2 = send_native(&mut ctx, 10).unwrap();
    assert_eq!((p1.sequence, p2.sequence), (1, 2));
    assert_eq!(ctx.get_next_sequence(Direction::Send, &b("transfer"), &b("channel-0")), 3);
    assert_eq!(send_native(&mut ctx, 5000).unwrap_err(), Error::InsufficientFunds);
    assert_eq!(ctx.get_next_sequence(Direction::Send, &b("transfer"), &b("channel-0")), 3);
    assert!(ctx.packet_commitment(&b("transfer"), &b("channel-0"), 3).is_none());
}

#[test]
fn counter_at_its_largest_value_is_refused() {
    let mut ctx = setup();
    ctx.ledger.mint(Denom::Native, &SENDER.to_vec(), 1000).unwrap();
    ctx.store_next_sequence(Direction::Send, &b("transfer"), &b("channel-0"), u64::MAX);
    assert_eq!(send_native(&mut ctx, 10).unwrap_err(), Error::Overflow);
    assert_eq!(ctx.ledger.balance_of(Denom::Native, &SENDER.to_vec()), 1000);
}

#[test]
fn receive_foreign_registers_and_mints() {
    let mut ctx = setup();
    let p = incoming(4, "transfer/channel-7/atom", "100");
    let ack = recv_packet(&mut ctx, &p).unwrap().unwrap();
    assert!(ack.is_success());
    let voucher = b("transfer/channel-0/transfer/channel-7/atom");
    let id = ctx.assets.try_get_asset_id(&voucher).unwrap();
    assert_eq!(id, 1);
    assert_eq!(ctx.assets.try_get_asset_name(id).unwrap(), voucher);
    assert_eq!(ctx.ledger.balance_of(Denom::Asset(id), &RECEIVER.to_vec()), 100);
    assert!(ctx.has_packet_receipt(&b("transfer"), &b("channel-0"), 4));
    let hash = ctx.packet_acknowledgement(&b("transfer"), &b("channel-0"), 4).unwrap();
    let hex: String = hash.iter().map(|x| format!("{:02x}", x)).collect();
    assert_eq!(hex, "08f7557ed51826fe18d84512bf24ec75001edbaf2123a477df72a0a9f3640a7c");
}

#[test]
fn replayed_packet_has_no_effect() {
    let mut ctx = setup();
    let p = incoming(4, "transfer/channel-7/atom", "100");
    assert!(recv_packet(&mut ctx, &p).unwrap().is_some());
    let again = recv_packet(&mut ctx, &p).unwrap();
    assert!(again.is_none());
    let id = ctx.assets.try_get_asset_id(&b("transfer/channel-0/transfer/channel-7/atom")).unwrap();
    assert_eq!(ctx.ledger.balance_of(Denom::Asset(id), &RECEIVER.to_vec()), 100);
}

#[test]
fn malformed_amount_gives_failure_ack_and_receipt() {
    let mut ctx = setup();
    let p = incoming(2, "transfer/channel-7/atom", "12x");
    let ack = recv_packet(&mut ctx, &p).unwrap().unwrap();
    assert!(!ack.is_success());
    assert!(ctx.has_packet_receipt(&b("transfer"), &b("channel-0"), 2));
    assert_eq!(
        ctx.assets.try_get_asset_id(&b("transfer/channel-0/transfer/channel-7/atom")),
        Err(Error::InvalidTokenId)
    );
}

#[test]
fn returning_native_token_is_unescrowed() {
    let mut ctx = setup();
    ctx.ledger.mint(Denom::Native, &escrow0(), 500).unwrap();
    let mut p = incoming(1, "transfer/channel-3/DEMO", "200");
    p.source_channel = b("channel-3");
    let ack = recv_packet(&mut ctx, &p).unwrap().unwrap();
    assert!(ack.is_success());
    assert_eq!(ctx.ledger.balance_of(Denom::Native, &RECEIVER.to_vec()), 200);
    assert_eq!(ctx.ledger.balance_of(Denom::Native, &escrow0()), 300);
}

#[test]
fn returning_token_beyond_escrow_fails() {
    let mut ctx = setup();
    ctx.ledger.mint(Denom::Native, &escrow0(), 50).unwrap();
    let p = incoming(1, "transfer/channel-3/DEMO", "200");
    let ack = recv_packet(&mut ctx, &p).unwrap().unwrap();
    assert!(!ack.is_success());
    assert_eq!(ctx.ledger.balance_of(Denom::Native, &escrow0()), 50);
    assert_eq!(ctx.ledger.balance_of(Denom::Native, &RECEIVER.to_vec()), 0);
}

#[test]
fn failure_ack_refunds_sender() {
    let mut ctx = setup();
    ctx.ledger.mint(Denom::Native, &SENDER.to_vec(), 1000).unwrap();
    ctx.store_next_sequence(Direction::Send, &b("transfer"), &b("channel-0"), 1);
    let p = send_native(&mut ctx, 100).unwrap();
    let ack = Acknowledgement::Error(b("failed"));
    acknowledge_packet(&mut ctx, &p, &ack).unwrap();
    assert_eq!(ctx.ledger.balance_of(Denom::Native, &SENDER.to_vec()), 1000);
    assert_eq!(ctx.ledger.balance_of(Denom::Native, &escrow0()), 0);
    assert!(ctx.packet_commitment(&b("transfer"), &b("channel-0"), 1).is_none());
    assert_eq!(acknowledge_packet(&mut ctx, &p, &ack), Err(Error::CommitmentNotFound));
}

#[test]
fn success_ack_clears_commitment_only() {
    let mut ctx = setup();
    ctx.ledger.mint(Denom::Native, &SENDER.to_vec(), 1000).unwrap();
    ctx.store_next_sequence(Direction::Send, &b("transfer"), &b("channel-0"), 1);
    let p = send_native(&mut ctx, 100).unwrap();
    acknowledge_packet(&mut ctx, &p, &Acknowledgement::Success).unwrap();
    assert_eq!(ctx.ledger.balance_of(Denom::Native, &SENDER.to_vec()), 900);
    assert_eq!(ctx.ledger.balance_of(Denom::Native, &escrow0()), 100);
    assert!(ctx.packet_commitment(&b("transfer"), &b("channel-0"), 1).is_none());
}

#[test]
fn timeout_refunds_burnt_voucher() {
    let mut reg = AssetRegistry::new();
    reg.register(b("transfer/channel-0/atom"), 7).unwrap();
    let mut ctx = setup_with(reg);
    ctx.ledger.mint(Denom::Asset(7), &SENDER.to_vec(), 60).unwrap();
    let p = match dispatch(&mut ctx, &transfer_msg("transfer/channel-0/atom", 25)).unwrap() {
        Outcome::Sent(p) => p,
        _ => panic!("a transfer yields a packet"),
    };
    assert_eq!(ctx.ledger.balance_of(Denom::Asset(7), &SENDER.to_vec()), 35);
    timeout_packet(&mut ctx, &p).unwrap();
    assert_eq!(ctx.ledger.balance_of(Denom::Asset(7), &SENDER.to_vec()), 60);
}

#[test]
fn tampered_packet_commitment_mismatch() {
    let mut ctx = setup();
    ctx.ledger.mint(Denom::Native, &SENDER.to_vec(), 1000).unwrap();
    let mut p = send_native(&mut ctx, 100).unwrap();
    p.data.amount = b("900");
    assert_eq!(timeout_packet(&mut ctx, &p), Err(Error::CommitmentMismatch));
    assert_eq!(ctx.ledger.balance_of(Denom::Native, &SENDER.to_vec()), 900);
}

#[test]
fn unknown_asset_send_is_invalid_token() {
    let mut ctx = setup();
    let r = dispatch(&mut ctx, &transfer_msg("nothing", 1));
    assert!(matches!(r, Err(Error::InvalidTokenId)));
}

#[test]
fn unknown_port_has_no_route() {
    let mut ctx = setup();
    let mut p = incoming(1, "x", "1");
    p.destination_port = b("oracle");
    assert!(matches!(recv_packet(&mut ctx, &p), Err(Error::RouteNotFound)));
}

#[test]
fn duplicate_module_id_keeps_first() {
    let mut builder = SubstrateRouterBuilder::new();
    assert_eq!(builder.add_route(b("transfer"), 1u32), Ok(()));
    assert_eq!(builder.add_route(b("transfer"), 2u32), Err(Error::DuplicateModuleId));
    let router = builder.build();
    assert!(router.has_route(&b("transfer")));
    assert_eq!(router.get_route(&b("transfer")), Some(&1u32));
    assert!(!router.has_route(&b("transfe")));
    assert_eq!(router.get_route(&b("oracle")), None);
}

#[test]
fn add_module_registers_transfer() {
    let mut builder = SubstrateRouterBuilder::new();
    IbcModule::add_module(&mut builder, b("DEMO"));
    assert_eq!(builder.add_route(b("transfer"), TransferModule { native_token_name: b("OTHER") }), Err(Error::DuplicateModuleId));
    let router = builder.build();
    assert_eq!(router.get_route(&b("transfer")).unwrap().native_token_name, b("DEMO"));
}

#[test]
fn receive_and_ack_counters_advance() {
    let mut ctx = setup();
    let p = incoming(4, "transfer/channel-7/atom", "100");
    recv_packet(&mut ctx, &p).unwrap();
    assert_eq!(ctx.get_next_sequence(Direction::Recv, &b("transfer"), &b("channel-0")), 1);
    recv_packet(&mut ctx, &p).unwrap();
    assert_eq!(ctx.get_next_sequence(Direction::Recv, &b("transfer"), &b("channel-0")), 1);
    let event = ctx.store.get(&b("writeAckEvents/transfer/channel-0/4")).unwrap().clone();
    assert_eq!(event, b("{\"result\":\"AQ==\"}"));
    ctx.ledger.mint(Denom::Native, &SENDER.to_vec(), 1000).unwrap();
    let sent = send_native(&mut ctx, 100).unwrap();
    acknowledge_packet(&mut ctx, &sent, &Acknowledgement::Success).unwrap();
    assert_eq!(ctx.get_next_sequence(Direction::Ack, &b("transfer"), &b("channel-0")), 1);
}

#[test]
fn receive_counter_exhausted_is_refused() {
    let mut ctx = setup();
    ctx.store_next_sequence(Direction::Recv, &b("transfer"), &b("channel-0"), u64::MAX);
    let p = incoming(4, "transfer/channel-7/atom", "100");
    assert!(matches!(recv_packet(&mut ctx, &p), Err(Error::Overflow)));
    assert!(!ctx.has_packet_receipt(&b("transfer"), &b("channel-0"), 4));
}

#[test]
fn batch_replay_leaves_balances() {
    let mut ctx = setup();
    let p = incoming(4, "transfer/channel-7/atom", "100");
    let q = incoming(4, "transfer/channel-7/atom", "100");
    let results = deliver(&mut ctx, &vec![IbcMessage::RecvPacket(p), IbcMessage::RecvPacket(q)]);
    assert!(matches!(results[0], Ok(Outcome::Received(Some(_)))));
    assert!(matches!(results[1], Ok(Outcome::Received(None))));
    let id = ctx.assets.try_get_asset_id(&b("transfer/channel-0/transfer/channel-7/atom")).unwrap();
    assert_eq!(ctx.ledger.balance_of(Denom::Asset(id), &RECEIVER.to_vec()), 100);
}

#[test]
fn batch_continues_past_malformed_message() {
    let mut ctx = setup();
    ctx.ledger.mint(Denom::Native, &SENDER.to_vec(), 1000).unwrap();
    ctx.store_next_sequence(Direction::Send, &b("transfer"), &b("channel-0"), 1);
    let bogus = incoming(9, "DEMO", "5");
    let msgs = vec![
        transfer_msg("DEMO", 100),
        IbcMessage::AcknowledgePacket(bogus, Acknowledgement::Error(b("x"))),
        IbcMessage::RecvPacket(incoming(4, "transfer/channel-7/atom", "100")),
    ];
    let results = deliver(&mut ctx, &msgs);
    assert_eq!(results.len(), 3);
    assert!(matches!(results[0], Ok(Outcome::Sent(_))));
    assert!(matches!(results[1], Err(Error::CommitmentNotFound)));
    assert!(matches!(results[2], Ok(Outcome::Received(Some(_)))));
    assert_eq!(ctx.ledger.balance_of(Denom::Native, &SENDER.to_vec()), 900);
    assert_eq!(ctx.ledger.balance_of(Denom::Native, &escrow0()), 100);
    let id = ctx.assets.try_get_asset_id(&b("transfer/channel-0/transfer/channel-7/atom")).unwrap();
    assert_eq!(ctx.ledger.balance_of(Denom::Asset(id), &RECEIVER.to_vec()), 100);
    assert_eq!(ctx.get_next_sequence(Direction::Send, &b("transfer"), &b("channel-0")), 2);
}

#[test]
fn genesis_pairs_round_trip() {
    let g = GenesisConfig { asset_id_by_name: vec![(b("atom"), 3), (b("osmo"), 4)] };
    let reg = g.build().unwrap();
    for (name, id) in [(b("atom"), 3u32), (b("osmo"), 4u32)] {
        assert_eq!(reg.try_get_asset_id(&name), Ok(id));
        assert_eq!(reg.try_get_asset_name(reg.try_get_asset_id(&name).unwrap()).unwrap(), name);
    }
    assert_eq!(reg.try_get_asset_name(5), Err(Error::WrongAssetId));
    assert_eq!(reg.next_asset_id(), Some(5));
}

#[test]
fn genesis_duplicates_are_refused() {
    let g = GenesisConfig { asset_id_by_name: vec![(b("atom"), 3), (b("osmo"), 3)] };
    assert!(matches!(g.build(), Err(Error::DuplicateAsset)));
    let g = GenesisConfig { asset_id_by_name: vec![(b("atom"), 3), (b("atom"), 4)] };
    assert!(matches!(g.build(), Err(Error::DuplicateAsset)));
}

#[test]
fn client_state_absent_is_not_found() {
    let mut ctx = setup();
    assert_eq!(ctx.client_state(&b("10-grandpa-0")), Err(Error::ClientIdNotFound));
    ctx.store_client_state(&b("10-grandpa-0"), b("state"));
    assert_eq!(ctx.client_state(&b("10-grandpa-0")), Ok(b("state")));
    let h = Height { revision_number: 0, revision_height: 12 };
    assert_eq!(ctx.consensus_state(&b("10-grandpa-0"), h), None);
    ctx.store_consensus_state(&b("10-grandpa-0"), h, b("cs"));
    assert_eq!(ctx.consensus_state(&b("10-grandpa-0"), h), Some(b("cs")));
}
