use ibc_host::assets::{AssetRegistry, GenesisConfig};
use ibc_host::context::{decimal_bytes, Context, Direction};
use ibc_host::error::Error;
use ibc_host::ledger::{Denom, Ledger};
use ibc_host::packet::{Acknowledgement, Height, Packet, TransferPacketData};
use ibc_host::router::{Router, SubstrateRouterBuilder};
use ibc_host::runtime::{AssetsCallbackHandle, IbcModule};
use ibc_host::table::ByteTable;
use ibc_host::transfer::{parse_amount, starts_with, TransferModule};

fn b(s: &str) -> Vec<u8> {
    s.as_bytes().to_vec()
}

fn ctx() -> Context {
    let mut builder = SubstrateRouterBuilder::new();
    IbcModule::add_module(&mut builder, b("DEMO"));
    Context::new(builder.build(), AssetRegistry::new(), 42, 7, b("ibc"))
}

#[test]
fn keys_follow_the_storage_layout() {
    let mut c = ctx();
    c.store_client_state(&b("07-tendermint-0"), b("cs"));
    c.store_consensus_state(&b("07-tendermint-0"), Height { revision_number: 1, revision_height: 25 }, b("x"));
    c.store_connection_end(&b("connection-0"), b("conn"));
    c.store_channel_end(&b("transfer"), &b("channel-0"), b("chan"));
    c.store_packet_commitment(&b("transfer"), &b("channel-0"), 12, b("h"));
    c.store_packet_receipt(&b("transfer"), &b("channel-0"), 12);
    c.store_packet_acknowledgement(&b("transfer"), &b("channel-0"), 12, b("a"));
    assert_eq!(c.store.get(&b("clientStates/07-tendermint-0")), Some(&b("cs")));
    assert_eq!(c.store.get(&b("consensusStates/07-tendermint-0/1-25")), Some(&b("x")));
    assert_eq!(c.store.get(&b("connections/connection-0")), Some(&b("conn")));
    assert_eq!(c.store.get(&b("channelEnds/transfer/channel-0")), Some(&b("chan")));
    assert_eq!(c.store.get(&b("commitments/transfer/channel-0/12")), Some(&b("h")));
    assert_eq!(c.store.get(&b("receipts/transfer/channel-0/12")), Some(&vec![1u8]));
    assert_eq!(c.store.get(&b("acks/transfer/channel-0/12")), Some(&b("a")));
    c.store_next_sequence(Direction::Recv, &b("transfer"), &b("channel-0"), 5);
    assert_eq!(c.sequences.get(&b("nextSequenceRecv/transfer/channel-0")), Some(&5u64));
    assert_eq!(c.connection_end(&b("connection-0")), Some(b("conn")));
    assert_eq!(c.channel_end(&b("transfer"), &b("channel-0")), Some(b("chan")));
    c.delete_packet_commitment(&b("transfer"), &b("channel-0"), 12);
    assert_eq!(c.packet_commitment(&b("transfer"), &b("channel-0"), 12), None);
    c.delete_packet_acknowledgement(&b("transfer"), &b("channel-0"), 12);
    assert_eq!(c.packet_acknowledgement(&b("transfer"), &b("channel-0"), 12), None);
}

#[test]
fn counters_default_to_zero_and_increase() {
    let mut c = ctx();
    assert_eq!(c.get_next_sequence(Direction::Ack, &b("transfer"), &b("channel-9")), 0);
    assert_eq!(c.increase_next_sequence(Direction::Ack, &b("transfer"), &b("channel-9")), Ok(0));
    assert_eq!(c.increase_next_sequence(Direction::Ack, &b("transfer"), &b("channel-9")), Ok(1));
    assert_eq!(c.get_next_sequence(Direction::Ack, &b("transfer"), &b("channel-9")), 2);
    assert_eq!(c.get_next_sequence(Direction::Send, &b("transfer"), &b("channel-9")), 0);
    c.store_next_sequence(Direction::Ack, &b("transfer"), &b("channel-9"), u64::MAX);
    assert_eq!(c.increase_next_sequence(Direction::Ack, &b("transfer"), &b("channel-9")), Err(Error::Overflow));
}

#[test]
fn ledger_moves_mints_and_burns() {
    let mut l = Ledger::new();
    let (a, z) = (b("a"), b("z"));
    assert_eq!(l.transfer(Denom::Native, &a, &z, 1), Err(Error::InsufficientFunds));
    l.mint(Denom::Native, &a, 10).unwrap();
    l.transfer(Denom::Native, &a, &z, 4).unwrap();
    assert_eq!((l.balance_of(Denom::Native, &a), l.balance_of(Denom::Native, &z)), (6, 4));
    l.transfer(Denom::Native, &a, &a, 6).unwrap();
    assert_eq!(l.balance_of(Denom::Native, &a), 6);
    assert_eq!(l.burn(Denom::Native, &a, 7), Err(Error::InsufficientFunds));
    l.burn(Denom::Native, &a, 6).unwrap();
    assert_eq!(l.balance_of(Denom::Native, &a), 0);
    l.mint(Denom::Asset(1), &z, u128::MAX).unwrap();
    assert_eq!(l.mint(Denom::Asset(1), &z, 1), Err(Error::Overflow));
    assert_eq!(l.balance_of(Denom::Asset(2), &z), 0);
    assert_eq!(l.balance_of(Denom::Native, &z), 4);
    l.mint(Denom::Native, &a, 1).unwrap();
    assert_eq!(l.transfer(Denom::Asset(1), &z, &a, 1), Ok(()));
    l.mint(Denom::Asset(1), &z, 1).unwrap();
    l.mint(Denom::Asset(1), &a, u128::MAX - 1).unwrap();
    assert_eq!(l.transfer(Denom::Asset(1), &z, &a, 2), Err(Error::Overflow));
}

#[test]
fn registry_refuses_duplicates_and_allocates_ids() {
    let mut r = AssetRegistry::new();
    assert_eq!(r.next_asset_id(), Some(1));
    r.register(b("atom"), 9).unwrap();
    assert_eq!(r.register(b("atom"), 10), Err(Error::DuplicateAsset));
    assert_eq!(r.register(b("osmo"), 9), Err(Error::DuplicateAsset));
    assert_eq!(r.next_asset_id(), Some(10));
    assert_eq!(r.try_get_asset_id(&b("osmo")), Err(Error::InvalidTokenId));
    r.register(b("max"), u32::MAX).unwrap();
    assert_eq!(r.next_asset_id(), None);
    assert_eq!(r.try_get_asset_name(9), Ok(b("atom")));
    assert!(GenesisConfig::default().build().is_ok());
}

#[test]
fn amounts_parse_as_decimal() {
    assert_eq!(parse_amount(&b("0")), Some(0));
    assert_eq!(parse_amount(&b("340282366920938463463374607431768211455")), Some(u128::MAX));
    assert_eq!(parse_amount(&b("340282366920938463463374607431768211456")), None);
    assert_eq!(parse_amount(&b("")), None);
    assert_eq!(parse_amount(&b("-1")), None);
    assert_eq!(decimal_bytes(0), b("0"));
    assert_eq!(decimal_bytes(1907), b("1907"));
    assert!(starts_with(&b("transfer/channel-0/atom"), &b("transfer/channel-0/")));
    assert!(!starts_with(&b("transfer/chan"), &b("transfer/channel-0/")));
}

#[test]
fn refund_of_malformed_amount_is_invalid_decode() {
    let mut c = ctx();
    let module = TransferModule { native_token_name: b("DEMO") };
    let p = Packet {
        sequence: 1,
        source_port: b("transfer"),
        source_channel: b("channel-0"),
        destination_port: b("transfer"),
        destination_channel: b("channel-1"),
        data: TransferPacketData { denom: b("DEMO"), amount: b("ten"), sender: b("s"), receiver: b("r") },
        timeout_height: Height { revision_number: 0, revision_height: 1 },
        timeout_timestamp: 0,
    };
    assert_eq!(module.on_timeout_packet(&mut c, &p), Err(Error::InvalidDecode));
    assert_eq!(module.on_acknowledge_packet(&mut c, &p, &Acknowledgement::Success), Ok(()));
    assert_eq!(
        module.on_acknowledge_packet(&mut c, &p, &Acknowledgement::Error(b("e"))),
        Err(Error::InvalidDecode)
    );
}

#[test]
fn encodings_are_exact() {
    let d = TransferPacketData { denom: b("atom"), amount: b("5"), sender: b("s"), receiver: b("r") };
    assert_eq!(
        String::from_utf8(d.to_bytes()).unwrap(),
        "{\"amount\":\"5\",\"denom\":\"atom\",\"receiver\":\"r\",\"sender\":\"s\"}"
    );
    assert_eq!(Acknowledgement::Success.to_bytes(), b("{\"result\":\"AQ==\"}"));
    assert_eq!(Acknowledgement::Error(b("no")).to_bytes(), b("{\"error\":\"no\"}"));
}

#[test]
fn asset_hooks_leave_markers() {
    let mut c = ctx();
    assert_eq!(AssetsCallbackHandle::created(&mut c, 1, &b("owner")), Ok(()));
    assert_eq!(AssetsCallbackHandle::destroyed(&mut c, 1), Ok(()));
    assert_eq!(c.store.get(&b("asset_created")), Some(&Vec::new()));
    assert_eq!(c.store.get(&b("asset_destroyed")), Some(&Vec::new()));
}

#[test]
fn context_exposes_router_and_host_facts() {
    let mut c = ctx();
    assert_eq!(c.host_height(), 42);
    assert!(c.router().has_route(&b("transfer")));
    *c.router_mut() = Router::new();
    assert!(!c.router().has_route(&b("transfer")));
}

#[test]
fn table_insert_replace_remove() {
    let mut t: ByteTable<u64> = ByteTable::new();
    t.insert(b("k"), 1);
    t.insert(b("k"), 2);
    t.insert(b("j"), 3);
    assert_eq!(t.get(&b("k")), Some(&2));
    t.remove(&b("k"));
    assert!(!t.contains(&b("k")));
    assert_eq!(t.get(&b("j")), Some(&3));
}

#[test]
fn context_exposes_time_and_prefix() {
    let c = ctx();
    assert_eq!(c.host_timestamp(), 7);
    assert_eq!(c.commitment_prefix(), b("ibc"));
}
