use suricata_stun::applayer::{
    AppLayerResult, AppLayerTxData, StreamSlice, ALPROTO_UNKNOWN, APP_LAYER_TX_SKIP_INSPECT_FLAG,
    IPPROTO_TCP, IPPROTO_UDP,
};
use suricata_stun::direction::Direction;
use suricata_stun::stun::is_stun_header;
use suricata_stun::stun::stun::{
    build_parser, register_parser_plan, stun_parse_common, stun_parse_tc, stun_parse_ts,
    stun_probe, stun_state_get_tx_count, stun_tx_get_alstate_progress, StunState,
    StunTransaction, STUN_DEFAULT_PORTS,
};

fn header() -> Vec<u8> {
    vec![
        0x01, 0x01, 0x00, 0x0c, 0x21, 0x12, 0xA4, 0x42, 0x10, 0x20, 0x30, 0x40, 0x50, 0x60, 0x70,
        0x80, 0x90, 0xa0, 0xb0, 0xc0,
    ]
}

fn data(len: u32) -> StreamSlice {
    StreamSlice { input_len: len, gap: false }
}

fn gap(len: u32) -> StreamSlice {
    StreamSlice { input_len: len, gap: true }
}

#[test]
fn probe_accepts_header() {
    assert_eq!(stun_probe(Some(&header()), 9), 9);
}

#[test]
fn probe_rejects() {
    assert_eq!(stun_probe(None, 9), ALPROTO_UNKNOWN);
    assert_eq!(stun_probe(Some(&header()[..19]), 9), ALPROTO_UNKNOWN);
    let mut h = header();
    h[0] = 0x81;
    assert_eq!(stun_probe(Some(&h), 9), ALPROTO_UNKNOWN);
    let mut h = header();
    h[7] = 0x43;
    assert_eq!(stun_probe(Some(&h), 9), ALPROTO_UNKNOWN);
}

#[test]
fn probes_agree_law() {
    let mut seed: u32 = 12345;
    for n in 0..400u32 {
        seed = seed.wrapping_mul(1103515245).wrapping_add(12345);
        let len = (seed >> 16) as usize % 28;
        let mut buf: Vec<u8> = Vec::new();
        for k in 0..len {
            seed = seed.wrapping_mul(1103515245).wrapping_add(12345);
            buf.push((seed >> 24) as u8);
            if n % 2 == 0 && (4..8).contains(&k) {
                buf[k] = [0x21, 0x12, 0xA4, 0x42][k - 4];
            }
        }
        let expected = if is_stun_header(&buf) { 5 } else { ALPROTO_UNKNOWN };
        assert_eq!(stun_probe(Some(&buf), 5), expected);
        assert_eq!(suricata_stun::stun::stun_probing_parser(Some(&buf), 5), expected);
    }
}

#[test]
fn transaction_new() {
    let tx = StunTransaction::new(7, Direction::ToServer);
    assert_eq!(tx.id(), 7);
    assert_eq!(*tx.tx_data(), AppLayerTxData::for_direction(Direction::ToServer));
}

#[test]
fn alloc_tx_appends_next_id() {
    let mut s = StunState::new();
    let tx = s.alloc_tx(Direction::ToClient);
    assert_eq!(tx.id(), 1);
    let tx = s.alloc_tx(Direction::ToServer);
    assert_eq!(tx.id(), 2);
    assert_eq!(s.get_transaction_count(), 2);
    assert_eq!(s.get_transaction_by_index(1).unwrap().id(), 2);
}

#[test]
fn ensure_tx_reuses_newest() {
    let mut s = StunState::new();
    assert_eq!(s.ensure_tx(Direction::ToServer).id(), 1);
    assert_eq!(s.ensure_tx(Direction::ToClient).id(), 1);
    assert_eq!(s.get_transaction_count(), 1);
    s.alloc_tx(Direction::ToClient);
    assert_eq!(s.ensure_tx(Direction::ToServer).id(), 2);
    assert_eq!(s.get_transaction_count(), 2);
}

#[test]
fn get_tx_is_zero_based() {
    let mut s = StunState::new();
    s.alloc_tx(Direction::ToServer);
    s.alloc_tx(Direction::ToServer);
    assert_eq!(s.get_tx(0).unwrap().id(), 1);
    assert_eq!(s.get_tx(1).unwrap().id(), 2);
    assert!(s.get_tx(2).is_none());
}

#[test]
fn free_tx_then_lookup_finds_nothing() {
    let mut s = StunState::new();
    s.alloc_tx(Direction::ToServer);
    s.alloc_tx(Direction::ToServer);
    s.free_tx(0);
    assert!(s.get_tx(0).is_none());
    assert_eq!(s.get_transaction_count(), 1);
    assert_eq!(s.get_tx(1).unwrap().id(), 2);
    s.free_tx(9);
    assert_eq!(s.get_transaction_count(), 1);
}

#[test]
fn freed_ids_are_not_handed_out_again() {
    let mut s = StunState::default();
    s.alloc_tx(Direction::ToServer);
    s.free_tx(0);
    assert_eq!(s.alloc_tx(Direction::ToServer).id(), 2);
}

#[test]
fn one_transaction_for_both_directions() {
    let mut s = StunState::new();
    assert_eq!(stun_parse_ts(&mut s, &data(20)), AppLayerResult::ok());
    assert_eq!(stun_parse_tc(&mut s, &data(40)), AppLayerResult::ok());
    assert_eq!(stun_parse_ts(&mut s, &data(20)), AppLayerResult::ok());
    assert_eq!(stun_state_get_tx_count(&s), 1);
    let tx = s.get_tx(0).unwrap();
    assert_eq!(tx.id(), 1);
    assert!(tx.tx_data().updated_ts && tx.tx_data().updated_tc);
    assert_eq!(tx.tx_data().detect_flags_tc, APP_LAYER_TX_SKIP_INSPECT_FLAG);
}

#[test]
fn gap_and_empty_chunks_change_nothing() {
    let mut s = StunState::new();
    assert_eq!(stun_parse_common(&mut s, &gap(100), Direction::ToServer), AppLayerResult::ok());
    assert_eq!(stun_parse_common(&mut s, &data(0), Direction::ToClient), AppLayerResult::ok());
    assert_eq!(s.get_transaction_count(), 0);
}

#[test]
fn parse_marks_direction_updated_law() {
    let mut s = StunState::new();
    stun_parse_ts(&mut s, &data(20));
    {
        let d = s.get_tx(0).unwrap().tx_data_mut();
        d.updated_ts = false;
        d.updated_tc = false;
    }
    stun_parse_tc(&mut s, &data(4));
    let tx = s.get_tx(0).unwrap();
    assert_eq!(tx.id(), 1);
    assert!(tx.tx_data().updated_tc);
    assert!(!tx.tx_data().updated_ts);
    stun_parse_ts(&mut s, &gap(4));
    assert!(!s.get_tx(0).unwrap().tx_data().updated_ts);
    stun_parse_ts(&mut s, &data(4));
    assert!(s.get_tx(0).unwrap().tx_data().updated_ts);
    assert_eq!(s.get_transaction_count(), 1);
}

#[test]
fn mark_updated_sets_one_flag() {
    let mut d = AppLayerTxData { updated_ts: false, updated_tc: false, detect_flags_ts: 3, detect_flags_tc: 4 };
    d.mark_updated(Direction::ToClient);
    assert_eq!(d, AppLayerTxData { updated_ts: false, updated_tc: true, detect_flags_ts: 3, detect_flags_tc: 4 });
    d.mark_updated(Direction::ToServer);
    assert!(d.updated_ts && d.updated_tc);
}

#[test]
fn slice_predicates() {
    assert!(gap(3).is_gap());
    assert!(!data(3).is_gap());
    assert!(data(0).is_empty());
    assert!(!data(1).is_empty());
}

#[test]
fn tx_progress_is_complete() {
    let tx = StunTransaction::new(1, Direction::ToClient);
    assert_eq!(stun_tx_get_alstate_progress(&tx, 0), 1);
}

#[test]
fn build_parser_for_tcp() {
    let p = build_parser(STUN_DEFAULT_PORTS, IPPROTO_TCP);
    assert_eq!(p.name, "stun");
    assert_eq!(p.default_port, "[3478, 3479]");
    assert_eq!(p.ipproto, 6);
    assert_eq!((p.min_depth, p.max_depth), (20, 256));
    assert_eq!((p.tx_comp_st_ts, p.tx_comp_st_tc, p.flags), (1, 1, 0));
    assert_eq!(build_parser("1", IPPROTO_UDP).ipproto, 17);
}

#[test]
fn register_plan() {
    let off = register_parser_plan(false, true);
    assert!(!off.register_detection && !off.register_parser && !off.register_logger);
    let detect_only = register_parser_plan(true, false);
    assert!(detect_only.register_detection && !detect_only.register_parser);
    let all = register_parser_plan(true, true);
    assert!(all.register_detection && all.register_parser && !all.register_logger);
}
