//! The bit-packed quality-of-service and query-settings bytes: packing
//! then unpacking restores every field, and the byte layouts are exact.

use zenoh_plugin_remote_api::qos::{
    CongestionControl, Locality, Priority, Qos, QuerySettings, QueryTarget, Reliability,
    ReplyKeyExpr, ConsolidationMode,
};

#[test]
fn qos_packs_the_documented_layout() {
    // llrecppp: priority 5, congestion Block (bit 3), express (bit 4),
    // reliable (bit 5), locality Remote (bits 6-7 = 01).
    let q = Qos::new(
        Priority::Data,
        CongestionControl::Block,
        true,
        Reliability::Reliable,
        Locality::Remote,
    );
    assert_eq!(q.to_byte(), 5 | (1 << 3) | (1 << 4) | (1 << 5) | (1 << 6));
}

#[test]
fn qos_roundtrips_every_field() {
    let priorities = [
        Priority::RealTime,
        Priority::InteractiveHigh,
        Priority::InteractiveLow,
        Priority::DataHigh,
        Priority::Data,
        Priority::DataLow,
        Priority::Background,
    ];
    let localities = [Locality::SessionLocal, Locality::Remote, Locality::Any];
    for p in priorities {
        for l in localities {
            for e in [false, true] {
                let q = Qos::new(p, CongestionControl::Drop, e, Reliability::BestEffort, l);
                assert_eq!(q.priority(), p);
                assert_eq!(q.congestion_control(), CongestionControl::Drop);
                assert_eq!(q.express(), e);
                assert_eq!(q.reliability(), Reliability::BestEffort);
                assert_eq!(q.locality(), l);
            }
        }
    }
    let q = Qos::new(
        Priority::Background,
        CongestionControl::Block,
        false,
        Reliability::Reliable,
        Locality::SessionLocal,
    );
    assert_eq!(q.priority(), Priority::Background);
    assert_eq!(q.congestion_control(), CongestionControl::Block);
    assert_eq!(q.reliability(), Reliability::Reliable);
}

#[test]
fn qos_reserved_and_invalid_bits_fall_back() {
    // Locality bits 6-7 == 3 is reserved and reads as Any; priority 0 is
    // out of range and reads as the default Data.
    let q = Qos::from_byte(0b1100_0000);
    assert_eq!(q.locality(), Locality::Any);
    assert_eq!(q.priority(), Priority::Data);
}

#[test]
fn qos_default_is_best_effort_data() {
    let q = Qos::default();
    assert_eq!(q.priority(), Priority::Data);
    assert_eq!(q.congestion_control(), CongestionControl::Drop);
    assert!(!q.express());
    assert_eq!(q.reliability(), Reliability::BestEffort);
    assert_eq!(q.locality(), Locality::Any);
}

#[test]
fn query_settings_pack_the_documented_layout() {
    // rcctt: target AllComplete (1), consolidation Latest (3 << 2),
    // reply accepted only from matching queries (1 << 4).
    let s = QuerySettings::new(
        QueryTarget::AllComplete,
        ConsolidationMode::Latest,
        ReplyKeyExpr::MatchingQuery,
    );
    assert_eq!(s.to_byte(), 1 | (3 << 2) | (1 << 4));
}

#[test]
fn query_settings_roundtrip_every_field() {
    let targets = [
        QueryTarget::All,
        QueryTarget::AllComplete,
        QueryTarget::BestMatching,
    ];
    let modes = [
        ConsolidationMode::Auto,
        ConsolidationMode::NoConsolidation,
        ConsolidationMode::Monotonic,
        ConsolidationMode::Latest,
    ];
    for t in targets {
        for c in modes {
            for r in [ReplyKeyExpr::Any, ReplyKeyExpr::MatchingQuery] {
                let s = QuerySettings::new(t, c, r);
                assert_eq!(s.target(), t);
                assert_eq!(s.consolidation(), c);
                assert_eq!(s.reply_keyexpr(), r);
            }
        }
    }
}

#[test]
fn query_settings_reserved_target_falls_back() {
    let s = QuerySettings::from_byte(0b11);
    assert_eq!(s.target(), QueryTarget::BestMatching);
}
