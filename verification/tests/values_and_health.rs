use fhe_admission::health::{
    HealthCheck, Tick, Version, CONNECTED_TICK_FRESHNESS, IS_ALIVE_TICK_FRESHNESS,
};
use fhe_admission::value::{EncryptedObject, SupportedFheCiphertexts};

fn uint64_ct(device: u64, size: u64) -> SupportedFheCiphertexts {
    SupportedFheCiphertexts::FheUint64(EncryptedObject {
        value: vec![1, 2, 3, 4],
        device,
        size_on_device: size,
    })
}

fn logical_bytes(v: &SupportedFheCiphertexts) -> Vec<u8> {
    match v {
        SupportedFheCiphertexts::FheUint64(o) => o.value.clone(),
        SupportedFheCiphertexts::Scalar(b) => b.clone(),
        _ => panic!("unexpected variant in this test"),
    }
}

#[test]
fn relocating_twice_equals_relocating_once() {
    let mut v = uint64_ct(0, 42);
    let before = logical_bytes(&v);
    v.move_to_current_device(3);
    let footprint_once = v.get_size_on_gpu();
    let bytes_once = logical_bytes(&v);
    v.move_to_current_device(3);
    assert_eq!(v.get_size_on_gpu(), footprint_once);
    assert_eq!(logical_bytes(&v), bytes_once);
    assert_eq!(logical_bytes(&v), before);
    match &v {
        SupportedFheCiphertexts::FheUint64(o) => assert_eq!(o.device, 3),
        _ => panic!("relocation must not change the variant"),
    }
}

#[test]
fn relocation_is_a_no_op_for_scalars() {
    let mut v = SupportedFheCiphertexts::Scalar(vec![9, 8, 7]);
    v.move_to_current_device(5);
    assert_eq!(logical_bytes(&v), vec![9, 8, 7]);
    assert_eq!(v.get_size_on_gpu(), 3);
}

#[test]
fn footprint_reads_the_device_resident_size() {
    let v = uint64_ct(0, 4096);
    assert_eq!(v.get_size_on_gpu(), 4096);
}

#[test]
fn scalar_footprint_is_its_byte_length() {
    let v = SupportedFheCiphertexts::Scalar(vec![0; 17]);
    assert_eq!(v.get_size_on_gpu(), 17);
}

#[test]
fn kind_distinguishes_scalars_from_ciphertexts() {
    assert!(uint64_ct(0, 1).kind().is_some());
    assert!(SupportedFheCiphertexts::Scalar(vec![]).kind().is_none());
}

#[test]
fn a_fresh_tick_is_recent_and_ages_out() {
    let tick = Tick::new(100);
    assert!(tick.is_recent(100, 20));
    assert!(tick.is_recent(119, 20));
    assert!(!tick.is_recent(120, 20));
    assert!(!tick.is_recent(500, 20));
}

#[test]
fn a_tick_ahead_of_the_clock_has_age_zero() {
    let tick = Tick::new(100);
    assert!(tick.is_recent(90, 20));
    assert!(!tick.is_recent(90, 0));
}

#[test]
fn updating_a_tick_restores_freshness() {
    let mut tick = Tick::new(100);
    assert!(!tick.is_recent(200, 20));
    tick.update(200);
    assert!(tick.is_recent(200, 20));
}

fn version() -> Version {
    Version {
        name: String::from("listener"),
        version: String::from("1.2.3"),
    }
}

#[test]
fn fresh_ticks_need_no_probe_and_report_healthy() {
    let hc = HealthCheck::new(1000, version());
    let now = 1000 + CONNECTED_TICK_FRESHNESS - 1;
    assert!(!hc.blockchain_probe_needed(now));
    assert!(!hc.database_probe_needed(now));
    let status = hc.health_check(now, None, None);
    assert!(status.alive);
    assert!(status.blockchain_connected);
    assert!(status.database_connected);
}

#[test]
fn stale_ticks_defer_to_the_probe_answers() {
    let hc = HealthCheck::new(1000, version());
    let now = 1000 + CONNECTED_TICK_FRESHNESS;
    assert!(hc.blockchain_probe_needed(now));
    assert!(hc.database_probe_needed(now));
    let good = hc.health_check(now, Some(true), Some(true));
    assert!(good.blockchain_connected);
    assert!(good.database_connected);
    let bad = hc.health_check(now, Some(false), None);
    assert!(!bad.blockchain_connected);
    assert!(!bad.database_connected);
}

#[test]
fn liveness_outlasts_the_connection_window() {
    let hc = HealthCheck::new(1000, version());
    let now = 1000 + IS_ALIVE_TICK_FRESHNESS - 1;
    let status = hc.health_check(now, Some(false), Some(false));
    assert!(status.alive);
    assert!(!status.blockchain_connected);
    let later = 1000 + IS_ALIVE_TICK_FRESHNESS;
    assert!(!hc.is_alive(later));
}

#[test]
fn a_timeout_tick_alone_keeps_the_service_alive() {
    let mut hc = HealthCheck::new(1000, version());
    let now = 1000 + IS_ALIVE_TICK_FRESHNESS + 50;
    assert!(!hc.is_alive(now));
    hc.blockchain_timeout_tick.update(now);
    assert!(hc.is_alive(now));
}

#[test]
fn the_version_is_reported_as_given() {
    let hc = HealthCheck::new(0, version());
    let v = hc.get_version();
    assert_eq!(v.name, "listener");
    assert_eq!(v.version, "1.2.3");
}
