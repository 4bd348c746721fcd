use fhe_admission::fault::Fault;
use fhe_admission::pool::ReservationPool;

/// The counter is not directly readable, as in the original design; a
/// reservation attempt reveals it, since the candidate total it returns is
/// the counter plus the amount.  Probe with an accepting verdict and undo.
fn counter_of(pool: &mut ReservationPool, device: usize) -> u64 {
    let candidate = pool
        .reserve_memory_on_gpu(1, device, &vec![true])
        .expect("an accepting verdict admits");
    pool.release_memory_on_gpu(1, device);
    candidate - 1
}

#[test]
fn two_reservations_and_two_releases_return_to_zero() {
    let mut pool = ReservationPool::new(2);
    let first = pool.reserve_memory_on_gpu(1000, 0, &vec![true]);
    assert_eq!(first, Some(1000));
    let second = pool.reserve_memory_on_gpu(1000, 0, &vec![true]);
    assert_eq!(second, Some(2000));
    pool.release_memory_on_gpu(1000, 0);
    pool.release_memory_on_gpu(1000, 0);
    assert_eq!(counter_of(&mut pool, 0), 0);
}

#[test]
fn devices_have_independent_counters() {
    let mut pool = ReservationPool::new(3);
    assert_eq!(pool.device_count(), 3);
    pool.reserve_memory_on_gpu(500, 1, &vec![true]);
    assert_eq!(counter_of(&mut pool, 0), 0);
    assert_eq!(counter_of(&mut pool, 1), 500);
    assert_eq!(counter_of(&mut pool, 2), 0);
}

#[test]
fn refused_attempts_leave_the_counter_unchanged() {
    let mut pool = ReservationPool::new(1);
    let refused = pool.reserve_memory_on_gpu(700, 0, &vec![false, false]);
    assert_eq!(refused, None);
    assert_eq!(counter_of(&mut pool, 0), 0);
}

#[test]
fn admission_happens_on_the_first_accepting_verdict() {
    let mut pool = ReservationPool::new(1);
    let admitted = pool.reserve_memory_on_gpu(700, 0, &vec![false, false, true]);
    assert_eq!(admitted, Some(700));
    assert_eq!(counter_of(&mut pool, 0), 700);
}

#[test]
fn no_verdicts_means_no_admission() {
    let mut pool = ReservationPool::new(1);
    let admitted = pool.reserve_memory_on_gpu(700, 0, &Vec::new());
    assert_eq!(admitted, None);
}

#[test]
fn release_exceeding_reservations_is_the_fatal_path() {
    let mut pool = ReservationPool::new(1);
    pool.reserve_memory_on_gpu(100, 0, &vec![true]);
    let r = pool.try_release(500, 0);
    assert_eq!(r, Err(Fault::ReleaseUnderflow));
    // The refused release left the counter untouched.
    assert_eq!(counter_of(&mut pool, 0), 100);
}

#[test]
fn release_on_an_unknown_device_is_refused() {
    let mut pool = ReservationPool::new(1);
    let r = pool.try_release(1, 5);
    assert_eq!(r, Err(Fault::UnknownDevice));
}

#[test]
fn try_release_succeeds_within_the_outstanding_amount() {
    let mut pool = ReservationPool::new(1);
    pool.reserve_memory_on_gpu(100, 0, &vec![true]);
    assert_eq!(pool.try_release(60, 0), Ok(()));
    assert_eq!(pool.try_release(40, 0), Ok(()));
    assert_eq!(pool.try_release(1, 0), Err(Fault::ReleaseUnderflow));
}

#[test]
fn balanced_heavy_workload_returns_to_zero() {
    // Many matched reserve/release pairs against an always-accepting
    // validity verdict leave the counter exactly where it started.
    let mut pool = ReservationPool::new(1);
    let always = vec![true];
    for _ in 0..10_000 {
        let admitted = pool.reserve_memory_on_gpu(7, 0, &always);
        assert!(admitted.is_some());
        pool.release_memory_on_gpu(7, 0);
    }
    assert_eq!(counter_of(&mut pool, 0), 0);
}

#[test]
fn outstanding_reservations_accumulate() {
    let mut pool = ReservationPool::new(1);
    for i in 1..=100u64 {
        let admitted = pool.reserve_memory_on_gpu(i, 0, &vec![true]);
        assert!(admitted.is_some());
    }
    // 1 + 2 + ... + 100
    assert_eq!(counter_of(&mut pool, 0), 5050);
}
