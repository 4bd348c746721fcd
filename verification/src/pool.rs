//! Per-device reservation counters used for admission control.
//!
//! Each device has one unsigned counter holding the bytes currently promised
//! to in-flight operations and not yet released.  Reservation follows an
//! optimistic protocol: add the requested amount, ask the device-capability
//! collaborator whether the new total is a valid allocation size, and on a
//! negative answer subtract the amount back out and retry after a short
//! pause.  The collaborator's verdicts enter this module as plain booleans;
//! the retry pacing lives with the caller that owns the clock.

use vstd::prelude::*;

verus! {

use crate::fault::Fault;

/// One recorded interaction with a single device's counter, used to state
/// how a whole history of calls moves the counter.
#[derive(Clone, Copy, Debug, PartialEq, Eq, Structural)]
pub enum PoolEvent {
    /// One reservation attempt; `admitted` says whether the collaborator
    /// accepted the candidate total (a refused attempt is rolled back and
    /// leaves no trace on the counter).
    Reserve { amount: u64, admitted: bool },
    /// A matching release of a previously admitted reservation.
    Release { amount: u64 },
}

/// How much a single event moves the counter.
pub open spec fn event_delta(e: PoolEvent) -> int {
    match e {
        PoolEvent::Reserve { amount, admitted } => if admitted {
            amount as int
        } else {
            0
        },
        PoolEvent::Release { amount } => -(amount as int),
    }
}

/// The counter value after a history of events, starting from `initial`.
pub open spec fn counter_after(initial: int, trace: Seq<PoolEvent>) -> int
    decreases trace.len(),
{
    if trace.len() == 0 {
        initial
    } else {
        counter_after(initial, trace.drop_last()) + event_delta(trace.last())
    }
}

/// Total bytes admitted by reservations in the history.
pub open spec fn reserved_total(trace: Seq<PoolEvent>) -> int
    decreases trace.len(),
{
    if trace.len() == 0 {
        0
    } else {
        reserved_total(trace.drop_last()) + match trace.last() {
            PoolEvent::Reserve { amount, admitted } => if admitted {
                amount as int
            } else {
                0
            },
            PoolEvent::Release { .. } => 0,
        }
    }
}

/// Total bytes released in the history.
pub open spec fn released_total(trace: Seq<PoolEvent>) -> int
    decreases trace.len(),
{
    if trace.len() == 0 {
        0
    } else {
        released_total(trace.drop_last()) + match trace.last() {
            PoolEvent::Release { amount } => amount as int,
            PoolEvent::Reserve { .. } => 0,
        }
    }
}

/// A history conserves amounts when no prefix releases more than was
/// admitted before it: every release matches an earlier admitted
/// reservation.
pub open spec fn conserved(trace: Seq<PoolEvent>) -> bool {
    forall|i: int|
        0 <= i <= trace.len() ==> #[trigger] released_total(trace.take(i)) <= reserved_total(
            trace.take(i),
        )
}

/// The counter after a history is the initial value plus admitted
/// reservations minus releases.
pub proof fn lemma_counter_after_decomposes(initial: int, trace: Seq<PoolEvent>)
    ensures
        counter_after(initial, trace) == initial + reserved_total(trace) - released_total(trace),
    decreases trace.len(),
{
    if trace.len() > 0 {
        lemma_counter_after_decomposes(initial, trace.drop_last());
    }
}

/// Counter non-negativity: for any interleaving of reservations and releases
/// with conserved amounts, the counter never drops below its initial value
/// (in particular it never goes negative), and once releases balance the
/// admitted reservations it is back at its initial value.
pub proof fn lemma_counter_conservation(initial: int, trace: Seq<PoolEvent>)
    requires
        initial >= 0,
        conserved(trace),
    ensures
        forall|i: int|
            0 <= i <= trace.len() ==> counter_after(initial, #[trigger] trace.take(i)) >= initial,
        released_total(trace) == reserved_total(trace) ==> counter_after(initial, trace)
            == initial,
{
    assert forall|i: int|
        0 <= i <= trace.len() implies counter_after(initial, #[trigger] trace.take(i))
        >= initial by {
        lemma_counter_after_decomposes(initial, trace.take(i));
    }
    lemma_counter_after_decomposes(initial, trace);
}

/// Outstanding memory reservations, one counter per discovered device.
/// Constructed once at startup and shared by every caller that runs
/// operations on the devices.
pub struct ReservationPool {
    counters: Vec<u64>,
}

impl View for ReservationPool {
    type V = Seq<u64>;

    closed spec fn view(&self) -> Seq<u64> {
        self.counters@
    }
}

impl ReservationPool {
    /// A pool for `device_count` devices, every counter at zero.
    pub fn new(device_count: usize) -> (pool: Self)
        ensures
            pool@.len() == device_count,
            forall|i: int| 0 <= i < device_count ==> pool@[i] == 0,
    {
        let mut counters: Vec<u64> = Vec::new();
        let mut i: usize = 0;
        while i < device_count
            invariant
                i <= device_count,
                counters@.len() == i,
                forall|j: int| 0 <= j < i ==> counters@[j] == 0,
            decreases device_count - i,
        {
            counters.push(0);
            i = i + 1;
        }
        ReservationPool { counters }
    }

    /// How many devices the pool tracks.
    pub fn device_count(&self) -> (n: usize)
        ensures
            n == self@.len(),
    {
        self.counters.len()
    }

    /// First half of one reservation attempt: add `amount` to the device's
    /// counter and hand back the candidate total, for the device-capability
    /// collaborator to validate.
    pub fn begin_reserve(&mut self, amount: u64, device_index: usize) -> (candidate: u64)
        requires
            device_index < old(self)@.len(),
            old(self)@[device_index as int] + amount <= u64::MAX,
        ensures
            candidate == old(self)@[device_index as int] + amount,
            final(self)@ == old(self)@.update(device_index as int, candidate),
    {
        let candidate = self.counters[device_index] + amount;
        self.counters.set(device_index, candidate);
        candidate
    }

    /// Second half of a refused reservation attempt: subtract the amount
    /// added by `begin_reserve`, leaving the counter as it was.
    pub fn cancel_reserve(&mut self, amount: u64, device_index: usize)
        requires
            device_index < old(self)@.len(),
            amount <= old(self)@[device_index as int],
        ensures
            final(self)@ == old(self)@.update(
                device_index as int,
                (old(self)@[device_index as int] - amount) as u64,
            ),
    {
        let reduced = self.counters[device_index] - amount;
        self.counters.set(device_index, reduced);
    }

    /// The reservation protocol run against a finite prefix of collaborator
    /// verdicts, one per attempt: add the amount, stop if the candidate total
    /// was accepted, otherwise roll back and try again.  Admission succeeds
    /// exactly when some verdict accepts, and an admitted reservation's
    /// candidate total is the one the accepting verdict was asked about — the
    /// call never reports success on a total the collaborator refused.
    pub fn reserve_memory_on_gpu(
        &mut self,
        amount: u64,
        device_index: usize,
        verdicts: &Vec<bool>,
    ) -> (admitted: Option<u64>)
        requires
            device_index < old(self)@.len(),
            old(self)@[device_index as int] + amount <= u64::MAX,
        ensures
            admitted is Some <==> verdicts@.contains(true),
            admitted matches Some(candidate) ==> candidate == old(self)@[device_index as int]
                + amount && final(self)@ == old(self)@.update(device_index as int, candidate),
            admitted is None ==> final(self)@ == old(self)@,
    {
        let mut i: usize = 0;
        while i < verdicts.len()
            invariant
                i <= verdicts@.len(),
                self@ == old(self)@,
                device_index < self@.len(),
                self@[device_index as int] + amount <= u64::MAX,
                forall|j: int| 0 <= j < i ==> !verdicts@[j],
            decreases verdicts@.len() - i,
        {
            let candidate = self.begin_reserve(amount, device_index);
            if verdicts[i] {
                assert(verdicts@.contains(true));
                return Some(candidate);
            }
            self.cancel_reserve(amount, device_index);
            assert(self@ =~= old(self)@);
            i = i + 1;
        }
        assert(!verdicts@.contains(true)) by {
            if verdicts@.contains(true) {
                let j = choose|j: int| 0 <= j < verdicts@.len() && verdicts@[j] == true;
                assert(!verdicts@[j]);
            }
        }
        None
    }

    /// Release `amount` previously reserved bytes on the device.  The caller
    /// must hold a matching admitted reservation: releasing more than is
    /// outstanding is a reserve/release mismatch bug, excluded here and
    /// reported by `try_release`.
    pub fn release_memory_on_gpu(&mut self, amount: u64, device_index: usize)
        requires
            device_index < old(self)@.len(),
            amount <= old(self)@[device_index as int],
        ensures
            final(self)@ == old(self)@.update(
                device_index as int,
                (old(self)@[device_index as int] - amount) as u64,
            ),
    {
        let reduced = self.counters[device_index] - amount;
        self.counters.set(device_index, reduced);
    }

    /// `release_memory_on_gpu` with the fatal invariant break made explicit:
    /// an unknown device or a release exceeding the outstanding reservations
    /// is refused by kind and leaves every counter unchanged.
    pub fn try_release(&mut self, amount: u64, device_index: usize) -> (r: Result<(), Fault>)
        ensures
            r == Ok::<(), Fault>(()) <==> device_index < old(self)@.len() && amount <= old(
                self,
            )@[device_index as int],
            r == Ok::<(), Fault>(()) ==> final(self)@ == old(self)@.update(
                device_index as int,
                (old(self)@[device_index as int] - amount) as u64,
            ),
            device_index >= old(self)@.len() ==> r == Err::<(), Fault>(Fault::UnknownDevice)
                && final(self)@ == old(self)@,
            device_index < old(self)@.len() && amount > old(self)@[device_index as int] ==> r
                == Err::<(), Fault>(Fault::ReleaseUnderflow) && final(self)@ == old(self)@,
    {
        if device_index >= self.counters.len() {
            return Err(Fault::UnknownDevice);
        }
        if amount > self.counters[device_index] {
            return Err(Fault::ReleaseUnderflow);
        }
        self.release_memory_on_gpu(amount, device_index);
        Ok(())
    }
}

} // verus!
