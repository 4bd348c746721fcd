//! Liveness and readiness decisions for the surrounding service.
//!
//! The service records a "last successful activity" timestamp — a tick —
//! for each dependency it watches and compares it against a freshness
//! window: a recent tick is trusted, a stale one means the dependency must
//! be probed again.  The clock readings and the probe answers come from the
//! caller that owns the clock and the connections; the decisions live here.

use vstd::prelude::*;

verus! {

/// Seconds a tick may age before the service no longer counts as alive.
pub const IS_ALIVE_TICK_FRESHNESS: u64 = 20;

/// Seconds a tick may age before a dependency is probed again rather than
/// trusted.
pub const CONNECTED_TICK_FRESHNESS: u64 = 5;

/// A "last successful activity" timestamp, in seconds.
#[derive(Clone, Copy, Debug, PartialEq, Eq, Structural)]
pub struct Tick(pub u64);

/// Whether a tick taken at `tick` still counts as recent at `now`, within a
/// freshness window of `seconds`: its age is under the window.  A tick
/// ahead of the clock has age zero.
pub open spec fn spec_is_recent(tick: u64, now: u64, seconds: u64) -> bool {
    (if now >= tick {
        now - tick
    } else {
        0int
    }) < seconds
}

impl Tick {
    /// A tick taken at `now`.
    pub fn new(now: u64) -> (tick: Tick)
        ensures
            tick.0 == now,
    {
        Tick(now)
    }

    /// Refresh the tick to `now`.
    pub fn update(&mut self, now: u64)
        ensures
            final(self).0 == now,
    {
        self.0 = now;
    }

    /// Whether the tick is younger than `seconds` at time `now`.
    pub fn is_recent(&self, now: u64, seconds: u64) -> (recent: bool)
        ensures
            recent == spec_is_recent(self.0, now, seconds),
    {
        let age = if now >= self.0 {
            now - self.0
        } else {
            0
        };
        age < seconds
    }
}

/// Version information reported alongside the health summary.
#[derive(Debug)]
pub struct Version {
    /// The service's name.
    pub name: String,
    /// The service's version string.
    pub version: String,
}

/// The aggregated health summary: one named boolean per check.
#[derive(Clone, Copy, Debug, PartialEq, Eq, Structural)]
pub struct HealthStatus {
    /// The service's inner loop has shown activity recently.
    pub alive: bool,
    /// The blockchain connection is fresh or was probed successfully.
    pub blockchain_connected: bool,
    /// The database connection is fresh or was probed successfully.
    pub database_connected: bool,
}

/// The health state of the service: activity ticks for the watched
/// dependencies, and the version it reports.
pub struct HealthCheck {
    /// Last time the blockchain listener timed out waiting (still a sign of
    /// a live inner loop).
    pub blockchain_timeout_tick: Tick,
    /// Last successful blockchain activity.
    pub blockchain_tick: Tick,
    /// Last successful database activity.
    pub database_tick: Tick,
    /// What `get_version` reports.
    pub version: Version,
}

/// Whether the service counts as alive at `now`: some blockchain activity —
/// a success or at least a timeout — within the liveness window.
pub open spec fn spec_is_alive(hc: HealthCheck, now: u64) -> bool {
    spec_is_recent(hc.blockchain_tick.0, now, IS_ALIVE_TICK_FRESHNESS) || spec_is_recent(
        hc.blockchain_timeout_tick.0,
        now,
        IS_ALIVE_TICK_FRESHNESS,
    )
}

/// Whether a dependency counts as connected at `now`: its tick is within
/// the connection window, or the caller probed it and the probe succeeded
/// (`None` means no probe could be made, as when the connection handle is
/// being replaced).
pub open spec fn spec_connected(tick: u64, now: u64, probe: Option<bool>) -> bool {
    if spec_is_recent(tick, now, CONNECTED_TICK_FRESHNESS) {
        true
    } else {
        probe == Some(true)
    }
}

impl HealthCheck {
    /// A health state whose ticks all start at `now`.
    pub fn new(now: u64, version: Version) -> (hc: HealthCheck)
        ensures
            hc.blockchain_timeout_tick.0 == now,
            hc.blockchain_tick.0 == now,
            hc.database_tick.0 == now,
            hc.version == version,
    {
        HealthCheck {
            blockchain_timeout_tick: Tick::new(now),
            blockchain_tick: Tick::new(now),
            database_tick: Tick::new(now),
            version,
        }
    }

    /// Whether the service's inner loop has shown blockchain activity — a
    /// success or a timeout — within the liveness window.
    pub fn is_alive(&self, now: u64) -> (alive: bool)
        ensures
            alive == spec_is_alive(*self, now),
    {
        self.blockchain_tick.is_recent(now, IS_ALIVE_TICK_FRESHNESS)
            || self.blockchain_timeout_tick.is_recent(now, IS_ALIVE_TICK_FRESHNESS)
    }

    /// Whether the blockchain connection must be probed before the next
    /// health summary: its tick has left the connection window.
    pub fn blockchain_probe_needed(&self, now: u64) -> (needed: bool)
        ensures
            needed == !spec_is_recent(self.blockchain_tick.0, now, CONNECTED_TICK_FRESHNESS),
    {
        !self.blockchain_tick.is_recent(now, CONNECTED_TICK_FRESHNESS)
    }

    /// Whether the database connection must be probed before the next
    /// health summary.
    pub fn database_probe_needed(&self, now: u64) -> (needed: bool)
        ensures
            needed == !spec_is_recent(self.database_tick.0, now, CONNECTED_TICK_FRESHNESS),
    {
        !self.database_tick.is_recent(now, CONNECTED_TICK_FRESHNESS)
    }

    /// The aggregated health summary at `now`.  The caller performs the
    /// probes this state asks for (see the `..._probe_needed` queries) and
    /// hands their outcomes in; a dependency with a fresh tick is trusted
    /// without a probe, a stale one counts as connected only on a
    /// successful probe.
    pub fn health_check(
        &self,
        now: u64,
        blockchain_probe: Option<bool>,
        database_probe: Option<bool>,
    ) -> (status: HealthStatus)
        ensures
            status.alive == spec_is_alive(*self, now),
            status.blockchain_connected == spec_connected(
                self.blockchain_tick.0,
                now,
                blockchain_probe,
            ),
            status.database_connected == spec_connected(
                self.database_tick.0,
                now,
                database_probe,
            ),
    {
        let alive = self.is_alive(now);
        let blockchain_connected = if self.blockchain_tick.is_recent(
            now,
            CONNECTED_TICK_FRESHNESS,
        ) {
            true
        } else {
            match blockchain_probe {
                Some(ok) => ok,
                None => false,
            }
        };
        let database_connected = if self.database_tick.is_recent(now, CONNECTED_TICK_FRESHNESS) {
            true
        } else {
            match database_probe {
                Some(ok) => ok,
                None => false,
            }
        };
        HealthStatus { alive, blockchain_connected, database_connected }
    }

    /// The version information the service reports.
    pub fn get_version(&self) -> (version: &Version)
        ensures
            version == &self.version,
    {
        &self.version
    }
}

} // verus!
