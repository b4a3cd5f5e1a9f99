use vstd::prelude::*;
use vstd::string::StringExecFns;

use crate::errors::PluginError;
use crate::errors::PluginResult;
use crate::health::spec_is_healthy;
use crate::health::spec_status_text;
use crate::health::HealthStatus;
use crate::manifest::PluginInfo;

verus! {

/// Seconds that must have elapsed since the last sync before a tick performs
/// another one; bounds ecosystem staleness without flooding the bus on every
/// heartbeat.
pub const SYNC_INTERVAL_SECONDS: i64 = 300;

/// The mutable record of one extension unit. `last_sync` holds seconds since
/// the Unix epoch and is `None` until the first successful sync.
#[derive(Debug, Clone, PartialEq, Eq)]
#[verifier::ext_equal]
pub struct PluginState {
    pub initialized: bool,
    pub active: bool,
    pub last_sync: Option<i64>,
    pub health_status: HealthStatus,
}

/// A unit is never active without having been initialized.
pub open spec fn state_wf(s: PluginState) -> bool {
    s.active ==> s.initialized
}

/// Non-owning handle to the host application context a unit is handed at
/// initialization; the host shares it among units.
#[derive(Debug, Clone, PartialEq, Eq)]
pub struct AppContext {
    pub app_id: String,
    pub app_name: String,
}

impl AppContext {
    pub fn new(app_id: String, app_name: String) -> (ctx: AppContext)
        ensures
            ctx.app_id == app_id,
            ctx.app_name == app_name,
    {
        AppContext { app_id, app_name }
    }
}

/// Non-owning handle to the host's event bus; when absent there is nothing to
/// sync with and sync requests are skipped without error.
#[derive(Debug, Clone, PartialEq, Eq)]
pub struct EventBus {
    pub bus_name: String,
}

impl EventBus {
    pub fn new() -> (bus: EventBus)
        ensures
            bus.bus_name@ =~= Seq::<char>::empty(),
    {
        EventBus { bus_name: String::new() }
    }
}

/// One extension unit: its immutable identity, its mutable lifecycle record,
/// and the host capabilities it borrows at initialization.
#[derive(Debug)]
pub struct AdiosPlugin {
    pub info: PluginInfo,
    pub state: PluginState,
    pub ctx: Option<AppContext>,
    pub bus: Option<EventBus>,
}

/// Whether a sync is due `now` given the last recorded sync time: a unit that
/// has never synced is due immediately, otherwise the fixed interval must
/// have elapsed.
pub open spec fn spec_sync_due(last_sync: Option<i64>, now: i64) -> bool {
    match last_sync {
        Option::None => true,
        Option::Some(t) => now - t >= SYNC_INTERVAL_SECONDS,
    }
}

/// The state after a sync request at time `now`: the sync time is stamped
/// only when an event-bus handle is present, otherwise nothing happens.
pub open spec fn spec_sync_state(s: PluginState, has_bus: bool, now: i64) -> PluginState {
    if has_bus {
        PluginState { last_sync: Some(now), ..s }
    } else {
        s
    }
}

/// The state after a successful `start` at time `now`: the unit becomes
/// active and one sync is forced regardless of the timer.
pub open spec fn spec_start_state(s: PluginState, has_bus: bool, now: i64) -> PluginState {
    spec_sync_state(PluginState { active: true, ..s }, has_bus, now)
}

/// The state after a `tick` at time `now`: only an active unit whose sync is
/// due performs one; otherwise the state is unchanged.
pub open spec fn spec_tick_state(s: PluginState, has_bus: bool, now: i64) -> PluginState {
    if s.active && spec_sync_due(s.last_sync, now) {
        spec_sync_state(s, has_bus, now)
    } else {
        s
    }
}

/// The state after `stop`: the unit is inactive, everything else is kept.
pub open spec fn spec_stop_state(s: PluginState) -> PluginState {
    PluginState { active: false, ..s }
}

/// Relies on std::time::SystemTime::now and SystemTime::duration_since for
/// the host clock: whole seconds since the Unix epoch, negated when the
/// clock reads before it. Neither path panics. Nothing is assumed of the
/// value: every caller must hold for every possible reading.
#[verifier::external_body]
fn unix_time_now() -> (now: i64) {
    match std::time::SystemTime::now().duration_since(std::time::UNIX_EPOCH) {
        Ok(since) => since.as_secs() as i64,
        Err(before) => -(before.duration().as_secs() as i64),
    }
}

/// Whether a sync is due `now`, as executable code.
pub fn sync_due(last_sync: &Option<i64>, now: i64) -> (due: bool)
    ensures
        due == spec_sync_due(*last_sync, now),
{
    match last_sync {
        Option::None => true,
        Option::Some(t) => {
            let elapsed: i128 = (now as i128) - (*t as i128);
            elapsed >= SYNC_INTERVAL_SECONDS as i128
        },
    }
}

impl AdiosPlugin {
    /// A freshly constructed unit: uninitialized, inactive, never synced,
    /// healthy, holding no host capabilities yet.
    pub fn new(info: PluginInfo) -> (plugin: AdiosPlugin)
        ensures
            plugin.info == info,
            plugin.state == (PluginState {
                initialized: false,
                active: false,
                last_sync: None,
                health_status: HealthStatus::Healthy,
            }),
            plugin.ctx is None,
            plugin.bus is None,
            state_wf(plugin.state),
    {
        AdiosPlugin {
            info,
            state: PluginState {
                initialized: false,
                active: false,
                last_sync: None,
                health_status: HealthStatus::Healthy,
            },
            ctx: None,
            bus: None,
        }
    }

    /// The unit's immutable identity.
    pub fn info(&self) -> (info: &PluginInfo)
        ensures
            *info == self.info,
    {
        &self.info
    }

    /// The current lifecycle record.
    pub fn state(&self) -> (state: &PluginState)
        ensures
            *state == self.state,
    {
        &self.state
    }

    /// Overwrites the health status wholesale; legal in any lifecycle state
    /// so the unit's own monitoring can report degradation at any time.
    pub fn update_health(&mut self, status: HealthStatus)
        ensures
            final(self).state == (PluginState { health_status: status, ..old(self).state }),
            final(self).info == old(self).info,
            final(self).ctx == old(self).ctx,
            final(self).bus == old(self).bus,
            state_wf(old(self).state) ==> state_wf(final(self).state),
    {
        self.state.health_status = status;
    }

    /// True exactly when the current health status is `Healthy`.
    pub fn is_healthy(&self) -> (healthy: bool)
        ensures
            healthy == spec_is_healthy(self.state.health_status),
    {
        matches!(self.state.health_status, HealthStatus::Healthy)
    }

    /// The human-readable rendering of the current health status.
    pub fn status(&self) -> (text: String)
        ensures
            text@ == spec_status_text(self.state.health_status),
    {
        match &self.state.health_status {
            HealthStatus::Healthy => "Healthy".to_owned(),
            HealthStatus::Warning(reason) => {
                let mut text = "Warning: ".to_owned();
                text.append(reason.as_str());
                text
            },
            HealthStatus::Error(reason) => {
                let mut text = "Error: ".to_owned();
                text.append(reason.as_str());
                text
            },
        }
    }

    /// Announces the unit's capabilities to the host's discovery facility.
    /// The base unit has only its identity to announce, so registration
    /// cannot fail; a concrete unit that overrides this may report an
    /// initialization error, which `init` surfaces without a state change.
    pub fn register_capabilities(&self) -> (r: PluginResult<()>)
        ensures
            r is Ok,
    {
        Ok(())
    }

    /// Stores the borrowed host capabilities, registers the unit's
    /// capabilities, and marks the unit initialized. Valid only while
    /// uninitialized: a repeated `init` is a `StateError` and changes
    /// nothing, handles included. Registration failure would likewise leave
    /// the state unchanged; the base registration always succeeds.
    pub fn init(&mut self, ctx: AppContext, bus: EventBus) -> (r: PluginResult<()>)
        ensures
            old(self).state.initialized ==> r is Err && r->Err_0 is StateError && *final(self)
                == *old(self),
            !old(self).state.initialized ==> r is Ok && final(self).state == (PluginState {
                initialized: true,
                ..old(self).state
            }) && final(self).ctx == Some(ctx) && final(self).bus == Some(bus),
            final(self).info == old(self).info,
            state_wf(old(self).state) ==> state_wf(final(self).state),
    {
        if self.state.initialized {
            return Err(PluginError::StateError);
        }
        let registration = self.register_capabilities();
        match registration {
            Ok(()) => {
                self.ctx = Some(ctx);
                self.bus = Some(bus);
                self.state.initialized = true;
                Ok(())
            },
            Err(e) => Err(e),
        }
    }

    /// Performs one sync at time `now`: when an event-bus handle is present
    /// the ecosystem notification (a no-op placeholder in the base unit) runs
    /// and the sync time is stamped; without a handle there is nothing to
    /// sync with and the state is unchanged.
    pub fn sync_at(&mut self, now: i64) -> (r: PluginResult<()>)
        ensures
            r is Ok,
            final(self).state == spec_sync_state(old(self).state, old(self).bus is Some, now),
            final(self).info == old(self).info,
            final(self).ctx == old(self).ctx,
            final(self).bus == old(self).bus,
            state_wf(old(self).state) ==> state_wf(final(self).state),
    {
        if self.bus.is_some() {
            self.state.last_sync = Some(now);
        }
        Ok(())
    }

    /// Performs one sync at the host clock's current time. The stamp is
    /// whatever the clock read, so only its presence is promised here;
    /// `sync_at` carries the exact contract for every time value.
    pub fn sync_with_ecosystem(&mut self) -> (r: PluginResult<()>)
        ensures
            r is Ok,
            old(self).bus is Some ==> final(self).state.last_sync is Some,
            old(self).bus is None ==> *final(self) == *old(self),
            final(self).state.initialized == old(self).state.initialized,
            final(self).state.active == old(self).state.active,
            final(self).state.health_status == old(self).state.health_status,
            final(self).info == old(self).info,
            final(self).ctx == old(self).ctx,
            final(self).bus == old(self).bus,
            state_wf(old(self).state) ==> state_wf(final(self).state),
    {
        let now = unix_time_now();
        self.sync_at(now)
    }

    /// Starts the unit at time `now`: illegal while uninitialized, in which
    /// case a `StateError` is returned and nothing changes; otherwise the
    /// unit becomes active and one sync is forced regardless of the timer.
    pub fn start_at(&mut self, now: i64) -> (r: PluginResult<()>)
        ensures
            !old(self).state.initialized ==> r is Err && r->Err_0 is StateError && *final(self)
                == *old(self),
            old(self).state.initialized ==> r is Ok && final(self).state == spec_start_state(
                old(self).state,
                old(self).bus is Some,
                now,
            ),
            final(self).info == old(self).info,
            final(self).ctx == old(self).ctx,
            final(self).bus == old(self).bus,
            old(self).state.initialized ==> state_wf(final(self).state),
            state_wf(old(self).state) ==> state_wf(final(self).state),
    {
        if !self.state.initialized {
            return Err(PluginError::StateError);
        }
        self.state.active = true;
        self.sync_at(now)
    }

    /// Starts the unit at the host clock's current time. A started unit with
    /// an event-bus handle always holds a sync stamp afterwards, even before
    /// any tick; `start_at` carries the exact contract for every time value.
    pub fn start(&mut self) -> (r: PluginResult<()>)
        ensures
            !old(self).state.initialized ==> r is Err && r->Err_0 is StateError && *final(self)
                == *old(self),
            old(self).state.initialized ==> r is Ok && final(self).state.active,
            old(self).state.initialized && old(self).bus is Some
                ==> final(self).state.last_sync is Some,
            old(self).state.initialized && old(self).bus is None ==> final(self).state.last_sync
                == old(self).state.last_sync,
            final(self).state.initialized == old(self).state.initialized,
            final(self).state.health_status == old(self).state.health_status,
            final(self).info == old(self).info,
            final(self).ctx == old(self).ctx,
            final(self).bus == old(self).bus,
            old(self).state.initialized ==> state_wf(final(self).state),
            state_wf(old(self).state) ==> state_wf(final(self).state),
    {
        let now = unix_time_now();
        self.start_at(now)
    }

    /// Stops the unit: it becomes inactive and everything else is kept.
    /// Forgiving by design: stopping a unit that is not active succeeds and
    /// changes nothing, which simplifies host-side shutdown sequences.
    pub fn stop(&mut self) -> (r: PluginResult<()>)
        ensures
            r is Ok,
            final(self).state == spec_stop_state(old(self).state),
            !old(self).state.active ==> *final(self) == *old(self),
            final(self).info == old(self).info,
            final(self).ctx == old(self).ctx,
            final(self).bus == old(self).bus,
            state_wf(old(self).state) ==> state_wf(final(self).state),
    {
        self.state.active = false;
        Ok(())
    }

    /// Host-driven heartbeat at time `now`: an inactive unit does nothing;
    /// an active unit performs a sync exactly when one is due.
    pub fn tick_at(&mut self, now: i64) -> (r: PluginResult<()>)
        ensures
            r is Ok,
            final(self).state == spec_tick_state(old(self).state, old(self).bus is Some, now),
            !old(self).state.active ==> *final(self) == *old(self),
            final(self).info == old(self).info,
            final(self).ctx == old(self).ctx,
            final(self).bus == old(self).bus,
            state_wf(old(self).state) ==> state_wf(final(self).state),
    {
        if self.state.active {
            let due = sync_due(&self.state.last_sync, now);
            if due {
                return self.sync_at(now);
            }
        }
        Ok(())
    }

    /// Host-driven heartbeat at the host clock's current time. Whatever the
    /// clock reads: an inactive unit is left unchanged, the lifecycle flags
    /// and health never move, and a recorded sync time never moves
    /// backwards; `tick_at` carries the exact contract for every time value.
    pub fn tick(&mut self) -> (r: PluginResult<()>)
        ensures
            r is Ok,
            !old(self).state.active ==> *final(self) == *old(self),
            old(self).bus is None ==> final(self).state.last_sync == old(self).state.last_sync,
            old(self).state.last_sync matches Some(t) ==> final(self).state.last_sync matches Some(
                t2,
            ) && t2 >= t,
            final(self).state.initialized == old(self).state.initialized,
            final(self).state.active == old(self).state.active,
            final(self).state.health_status == old(self).state.health_status,
            final(self).info == old(self).info,
            final(self).ctx == old(self).ctx,
            final(self).bus == old(self).bus,
            state_wf(old(self).state) ==> state_wf(final(self).state),
    {
        let now = unix_time_now();
        self.tick_at(now)
    }
}

/// Every lifecycle transition preserves the record's well-formedness: a unit
/// is never seen active while uninitialized, for any sequence of calls
/// starting from the freshly constructed state.
pub proof fn lemma_transitions_preserve_wf(s: PluginState, has_bus: bool, now: i64)
    requires
        state_wf(s),
    ensures
        state_wf(spec_stop_state(s)),
        state_wf(spec_sync_state(s, has_bus, now)),
        state_wf(spec_tick_state(s, has_bus, now)),
        state_wf(PluginState { initialized: true, ..s }),
        s.initialized ==> state_wf(spec_start_state(s, has_bus, now)),
{
}

/// Stopping is idempotent: a second stop in a row finds the unit already
/// inactive and leaves the state exactly as it was.
pub proof fn lemma_stop_idempotent(s: PluginState)
    ensures
        spec_stop_state(spec_stop_state(s)) == spec_stop_state(s),
{
}

/// Starting an initialized unit that holds an event-bus handle stamps the
/// sync time with the start time, before any tick has occurred.
pub proof fn lemma_start_stamps_sync(s: PluginState, now: i64)
    requires
        s.initialized,
    ensures
        spec_start_state(s, true, now).last_sync == Some(now),
{
}

/// A tick while the unit is inactive performs no sync: the whole record,
/// `last_sync` included, is unchanged.
pub proof fn lemma_tick_inactive_noop(s: PluginState, has_bus: bool, now: i64)
    requires
        !s.active,
    ensures
        spec_tick_state(s, has_bus, now) == s,
{
}

/// The fixed-interval policy at its boundary: with a sync recorded at `t`, a
/// tick strictly less than the interval later changes nothing, and a tick at
/// or past the interval stamps the tick time.
pub proof fn lemma_tick_interval(s: PluginState, now: i64, t: i64)
    requires
        s.active,
        s.last_sync == Some(t),
    ensures
        now - t < SYNC_INTERVAL_SECONDS ==> spec_tick_state(s, true, now) == s,
        now - t >= SYNC_INTERVAL_SECONDS ==> spec_tick_state(s, true, now).last_sync == Some(now),
{
}

/// Once stamped, the sync time never moves backwards under ticking: a tick
/// either keeps the stamp or replaces it with a strictly later time.
pub proof fn lemma_tick_sync_monotonic(s: PluginState, has_bus: bool, now: i64)
    requires
        s.last_sync is Some,
    ensures
        spec_tick_state(s, has_bus, now).last_sync is Some,
        spec_tick_state(s, has_bus, now).last_sync->0 >= s.last_sync->0,
{
}

} // verus!

