use vstd::prelude::*;

verus! {

/// Silence after which the watchdog takes over, in milliseconds.
pub const WATCHDOG_TIMEOUT_MS: u64 = 500;

/// Time between two ticks that the program starts itself, in milliseconds.
pub const SELF_DRIVE_INTERVAL_MS: u64 = 11;

/// Time between two looks at the mode while the avatar runtime drives, in milliseconds.
pub const EXTERNAL_IDLE_INTERVAL_MS: u64 = 200;

/// Time between two polls of the watchdog, in milliseconds.
pub const WATCHDOG_POLL_INTERVAL_MS: u64 = 1000;

/// Who starts the ticks.
#[derive(Clone, Copy, Debug, PartialEq, Eq, Structural)]
pub enum DriveMode {
    /// A local timer.
    SelfDriven,
    /// The heartbeat of the avatar runtime.
    ExternallyDriven,
}

/// What can happen to the scheduler.
#[derive(Clone, Copy, Debug, PartialEq, Eq, Structural)]
pub enum SchedulerEvent {
    /// The local timer fired.
    Loopback,
    /// The heartbeat parameter arrived from the avatar runtime.
    Heartbeat,
    /// A parameter tree was discovered; it holds the heartbeat parameter or not.
    Discovered { has_vsync: bool },
    /// The watchdog looks at the clock.
    WatchdogPoll,
}

/// Remembers when the last tick was served, in milliseconds since the start.
#[derive(Clone, Copy, Debug, PartialEq, Eq)]
pub struct Watchdog {
    pub last_received: u64,
}

impl Watchdog {
    /// A watchdog that has seen no tick yet.
    pub fn new() -> (w: Watchdog)
        ensures
            w.last_received == 0,
    {
        Watchdog { last_received: 0 }
    }

    /// Notes that a tick was served at `elapsed`.
    pub fn update(&mut self, elapsed: u64)
        ensures
            final(self).last_received == elapsed,
    {
        self.last_received = elapsed;
    }

    /// Whether the last tick lies more than the timeout before `elapsed`.
    pub open spec fn spec_expired(&self, elapsed: u64) -> bool {
        elapsed - self.last_received > WATCHDOG_TIMEOUT_MS
    }

    /// Whether the last tick lies more than the timeout before `elapsed`.
    #[verifier::when_used_as_spec(spec_expired)]
    pub fn expired(&self, elapsed: u64) -> (r: bool)
        ensures
            r == self.spec_expired(elapsed),
    {
        elapsed > self.last_received && elapsed - self.last_received > WATCHDOG_TIMEOUT_MS
    }

    /// The mode after a poll at `elapsed`: self-driven once the timeout has passed.
    pub fn run(&self, elapsed: u64, mode: DriveMode) -> (next: DriveMode)
        ensures
            next == if self.expired(elapsed) {
                DriveMode::SelfDriven
            } else {
                mode
            },
    {
        if self.expired(elapsed) {
            DriveMode::SelfDriven
        } else {
            mode
        }
    }
}

/// Decides when a tick happens.
#[derive(Clone, Copy, Debug, PartialEq, Eq)]
pub struct Scheduler {
    pub mode: DriveMode,
    pub watchdog: Watchdog,
}

/// The mode after `event` at `elapsed`.
pub open spec fn next_mode(s: Scheduler, event: SchedulerEvent, elapsed: u64) -> DriveMode {
    match event {
        SchedulerEvent::Loopback => s.mode,
        SchedulerEvent::Heartbeat => DriveMode::ExternallyDriven,
        SchedulerEvent::Discovered { has_vsync } => if has_vsync {
            DriveMode::ExternallyDriven
        } else {
            DriveMode::SelfDriven
        },
        SchedulerEvent::WatchdogPoll => if s.watchdog.expired(elapsed) {
            DriveMode::SelfDriven
        } else {
            s.mode
        },
    }
}

/// Whether `event` starts a tick: the local timer and the heartbeat do.
pub open spec fn starts_tick(event: SchedulerEvent) -> bool {
    event == SchedulerEvent::Loopback || event == SchedulerEvent::Heartbeat
}

/// Time until the local timer looks again, in milliseconds.
pub open spec fn spec_timer_interval(mode: DriveMode) -> u64 {
    match mode {
        DriveMode::SelfDriven => SELF_DRIVE_INTERVAL_MS,
        DriveMode::ExternallyDriven => EXTERNAL_IDLE_INTERVAL_MS,
    }
}

/// Time until the local timer looks again, in milliseconds. It starts a
/// tick only while the mode is self-driven.
#[verifier::when_used_as_spec(spec_timer_interval)]
pub fn timer_interval(mode: DriveMode) -> (ms: u64)
    ensures
        ms == spec_timer_interval(mode),
{
    match mode {
        DriveMode::SelfDriven => SELF_DRIVE_INTERVAL_MS,
        DriveMode::ExternallyDriven => EXTERNAL_IDLE_INTERVAL_MS,
    }
}

impl Scheduler {
    /// A scheduler in its first state: self-driven.
    pub fn new() -> (s: Scheduler)
        ensures
            s.mode == DriveMode::SelfDriven,
            s.watchdog.last_received == 0,
    {
        Scheduler { mode: DriveMode::SelfDriven, watchdog: Watchdog::new() }
    }

    /// Takes one event at `elapsed` milliseconds since the start and says
    /// whether a tick has to run now. A tick is noted by the watchdog.
    pub fn on_event(&mut self, event: SchedulerEvent, elapsed: u64) -> (tick: bool)
        ensures
            tick == starts_tick(event),
            final(self).mode == next_mode(*old(self), event, elapsed),
            final(self).watchdog.last_received == if tick {
                elapsed
            } else {
                old(self).watchdog.last_received
            },
    {
        match event {
            SchedulerEvent::Loopback => {
                self.watchdog.update(elapsed);
                true
            },
            SchedulerEvent::Heartbeat => {
                self.mode = DriveMode::ExternallyDriven;
                self.watchdog.update(elapsed);
                true
            },
            SchedulerEvent::Discovered { has_vsync } => {
                self.mode = if has_vsync {
                    DriveMode::ExternallyDriven
                } else {
                    DriveMode::SelfDriven
                };
                false
            },
            SchedulerEvent::WatchdogPoll => {
                self.mode = self.watchdog.run(elapsed, self.mode);
                false
            },
        }
    }
}

/// Watchdog recovery: whatever the mode, a poll that comes more than the
/// timeout after the last tick leaves the scheduler self-driven, and the
/// local timer then fires at the self-driven interval.
pub proof fn lemma_watchdog_recovers(s: Scheduler, elapsed: u64)
    requires
        elapsed - s.watchdog.last_received > WATCHDOG_TIMEOUT_MS,
    ensures
        next_mode(s, SchedulerEvent::WatchdogPoll, elapsed) == DriveMode::SelfDriven,
        timer_interval(next_mode(s, SchedulerEvent::WatchdogPoll, elapsed))
            == SELF_DRIVE_INTERVAL_MS,
{
}

} // verus!
