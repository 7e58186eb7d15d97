//! WiFi connectivity supervisor: a reconnect state machine with capped
//! quadratic backoff.
//!
//! The supervisor decides; the radio work itself (applying the client
//! configuration, starting the radio, associating, waiting for the
//! interface to come up) happens outside and reports back through
//! [`WifiSupervisor::on_connect_success`] and
//! [`WifiSupervisor::on_connect_failure`]. After the `attempt`-th
//! consecutive failure the caller is told to wait
//! `min(300 * attempt^2, 3000)` milliseconds before trying again; the
//! attempt counter resets only on a successful connect. Retries go on
//! indefinitely: a lost link is recoverable, never fatal.

use vstd::prelude::*;

verus! {

/// Base of the backoff curve, in milliseconds.
pub const BACKOFF_BASE_MS: u32 = 300;

/// Ceiling of the backoff curve, in milliseconds.
pub const BACKOFF_CEILING_MS: u32 = 3000;

/// The steps of a connect attempt, in the order they run. A connect
/// applies the static client configuration, starts the radio, associates,
/// then waits for the network interface to come up.
#[derive(Clone, Copy, PartialEq, Eq, Structural, Debug)]
pub enum ConnectStage {
    Configure,
    Start,
    Associate,
    InterfaceUp,
}

/// A failed connect attempt, carrying the stage that failed. At startup
/// this is fatal; afterwards it only feeds the backoff.
#[derive(Clone, Copy, PartialEq, Eq, Structural, Debug)]
pub struct ConnectError {
    pub stage: ConnectStage,
}

impl ConnectError {
    /// The failing stage, in words.
    pub fn describe(&self) -> (msg: &'static str)
        ensures
            self.stage == ConnectStage::Configure ==> msg@ == "failed to apply configuration"@,
            self.stage == ConnectStage::Start ==> msg@ == "failed to start radio"@,
            self.stage == ConnectStage::Associate ==> msg@ == "failed to associate"@,
            self.stage == ConnectStage::InterfaceUp ==> msg@ == "interface did not come up"@,
    {
        match self.stage {
            ConnectStage::Configure => "failed to apply configuration",
            ConnectStage::Start => "failed to start radio",
            ConnectStage::Associate => "failed to associate",
            ConnectStage::InterfaceUp => "interface did not come up",
        }
    }
}

/// States of the wireless link.
#[derive(Clone, Copy, PartialEq, Eq, Structural, Debug)]
pub enum LinkState {
    Disconnected,
    Connecting,
    Connected,
}

/// Delay before the next reconnect try after `attempt` consecutive
/// failures: quadratic growth from the base, capped at the ceiling.
pub open spec fn backoff_spec(attempt: nat) -> nat {
    if BACKOFF_BASE_MS * attempt * attempt > BACKOFF_CEILING_MS {
        BACKOFF_CEILING_MS as nat
    } else {
        (BACKOFF_BASE_MS * attempt * attempt) as nat
    }
}

/// Backoff delay in milliseconds for the given attempt number.
pub fn backoff_delay_ms(attempt: u32) -> (delay: u32)
    ensures
        delay == backoff_spec(attempt as nat),
{
    if attempt > 3 {
        proof {
            assert(300 * (attempt as nat) * (attempt as nat) > 3000) by (nonlinear_arith)
                requires
                    attempt as nat >= 4,
            ;
        }
        BACKOFF_CEILING_MS
    } else {
        proof {
            assert(300 * (attempt as nat) * (attempt as nat) <= 2700) by (nonlinear_arith)
                requires
                    attempt as nat <= 3,
            ;
        }
        BACKOFF_BASE_MS * attempt * attempt
    }
}

/// Reconnect state machine. Owns the link state it believes and the count
/// of the next connect attempt.
pub struct WifiSupervisor {
    state: LinkState,
    attempt: u32,
}

impl WifiSupervisor {
    /// Link state the supervisor currently believes.
    pub closed spec fn link(&self) -> LinkState {
        self.state
    }

    /// Number of the next connect attempt; 1-based.
    pub closed spec fn attempt(&self) -> u32 {
        self.attempt
    }

    /// Well-formedness: attempts are counted from 1.
    pub open spec fn wf(&self) -> bool {
        self.attempt() >= 1
    }

    /// At boot the link is down and the next attempt is the first.
    pub fn new() -> (sup: WifiSupervisor)
        ensures
            sup.wf(),
            sup.link() == LinkState::Disconnected,
            sup.attempt() == 1,
    {
        WifiSupervisor { state: LinkState::Disconnected, attempt: 1 }
    }

    /// Whether the supervisor believes the link is up.
    pub fn is_connected(&self) -> (up: bool)
        ensures
            up == (self.link() == LinkState::Connected),
    {
        match self.state {
            LinkState::Connected => true,
            _ => false,
        }
    }

    /// A connect attempt is being launched.
    pub fn begin_attempt(&mut self)
        ensures
            final(self).link() == LinkState::Connecting,
            final(self).attempt() == old(self).attempt(),
    {
        self.state = LinkState::Connecting;
    }

    /// The radio associated and the interface came up: the link is up and
    /// the attempt counter resets, so the next outage backs off from the
    /// start again.
    pub fn on_connect_success(&mut self)
        ensures
            final(self).wf(),
            final(self).link() == LinkState::Connected,
            final(self).attempt() == 1,
    {
        self.state = LinkState::Connected;
        self.attempt = 1;
    }

    /// A connect attempt failed: stay down, count the failure, and return
    /// how long to wait before the next try. The counter saturates rather
    /// than wrapping, which leaves the (already capped) delay unchanged.
    pub fn on_connect_failure(&mut self) -> (delay_ms: u32)
        ensures
            final(self).wf(),
            final(self).link() == LinkState::Disconnected,
            delay_ms == backoff_spec(old(self).attempt() as nat),
            final(self).attempt() == if old(self).attempt() == u32::MAX {
                u32::MAX
            } else {
                (old(self).attempt() + 1) as u32
            },
    {
        self.state = LinkState::Disconnected;
        let delay = backoff_delay_ms(self.attempt);
        if self.attempt < u32::MAX {
            self.attempt = self.attempt + 1;
        }
        delay
    }

    /// The link dropped out from under us (reported by the radio).
    pub fn on_link_lost(&mut self)
        ensures
            final(self).link() == LinkState::Disconnected,
            final(self).attempt() == old(self).attempt(),
    {
        self.state = LinkState::Disconnected;
    }
}

} // verus!
