//! What a link conditioner is configured with, and the circumstances of one
//! step: the time, and the draws that decide a packet's fate.
//!
//! Probabilities are integers in parts per million, and a draw is an integer
//! below `LOSS_SCALE`, so that every decision is a comparison of integers.

use vstd::prelude::*;
use naia_socket_shared::{Instant, Random};

verus! {

/// The scale of probabilities and draws: `LOSS_SCALE` parts make certainty.
pub const LOSS_SCALE: u32 = 1_000_000;

/// The degradation that a link conditioner applies to inbound packets.
#[derive(Clone, Copy, Debug, PartialEq, Eq, Structural)]
pub struct LinkConditionerConfig {
    /// Delay before an inbound packet is handed on, in milliseconds.
    pub latency: u32,
    /// The most that a packet's delay may differ from `latency`, either way,
    /// in milliseconds.
    pub jitter: u32,
    /// The chance that an inbound packet is dropped, in parts per million;
    /// `LOSS_SCALE` or more drops every packet.
    pub loss: u32,
    /// Whether a packet may be handed on before one that arrived earlier.
    pub reorder: bool,
}

impl LinkConditionerConfig {
    pub fn new(latency: u32, jitter: u32, loss: u32, reorder: bool) -> (config:
        LinkConditionerConfig)
        ensures
            config == (LinkConditionerConfig { latency, jitter, loss, reorder }),
    {
        LinkConditionerConfig { latency, jitter, loss, reorder }
    }

    /// A link that loses nothing and delays nothing.
    pub open spec fn is_transparent(&self) -> bool {
        self.loss == 0 && self.latency == 0 && self.jitter == 0
    }

    /// A link that loses every packet.
    pub open spec fn is_severed(&self) -> bool {
        self.loss >= LOSS_SCALE
    }
}

/// The circumstances of one step of a socket.
#[derive(Clone, Copy, Debug, PartialEq, Eq, Structural)]
pub struct Conditions {
    /// The time, in milliseconds since the clock was started.
    pub now: u64,
    /// The draw that decides whether a packet is lost.
    pub loss_roll: u32,
    /// The draw that decides how far a packet's delay is off the latency.
    pub jitter_roll: u32,
    /// Whether that difference is added to the latency or taken from it.
    pub jitter_late: bool,
}

/// A draw as it counts: one above the scale counts as the largest draw.
pub open spec fn draw(roll: u32) -> int {
    if roll < LOSS_SCALE {
        roll as int
    } else {
        LOSS_SCALE - 1
    }
}

/// Whether a packet that arrives under these conditions is lost: its draw
/// falls below the configured chance of loss.
pub open spec fn is_lost(config: LinkConditionerConfig, conditions: Conditions) -> bool {
    draw(conditions.loss_roll) < config.loss
}

/// How far the packet's delay is off the latency: the draw's share of the
/// jitter, rounded down.
pub open spec fn jitter_offset(config: LinkConditionerConfig, conditions: Conditions) -> int {
    (config.jitter * draw(conditions.jitter_roll)) / (LOSS_SCALE as int)
}

/// The delay of a packet that arrives under these conditions, in
/// milliseconds: the latency plus or minus the offset, and never below zero.
pub open spec fn delay(config: LinkConditionerConfig, conditions: Conditions) -> int {
    let offset = jitter_offset(config, conditions);
    if conditions.jitter_late {
        config.latency + offset
    } else if offset <= config.latency {
        config.latency - offset
    } else {
        0
    }
}

/// The time at which such a packet may be handed on; the end of time where
/// the sum does not fit.
pub open spec fn release_time(config: LinkConditionerConfig, conditions: Conditions) -> u64 {
    let at = conditions.now + delay(config, conditions);
    if at <= u64::MAX {
        at as u64
    } else {
        u64::MAX
    }
}

impl Conditions {
    pub fn new(now: u64, loss_roll: u32, jitter_roll: u32, jitter_late: bool) -> (conditions:
        Conditions)
        ensures
            conditions == (Conditions { now, loss_roll, jitter_roll, jitter_late }),
    {
        Conditions { now, loss_roll, jitter_roll, jitter_late }
    }

    /// Reads the clock and makes the draws for one step.
    ///
    /// Time and chance decide the values; both draws are below `LOSS_SCALE`.
    pub fn sample(clock: &Clock) -> (conditions: Conditions)
        ensures
            conditions.loss_roll < LOSS_SCALE,
            conditions.jitter_roll < LOSS_SCALE,
    {
        let now: u64 = elapsed_millis(&clock.origin);
        let loss_roll: u32 = Random::gen_range_u32(0, LOSS_SCALE);
        let jitter_roll: u32 = Random::gen_range_u32(0, LOSS_SCALE);
        let jitter_late: bool = Random::gen_bool();
        Conditions::new(now, loss_roll, jitter_roll, jitter_late)
    }

    /// Whether a packet arriving now is lost under `config`.
    pub fn loses(&self, config: &LinkConditionerConfig) -> (lost: bool)
        ensures
            lost == is_lost(*config, *self),
    {
        let roll: u32 = if self.loss_roll < LOSS_SCALE {
            self.loss_roll
        } else {
            LOSS_SCALE - 1
        };
        roll < config.loss
    }

    /// When a packet arriving now may be handed on under `config`.
    pub fn release_at(&self, config: &LinkConditionerConfig) -> (at: u64)
        ensures
            at == release_time(*config, *self),
    {
        let roll: u64 = if self.jitter_roll < LOSS_SCALE {
            self.jitter_roll as u64
        } else {
            (LOSS_SCALE - 1) as u64
        };
        let jitter: u64 = config.jitter as u64;
        let latency: u64 = config.latency as u64;
        assert(jitter * roll <= 0xffff_ffff * 999_999) by (nonlinear_arith)
            requires
                0 <= jitter <= 0xffff_ffff,
                0 <= roll <= 999_999,
        ;
        let offset: u64 = (jitter * roll) / (LOSS_SCALE as u64);
        let delay: u64 = if self.jitter_late {
            latency + offset
        } else if offset <= latency {
            latency - offset
        } else {
            0
        };
        if delay <= u64::MAX - self.now {
            self.now + delay
        } else {
            u64::MAX
        }
    }
}

/// A clock that counts milliseconds from the moment it was started.
#[derive(Debug)]
pub struct Clock {
    origin: Instant,
}

impl Clock {
    /// A clock that starts now.
    pub fn start() -> Clock {
        Clock { origin: Instant::now() }
    }
}

/// `naia_socket_shared::Instant`: a moment of the machine's monotonic clock,
/// opaque here.
#[verifier::external_type_specification]
#[verifier::external_body]
pub struct ExInstant(Instant);

/// `Instant::now` reads the clock. Nothing is claimed of the moment.
pub assume_specification[ Instant::now ]() -> (moment: Instant);

/// `Random::gen_range_u32` draws from `lower` up to, and not including,
/// `upper`. It panics unless `lower < upper`.
pub assume_specification[ Random::gen_range_u32 ](lower: u32, upper: u32) -> (roll: u32)
    requires
        lower < upper,
    ensures
        lower <= roll < upper,
;

/// `Random::gen_bool` draws a boolean. Nothing is claimed of it.
pub assume_specification[ Random::gen_bool ]() -> (side: bool);

/// `Instant::elapsed` gives the time since the moment, and
/// `Duration::as_millis` its whole milliseconds. Nothing is claimed of the
/// count.
#[verifier::external_body]
fn elapsed_millis(origin: &Instant) -> (millis: u64) {
    origin.elapsed().as_millis() as u64
}

} // verus!
