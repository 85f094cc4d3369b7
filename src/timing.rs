//! Timing templates: each named level maps to a per-probe delay and timeout.
use vstd::prelude::*;

verus! {

/// Aggressiveness levels, from the slowest and stealthiest to the fastest.
#[derive(Debug, Clone, Copy, PartialEq, Eq, Structural)]
pub enum Timing {
    Paranoid,
    Sneaky,
    Polite,
    Normal,
    Aggressive,
    Insane,
    Apocalyptic,
}

/// Position of a level in the order from slowest (0) to fastest (6).
pub open spec fn timing_rank(t: Timing) -> nat {
    match t {
        Timing::Paranoid => 0,
        Timing::Sneaky => 1,
        Timing::Polite => 2,
        Timing::Normal => 3,
        Timing::Aggressive => 4,
        Timing::Insane => 5,
        Timing::Apocalyptic => 6,
    }
}

/// Delay observed before each rate-limited probe, in milliseconds.
pub open spec fn delay_ms(t: Timing) -> nat {
    match t {
        Timing::Paranoid => 60000,
        Timing::Sneaky => 10000,
        Timing::Polite => 2000,
        Timing::Normal => 200,
        Timing::Aggressive => 20,
        Timing::Insane => 2,
        Timing::Apocalyptic => 0,
    }
}

/// Per-probe timeout, in milliseconds.
pub open spec fn timeout_ms(t: Timing) -> nat {
    match t {
        Timing::Paranoid => 20000,
        Timing::Sneaky => 10000,
        Timing::Polite => 5000,
        Timing::Normal => 2000,
        Timing::Aggressive => 1000,
        Timing::Insane => 200,
        Timing::Apocalyptic => 50,
    }
}

/// The delay of a template, in milliseconds.
pub fn get_timing_delay(timing: &Timing) -> (r: u64)
    ensures
        r == delay_ms(*timing),
{
    match timing {
        Timing::Paranoid => 60000,
        Timing::Sneaky => 10000,
        Timing::Polite => 2000,
        Timing::Normal => 200,
        Timing::Aggressive => 20,
        Timing::Insane => 2,
        Timing::Apocalyptic => 0,
    }
}

/// The per-probe timeout of a template, in milliseconds.
pub fn get_timing_timeout(timing: &Timing) -> (r: u64)
    ensures
        r == timeout_ms(*timing),
{
    match timing {
        Timing::Paranoid => 20000,
        Timing::Sneaky => 10000,
        Timing::Polite => 5000,
        Timing::Normal => 2000,
        Timing::Aggressive => 1000,
        Timing::Insane => 200,
        Timing::Apocalyptic => 50,
    }
}

/// Slower templates never wait less nor give up sooner than faster ones:
/// if `a` is at most as aggressive as `b`, both its delay and its timeout
/// are at least those of `b`.
pub proof fn lemma_timing_monotonic(a: Timing, b: Timing)
    requires
        timing_rank(a) <= timing_rank(b),
    ensures
        delay_ms(a) >= delay_ms(b),
        timeout_ms(a) >= timeout_ms(b),
{
}

} // verus!
