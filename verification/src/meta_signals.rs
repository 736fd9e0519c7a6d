use vstd::prelude::*;

verus! {

/// Meta-signals are stored in fixed point: a signal is `raw / META_SCALE`,
/// so `META_SCALE` raw units stand for the value 1.0.
pub const META_SCALE: u32 = 1_000_000;

/// A behaviour meta-signal: a scalar confined to the closed interval [0, 1].
///
/// `LOW` is 0, `HIGH` is 1; every operation clamps its result back into the
/// interval. The runtime uses meta-signals for activity, target rating,
/// stimulation and inhibition.
#[derive(Copy, Debug, PartialEq, Eq, Structural)]
pub struct MetaSignal {
    raw: u32,
}

impl Clone for MetaSignal {
    fn clone(&self) -> (r: Self)
        ensures
            r == *self,
    {
        *self
    }
}

/// The stimulation a module acts on: the received value, or HIGH when no
/// producer is connected, so that unconnected modules run by default.
pub open spec fn stim_or_default(received: Option<MetaSignal>) -> int {
    match received {
        Some(s) => s.value(),
        None => META_SCALE as int,
    }
}

/// The inhibition a module acts on: the received value, or LOW when no
/// producer is connected, so that unconnected modules are not suppressed.
pub open spec fn inhib_or_default(received: Option<MetaSignal>) -> int {
    match received {
        Some(s) => s.value(),
        None => 0,
    }
}

/// The potential of a module: min(stimulation, 1 - inhibition).
pub open spec fn spec_potential(stimulation: int, inhibition: int) -> int {
    vstd::math::min(stimulation, META_SCALE - inhibition)
}

/// The activity of a module: min(potential, target rating).
pub open spec fn spec_activity(potential: int, target: int) -> int {
    vstd::math::min(potential, target)
}

impl MetaSignal {
    #[verifier::type_invariant]
    spec fn inv(self) -> bool {
        self.raw <= META_SCALE
    }

    /// The signal as a count of raw fixed-point units in [0, META_SCALE].
    pub closed spec fn value(self) -> int {
        self.raw as int
    }

    /// A signal is never negative, whatever its provenance.
    pub proof fn lemma_value_nonneg(s: MetaSignal)
        ensures
            s.value() >= 0,
    {
    }

    /// The signal 0.0: no activity, no suppression.
    pub fn low() -> (r: Self)
        ensures
            r.value() == 0,
    {
        MetaSignal { raw: 0 }
    }

    /// The signal 1.0: full activity, full suppression.
    pub fn high() -> (r: Self)
        ensures
            r.value() == META_SCALE,
    {
        MetaSignal { raw: META_SCALE }
    }

    /// Builds a signal from raw fixed-point units, silently clamping into
    /// [0, META_SCALE].
    pub fn from_millionths(raw: u32) -> (r: Self)
        ensures
            r.value() == if raw <= META_SCALE {
                raw as int
            } else {
                META_SCALE as int
            },
    {
        if raw <= META_SCALE {
            MetaSignal { raw }
        } else {
            MetaSignal { raw: META_SCALE }
        }
    }

    /// The raw fixed-point units of the signal.
    pub fn as_millionths(self) -> (r: u32)
        ensures
            r as int == self.value(),
    {
        self.raw
    }

    /// The smaller of two signals.
    pub fn min(a: Self, b: Self) -> (r: Self)
        ensures
            r.value() == vstd::math::min(a.value(), b.value()),
    {
        if a.raw <= b.raw {
            a
        } else {
            b
        }
    }

    /// Logical negation: 1 - self.
    pub fn complement(self) -> (r: Self)
        ensures
            r.value() == META_SCALE - self.value(),
    {
        proof {
            use_type_invariant(self);
        }
        MetaSignal { raw: META_SCALE - self.raw }
    }

    /// Strict order on signal values.
    pub fn lt(self, other: Self) -> (r: bool)
        ensures
            r == (self.value() < other.value()),
    {
        self.raw < other.raw
    }

    /// Non-strict order on signal values.
    pub fn le(self, other: Self) -> (r: bool)
        ensures
            r == (self.value() <= other.value()),
    {
        self.raw <= other.raw
    }
}

/// One round of the meta-signal arithmetic a module performs each cycle:
/// a missing stimulation defaults to HIGH, a missing inhibition to LOW,
/// `potential = min(stimulation, 1 - inhibition)` and
/// `activity = min(potential, target)`. Returns `(potential, activity)`.
pub fn compute_meta_signals(
    stimulation: Option<MetaSignal>,
    inhibition: Option<MetaSignal>,
    target: MetaSignal,
) -> (r: (MetaSignal, MetaSignal))
    ensures
        r.0.value() == spec_potential(
            stim_or_default(stimulation),
            inhib_or_default(inhibition),
        ),
        r.1.value() == spec_activity(r.0.value(), target.value()),
        // The activity never exceeds any of its three bounds.
        r.1.value() <= stim_or_default(stimulation),
        r.1.value() <= META_SCALE - inhib_or_default(inhibition),
        r.1.value() <= target.value(),
        // Potential and activity stay clamped into [0, 1].
        0 <= r.0.value() <= META_SCALE,
        0 <= r.1.value() <= META_SCALE,
{
    let stim = match stimulation {
        Some(s) => s,
        None => MetaSignal::high(),
    };
    let inhib = match inhibition {
        Some(s) => s,
        None => MetaSignal::low(),
    };
    proof {
        use_type_invariant(stim);
        use_type_invariant(inhib);
        use_type_invariant(target);
    }
    let potential = MetaSignal::min(stim, inhib.complement());
    let activity = MetaSignal::min(potential, target);
    (potential, activity)
}

} // verus!
