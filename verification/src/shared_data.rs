use vstd::prelude::*;

use crate::meta_signals::MetaSignal;

verus! {

/// The tagged wire value for one port payload. Fractional quantities are
/// carried in fixed point: a `Float` or an `SiValue` holds micro-units, so
/// one million raw units stand for 1.0.
#[derive(Clone, Debug, PartialEq, Eq)]
pub enum PortData {
    Float(i64),
    Int(i64),
    Unsigned(u64),
    Bool(bool),
    String(String),
    MetaSignal(MetaSignal),
    SiValue { value: i64, unit: String },
}

/// The telemetry record one driver emits after each cycle: the cycle counter,
/// the wall time the cycle took, the module's hierarchical path, its four
/// meta-signals, and every user port's tagged value.
#[derive(Clone, Debug)]
pub struct SharedData {
    pub index: u64,
    pub activity: MetaSignal,
    pub target_rating: MetaSignal,
    pub stimulation: MetaSignal,
    pub inhibition: MetaSignal,
    pub active_time_micros: u64,
    pub source: String,
    pub data: Vec<(String, PortData)>,
}

} // verus!
