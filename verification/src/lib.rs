//! A behaviour-based control runtime: behaviour modules and fusion modules
//! exchange typed values through re-wireable ports, compute a clamped
//! meta-signal algebra each cycle, and emit per-cycle telemetry snapshots.

/// The standard meta-signal ports and the periodic module cycle driver.
pub mod behavior_module;
/// Example behaviours: constant velocity, braking, and evasive turning.
pub mod control_system;
/// Fusion nodes that combine the outputs of several modules.
pub mod fusion_module;
/// Hierarchical groups of behaviour modules.
pub mod group;
/// The laws the runtime is built around, stated once and proved.
pub mod laws;
/// Meta-signals: clamped scalars in [0, 1] with saturating algebra.
pub mod meta_signals;
/// Send and receive ports for data transfer between modules.
pub mod port;
/// The tagged telemetry value and the per-cycle snapshot record.
pub mod shared_data;
/// Dimensioned quantities in fixed point, with unit labels.
pub mod si_units;
/// Static descriptions of a behaviour network layout.
pub mod structure;
/// Telemetry plumbing: the hierarchical path record, the single-slot buffer,
/// and the length-prefixed wire framing.
pub mod telemetry;
/// Small verified text helpers: decimal rendering.
pub mod text;
/// Traits defining the behaviour of modules and their serialisation hooks.
pub mod traits;
/// Fixed-size vectors of integer quantities.
pub mod vector;
