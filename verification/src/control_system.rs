use vstd::prelude::*;

use crate::meta_signals::{MetaSignal, META_SCALE};
use crate::port::{ParameterPort, PortHub, ReceivePort, SendPort};
use crate::shared_data::PortData;
use crate::si_units::{SiUnit, SiValue, SI_SCALE};
use crate::traits::{Module, PortParsing, PortSerialization, UpdateReceivePorts};

verus! {

/// The dimension of a distance, for contracts.
pub open spec fn metre_dims() -> SiUnit {
    SiUnit { metre: 1i64, kilogram: 0i64, second: 0i64, ampere: 0i64, kelvin: 0i64 }
}

/// The dimension of a velocity, for contracts.
pub open spec fn velocity_dims() -> SiUnit {
    SiUnit { metre: 1i64, kilogram: 0i64, second: -1i64, ampere: 0i64, kelvin: 0i64 }
}

/// The dimension of a turn rate, for contracts.
pub open spec fn turn_rate_dims() -> SiUnit {
    SiUnit { metre: 0i64, kilogram: 0i64, second: -1i64, ampere: 0i64, kelvin: 0i64 }
}

impl Default for SiValue {
    /// The default quantity: a bare zero.
    fn default() -> (r: Self)
        ensures
            r.spec_micros() == 0,
            r.spec_unit() == (SiUnit {
                metre: 0i64,
                kilogram: 0i64,
                second: 0i64,
                ampere: 0i64,
                kelvin: 0i64,
            }),
    {
        SiValue::new(0, SiUnit::scalar())
    }
}

/// The braking decision: an obstacle inside the configured minimum distance
/// commands a full stop — zero metres per second — and beyond the minimum
/// nothing is commanded.
pub fn brake_velocity(distance: SiValue, min_distance: SiValue) -> (r: Option<SiValue>)
    requires
        distance.spec_unit() == metre_dims(),
        min_distance.spec_unit() == distance.spec_unit(),
    ensures
        r is Some <==> distance.spec_micros() < min_distance.spec_micros(),
        r matches Some(v) ==> v.spec_micros() == 0 && v.spec_unit() == velocity_dims(),
{
    if distance.lt(min_distance) {
        Some(SiValue::new(0, SiUnit::metres_per_second()))
    } else {
        None
    }
}

/// The evasive-turn decision: with no distance reading nothing is
/// commanded; with an obstacle closer than the configured minimum the turn
/// is one radian per second away from the nearer side (negative when the
/// left is nearer); otherwise the commanded turn rate is zero.
pub fn turn_away_rate(
    distance: Option<SiValue>,
    left: SiValue,
    right: SiValue,
    min_distance: SiValue,
) -> (r: Option<SiValue>)
    requires
        left.spec_unit() == metre_dims(),
        right.spec_unit() == left.spec_unit(),
        min_distance.spec_unit() == left.spec_unit(),
        distance matches Some(d) ==> d.spec_unit() == left.spec_unit(),
    ensures
        r is Some <==> distance is Some,
        distance matches Some(d) ==> (r matches Some(v) && v.spec_unit() == turn_rate_dims()
            && v.spec_micros() == (if d.spec_micros() < min_distance.spec_micros() {
            if left.spec_micros() < right.spec_micros() {
                -(SI_SCALE as int)
            } else {
                SI_SCALE as int
            }
        } else {
            0
        })),
{
    match distance {
        Some(d) => {
            if d.lt(min_distance) {
                if left.lt(right) {
                    Some(SiValue::new(-SI_SCALE, SiUnit::radians_per_second()))
                } else {
                    Some(SiValue::new(SI_SCALE, SiUnit::radians_per_second()))
                }
            } else {
                Some(SiValue::new(0, SiUnit::radians_per_second()))
            }
        },
        None => None,
    }
}

} // verus!

verus! {

/// Brakes to a full stop while the front distance sensor reports an
/// obstacle inside the configured minimum distance.
pub struct BreakOnObstacle {
    pub par_min_distance: ParameterPort<SiValue>,
    pub in_distance: ReceivePort<SiValue>,
    pub out_velocity: SendPort<SiValue>,
    pub obstacle_detected: bool,
}

impl BreakOnObstacle {
    /// Whether the last transfer saw an obstacle inside the minimum
    /// distance.
    pub open spec fn spec_obstacle_detected(self) -> bool {
        self.obstacle_detected
    }

    /// The distance the behaviour acts on: the received snapshot, or zero
    /// metres when no reading arrived yet.
    pub open spec fn spec_distance_micros(self) -> int {
        match self.in_distance.snapshot() {
            Some(v) => v.spec_micros(),
            None => 0,
        }
    }

    /// The behaviour's inputs carry the dimensions the decision expects.
    pub open spec fn inputs_in_model(self) -> bool {
        &&& (match self.in_distance.snapshot() {
            Some(v) => v.spec_unit() == metre_dims(),
            None => true,
        })
        &&& self.par_min_distance.snapshot().spec_unit() == metre_dims()
    }
}

impl UpdateReceivePorts<PortHub<SiValue>> for BreakOnObstacle {
    closed spec fn ctx_inv(&self, ctx: PortHub<SiValue>) -> bool {
        &&& ctx.wf()
        &&& 0 <= self.par_min_distance.port_id() < ctx@.len()
        &&& 0 <= self.in_distance.port_id() < ctx@.len()
        &&& 0 <= self.out_velocity.port_id() < ctx@.len()
    }

    fn update_all_ports(&mut self, ctx: &mut PortHub<SiValue>)
        ensures
            *final(ctx) == *old(ctx),
            final(self).out_velocity == old(self).out_velocity,
            final(self).par_min_distance.port_id() == old(self).par_min_distance.port_id(),
            final(self).in_distance.port_id() == old(self).in_distance.port_id(),
            final(self).spec_obstacle_detected() == old(self).spec_obstacle_detected(),
            old(ctx).stored(old(self).par_min_distance.port_id()) matches Some(v) ==> final(self).par_min_distance.snapshot() == v,
            final(self).in_distance.snapshot() == old(ctx).stored(
                old(self).in_distance.port_id(),
            ),
    {
        self.par_min_distance.update_copied(ctx);
        self.in_distance.update_copied(ctx);
    }
}

impl PortParsing<PortHub<SiValue>> for BreakOnObstacle {
    closed spec fn spec_is_port_listing(
        &self,
        ctx: PortHub<SiValue>,
        listing: Seq<(String, PortData)>,
    ) -> bool {
        let has_in = self.in_distance.snapshot() is Some;
        let has_out = ctx.stored(self.out_velocity.port_id()) is Some;
        let out_idx = if has_in {
            2int
        } else {
            1int
        };
        &&& listing.len() == 1 + (if has_in {
            1int
        } else {
            0int
        }) + (if has_out {
            1int
        } else {
            0int
        })
        &&& listing[0].0@ == "par_min_distance"@
        &&& self.par_min_distance.snapshot().spec_is_port_data(listing[0].1)
        &&& (has_in ==> listing[1].0@ == "in_distance"@
            && self.in_distance.snapshot().unwrap().spec_is_port_data(listing[1].1))
        &&& (has_out ==> listing[out_idx].0@ == "out_velocity"@ && ctx.stored(
            self.out_velocity.port_id(),
        ).unwrap().spec_is_port_data(listing[out_idx].1))
    }

    fn all_port_data(&self, ctx: &PortHub<SiValue>) -> (r: Vec<(String, PortData)>) {
        let mut data: Vec<(String, PortData)> = Vec::new();
        data.push(("par_min_distance".to_owned(), self.par_min_distance.get().serialize_port_data()));
        match self.in_distance.get() {
            Some(v) => {
                data.push(("in_distance".to_owned(), v.serialize_port_data()));
            },
            None => {},
        }
        match self.out_velocity.get(ctx) {
            Some(v) => {
                data.push(("out_velocity".to_owned(), v.serialize_port_data()));
            },
            None => {},
        }
        data
    }
}

impl Module<PortHub<SiValue>> for BreakOnObstacle {
    open spec fn ctx_ready(ctx: PortHub<SiValue>) -> bool {
        &&& ctx.wf()
        &&& ctx@.len() + 3 <= usize::MAX
    }

    fn init(ctx: &mut PortHub<SiValue>) -> (r: Self)
        ensures
            !r.spec_obstacle_detected(),
            r.in_distance.snapshot() is None,
            r.par_min_distance.snapshot().spec_micros() == SI_SCALE,
            r.par_min_distance.snapshot().spec_unit() == metre_dims(),
            final(ctx)@.len() == old(ctx)@.len() + 3,
    {
        let par_min_distance = ParameterPort::with_value(
            ctx,
            SiValue::new(SI_SCALE, SiUnit::metres()),
        );
        let in_distance = ReceivePort::new(ctx);
        let out_velocity = SendPort::new(ctx);
        BreakOnObstacle { par_min_distance, in_distance, out_velocity, obstacle_detected: false }
    }

    fn transfere(&mut self, ctx: &mut PortHub<SiValue>, _delta_time_micros: u64)
        ensures
            final(self).par_min_distance == old(self).par_min_distance,
            final(self).in_distance == old(self).in_distance,
            final(self).out_velocity == old(self).out_velocity,
            !old(self).inputs_in_model() ==> *final(ctx) == *old(ctx) && final(self).spec_obstacle_detected() == old(self).spec_obstacle_detected(),
            old(self).inputs_in_model() ==> {
                let obstructed = old(self).spec_distance_micros() < old(self).par_min_distance.snapshot().spec_micros();
                &&& final(self).spec_obstacle_detected() == obstructed
                &&& (!obstructed ==> *final(ctx) == *old(ctx))
                &&& (obstructed ==> {
                    &&& final(ctx)@.len() == old(ctx)@.len()
                    &&& (final(ctx).stored(old(self).out_velocity.port_id()) matches Some(v)
                        && v.spec_micros() == 0 && v.spec_unit() == velocity_dims())
                    &&& forall|k: int|
                        0 <= k < old(ctx)@.len() ==> #[trigger] final(ctx).terminus(k) == old(ctx).terminus(k)
                    &&& forall|k: int|
                        0 <= k < old(ctx)@.len() && old(ctx).terminus(k) != old(ctx).terminus(
                            old(self).out_velocity.port_id(),
                        ) ==> #[trigger] final(ctx).stored(k) == old(ctx).stored(k)
                })
            },
    {
        let distance = match self.in_distance.get() {
            Some(v) => *v,
            None => SiValue::new(0, SiUnit::metres()),
        };
        let min_distance = *self.par_min_distance.get();
        let metres = SiUnit::metres();
        if distance.unit() == metres && min_distance.unit() == metres {
            match brake_velocity(distance, min_distance) {
                Some(v) => {
                    self.obstacle_detected = true;
                    self.out_velocity.send(ctx, v);
                },
                None => {
                    self.obstacle_detected = false;
                },
            }
        }
    }

    fn target_rating(&self) -> (r: MetaSignal)
        ensures
            r.value() == (if self.spec_obstacle_detected() {
                META_SCALE as int
            } else {
                0int
            }),
    {
        if self.obstacle_detected {
            MetaSignal::high()
        } else {
            MetaSignal::low()
        }
    }
}

} // verus!

verus! {

/// Publishes a constant velocity, taken from its parameter port, every
/// cycle; always fully confident.
pub struct ConstantVelocity {
    pub par_velocity: ParameterPort<SiValue>,
    pub out_velocity: SendPort<SiValue>,
}

impl UpdateReceivePorts<PortHub<SiValue>> for ConstantVelocity {
    closed spec fn ctx_inv(&self, ctx: PortHub<SiValue>) -> bool {
        &&& ctx.wf()
        &&& 0 <= self.par_velocity.port_id() < ctx@.len()
        &&& 0 <= self.out_velocity.port_id() < ctx@.len()
    }

    fn update_all_ports(&mut self, ctx: &mut PortHub<SiValue>)
        ensures
            *final(ctx) == *old(ctx),
            final(self).out_velocity == old(self).out_velocity,
            final(self).par_velocity.port_id() == old(self).par_velocity.port_id(),
            old(ctx).stored(old(self).par_velocity.port_id()) matches Some(v) ==> final(self).par_velocity.snapshot() == v,
    {
        self.par_velocity.update_copied(ctx);
    }
}

impl PortParsing<PortHub<SiValue>> for ConstantVelocity {
    closed spec fn spec_is_port_listing(
        &self,
        ctx: PortHub<SiValue>,
        listing: Seq<(String, PortData)>,
    ) -> bool {
        let has_out = ctx.stored(self.out_velocity.port_id()) is Some;
        &&& listing.len() == 1 + (if has_out {
            1int
        } else {
            0int
        })
        &&& listing[0].0@ == "par_velocity"@
        &&& self.par_velocity.snapshot().spec_is_port_data(listing[0].1)
        &&& (has_out ==> listing[1].0@ == "out_velocity"@ && ctx.stored(
            self.out_velocity.port_id(),
        ).unwrap().spec_is_port_data(listing[1].1))
    }

    fn all_port_data(&self, ctx: &PortHub<SiValue>) -> (r: Vec<(String, PortData)>) {
        let mut data: Vec<(String, PortData)> = Vec::new();
        data.push(("par_velocity".to_owned(), self.par_velocity.get().serialize_port_data()));
        match self.out_velocity.get(ctx) {
            Some(v) => {
                data.push(("out_velocity".to_owned(), v.serialize_port_data()));
            },
            None => {},
        }
        data
    }
}

impl Module<PortHub<SiValue>> for ConstantVelocity {
    open spec fn ctx_ready(ctx: PortHub<SiValue>) -> bool {
        &&& ctx.wf()
        &&& ctx@.len() + 2 <= usize::MAX
    }

    fn init(ctx: &mut PortHub<SiValue>) -> (r: Self)
        ensures
            r.par_velocity.snapshot().spec_micros() == SI_SCALE,
            r.par_velocity.snapshot().spec_unit() == velocity_dims(),
            final(ctx)@.len() == old(ctx)@.len() + 2,
    {
        let par_velocity = ParameterPort::with_value(
            ctx,
            SiValue::new(SI_SCALE, SiUnit::metres_per_second()),
        );
        let out_velocity = SendPort::new(ctx);
        ConstantVelocity { par_velocity, out_velocity }
    }

    fn transfere(&mut self, ctx: &mut PortHub<SiValue>, _delta_time_micros: u64)
        ensures
            *final(self) == *old(self),
            final(ctx)@.len() == old(ctx)@.len(),
            final(ctx).stored(old(self).out_velocity.port_id()) == Some(
                old(self).par_velocity.snapshot(),
            ),
            forall|k: int|
                0 <= k < old(ctx)@.len() ==> #[trigger] final(ctx).terminus(k) == old(ctx).terminus(k),
            forall|k: int|
                0 <= k < old(ctx)@.len() && old(ctx).terminus(k) != old(ctx).terminus(
                    old(self).out_velocity.port_id(),
                ) ==> #[trigger] final(ctx).stored(k) == old(ctx).stored(k),
    {
        let velocity = *self.par_velocity.get();
        self.out_velocity.send(ctx, velocity);
    }

    fn target_rating(&self) -> (r: MetaSignal)
        ensures
            r.value() == META_SCALE as int,
    {
        MetaSignal::high()
    }
}

} // verus!

verus! {

/// Turns away from a close obstacle, one radian per second toward the side
/// with more room; confident only while an obstacle is inside the minimum
/// distance.
pub struct TurnAway {
    pub par_min_distance: ParameterPort<SiValue>,
    pub in_distance: ReceivePort<SiValue>,
    pub in_left_distance: ReceivePort<SiValue>,
    pub in_right_distance: ReceivePort<SiValue>,
    pub out_turn_rate: SendPort<SiValue>,
    pub obstacle_detected: bool,
}

impl TurnAway {
    /// Whether the last transfer saw an obstacle inside the minimum
    /// distance.
    pub open spec fn spec_obstacle_detected(self) -> bool {
        self.obstacle_detected
    }

    /// A side distance the behaviour acts on: the received snapshot, or
    /// zero metres when no reading arrived yet.
    pub open spec fn side_micros(snapshot: Option<SiValue>) -> int {
        match snapshot {
            Some(v) => v.spec_micros(),
            None => 0,
        }
    }

    /// The behaviour's inputs carry the dimensions the decision expects.
    pub open spec fn inputs_in_model(self) -> bool {
        &&& (match self.in_distance.snapshot() {
            Some(v) => v.spec_unit() == metre_dims(),
            None => true,
        })
        &&& (match self.in_left_distance.snapshot() {
            Some(v) => v.spec_unit() == metre_dims(),
            None => true,
        })
        &&& (match self.in_right_distance.snapshot() {
            Some(v) => v.spec_unit() == metre_dims(),
            None => true,
        })
        &&& self.par_min_distance.snapshot().spec_unit() == metre_dims()
    }
}

impl UpdateReceivePorts<PortHub<SiValue>> for TurnAway {
    closed spec fn ctx_inv(&self, ctx: PortHub<SiValue>) -> bool {
        &&& ctx.wf()
        &&& 0 <= self.par_min_distance.port_id() < ctx@.len()
        &&& 0 <= self.in_distance.port_id() < ctx@.len()
        &&& 0 <= self.in_left_distance.port_id() < ctx@.len()
        &&& 0 <= self.in_right_distance.port_id() < ctx@.len()
        &&& 0 <= self.out_turn_rate.port_id() < ctx@.len()
    }

    fn update_all_ports(&mut self, ctx: &mut PortHub<SiValue>)
        ensures
            *final(ctx) == *old(ctx),
            final(self).out_turn_rate == old(self).out_turn_rate,
            final(self).par_min_distance.port_id() == old(self).par_min_distance.port_id(),
            final(self).in_distance.port_id() == old(self).in_distance.port_id(),
            final(self).in_left_distance.port_id() == old(self).in_left_distance.port_id(),
            final(self).in_right_distance.port_id() == old(self).in_right_distance.port_id(),
            final(self).spec_obstacle_detected() == old(self).spec_obstacle_detected(),
            old(ctx).stored(old(self).par_min_distance.port_id()) matches Some(v) ==> final(self).par_min_distance.snapshot() == v,
            final(self).in_distance.snapshot() == old(ctx).stored(
                old(self).in_distance.port_id(),
            ),
            final(self).in_left_distance.snapshot() == old(ctx).stored(
                old(self).in_left_distance.port_id(),
            ),
            final(self).in_right_distance.snapshot() == old(ctx).stored(
                old(self).in_right_distance.port_id(),
            ),
    {
        self.par_min_distance.update_copied(ctx);
        self.in_distance.update_copied(ctx);
        self.in_left_distance.update_copied(ctx);
        self.in_right_distance.update_copied(ctx);
    }
}

impl PortParsing<PortHub<SiValue>> for TurnAway {
    closed spec fn spec_is_port_listing(
        &self,
        ctx: PortHub<SiValue>,
        listing: Seq<(String, PortData)>,
    ) -> bool {
        let has_d = self.in_distance.snapshot() is Some;
        let has_l = self.in_left_distance.snapshot() is Some;
        let has_r = self.in_right_distance.snapshot() is Some;
        let has_out = ctx.stored(self.out_turn_rate.port_id()) is Some;
        let i_d = 1int;
        let i_l = i_d + (if has_d {
            1int
        } else {
            0int
        });
        let i_r = i_l + (if has_l {
            1int
        } else {
            0int
        });
        let i_out = i_r + (if has_r {
            1int
        } else {
            0int
        });
        &&& listing.len() == i_out + (if has_out {
            1int
        } else {
            0int
        })
        &&& listing[0].0@ == "par_min_distance"@
        &&& self.par_min_distance.snapshot().spec_is_port_data(listing[0].1)
        &&& (has_d ==> listing[i_d].0@ == "in_distance"@
            && self.in_distance.snapshot().unwrap().spec_is_port_data(listing[i_d].1))
        &&& (has_l ==> listing[i_l].0@ == "in_left_distance"@
            && self.in_left_distance.snapshot().unwrap().spec_is_port_data(listing[i_l].1))
        &&& (has_r ==> listing[i_r].0@ == "in_right_distance"@
            && self.in_right_distance.snapshot().unwrap().spec_is_port_data(listing[i_r].1))
        &&& (has_out ==> listing[i_out].0@ == "out_turn_rate"@ && ctx.stored(
            self.out_turn_rate.port_id(),
        ).unwrap().spec_is_port_data(listing[i_out].1))
    }

    fn all_port_data(&self, ctx: &PortHub<SiValue>) -> (r: Vec<(String, PortData)>) {
        let mut data: Vec<(String, PortData)> = Vec::new();
        data.push(("par_min_distance".to_owned(), self.par_min_distance.get().serialize_port_data()));
        match self.in_distance.get() {
            Some(v) => {
                data.push(("in_distance".to_owned(), v.serialize_port_data()));
            },
            None => {},
        }
        match self.in_left_distance.get() {
            Some(v) => {
                data.push(("in_left_distance".to_owned(), v.serialize_port_data()));
            },
            None => {},
        }
        match self.in_right_distance.get() {
            Some(v) => {
                data.push(("in_right_distance".to_owned(), v.serialize_port_data()));
            },
            None => {},
        }
        match self.out_turn_rate.get(ctx) {
            Some(v) => {
                data.push(("out_turn_rate".to_owned(), v.serialize_port_data()));
            },
            None => {},
        }
        data
    }
}

impl Module<PortHub<SiValue>> for TurnAway {
    open spec fn ctx_ready(ctx: PortHub<SiValue>) -> bool {
        &&& ctx.wf()
        &&& ctx@.len() + 5 <= usize::MAX
    }

    fn init(ctx: &mut PortHub<SiValue>) -> (r: Self)
        ensures
            !r.spec_obstacle_detected(),
            r.in_distance.snapshot() is None,
            r.par_min_distance.snapshot().spec_micros() == 2 * SI_SCALE,
            r.par_min_distance.snapshot().spec_unit() == metre_dims(),
            final(ctx)@.len() == old(ctx)@.len() + 5,
    {
        let par_min_distance = ParameterPort::with_value(
            ctx,
            SiValue::new(2 * SI_SCALE, SiUnit::metres()),
        );
        let in_distance = ReceivePort::new(ctx);
        let in_left_distance = ReceivePort::new(ctx);
        let in_right_distance = ReceivePort::new(ctx);
        let out_turn_rate = SendPort::new(ctx);
        TurnAway {
            par_min_distance,
            in_distance,
            in_left_distance,
            in_right_distance,
            out_turn_rate,
            obstacle_detected: false,
        }
    }

    fn transfere(&mut self, ctx: &mut PortHub<SiValue>, _delta_time_micros: u64)
        ensures
            final(self).par_min_distance == old(self).par_min_distance,
            final(self).in_distance == old(self).in_distance,
            final(self).in_left_distance == old(self).in_left_distance,
            final(self).in_right_distance == old(self).in_right_distance,
            final(self).out_turn_rate == old(self).out_turn_rate,
            old(self).in_distance.snapshot() is None ==> *final(ctx) == *old(ctx) && final(self).spec_obstacle_detected() == old(self).spec_obstacle_detected(),
            !old(self).inputs_in_model() ==> *final(ctx) == *old(ctx) && final(self).spec_obstacle_detected() == old(self).spec_obstacle_detected(),
            old(self).in_distance.snapshot() matches Some(d) ==> old(self).inputs_in_model() ==> {
                let obstructed = d.spec_micros() < old(self).par_min_distance.snapshot().spec_micros();
                &&& final(self).spec_obstacle_detected() == obstructed
                &&& final(ctx)@.len() == old(ctx)@.len()
                &&& (final(ctx).stored(old(self).out_turn_rate.port_id()) matches Some(v)
                    && v.spec_unit() == turn_rate_dims() && v.spec_micros() == (if obstructed {
                    if TurnAway::side_micros(old(self).in_left_distance.snapshot())
                        < TurnAway::side_micros(old(self).in_right_distance.snapshot()) {
                        -(SI_SCALE as int)
                    } else {
                        SI_SCALE as int
                    }
                } else {
                    0int
                }))
                &&& forall|k: int|
                    0 <= k < old(ctx)@.len() ==> #[trigger] final(ctx).terminus(k) == old(ctx).terminus(k)
                &&& forall|k: int|
                    0 <= k < old(ctx)@.len() && old(ctx).terminus(k) != old(ctx).terminus(
                        old(self).out_turn_rate.port_id(),
                    ) ==> #[trigger] final(ctx).stored(k) == old(ctx).stored(k)
            },
    {
        let distance = match self.in_distance.get() {
            Some(v) => Some(*v),
            None => None,
        };
        let zero = SiValue::new(0, SiUnit::metres());
        let left = match self.in_left_distance.get() {
            Some(v) => *v,
            None => zero,
        };
        let right = match self.in_right_distance.get() {
            Some(v) => *v,
            None => zero,
        };
        let min_distance = *self.par_min_distance.get();
        let metres = SiUnit::metres();
        let units_ok = left.unit() == metres && right.unit() == metres && min_distance.unit()
            == metres && (match distance {
            Some(d) => d.unit() == metres,
            None => true,
        });
        if units_ok {
            match turn_away_rate(distance, left, right, min_distance) {
                Some(rate) => {
                    self.out_turn_rate.send(ctx, rate);
                    self.obstacle_detected = match distance {
                        Some(d) => d.lt(min_distance),
                        None => false,
                    };
                },
                None => {},
            }
        }
    }

    fn target_rating(&self) -> (r: MetaSignal)
        ensures
            r.value() == (if self.spec_obstacle_detected() {
                META_SCALE as int
            } else {
                0int
            }),
    {
        if self.obstacle_detected {
            MetaSignal::high()
        } else {
            MetaSignal::low()
        }
    }
}

} // verus!
