use rust_ib2c::behavior_module::{BehaviorModule, MetaPorts};
use rust_ib2c::control_system::{BreakOnObstacle, ConstantVelocity};
use rust_ib2c::fusion_module::MaximumFusion;
use rust_ib2c::group::BehaviorGroup;
use rust_ib2c::meta_signals::{MetaSignal, META_SCALE};
use rust_ib2c::port::{InputPort, OutputPort, PortHub, ReceivePort, SendPort};
use rust_ib2c::si_units::{SiUnit, SiValue, SI_SCALE};
use rust_ib2c::telemetry::Parent;
use rust_ib2c::traits::Group;

/// The velocity-control group of the demo system: a braking behaviour and a
/// constant-velocity behaviour fused by maximum activity, with the fusion
/// node as the group's characteristic module.
#[derive(Default)]
struct VelocityControl {
    in_front_distance_sensor: Option<ReceivePort<SiValue>>,
    out_velocity: Option<SendPort<SiValue>>,
    brake: Option<BehaviorModule<BreakOnObstacle>>,
    constant: Option<BehaviorModule<ConstantVelocity>>,
    fusion: Option<MaximumFusion<SiValue>>,
}

impl Group<PortHub<SiValue>> for VelocityControl {
    fn init(
        &mut self,
        cycle_time_micros: u64,
        parent: &Parent,
        group_meta: &MetaPorts,
        meta_hub: &mut PortHub<MetaSignal>,
        ctx: &mut PortHub<SiValue>,
    ) {
        let in_front: ReceivePort<SiValue> = ReceivePort::new(ctx);
        let out_velocity: SendPort<SiValue> = SendPort::new(ctx);

        let brake: BehaviorModule<BreakOnObstacle> =
            BehaviorModule::with_name("BreakOnObstacle", cycle_time_micros, parent, meta_hub, ctx, 0);
        brake.module.in_distance.connect_to_source(ctx, &in_front.port());

        let constant: BehaviorModule<ConstantVelocity> =
            BehaviorModule::with_name("ConstantVelocity", cycle_time_micros, parent, meta_hub, ctx, 0);

        let mut fusion: MaximumFusion<SiValue> =
            MaximumFusion::with_name("MaximumFusion", cycle_time_micros, parent, meta_hub, ctx);
        fusion.connect_module(meta_hub, ctx, &brake.meta, &brake.module.out_velocity);
        fusion.connect_module(meta_hub, ctx, &constant.meta, &constant.module.out_velocity);

        out_velocity.connect_to_source(ctx, &fusion.output.port());
        group_meta.set_characteristic_module(meta_hub, &fusion.meta);

        self.in_front_distance_sensor = Some(in_front);
        self.out_velocity = Some(out_velocity);
        self.brake = Some(brake);
        self.constant = Some(constant);
        self.fusion = Some(fusion);
    }
}

#[test]
fn velocity_control_group_brakes_and_releases() {
    let mut meta_hub: PortHub<MetaSignal> = PortHub::new();
    let mut ctx: PortHub<SiValue> = PortHub::new();
    let root = Parent::root("ControlSystem");
    let mut group: BehaviorGroup<VelocityControl> =
        BehaviorGroup::with_name("VelocityControl", 10_000, &root, &mut meta_hub, &mut ctx);

    let mut sensor = InputPort::from_receive_port(
        group.module.in_front_distance_sensor.as_ref().unwrap(),
    );
    let speed = OutputPort::from_send_port(group.module.out_velocity.as_ref().unwrap());

    let mut run_cycles = |group: &mut BehaviorGroup<VelocityControl>,
                          meta_hub: &mut PortHub<MetaSignal>,
                          ctx: &mut PortHub<SiValue>,
                          now: u64| {
        group.module.brake.as_mut().unwrap().cycle(meta_hub, ctx, now);
        group.module.constant.as_mut().unwrap().cycle(meta_hub, ctx, now);
        group.module.fusion.as_mut().unwrap().cycle(meta_hub, ctx, now);
    };

    // Open road: the constant behaviour drives at 1 m/s.
    sensor.set(&mut ctx, SiValue::new(5 * SI_SCALE, SiUnit::metres()));
    run_cycles(&mut group, &mut meta_hub, &mut ctx, 10_000);
    assert_eq!(
        speed.get(&ctx).unwrap().as_value_in_base_units(),
        SI_SCALE
    );
    // The group's activity is the fusion's activity.
    assert_eq!(
        group.meta.get_activity(&meta_hub).unwrap().as_millionths(),
        META_SCALE
    );

    // An obstacle half a metre ahead: the braking behaviour takes over and
    // commands a full stop.
    sensor.set(&mut ctx, SiValue::new(SI_SCALE / 2, SiUnit::metres()));
    run_cycles(&mut group, &mut meta_hub, &mut ctx, 20_000);
    assert_eq!(speed.get(&ctx).unwrap().as_value_in_base_units(), 0);
}

#[test]
fn group_stimulation_reaches_the_characteristic_module() {
    let mut meta_hub: PortHub<MetaSignal> = PortHub::new();
    let mut ctx: PortHub<SiValue> = PortHub::new();
    let root = Parent::root("ControlSystem");
    let mut group: BehaviorGroup<VelocityControl> =
        BehaviorGroup::with_name("VelocityControl", 10_000, &root, &mut meta_hub, &mut ctx);

    let stim: SendPort<MetaSignal> = SendPort::new(&mut meta_hub);
    stim.connect_as_source(&mut meta_hub, &group.meta.get_stimulation_port());
    stim.send(&mut meta_hub, MetaSignal::from_millionths(321_000));

    let fusion = group.module.fusion.as_mut().unwrap();
    fusion.meta.update(&meta_hub);
    assert_eq!(
        fusion.meta.get_stimulation().unwrap().as_millionths(),
        321_000
    );
}
