use rust_ib2c::behavior_module::{cycle_wait, BehaviorModule, MetaPorts};
use rust_ib2c::control_system::{BreakOnObstacle, ConstantVelocity, TurnAway};
use rust_ib2c::fusion_module::MaximumFusion;
use rust_ib2c::meta_signals::{compute_meta_signals, MetaSignal, META_SCALE};
use rust_ib2c::port::{PortHub, SendPort};
use rust_ib2c::si_units::{SiUnit, SiValue, SI_SCALE};
use rust_ib2c::telemetry::Parent;
use rust_ib2c::traits::PortParsing;

fn signal(millionths: u32) -> MetaSignal {
    MetaSignal::from_millionths(millionths)
}

#[test]
fn meta_signal_clamps_and_orders() {
    assert_eq!(signal(2_000_000).as_millionths(), META_SCALE);
    assert_eq!(MetaSignal::low().as_millionths(), 0);
    assert_eq!(MetaSignal::high().as_millionths(), META_SCALE);
    assert_eq!(MetaSignal::min(signal(300_000), signal(200_000)).as_millionths(), 200_000);
    assert_eq!(signal(250_000).complement().as_millionths(), 750_000);
    assert!(signal(100_000).lt(signal(100_001)));
    assert!(signal(100_000).le(signal(100_000)));
}

#[test]
fn meta_signal_with_partial_inputs() {
    // Stimulation unconnected, inhibition 0.25, target 0.8:
    // activity = min(1.0, 0.75, 0.8) = 0.75.
    let (potential, activity) = compute_meta_signals(None, Some(signal(250_000)), signal(800_000));
    assert_eq!(potential.as_millionths(), 750_000);
    assert_eq!(activity.as_millionths(), 750_000);
}

#[test]
fn meta_signal_defaults() {
    // Neither input connected: potential = HIGH.
    let (potential, _) = compute_meta_signals(None, None, MetaSignal::high());
    assert_eq!(potential.as_millionths(), META_SCALE);
    // Only stimulation connected: potential = stimulation.
    let (potential, _) = compute_meta_signals(Some(signal(300_000)), None, MetaSignal::high());
    assert_eq!(potential.as_millionths(), 300_000);
    // Only inhibition connected: potential = 1 - inhibition.
    let (potential, _) = compute_meta_signals(None, Some(signal(300_000)), MetaSignal::high());
    assert_eq!(potential.as_millionths(), 700_000);
}

#[test]
fn module_cycle_computes_and_publishes() {
    let mut meta_hub: PortHub<MetaSignal> = PortHub::new();
    let mut ctx: PortHub<SiValue> = PortHub::new();
    let root = Parent::root("root");
    let mut module: BehaviorModule<ConstantVelocity> =
        BehaviorModule::with_name("ConstantVelocity", 10_000, &root, &mut meta_hub, &mut ctx, 0);

    // Inhibit the module by 0.25 through its standard receive port.
    let inhibitor: SendPort<MetaSignal> = SendPort::new(&mut meta_hub);
    inhibitor.connect_as_source(&mut meta_hub, &module.meta.get_inhibition_port());
    inhibitor.send(&mut meta_hub, signal(250_000));

    let snap = module.cycle(&mut meta_hub, &mut ctx, 10_000);
    assert_eq!(snap.index, 1);
    assert_eq!(snap.source, "root/ConstantVelocity");
    // Stimulation defaults to HIGH, target rating is HIGH:
    // activity = min(1.0, 0.75, 1.0) = 0.75.
    assert_eq!(snap.stimulation.as_millionths(), META_SCALE);
    assert_eq!(snap.inhibition.as_millionths(), 250_000);
    assert_eq!(snap.target_rating.as_millionths(), META_SCALE);
    assert_eq!(snap.activity.as_millionths(), 750_000);
    assert_eq!(module.meta.get_activity(&meta_hub).unwrap().as_millionths(), 750_000);

    // The constant-velocity behaviour published its parameter.
    let velocity = module.module.out_velocity.get(&ctx).unwrap();
    assert_eq!(velocity.as_value_in_base_units(), SI_SCALE);

    // The snapshot's data is the module's port listing.
    assert_eq!(snap.data.len(), 2);
    assert_eq!(snap.data[0].0, "par_velocity");
    assert_eq!(snap.data[1].0, "out_velocity");

    let snap = module.cycle(&mut meta_hub, &mut ctx, 20_000);
    assert_eq!(snap.index, 2);
}

#[test]
fn port_listing_names_every_live_port() {
    let mut meta_hub: PortHub<MetaSignal> = PortHub::new();
    let mut ctx: PortHub<SiValue> = PortHub::new();
    let root = Parent::root("root");
    let mut brake: BehaviorModule<BreakOnObstacle> =
        BehaviorModule::with_name("BreakOnObstacle", 10_000, &root, &mut meta_hub, &mut ctx, 0);

    // Before any reading arrives only the parameter is listed.
    let listing = brake.module.all_port_data(&ctx);
    assert_eq!(listing.len(), 1);
    assert_eq!(listing[0].0, "par_min_distance");

    // A close obstacle: the input and the braking command join the listing.
    let sensor: SendPort<SiValue> = SendPort::new(&mut ctx);
    sensor.connect_as_source(&mut ctx, &brake.module.in_distance.port());
    sensor.send(&mut ctx, SiValue::new(SI_SCALE / 2, SiUnit::metres()));
    brake.cycle(&mut meta_hub, &mut ctx, 10_000);
    let listing = brake.module.all_port_data(&ctx);
    assert_eq!(listing.len(), 3);
    assert_eq!(listing[0].0, "par_min_distance");
    assert_eq!(listing[1].0, "in_distance");
    assert_eq!(listing[2].0, "out_velocity");
}

#[test]
fn fusion_of_two_forwards_the_dominant_input() {
    // Module A publishes activity 0.4 and "A"; module B activity 0.9 and
    // "B". The fusion forwards "B" with B's meta-signals.
    let mut meta_hub: PortHub<MetaSignal> = PortHub::new();
    let mut data_hub: PortHub<String> = PortHub::new();
    let root = Parent::root("root");

    let a = MetaPorts::new(&mut meta_hub);
    let a_data: SendPort<String> = SendPort::new(&mut data_hub);
    let b = MetaPorts::new(&mut meta_hub);
    let b_data: SendPort<String> = SendPort::new(&mut data_hub);

    let mut fusion: MaximumFusion<String> =
        MaximumFusion::with_name("MaximumFusion", 10_000, &root, &mut meta_hub, &mut data_hub);
    fusion.connect_module(&mut meta_hub, &mut data_hub, &a, &a_data);
    fusion.connect_module(&mut meta_hub, &mut data_hub, &b, &b_data);

    a.set_activity(&mut meta_hub, signal(400_000));
    a.set_target_rating(&mut meta_hub, signal(500_000));
    a_data.send(&mut data_hub, "A".to_string());
    b.set_activity(&mut meta_hub, signal(900_000));
    b.set_target_rating(&mut meta_hub, signal(650_000));
    b_data.send(&mut data_hub, "B".to_string());

    let snap = fusion.cycle(&mut meta_hub, &mut data_hub, 0);
    assert_eq!(fusion.output.get(&data_hub), Some(&"B".to_string()));
    assert_eq!(snap.activity.as_millionths(), 900_000);
    assert_eq!(snap.target_rating.as_millionths(), 650_000);
    assert_eq!(snap.index, 1);

    let listing = fusion.serialize_port_data(&data_hub);
    assert_eq!(listing.len(), 5);
    assert_eq!(listing[0].0, "data_port_0");
    assert_eq!(listing[2].0, "data_port_1");
    assert_eq!(listing[4].0, "output");
}

#[test]
fn fusion_tie_break_keeps_the_earlier_input() {
    // A and B both at activity 0.7 with distinct outputs; A was connected
    // first, so the fusion emits A's output.
    let mut meta_hub: PortHub<MetaSignal> = PortHub::new();
    let mut data_hub: PortHub<String> = PortHub::new();
    let root = Parent::root("root");

    let a = MetaPorts::new(&mut meta_hub);
    let a_data: SendPort<String> = SendPort::new(&mut data_hub);
    let b = MetaPorts::new(&mut meta_hub);
    let b_data: SendPort<String> = SendPort::new(&mut data_hub);

    let mut fusion: MaximumFusion<String> =
        MaximumFusion::with_name("MaximumFusion", 10_000, &root, &mut meta_hub, &mut data_hub);
    fusion.connect_module(&mut meta_hub, &mut data_hub, &a, &a_data);
    fusion.connect_module(&mut meta_hub, &mut data_hub, &b, &b_data);

    a.set_activity(&mut meta_hub, signal(700_000));
    a_data.send(&mut data_hub, "A".to_string());
    b.set_activity(&mut meta_hub, signal(700_000));
    b_data.send(&mut data_hub, "B".to_string());

    fusion.cycle(&mut meta_hub, &mut data_hub, 0);
    assert_eq!(fusion.output.get(&data_hub), Some(&"A".to_string()));
}

#[test]
fn fusion_skips_inputs_without_data() {
    let mut meta_hub: PortHub<MetaSignal> = PortHub::new();
    let mut data_hub: PortHub<String> = PortHub::new();
    let root = Parent::root("root");

    let a = MetaPorts::new(&mut meta_hub);
    let a_data: SendPort<String> = SendPort::new(&mut data_hub);
    let b = MetaPorts::new(&mut meta_hub);
    let b_data: SendPort<String> = SendPort::new(&mut data_hub);

    let mut fusion: MaximumFusion<String> =
        MaximumFusion::with_name("MaximumFusion", 10_000, &root, &mut meta_hub, &mut data_hub);
    fusion.connect_module(&mut meta_hub, &mut data_hub, &a, &a_data);
    fusion.connect_module(&mut meta_hub, &mut data_hub, &b, &b_data);

    // The louder input has no data, so the quieter one wins.
    a.set_activity(&mut meta_hub, signal(900_000));
    b.set_activity(&mut meta_hub, signal(500_000));
    b_data.send(&mut data_hub, "B".to_string());

    fusion.cycle(&mut meta_hub, &mut data_hub, 0);
    assert_eq!(fusion.output.get(&data_hub), Some(&"B".to_string()));
}

#[test]
fn fusion_with_no_input_publishes_nothing() {
    let mut meta_hub: PortHub<MetaSignal> = PortHub::new();
    let mut data_hub: PortHub<String> = PortHub::new();
    let root = Parent::root("root");

    let a = MetaPorts::new(&mut meta_hub);
    let a_data: SendPort<String> = SendPort::new(&mut data_hub);
    let mut fusion: MaximumFusion<String> =
        MaximumFusion::with_name("MaximumFusion", 10_000, &root, &mut meta_hub, &mut data_hub);
    fusion.connect_module(&mut meta_hub, &mut data_hub, &a, &a_data);

    let snap = fusion.cycle(&mut meta_hub, &mut data_hub, 0);
    assert_eq!(fusion.output.get(&data_hub), None);
    // An idle fusion reports the neutral defaults: activity LOW, target HIGH.
    assert_eq!(snap.activity.as_millionths(), 0);
    assert_eq!(snap.target_rating.as_millionths(), META_SCALE);
}

#[test]
fn break_on_obstacle_scenario() {
    // Constant-velocity emits 1 m/s with target HIGH; break-on-obstacle
    // brakes with target HIGH only once an obstacle is inside its minimum
    // distance. The fusion forwards 1 m/s when unobstructed and the braking
    // command when obstructed; the braking input was connected first, so it
    // wins the tie of two full activities.
    let mut meta_hub: PortHub<MetaSignal> = PortHub::new();
    let mut ctx: PortHub<SiValue> = PortHub::new();
    let root = Parent::root("VelocityControl");

    let mut brake: BehaviorModule<BreakOnObstacle> =
        BehaviorModule::with_name("BreakOnObstacle", 10_000, &root, &mut meta_hub, &mut ctx, 0);
    let mut constant: BehaviorModule<ConstantVelocity> =
        BehaviorModule::with_name("ConstantVelocity", 10_000, &root, &mut meta_hub, &mut ctx, 0);

    let mut fusion: MaximumFusion<SiValue> =
        MaximumFusion::with_name("MaximumFusion", 10_000, &root, &mut meta_hub, &mut ctx);
    fusion.connect_module(&mut meta_hub, &mut ctx, &brake.meta, &brake.module.out_velocity);
    fusion.connect_module(&mut meta_hub, &mut ctx, &constant.meta, &constant.module.out_velocity);

    let sensor: SendPort<SiValue> = SendPort::new(&mut ctx);
    sensor.connect_as_source(&mut ctx, &brake.module.in_distance.port());

    // Unobstructed: the sensor reports 5 m, far beyond the 1 m minimum.
    sensor.send(&mut ctx, SiValue::new(5 * SI_SCALE, SiUnit::metres()));
    brake.cycle(&mut meta_hub, &mut ctx, 10_000);
    constant.cycle(&mut meta_hub, &mut ctx, 10_000);
    fusion.cycle(&mut meta_hub, &mut ctx, 10_000);
    let out = fusion.output.get(&ctx).unwrap();
    assert_eq!(out.as_value_in_base_units(), SI_SCALE);

    // An obstacle inside the minimum distance: the braking behaviour
    // commands a full stop, turns fully active, and wins the tie of two
    // full activities because it was connected first.
    sensor.send(&mut ctx, SiValue::new(SI_SCALE / 2, SiUnit::metres()));
    brake.cycle(&mut meta_hub, &mut ctx, 20_000);
    constant.cycle(&mut meta_hub, &mut ctx, 20_000);
    fusion.cycle(&mut meta_hub, &mut ctx, 20_000);
    let out = fusion.output.get(&ctx).unwrap();
    assert_eq!(out.as_value_in_base_units(), 0);

    // The obstacle clears: back to the constant velocity.
    sensor.send(&mut ctx, SiValue::new(5 * SI_SCALE, SiUnit::metres()));
    brake.cycle(&mut meta_hub, &mut ctx, 30_000);
    constant.cycle(&mut meta_hub, &mut ctx, 30_000);
    fusion.cycle(&mut meta_hub, &mut ctx, 30_000);
    let out = fusion.output.get(&ctx).unwrap();
    assert_eq!(out.as_value_in_base_units(), SI_SCALE);
}

#[test]
fn turn_away_turns_toward_the_open_side() {
    let mut meta_hub: PortHub<MetaSignal> = PortHub::new();
    let mut ctx: PortHub<SiValue> = PortHub::new();
    let root = Parent::root("ControlSystem");
    let mut turn: BehaviorModule<TurnAway> =
        BehaviorModule::with_name("CurvateControl", 10_000, &root, &mut meta_hub, &mut ctx, 0);

    let front: SendPort<SiValue> = SendPort::new(&mut ctx);
    front.connect_as_source(&mut ctx, &turn.module.in_distance.port());
    let left: SendPort<SiValue> = SendPort::new(&mut ctx);
    left.connect_as_source(&mut ctx, &turn.module.in_left_distance.port());
    let right: SendPort<SiValue> = SendPort::new(&mut ctx);
    right.connect_as_source(&mut ctx, &turn.module.in_right_distance.port());

    // Obstacle a metre ahead, more room on the right: turn right (negative).
    front.send(&mut ctx, SiValue::new(SI_SCALE, SiUnit::metres()));
    left.send(&mut ctx, SiValue::new(SI_SCALE, SiUnit::metres()));
    right.send(&mut ctx, SiValue::new(3 * SI_SCALE, SiUnit::metres()));
    let snap = turn.cycle(&mut meta_hub, &mut ctx, 10_000);
    let rate = turn.module.out_turn_rate.get(&ctx).unwrap();
    assert_eq!(rate.as_value_in_base_units(), -SI_SCALE);
    assert_eq!(snap.target_rating.as_millionths(), META_SCALE);

    // Clear road: zero turn rate, no confidence.
    front.send(&mut ctx, SiValue::new(10 * SI_SCALE, SiUnit::metres()));
    let snap = turn.cycle(&mut meta_hub, &mut ctx, 20_000);
    let rate = turn.module.out_turn_rate.get(&ctx).unwrap();
    assert_eq!(rate.as_value_in_base_units(), 0);
    assert_eq!(snap.target_rating.as_millionths(), 0);
}

#[test]
fn group_characteristic_module_routes_meta_signals() {
    let mut meta_hub: PortHub<MetaSignal> = PortHub::new();
    let group = MetaPorts::new(&mut meta_hub);
    let child = MetaPorts::new(&mut meta_hub);
    group.set_characteristic_module(&mut meta_hub, &child);

    // The child's activity is the group's activity.
    child.set_activity(&mut meta_hub, signal(600_000));
    assert_eq!(group.get_activity(&meta_hub).unwrap().as_millionths(), 600_000);

    // The group's stimulation reaches the child.
    let stim: SendPort<MetaSignal> = SendPort::new(&mut meta_hub);
    stim.connect_as_source(&mut meta_hub, &group.get_stimulation_port());
    stim.send(&mut meta_hub, signal(123_456));
    let mut child = child;
    child.update(&meta_hub);
    assert_eq!(child.get_stimulation().unwrap().as_millionths(), 123_456);
}

#[test]
fn cycle_overrun_reports_and_proceeds() {
    // A module with a 10 ms period whose transfer takes 25 ms reports an
    // overrun every cycle and progresses at 25 ms per cycle.
    let (sleep, overrun) = cycle_wait(10_000, 25_000);
    assert_eq!(sleep, 0);
    assert!(overrun);
    assert_eq!(25_000 + sleep, 25_000);

    // A fast transfer sleeps out the rest of the period exactly.
    let (sleep, overrun) = cycle_wait(10_000, 3_000);
    assert_eq!(sleep, 7_000);
    assert!(!overrun);
    assert_eq!(3_000 + sleep, 10_000);
}
