use rust_ib2c::port::{InputPort, OutputPort, ParameterPort, PortHub, ReceivePort, SendPort};

#[test]
fn test_send_receive_port() {
    let mut hub: PortHub<i32> = PortHub::new();
    let send_port: SendPort<i32> = SendPort::new(&mut hub);
    let mut receive_port: ReceivePort<i32> = ReceivePort::new(&mut hub);

    receive_port.connect_to_source(&mut hub, &send_port.port());

    assert_eq!(receive_port.get(), None);
    send_port.send(&mut hub, 42);
    receive_port.update(&hub);
    assert_eq!(receive_port.get(), Some(&42));
}

#[test]
fn test_recieve_port_chain() {
    let mut hub: PortHub<i32> = PortHub::new();
    let send_port: SendPort<i32> = SendPort::new(&mut hub);
    let mut receive_port1: ReceivePort<i32> = ReceivePort::new(&mut hub);
    let mut receive_port2: ReceivePort<i32> = ReceivePort::new(&mut hub);

    receive_port1.connect_to_source(&mut hub, &send_port.port());
    receive_port2.connect_to_source(&mut hub, &receive_port1.port());

    send_port.send(&mut hub, 42);
    receive_port1.update(&hub);
    receive_port2.update(&hub);

    assert_eq!(receive_port1.get(), Some(&42));
    assert_eq!(receive_port2.get(), Some(&42));
}

#[test]
fn test_send_port_chain() {
    let mut hub: PortHub<i32> = PortHub::new();
    let send_port1: SendPort<i32> = SendPort::new(&mut hub);
    let send_port2: SendPort<i32> = SendPort::new(&mut hub);
    let mut receive_port: ReceivePort<i32> = ReceivePort::new(&mut hub);

    send_port2.connect_to_source(&mut hub, &send_port1.port());
    receive_port.connect_to_source(&mut hub, &send_port2.port());

    send_port1.send(&mut hub, 42);
    receive_port.update(&hub);

    assert_eq!(receive_port.get(), Some(&42));
}

#[test]
fn mixed_chain() {
    let mut hub: PortHub<i32> = PortHub::new();
    let send_port1: SendPort<i32> = SendPort::new(&mut hub);
    let send_port2: SendPort<i32> = SendPort::new(&mut hub);
    let send_port3: SendPort<i32> = SendPort::new(&mut hub);
    let mut receive_port1: ReceivePort<i32> = ReceivePort::new(&mut hub);
    let mut receive_port2: ReceivePort<i32> = ReceivePort::new(&mut hub);
    let mut receive_port3: ReceivePort<i32> = ReceivePort::new(&mut hub);

    send_port1.connect_as_source(&mut hub, &send_port2.port());
    receive_port1.connect_to_source(&mut hub, &send_port2.port());
    send_port3.connect_to_source(&mut hub, &receive_port1.port());
    receive_port2.connect_to_source(&mut hub, &send_port3.port());
    receive_port2.connect_as_source(&mut hub, &receive_port3.port());
    send_port1.send(&mut hub, 42);

    receive_port1.update(&hub);
    receive_port2.update(&hub);
    receive_port3.update(&hub);
    assert_eq!(receive_port1.get(), Some(&42));
    assert_eq!(receive_port2.get(), Some(&42));
    assert_eq!(receive_port3.get(), Some(&42));
    assert_eq!(send_port3.get(&hub), Some(&42));
    assert_eq!(send_port2.get(&hub), Some(&42));
    assert_eq!(send_port1.get(&hub), Some(&42));
}

#[test]
fn later_send_overwrites() {
    let mut hub: PortHub<i32> = PortHub::new();
    let send_port: SendPort<i32> = SendPort::new(&mut hub);
    let mut receive_port: ReceivePort<i32> = ReceivePort::new(&mut hub);
    receive_port.connect_to_source(&mut hub, &send_port.port());

    send_port.send(&mut hub, 1);
    send_port.send(&mut hub, 2);
    receive_port.update(&hub);
    assert_eq!(receive_port.get(), Some(&2));
}

#[test]
fn snapshot_is_stable_until_update() {
    let mut hub: PortHub<i32> = PortHub::new();
    let send_port: SendPort<i32> = SendPort::new(&mut hub);
    let mut receive_port: ReceivePort<i32> = ReceivePort::new(&mut hub);
    receive_port.connect_to_source(&mut hub, &send_port.port());

    send_port.send(&mut hub, 7);
    receive_port.update(&hub);
    send_port.send(&mut hub, 8);
    // The consumer's view is stable for the whole cycle.
    assert_eq!(receive_port.get(), Some(&7));
    receive_port.update(&hub);
    assert_eq!(receive_port.get(), Some(&8));
}

#[test]
fn parameter_port_always_has_a_value() {
    let mut hub: PortHub<i32> = PortHub::new();
    let mut par: ParameterPort<i32> = ParameterPort::with_value(&mut hub, 5);
    assert_eq!(*par.get(), 5);
    par.set(&mut hub, 9);
    assert_eq!(*par.get(), 5);
    par.update(&hub);
    assert_eq!(*par.get(), 9);
}

#[test]
fn input_and_output_ports_reach_the_graph() {
    let mut hub: PortHub<i32> = PortHub::new();
    let send_port: SendPort<i32> = SendPort::new(&mut hub);
    let mut receive_port: ReceivePort<i32> = ReceivePort::new(&mut hub);
    receive_port.connect_to_source(&mut hub, &send_port.port());

    let mut input = InputPort::from_receive_port(&receive_port);
    let output = OutputPort::from_send_port(&send_port);
    input.set(&mut hub, 33);
    assert_eq!(output.get(&hub), Some(&33));
}

#[test]
fn rewiring_switches_the_source() {
    let mut hub: PortHub<i32> = PortHub::new();
    let first: SendPort<i32> = SendPort::new(&mut hub);
    let second: SendPort<i32> = SendPort::new(&mut hub);
    let mut receive_port: ReceivePort<i32> = ReceivePort::new(&mut hub);

    receive_port.connect_to_source(&mut hub, &first.port());
    first.send(&mut hub, 1);
    receive_port.update(&hub);
    assert_eq!(receive_port.get(), Some(&1));

    receive_port.connect_to_source(&mut hub, &second.port());
    second.send(&mut hub, 2);
    receive_port.update(&hub);
    assert_eq!(receive_port.get(), Some(&2));
}
