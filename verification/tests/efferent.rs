use neural_space::efferent::actuators::{
    emergency_shutdown, set_gimbal, set_throttle, FUEL_INJECTOR, GIMBAL_PITCH, GIMBAL_YAW,
    MAIN_ENGINE_VALVE, OXIDIZER_VALVE, TURBOPUMP_THROTTLE,
};
use neural_space::efferent::surfaces::{
    set_deflections, CANARD_PORT, CANARD_STARBOARD, ELEVON_PORT, ELEVON_STARBOARD, RUDDER,
    SPEED_BRAKE,
};
use neural_space::efferent::{EfferentBus, EfferentCommand, BUS_CAPACITY};

fn cmd(target: u16, value: i64, deadline_ns: u64) -> EfferentCommand {
    EfferentCommand { target, value, deadline_ns }
}

#[test]
fn bus_is_fifo_and_bounded() {
    let mut bus = EfferentBus::new();
    for i in 0..40u16 {
        bus.enqueue(i, i as i64, 7);
    }
    let sent = bus.dispatch();
    assert_eq!(sent.len(), BUS_CAPACITY);
    for (i, c) in sent.iter().enumerate() {
        assert_eq!(*c, cmd(i as u16, i as i64, 7));
    }
    assert!(bus.dispatch().is_empty());
}

#[test]
fn dispatch_empties_the_bus() {
    let mut bus = EfferentBus::new();
    bus.enqueue(1, 2, 3);
    assert_eq!(bus.dispatch(), vec![cmd(1, 2, 3)]);
    bus.enqueue(4, 5, 6);
    assert_eq!(bus.dispatch(), vec![cmd(4, 5, 6)]);
}

#[test]
fn throttle_is_clamped_and_opens_valve() {
    let mut bus = EfferentBus::new();
    set_throttle(&mut bus, 1_500_000, 9);
    set_throttle(&mut bus, 10_000, 9);
    set_throttle(&mut bus, -5, 9);
    assert_eq!(
        bus.dispatch(),
        vec![
            cmd(TURBOPUMP_THROTTLE, 1_000_000, 9),
            cmd(MAIN_ENGINE_VALVE, 1_000_000, 9),
            cmd(TURBOPUMP_THROTTLE, 10_000, 9),
            cmd(MAIN_ENGINE_VALVE, 0, 9),
            cmd(TURBOPUMP_THROTTLE, 0, 9),
            cmd(MAIN_ENGINE_VALVE, 0, 9),
        ]
    );
}

#[test]
fn gimbal_is_clamped() {
    let mut bus = EfferentBus::new();
    set_gimbal(&mut bus, 200_000, -100_000, 1);
    set_gimbal(&mut bus, -200_000, 150_000, 1);
    assert_eq!(
        bus.dispatch(),
        vec![
            cmd(GIMBAL_PITCH, 150_000, 1),
            cmd(GIMBAL_YAW, -100_000, 1),
            cmd(GIMBAL_PITCH, -150_000, 1),
            cmd(GIMBAL_YAW, 150_000, 1),
        ]
    );
}

#[test]
fn shutdown_closes_everything_in_order() {
    let mut bus = EfferentBus::new();
    emergency_shutdown(&mut bus, 5);
    assert_eq!(
        bus.dispatch(),
        vec![
            cmd(MAIN_ENGINE_VALVE, 0, 5),
            cmd(FUEL_INJECTOR, 0, 5),
            cmd(OXIDIZER_VALVE, 0, 5),
            cmd(TURBOPUMP_THROTTLE, 0, 5),
        ]
    );
}

#[test]
fn deflections_are_clamped() {
    let mut bus = EfferentBus::new();
    set_deflections(&mut bus, 300_000, -300_000, 1000, -1000, 261_800, -10, 2);
    assert_eq!(
        bus.dispatch(),
        vec![
            cmd(ELEVON_PORT, 261_800, 2),
            cmd(ELEVON_STARBOARD, -261_800, 2),
            cmd(RUDDER, 1000, 2),
            cmd(CANARD_PORT, -1000, 2),
            cmd(CANARD_STARBOARD, 261_800, 2),
            cmd(SPEED_BRAKE, 0, 2),
        ]
    );
}

#[test]
fn full_bus_drops_surface_commands() {
    let mut bus = EfferentBus::new();
    for _ in 0..30 {
        bus.enqueue(0, 0, 0);
    }
    set_deflections(&mut bus, 1, 2, 3, 4, 5, 6, 0);
    let sent = bus.dispatch();
    assert_eq!(sent.len(), 32);
    assert_eq!(sent[30], cmd(ELEVON_PORT, 1, 0));
    assert_eq!(sent[31], cmd(ELEVON_STARBOARD, 2, 0));
}
