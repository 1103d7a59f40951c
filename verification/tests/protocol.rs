use lcd_bus::instr::{Clear, Deliverable};
use lcd_bus::sim::{SimBus, SimDelay, SimPin};
use lcd_bus::utils::Level;
use lcd_bus::{LcdError, LcdPins, WriteResult};

fn fresh_pins(script: Vec<u8>) -> LcdPins<SimPin, SimPin, SimPin, SimBus> {
    LcdPins::new(SimPin::new(), SimPin::new(), SimPin::new(), SimBus::new(script))
}

#[test]
fn state_reads_two_nibbles_low_first() {
    let mut pins = fresh_pins(vec![0x0A, 0x0A]);
    let mut delay = SimDelay::new();
    let st = pins.state(&mut delay).ok().unwrap();
    assert!(st.busy());
    assert_eq!(st.addr(), 0x2A);
    let (rs, rw, enable, bus) = pins.into_parts();
    assert_eq!(rs.log, vec![Level::Low]);
    assert_eq!(rw.log, vec![Level::High]);
    assert_eq!(enable.log, vec![Level::High, Level::Low, Level::High, Level::Low]);
    assert!(bus.written.is_empty());
    assert_eq!(bus.served, 2);
    assert_eq!(delay.slept, 4);
}

#[test]
fn state_not_busy() {
    let mut pins = fresh_pins(vec![0x05, 0x02]);
    let mut delay = SimDelay::new();
    let st = pins.state(&mut delay).ok().unwrap();
    assert!(!st.busy());
    assert_eq!(st.addr(), 0x25);
}

#[test]
fn pulse_enable_ends_low() {
    let mut pins = fresh_pins(vec![]);
    let mut delay = SimDelay::new();
    assert!(pins.pulse_enable(&mut delay).is_ok());
    let (_, _, enable, _) = pins.into_parts();
    assert_eq!(enable.log, vec![Level::High, Level::Low]);
    assert_eq!(*enable.log.last().unwrap(), Level::Low);
    assert_eq!(delay.slept, 2);
}

#[test]
fn busy_write_returns_not_ready_and_writes_nothing() {
    let mut pins = fresh_pins(vec![0x00, 0x08]);
    let mut delay = SimDelay::new();
    let r = pins.write(&mut delay, Deliverable::Data(0x55));
    assert!(matches!(r, WriteResult::NotReady));
    let (rs, rw, enable, bus) = pins.into_parts();
    assert!(bus.written.is_empty());
    assert_eq!(rs.log, vec![Level::Low]);
    assert_eq!(rw.log, vec![Level::High]);
    assert_eq!(enable.log.len(), 4);
}

#[test]
fn clear_instruction_write_trace() {
    let mut pins = fresh_pins(vec![0x00, 0x00]);
    let mut delay = SimDelay::new();
    let r = pins.write(&mut delay, Deliverable::Instr(Clear::compile()));
    assert!(matches!(r, WriteResult::Done));
    let (rs, rw, enable, bus) = pins.into_parts();
    assert_eq!(bus.written, vec![0x1, 0x0]);
    assert_eq!(rs.log, vec![Level::Low, Level::Low]);
    assert_eq!(rw.log, vec![Level::High, Level::Low]);
    let pulse = [Level::High, Level::Low];
    let four_pulses: Vec<Level> = pulse.iter().cycle().take(8).cloned().collect();
    assert_eq!(enable.log, four_pulses);
    assert_eq!(delay.slept, 8);
}

#[test]
fn data_write_drives_register_selection_high() {
    let mut pins = fresh_pins(vec![0x00, 0x00]);
    let mut delay = SimDelay::new();
    let r = pins.write(&mut delay, Deliverable::Data(0x5A));
    assert!(matches!(r, WriteResult::Done));
    let (rs, _, _, bus) = pins.into_parts();
    assert_eq!(rs.log, vec![Level::Low, Level::High]);
    assert_eq!(bus.written, vec![0xA, 0x5]);
}

#[test]
fn enable_failure_aborts_before_any_bus_access() {
    let mut pins = LcdPins::new(
        SimPin::new(),
        SimPin::new(),
        SimPin::failing_at(0),
        SimBus::new(vec![0x00, 0x00]),
    );
    let mut delay = SimDelay::new();
    let r = pins.write(&mut delay, Deliverable::Data(0x31));
    assert!(matches!(r, WriteResult::Failed(LcdError::EnableError(_))));
    let (rs, rw, enable, bus) = pins.into_parts();
    assert!(bus.written.is_empty());
    assert_eq!(bus.served, 0);
    assert!(enable.log.is_empty());
    assert_eq!(rs.log, vec![Level::Low]);
    assert_eq!(rw.log, vec![Level::High]);
}

#[test]
fn enable_failure_between_the_two_nibbles() {
    let mut pins = LcdPins::new(
        SimPin::new(),
        SimPin::new(),
        SimPin::failing_at(4),
        SimBus::new(vec![0x00, 0x00]),
    );
    let mut delay = SimDelay::new();
    let r = pins.write(&mut delay, Deliverable::Data(0x31));
    assert!(matches!(r, WriteResult::Failed(LcdError::EnableError(_))));
    let (_, _, enable, bus) = pins.into_parts();
    assert_eq!(bus.written, vec![0x1]);
    assert_eq!(enable.log, vec![Level::High, Level::Low, Level::High, Level::Low]);
}

#[test]
fn register_selection_failure_touches_nothing_else() {
    let mut pins = LcdPins::new(
        SimPin::failing_at(0),
        SimPin::new(),
        SimPin::new(),
        SimBus::new(vec![0x00, 0x00]),
    );
    let mut delay = SimDelay::new();
    let r = pins.state(&mut delay);
    assert!(matches!(r, Err(LcdError::RegisterSelectionError(_))));
    let (rs, rw, enable, bus) = pins.into_parts();
    assert!(rs.log.is_empty());
    assert!(rw.log.is_empty());
    assert!(enable.log.is_empty());
    assert_eq!(bus.served, 0);
    assert!(bus.written.is_empty());
}

#[test]
fn read_write_failure_surfaces_its_variant() {
    let mut pins = LcdPins::new(
        SimPin::new(),
        SimPin::failing_at(0),
        SimPin::new(),
        SimBus::new(vec![0x00, 0x00]),
    );
    let mut delay = SimDelay::new();
    let r = pins.state(&mut delay);
    assert!(matches!(r, Err(LcdError::ReadWriteError(_))));
    let (rs, rw, _, _) = pins.into_parts();
    assert_eq!(rs.log, vec![Level::Low]);
    assert!(rw.log.is_empty());
}

#[test]
fn first_read_failure_surfaces_bus_variant() {
    let mut pins = fresh_pins(vec![]);
    let mut delay = SimDelay::new();
    let r = pins.state(&mut delay);
    assert!(matches!(r, Err(LcdError::DataBusError(_))));
    let (_, _, enable, bus) = pins.into_parts();
    assert_eq!(enable.log, vec![Level::High, Level::Low]);
    assert_eq!(bus.served, 0);
}

#[test]
fn second_read_failure_surfaces_bus_variant() {
    let mut pins = fresh_pins(vec![0x0A]);
    let mut delay = SimDelay::new();
    let r = pins.state(&mut delay);
    assert!(matches!(r, Err(LcdError::DataBusError(_))));
    let (_, _, enable, bus) = pins.into_parts();
    assert_eq!(enable.log.len(), 4);
    assert_eq!(bus.served, 1);
}
