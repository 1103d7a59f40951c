use lcd_bus::instr::Deliverable;
use lcd_bus::sim::{SimBus, SimDelay, SimPin};
use lcd_bus::utils::Level;
use lcd_bus::{Lcd, LcdError, LcdPins, WriteResult};

fn fresh_lcd(script: Vec<u8>) -> Lcd<SimPin, SimPin, SimPin, SimBus, SimDelay> {
    LcdPins::new(SimPin::new(), SimPin::new(), SimPin::new(), SimBus::new(script))
        .with_delay(SimDelay::new())
}

#[test]
fn facade_polls_with_stored_delay() {
    let mut lcd = fresh_lcd(vec![0x0A, 0x0A]);
    let st = lcd.state().ok().unwrap();
    assert!(st.busy());
    assert_eq!(st.addr(), 0x2A);
    let (pins, delay) = lcd.into_parts();
    assert_eq!(delay.slept, 4);
    let (_, _, _, bus) = pins.into_parts();
    assert_eq!(bus.served, 2);
}

#[test]
fn facade_writes_with_stored_delay() {
    let mut lcd = fresh_lcd(vec![0x00, 0x00]);
    let r = lcd.write(Deliverable::Data(0x5A));
    assert!(matches!(r, WriteResult::Done));
    let (pins, _) = lcd.into_parts();
    let (_, _, _, bus) = pins.into_parts();
    assert_eq!(bus.written, vec![0xA, 0x5]);
}

#[test]
fn write_char_sends_the_code_point_byte() {
    let mut lcd = fresh_lcd(vec![0x00, 0x00]);
    let r = lcd.write_char('A');
    assert!(matches!(r, WriteResult::Done));
    let (pins, _) = lcd.into_parts();
    let (rs, _, _, bus) = pins.into_parts();
    assert_eq!(bus.written, vec![0x1, 0x4]);
    assert_eq!(rs.log, vec![Level::Low, Level::High]);
}

#[test]
fn write_char_retries_while_busy() {
    let mut lcd = fresh_lcd(vec![0x00, 0x08, 0x00, 0x00]);
    let r = lcd.write_char('A');
    assert!(matches!(r, WriteResult::Done));
    let (pins, _) = lcd.into_parts();
    let (_, _, _, bus) = pins.into_parts();
    assert_eq!(bus.written, vec![0x1, 0x4]);
    assert_eq!(bus.served, 4);
}

#[test]
fn write_char_truncates_wide_code_points() {
    let mut lcd = fresh_lcd(vec![0x00, 0x00]);
    let r = lcd.write_char('\u{101}');
    assert!(matches!(r, WriteResult::Done));
    let (pins, _) = lcd.into_parts();
    let (_, _, _, bus) = pins.into_parts();
    assert_eq!(bus.written, vec![0x1, 0x0]);
}

#[test]
fn write_str_retries_busy_bytes_then_advances() {
    let mut lcd = fresh_lcd(vec![0x00, 0x00, 0x00, 0x08, 0x00, 0x00]);
    let r = lcd.write_str("AB");
    assert!(matches!(r, WriteResult::Done));
    let (pins, _) = lcd.into_parts();
    let (_, _, _, bus) = pins.into_parts();
    assert_eq!(bus.written, vec![0x1, 0x4, 0x2, 0x4]);
    assert_eq!(bus.served, 6);
}

#[test]
fn write_str_empty_touches_nothing() {
    let mut lcd = fresh_lcd(vec![]);
    let r = lcd.write_str("");
    assert!(matches!(r, WriteResult::Done));
    let (pins, _) = lcd.into_parts();
    let (rs, _, _, bus) = pins.into_parts();
    assert!(bus.written.is_empty());
    assert_eq!(bus.served, 0);
    assert!(rs.log.is_empty());
}

#[test]
fn write_str_aborts_at_the_byte_a_failure_strikes() {
    let mut lcd = fresh_lcd(vec![0x00, 0x00]);
    let r = lcd.write_str("AB");
    assert!(matches!(r, WriteResult::Failed(LcdError::DataBusError(_))));
    let (pins, _) = lcd.into_parts();
    let (_, _, _, bus) = pins.into_parts();
    assert_eq!(bus.written, vec![0x1, 0x4]);
}
