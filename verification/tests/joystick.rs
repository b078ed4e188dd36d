use robot::joystick::{Event, Type, BUTTON_PRESSED};
use robot::protocol::Command;

fn event(value: i16, ty: u8, number: u8) -> Event {
    Event { time: 0, value, ty, number }
}

#[test]
fn event_is_read_from_a_record() {
    let record = [0x78, 0x56, 0x34, 0x12, 0xFE, 0xFF, 0x02, 0x05];
    let event = Event::from(&record);
    assert_eq!(event, Event { time: 0x12345678, value: -2, ty: 2, number: 5 });
}

#[test]
fn buttons_are_classified() {
    assert_eq!(event(1, 0x01, 0).ty(), Type::Button(0));
    assert_eq!(event(0, 0x01, 3).ty(), Type::Button(3));
    assert_eq!(event(0, 0x01, 255).ty(), Type::Button(255));
}

#[test]
fn axes_are_classified_in_pairs() {
    assert_eq!(event(0, 0x02, 0).ty(), Type::XAxis(0));
    assert_eq!(event(0, 0x02, 1).ty(), Type::YAxis(0));
    assert_eq!(event(0, 0x02, 2).ty(), Type::XAxis(1));
    assert_eq!(event(0, 0x02, 3).ty(), Type::YAxis(1));
    assert_eq!(event(0, 0x02, 254).ty(), Type::XAxis(127));
    assert_eq!(event(0, 0x02, 255).ty(), Type::YAxis(127));
}

#[test]
fn other_events_are_classified() {
    assert_eq!(event(0, 0x00, 0).ty(), Type::Other);
    assert_eq!(event(0, 0x03, 1).ty(), Type::Other);
    assert_eq!(event(0, 0x81, 3).ty(), Type::Other);
    assert_eq!(event(0, 0x82, 2).ty(), Type::Other);
}

#[test]
fn pressed_button_three_starts() {
    assert_eq!(event(BUTTON_PRESSED, 0x01, 3).command(), Some(Command::Start));
    assert_eq!(event(0, 0x01, 3).command(), None);
    assert_eq!(event(2, 0x01, 3).command(), None);
    assert_eq!(event(1, 0x01, 2).command(), None);
}

#[test]
fn second_stick_steers_and_first_stick_is_the_throttle() {
    assert_eq!(event(100, 0x02, 2).command(), Some(Command::X(100)));
    assert_eq!(event(-32768, 0x02, 1).command(), Some(Command::Y(-32768)));
    assert_eq!(event(100, 0x02, 0).command(), None);
    assert_eq!(event(100, 0x02, 3).command(), None);
    assert_eq!(event(100, 0x02, 4).command(), None);
    assert_eq!(event(100, 0x00, 2).command(), None);
}

#[test]
fn debug_form_of_a_type() {
    assert_eq!(format!("{:?} - {}", event(1, 0x01, 3).ty(), 1), "Button(3) - 1");
    assert_eq!(format!("{:?}", event(0, 0x02, 2).ty()), "XAxis(1)");
    assert_eq!(format!("{:?}", event(0, 0x09, 2).ty()), "Other");
}

#[test]
fn record_to_command_frame() {
    let record = [0, 0, 0, 0, 0x64, 0x00, 0x02, 0x02];
    let command = Event::from(&record).command();
    assert_eq!(command, Some(Command::X(100)));
    let mut frame = [0u8; 3];
    Command::X(100).serialize(&mut frame);
    assert_eq!(frame, [0b1010_1010, 0x64, 0x00]);
}
