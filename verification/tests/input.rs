use nes_core::input::Controller;
use nes_core::input::Key;

#[test]
fn new_controller_has_nothing_pressed() {
    let controller = Controller::new();
    assert_eq!(controller.buttons(), 0);
    assert!(!controller.strobe);
}

#[test]
fn update_sets_one_button() {
    let keys = [Key::A, Key::B, Key::Select, Key::Start, Key::Up, Key::Down, Key::Left, Key::Right];
    for (bit, key) in keys.iter().enumerate() {
        let mut controller = Controller::new();
        controller.update(*key, true);
        assert_eq!(controller.buttons(), 1 << bit);
        controller.update(*key, false);
        assert_eq!(controller.buttons(), 0);
    }
    let mut controller = Controller::new();
    controller.update(Key::A, true);
    controller.update(Key::Start, true);
    controller.update(Key::Right, true);
    assert_eq!(controller.buttons(), 0x89);
}

#[test]
fn strobe_latches_and_reads_serve_the_buttons_in_order() {
    let mut controller = Controller::new();
    controller.update(Key::B, true);
    controller.update(Key::Up, true);
    controller.write(1);
    controller.write(0);
    controller.update(Key::A, true);
    let bits: Vec<u8> = (0..8).map(|_| controller.read()).collect();
    assert_eq!(bits, vec![0x40, 0x41, 0x40, 0x40, 0x41, 0x40, 0x40, 0x40]);
    assert_eq!(controller.read(), 0x41);
    assert_eq!(controller.read(), 0x41);
}

#[test]
fn reads_under_strobe_return_the_live_a_button() {
    let mut controller = Controller::new();
    controller.write(1);
    assert_eq!(controller.read(), 0x40);
    controller.update(Key::A, true);
    assert_eq!(controller.read(), 0x41);
    assert_eq!(controller.read(), 0x41);
    controller.write(0);
    assert_eq!(controller.read(), 0x41);
    assert_eq!(controller.read(), 0x40);
}

#[test]
fn write_without_strobe_does_not_latch() {
    let mut controller = Controller::new();
    controller.update(Key::A, true);
    controller.write(0);
    assert_eq!(controller.read(), 0x40);
    controller.write(0xFE);
    assert_eq!(controller.shift, 0x80);
}
