use nigui::wifi::command::{
    command_bytes, mark_for_key, startup_commands, ControlCommand, Modes, CONTROL_PORT,
    LISTEN_PORT,
};

#[test]
fn command_bytes_put_the_opcode_first() {
    assert_eq!(command_bytes(0x33, &[5]), vec![0x33, 5]);
    assert_eq!(command_bytes(0x55, &[]), vec![0x55]);
    assert_eq!(command_bytes(0x01, &[2, 3, 4]), vec![1, 2, 3, 4]);
}

#[test]
fn every_command_has_its_opcode() {
    assert_eq!(ControlCommand::Mark(9).encode(), vec![0x33, 9]);
    assert_eq!(ControlCommand::StartStreaming.encode(), vec![0x55]);
    assert_eq!(ControlCommand::NoiseOn.encode(), vec![0x66, 1]);
    assert_eq!(ControlCommand::NoiseOff.encode(), vec![0xaa, 1]);
    assert_eq!(ControlCommand::TestOn.encode(), vec![0x77, 1]);
    assert_eq!(ControlCommand::TestOff.encode(), vec![0xaa, 1]);
    assert_eq!(ControlCommand::ImpedanceOn.encode(), vec![0xdd]);
    assert_eq!(ControlCommand::Mark(1).opcode(), 0x33);
    assert_eq!(ControlCommand::Mark(200).payload(), vec![200]);
    assert_eq!(CONTROL_PORT, 1337);
    assert_eq!(LISTEN_PORT, 31337);
}

#[test]
fn session_opens_with_start_then_impedance() {
    assert_eq!(
        startup_commands(),
        vec![ControlCommand::StartStreaming, ControlCommand::ImpedanceOn]
    );
}

#[test]
fn keys_send_marks_one_to_six() {
    for key in 0..6usize {
        assert_eq!(mark_for_key(key), Some(ControlCommand::Mark(key as u8 + 1)));
    }
    assert_eq!(mark_for_key(6), None);
    assert_eq!(mark_for_key(usize::MAX), None);
}

#[test]
fn modes_exclude_each_other() {
    let mut m = Modes::new();
    assert_eq!(m.toggle_test(false), None);
    assert!(!m.test);
    assert_eq!(m.toggle_test(true), Some(ControlCommand::TestOn));
    assert!(m.test);
    assert_eq!(m.toggle_noise(true), None);
    assert!(!m.noise);
    assert_eq!(m.toggle_test(true), Some(ControlCommand::TestOff));
    assert_eq!(m.toggle_noise(true), Some(ControlCommand::NoiseOn));
    assert_eq!(m.toggle_test(true), None);
    assert_eq!(m.toggle_noise(true), Some(ControlCommand::NoiseOff));
    assert_eq!(m, Modes::new());
    let mut busy = Modes { test: false, noise: false, impedance: true };
    assert_eq!(busy.toggle_test(true), None);
    assert_eq!(busy.toggle_noise(true), None);
}
