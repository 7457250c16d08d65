use dive_soft::device::{
    fetch_serial_ports, port_settings, DeviceCommand, PortInfo, SerialLink, BAUDRATE,
    CONTRACTION_TAG, PORT_TIMEOUT_MS, VIBRATION_TAG,
};

const REFUSAL: &str = "Port non initialisé";

#[test]
fn frames_carry_tag_and_value() {
    assert_eq!(DeviceCommand::Vibrate { data: 3 }.frame(), vec![8, 3]);
    assert_eq!(DeviceCommand::Contract { contraction: 65, part_index: 2 }.frame(), vec![9, 65]);
    assert_eq!(VIBRATION_TAG, 8);
    assert_eq!(CONTRACTION_TAG, 9);
}

#[test]
fn contraction_frame_ignores_part() {
    let a = DeviceCommand::Contract { contraction: 40, part_index: 1 }.frame();
    let b = DeviceCommand::Contract { contraction: 40, part_index: 4 }.frame();
    assert_eq!(a, b);
    let c = DeviceCommand::Vibrate { data: 40 }.frame();
    assert_ne!(a, c);
}

#[test]
fn new_link_refuses_commands() {
    let link = SerialLink::new();
    assert!(!link.is_port_open());
    assert_eq!(link.send_vibration(1), Err(REFUSAL.to_string()));
    assert_eq!(link.send_contraction(50, 1), Err(REFUSAL.to_string()));
}

#[test]
fn failed_open_keeps_link_closed() {
    let mut link = SerialLink::new();
    assert!(!link.init_serial(false));
    assert!(!link.is_port_open());
    assert_eq!(link.send_vibration(2), Err(REFUSAL.to_string()));
}

#[test]
fn open_link_sends_frames() {
    let mut link = SerialLink::new();
    assert!(link.init_serial(true));
    assert!(link.is_port_open());
    assert_eq!(link.send_vibration(4), Ok(vec![8, 4]));
    assert_eq!(link.send_contraction(75, 3), Ok(vec![9, 75]));
    assert_eq!(link.send(DeviceCommand::Vibrate { data: 1 }), Ok(vec![8, 1]));
}

#[test]
fn failed_open_after_success_keeps_link_open() {
    let mut link = SerialLink::new();
    link.init_serial(false);
    link.init_serial(true);
    assert!(!link.init_serial(false));
    assert!(link.is_port_open());
    assert_eq!(link.send_contraction(0, 1), Ok(vec![9, 0]));
}

#[test]
fn settings_use_one_second_timeout() {
    let s = port_settings("/dev/ttyUSB0".to_string(), BAUDRATE);
    assert_eq!(s.port_name, "/dev/ttyUSB0");
    assert_eq!(s.baudrate, 9600);
    assert_eq!(s.timeout_ms, 1000);
    assert_eq!(PORT_TIMEOUT_MS, 1000);
}

#[test]
fn listed_ports_pass_through() {
    let list = vec![
        PortInfo { port_name: "COM3".to_string(), port_type: "PciPort".to_string() },
        PortInfo { port_name: "COM4".to_string(), port_type: "Unknown".to_string() },
    ];
    let ports = fetch_serial_ports(Ok(list));
    assert_eq!(ports.len(), 2);
    assert_eq!(ports[0].port_name, "COM3");
    assert_eq!(ports[1].port_type, "Unknown");
}

#[test]
fn unreadable_port_list_gives_none() {
    let ports = fetch_serial_ports(Err("no access".to_string()));
    assert!(ports.is_empty());
}
