use dive_soft::dashboard::{
    BodyPart, ConnectionStatus, Dashboard, Effect, Event, Hovered, Timer, ANIMATION_DELAY_MS,
    INITIAL_CONTRACTION, THEME_FLIP_DELAY_MS,
};
use dive_soft::device::{DeviceCommand, PortInfo};
use dive_soft::theme::Theme;

const PARTS: [BodyPart; 4] = [
    BodyPart::RightBicep,
    BodyPart::RightFrontArm,
    BodyPart::LeftBicep,
    BodyPart::LeftFrontArm,
];

#[test]
fn page_opens_in_initial_state() {
    let d = Dashboard::new();
    assert_eq!(d.theme, Theme::Light);
    assert!(!d.animating);
    assert_eq!(d.rotation, 0);
    for p in PARTS {
        assert_eq!(d.contraction(p), 25);
    }
    assert_eq!(INITIAL_CONTRACTION, 25);
    assert_eq!(d.connection, ConnectionStatus::NotConnected);
    assert_eq!(d.hovered, Hovered::Nothing);
    assert_eq!(d.selected, None);
    assert!(d.ports.is_empty());
    assert!(!d.menu_open);
    assert_eq!(d.chosen_port, "");
}

#[test]
fn part_numbers_and_titles() {
    let idx: Vec<u8> = PARTS.iter().map(|p| p.index()).collect();
    assert_eq!(idx, vec![1, 2, 3, 4]);
    assert_eq!(BodyPart::RightBicep.title(), "Right Bicep Controllers");
    assert_eq!(BodyPart::RightFrontArm.title(), "Right Front Arm Controllers");
    assert_eq!(BodyPart::LeftBicep.title(), "Left Bicep Controllers");
    assert_eq!(BodyPart::LeftFrontArm.title(), "Left Front Arm Controllers");
}

#[test]
fn theme_click_animates_then_flips() {
    let mut d = Dashboard::new();
    let fx = d.step(Event::ThemeClicked);
    assert!(d.animating);
    assert_eq!(d.theme, Theme::Light);
    assert_eq!(fx.len(), 2);
    assert!(matches!(fx[0], Effect::Schedule { timer: Timer::ThemeFlip, delay_ms: 300 }));
    assert!(matches!(fx[1], Effect::Schedule { timer: Timer::AnimationEnd, delay_ms: 1000 }));
    assert!(THEME_FLIP_DELAY_MS < ANIMATION_DELAY_MS);
    assert_eq!(d.theme_icon_animation(), "rotate 1s linear infinite");
    assert!(d.step(Event::TimerFired(Timer::ThemeFlip)).is_empty());
    assert_eq!(d.theme, Theme::Dark);
    assert!(d.step(Event::TimerFired(Timer::AnimationEnd)).is_empty());
    assert!(!d.animating);
    assert_eq!(d.theme_icon_animation(), "");
    d.step(Event::TimerFired(Timer::ThemeFlip));
    assert_eq!(d.theme, Theme::Light);
}

#[test]
fn port_menu_fetches_and_toggles() {
    let mut d = Dashboard::new();
    let fx = d.step(Event::PortMenuClicked);
    assert!(d.menu_open);
    assert_eq!(fx.len(), 1);
    assert!(matches!(fx[0], Effect::FetchPorts));
    let fx = d.step(Event::PortMenuClicked);
    assert!(!d.menu_open);
    assert!(matches!(fx[0], Effect::FetchPorts));
}

#[test]
fn ports_loaded_and_chosen() {
    let mut d = Dashboard::new();
    let list = vec![
        PortInfo { port_name: "/dev/ttyACM0".to_string(), port_type: "UsbPort".to_string() },
        PortInfo { port_name: "/dev/ttyS0".to_string(), port_type: "Unknown".to_string() },
    ];
    d.step(Event::PortsLoaded(list));
    assert_eq!(d.ports.len(), 2);
    d.step(Event::PortChosen("/dev/ttyS0".to_string()));
    assert_eq!(d.chosen_port, "/dev/ttyS0");
    assert_eq!(d.port_row_color(&"/dev/ttyS0".to_string()), "#6acbfc");
    assert_eq!(d.port_row_color(&"/dev/ttyACM0".to_string()), "white");
}

#[test]
fn hover_highlights_part_and_icon() {
    let mut d = Dashboard::new();
    assert_eq!(d.part_fill(BodyPart::LeftBicep), "black");
    assert_eq!(d.port_menu_icon(), "plan");
    d.step(Event::PartEntered(BodyPart::LeftBicep));
    assert_eq!(d.hovered, Hovered::Part(BodyPart::LeftBicep));
    assert_eq!(d.part_fill(BodyPart::LeftBicep), "#397bed");
    assert_eq!(d.part_fill(BodyPart::RightBicep), "black");
    d.step(Event::PointerLeft);
    assert_eq!(d.hovered, Hovered::Nothing);
    d.step(Event::PortMenuEntered);
    assert_eq!(d.port_menu_icon(), "plan-grey");
    d.step(Event::PointerLeft);
    d.theme = Theme::Dark;
    assert_eq!(d.port_menu_icon(), "plan-white");
    assert_eq!(d.part_fill(BodyPart::LeftBicep), "white");
}

#[test]
fn part_click_selects_and_clears() {
    let mut d = Dashboard::new();
    d.step(Event::PartClicked(BodyPart::RightFrontArm));
    assert_eq!(d.selected, Some(BodyPart::RightFrontArm));
    assert_eq!(d.part_fill(BodyPart::RightFrontArm), "#397bed");
    d.step(Event::PartClicked(BodyPart::LeftFrontArm));
    assert_eq!(d.selected, Some(BodyPart::LeftFrontArm));
    d.step(Event::PartClicked(BodyPart::LeftFrontArm));
    assert_eq!(d.selected, None);
}

#[test]
fn rotation_input_reads_text() {
    let mut d = Dashboard::new();
    d.step(Event::RotationInput("-135".to_string()));
    assert_eq!(d.rotation, -135);
    d.step(Event::RotationInput("north".to_string()));
    assert_eq!(d.rotation, 0);
}

#[test]
fn contraction_input_sets_part_and_sends() {
    let mut d = Dashboard::new();
    let fx = d.step(Event::ContractionInput(BodyPart::LeftBicep, "70".to_string()));
    assert_eq!(d.contraction(BodyPart::LeftBicep), 70);
    assert_eq!(d.left_bicep, 70);
    assert_eq!(d.contraction(BodyPart::RightBicep), 25);
    assert_eq!(d.contraction(BodyPart::RightFrontArm), 25);
    assert_eq!(d.contraction(BodyPart::LeftFrontArm), 25);
    assert_eq!(fx.len(), 1);
    match fx[0] {
        Effect::Device(cmd) => {
            assert_eq!(cmd, DeviceCommand::Contract { contraction: 70, part_index: 3 });
            assert_eq!(cmd.frame(), vec![9, 70]);
        },
        _ => panic!("expected a device command"),
    }
    let fx = d.step(Event::ContractionInput(BodyPart::LeftBicep, "x".to_string()));
    assert_eq!(d.left_bicep, 0);
    assert!(matches!(fx[0], Effect::Device(DeviceCommand::Contract { contraction: 0, part_index: 3 })));
}

#[test]
fn vibrate_sends_part_number() {
    let mut d = Dashboard::new();
    let before = d.clone();
    let fx = d.step(Event::VibrateClicked(BodyPart::RightFrontArm));
    assert_eq!(d.selected, before.selected);
    assert_eq!(fx.len(), 1);
    match fx[0] {
        Effect::Device(cmd) => assert_eq!(cmd.frame(), vec![8, 2]),
        _ => panic!("expected a device command"),
    }
}

#[test]
fn connect_flow() {
    let mut d = Dashboard::new();
    d.step(Event::PortChosen("COM5".to_string()));
    assert_eq!(d.connection.button_label(), "CONNECT");
    assert_eq!(d.connection.button_color(), "#00aeff");
    let fx = d.step(Event::ConnectClicked);
    assert_eq!(fx.len(), 1);
    match &fx[0] {
        Effect::OpenPort { port_name, baudrate } => {
            assert_eq!(port_name, "COM5");
            assert_eq!(*baudrate, 9600);
        },
        _ => panic!("expected an open request"),
    }
    d.step(Event::ConnectionReplied(false));
    assert_eq!(d.connection, ConnectionStatus::Failed);
    assert_eq!(d.connection.button_label(), "CONNECTION FAILED");
    assert_eq!(d.connection.button_color(), "rgb(221, 27, 27)");
    let fx = d.step(Event::ConnectClicked);
    assert_eq!(fx.len(), 1);
    d.step(Event::ConnectionReplied(true));
    assert_eq!(d.connection, ConnectionStatus::Connected);
    assert_eq!(d.connection.button_label(), "CONNECTED");
    assert_eq!(d.connection.button_color(), "#4dc35d");
    let fx = d.step(Event::ConnectClicked);
    assert!(fx.is_empty());
}
