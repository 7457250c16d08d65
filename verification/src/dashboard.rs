//! The state of the arm dashboard and how each user action and each reply
//! changes it.
//!
//! The page shows an upper body whose four arm parts can be pointed at and
//! selected; the selected part gets a controller with a contraction slider and
//! a vibration button. A menu lists the serial ports, one of which is chosen
//! and opened. [`Dashboard::step`] takes one event and gives the new state and
//! the effects that the page then carries out (timers, calls to the backend).
use vstd::prelude::*;
use crate::device::{DeviceCommand, PortInfo, BAUDRATE};
use crate::numeric_input::{rotation_value, slider_value};
use crate::theme::Theme;

verus! {

/// The four arm parts that the dashboard controls.
#[derive(Clone, Copy, Debug, PartialEq, Eq, Structural)]
pub enum BodyPart {
    RightBicep,
    RightFrontArm,
    LeftBicep,
    LeftFrontArm,
}

impl BodyPart {
    /// The number by which the board and the backend know the part.
    pub open spec fn spec_index(self) -> u8 {
        match self {
            BodyPart::RightBicep => 1,
            BodyPart::RightFrontArm => 2,
            BodyPart::LeftBicep => 3,
            BodyPart::LeftFrontArm => 4,
        }
    }

    /// The number by which the board and the backend know the part.
    pub fn index(self) -> (i: u8)
        ensures
            i == self.spec_index(),
    {
        match self {
            BodyPart::RightBicep => 1,
            BodyPart::RightFrontArm => 2,
            BodyPart::LeftBicep => 3,
            BodyPart::LeftFrontArm => 4,
        }
    }

    /// Title of the part's controller.
    pub open spec fn spec_title(self) -> Seq<char> {
        match self {
            BodyPart::RightBicep => "Right Bicep Controllers"@,
            BodyPart::RightFrontArm => "Right Front Arm Controllers"@,
            BodyPart::LeftBicep => "Left Bicep Controllers"@,
            BodyPart::LeftFrontArm => "Left Front Arm Controllers"@,
        }
    }

    /// Title of the part's controller.
    pub fn title(self) -> (t: &'static str)
        ensures
            t@ == self.spec_title(),
    {
        match self {
            BodyPart::RightBicep => "Right Bicep Controllers",
            BodyPart::RightFrontArm => "Right Front Arm Controllers",
            BodyPart::LeftBicep => "Left Bicep Controllers",
            BodyPart::LeftFrontArm => "Left Front Arm Controllers",
        }
    }
}

/// Where the dashboard stands with the serial port.
#[derive(Clone, Copy, Debug, PartialEq, Eq, Structural)]
pub enum ConnectionStatus {
    Connected,
    NotConnected,
    Failed,
}

impl ConnectionStatus {
    /// Label of the connection button.
    pub fn button_label(self) -> (l: &'static str)
        ensures
            l@ == match self {
                ConnectionStatus::NotConnected => "CONNECT"@,
                ConnectionStatus::Connected => "CONNECTED"@,
                ConnectionStatus::Failed => "CONNECTION FAILED"@,
            },
    {
        match self {
            ConnectionStatus::NotConnected => "CONNECT",
            ConnectionStatus::Connected => "CONNECTED",
            ConnectionStatus::Failed => "CONNECTION FAILED",
        }
    }

    /// Background of the connection button.
    pub fn button_color(self) -> (c: &'static str)
        ensures
            c@ == match self {
                ConnectionStatus::NotConnected => "#00aeff"@,
                ConnectionStatus::Connected => "#4dc35d"@,
                ConnectionStatus::Failed => "rgb(221, 27, 27)"@,
            },
    {
        match self {
            ConnectionStatus::NotConnected => "#00aeff",
            ConnectionStatus::Connected => "#4dc35d",
            ConnectionStatus::Failed => "rgb(221, 27, 27)",
        }
    }
}

/// What the pointer is over.
#[derive(Clone, Copy, Debug, PartialEq, Eq, Structural)]
pub enum Hovered {
    Nothing,
    Part(BodyPart),
    PortMenuIcon,
}

/// The delayed steps of the theme button's animation.
#[derive(Clone, Copy, Debug, PartialEq, Eq, Structural)]
pub enum Timer {
    /// Switch the theme.
    ThemeFlip,
    /// Stop the spinning of the theme icons.
    AnimationEnd,
}

/// Delay after a click on the theme button before the theme switches.
pub const THEME_FLIP_DELAY_MS: u64 = 300;

/// Delay after a click on the theme button before the icons stop spinning.
pub const ANIMATION_DELAY_MS: u64 = 1000;

/// Contraction of each part when the page opens.
pub const INITIAL_CONTRACTION: u8 = 25;

/// Range and step of a part's contraction slider.
pub const CONTRACTION_MIN: u8 = 0;
pub const CONTRACTION_MAX: u8 = 100;
pub const CONTRACTION_STEP: u8 = 5;

/// Range and step of the rotation slider, in degrees.
pub const ROTATION_MIN: i16 = -180;
pub const ROTATION_MAX: i16 = 180;
pub const ROTATION_STEP: i16 = 5;

/// Something the user did, or a reply that came back.
#[derive(Clone, Debug)]
pub enum Event {
    /// A click on the theme button.
    ThemeClicked,
    /// A timer set by an earlier effect has run out.
    TimerFired(Timer),
    /// A click on the serial port icon.
    PortMenuClicked,
    /// The backend's list of serial ports.
    PortsLoaded(Vec<PortInfo>),
    /// A click on a port of the menu.
    PortChosen(String),
    /// The pointer entered a body part.
    PartEntered(BodyPart),
    /// The pointer entered the serial port icon.
    PortMenuEntered,
    /// The pointer left a body part or the serial port icon.
    PointerLeft,
    /// A click on a body part.
    PartClicked(BodyPart),
    /// The rotation slider moved; its text value.
    RotationInput(String),
    /// A click on the connection button.
    ConnectClicked,
    /// The backend's answer to an attempt to open the chosen port.
    ConnectionReplied(bool),
    /// A part's contraction slider moved; its text value.
    ContractionInput(BodyPart, String),
    /// A click on a part's vibration button.
    VibrateClicked(BodyPart),
}

/// Something the page must do after a step.
#[derive(Clone, Debug)]
pub enum Effect {
    /// Deliver `Event::TimerFired(timer)` after `delay_ms` milliseconds.
    Schedule { timer: Timer, delay_ms: u64 },
    /// Ask the backend for the serial ports and deliver them as
    /// `Event::PortsLoaded`.
    FetchPorts,
    /// Ask the backend to open a port and deliver its answer as
    /// `Event::ConnectionReplied`.
    OpenPort { port_name: String, baudrate: u32 },
    /// Send a command to the board through the backend.
    Device(DeviceCommand),
}

/// The whole state of the dashboard page.
#[derive(Clone, Debug)]
pub struct Dashboard {
    pub theme: Theme,
    /// The theme icons are spinning.
    pub animating: bool,
    /// Rotation of the body drawing, in degrees.
    pub rotation: i16,
    pub right_bicep: u8,
    pub right_front_arm: u8,
    pub left_bicep: u8,
    pub left_front_arm: u8,
    pub connection: ConnectionStatus,
    pub hovered: Hovered,
    /// The part whose controller is shown.
    pub selected: Option<BodyPart>,
    /// The serial ports last listed by the backend.
    pub ports: Vec<PortInfo>,
    /// The serial port menu is shown.
    pub menu_open: bool,
    /// Name of the port that the connection button opens.
    pub chosen_port: String,
}

/// The contraction that `d` holds for `p`.
pub open spec fn spec_contraction(d: Dashboard, p: BodyPart) -> u8 {
    match p {
        BodyPart::RightBicep => d.right_bicep,
        BodyPart::RightFrontArm => d.right_front_arm,
        BodyPart::LeftBicep => d.left_bicep,
        BodyPart::LeftFrontArm => d.left_front_arm,
    }
}

/// `d` with the contraction of `p` set to `v`.
pub open spec fn with_contraction(d: Dashboard, p: BodyPart, v: u8) -> Dashboard {
    match p {
        BodyPart::RightBicep => Dashboard { right_bicep: v, ..d },
        BodyPart::RightFrontArm => Dashboard { right_front_arm: v, ..d },
        BodyPart::LeftBicep => Dashboard { left_bicep: v, ..d },
        BodyPart::LeftFrontArm => Dashboard { left_front_arm: v, ..d },
    }
}

/// The selection after a click on `p`: a click on the selected part clears
/// the selection, a click on any other part selects it.
pub open spec fn clicked_selection(sel: Option<BodyPart>, p: BodyPart) -> Option<BodyPart> {
    if sel == Some(p) {
        None
    } else {
        Some(p)
    }
}

/// The state and the effects after event `e` in state `d`.
pub open spec fn next(d: Dashboard, e: Event) -> (Dashboard, Seq<Effect>) {
    match e {
        Event::ThemeClicked => (
            Dashboard { animating: true, ..d },
            seq![
                Effect::Schedule { timer: Timer::ThemeFlip, delay_ms: THEME_FLIP_DELAY_MS },
                Effect::Schedule { timer: Timer::AnimationEnd, delay_ms: ANIMATION_DELAY_MS },
            ],
        ),
        Event::TimerFired(Timer::ThemeFlip) => (
            Dashboard { theme: d.theme.spec_toggled(), ..d },
            Seq::empty(),
        ),
        Event::TimerFired(Timer::AnimationEnd) => (Dashboard { animating: false, ..d }, Seq::empty()),
        Event::PortMenuClicked => (
            Dashboard { menu_open: !d.menu_open, ..d },
            seq![Effect::FetchPorts],
        ),
        Event::PortsLoaded(list) => (Dashboard { ports: list, ..d }, Seq::empty()),
        Event::PortChosen(name) => (Dashboard { chosen_port: name, ..d }, Seq::empty()),
        Event::PartEntered(p) => (Dashboard { hovered: Hovered::Part(p), ..d }, Seq::empty()),
        Event::PortMenuEntered => (Dashboard { hovered: Hovered::PortMenuIcon, ..d }, Seq::empty()),
        Event::PointerLeft => (Dashboard { hovered: Hovered::Nothing, ..d }, Seq::empty()),
        Event::PartClicked(p) => (
            Dashboard { selected: clicked_selection(d.selected, p), ..d },
            Seq::empty(),
        ),
        Event::RotationInput(text) => (
            Dashboard {
                rotation: crate::numeric_input::spec_i16_or_zero(
                    vstd::utf8::encode_utf8(text@),
                ),
                ..d
            },
            Seq::empty(),
        ),
        Event::ConnectClicked => if d.connection == ConnectionStatus::Connected {
            (d, Seq::empty())
        } else {
            (d, seq![Effect::OpenPort { port_name: d.chosen_port, baudrate: BAUDRATE }])
        },
        Event::ConnectionReplied(ok) => (
            Dashboard {
                connection: if ok {
                    ConnectionStatus::Connected
                } else {
                    ConnectionStatus::Failed
                },
                ..d
            },
            Seq::empty(),
        ),
        Event::ContractionInput(p, text) => {
            let v = crate::numeric_input::spec_u8_or_zero(vstd::utf8::encode_utf8(text@));
            (
                with_contraction(d, p, v),
                seq![
                    Effect::Device(
                        DeviceCommand::Contract { contraction: v, part_index: p.spec_index() },
                    ),
                ],
            )
        },
        Event::VibrateClicked(p) => (
            d,
            seq![Effect::Device(DeviceCommand::Vibrate { data: p.spec_index() })],
        ),
    }
}

impl Dashboard {
    /// The page as it opens: light theme, no rotation, every part at the
    /// initial contraction, nothing pointed at or selected, no port listed,
    /// chosen or connected.
    pub fn new() -> (d: Dashboard)
        ensures
            d.theme == Theme::Light,
            !d.animating,
            d.rotation == 0,
            forall|p: BodyPart| #[trigger] spec_contraction(d, p) == INITIAL_CONTRACTION,
            d.connection == ConnectionStatus::NotConnected,
            d.hovered == Hovered::Nothing,
            d.selected == None::<BodyPart>,
            d.ports@.len() == 0,
            !d.menu_open,
            d.chosen_port@.len() == 0,
    {
        Dashboard {
            theme: Theme::Light,
            animating: false,
            rotation: 0,
            right_bicep: INITIAL_CONTRACTION,
            right_front_arm: INITIAL_CONTRACTION,
            left_bicep: INITIAL_CONTRACTION,
            left_front_arm: INITIAL_CONTRACTION,
            connection: ConnectionStatus::NotConnected,
            hovered: Hovered::Nothing,
            selected: None,
            ports: Vec::new(),
            menu_open: false,
            chosen_port: String::new(),
        }
    }

    /// The contraction shown for `p`.
    pub fn contraction(&self, p: BodyPart) -> (v: u8)
        ensures
            v == spec_contraction(*self, p),
    {
        match p {
            BodyPart::RightBicep => self.right_bicep,
            BodyPart::RightFrontArm => self.right_front_arm,
            BodyPart::LeftBicep => self.left_bicep,
            BodyPart::LeftFrontArm => self.left_front_arm,
        }
    }

    /// Takes one event: changes the state as [`next`] says and gives the
    /// effects to carry out, in order.
    pub fn step(&mut self, event: Event) -> (effects: Vec<Effect>)
        ensures
            *final(self) == next(*old(self), event).0,
            effects@ == next(*old(self), event).1,
    {
        let mut effects: Vec<Effect> = Vec::new();
        match event {
            Event::ThemeClicked => {
                self.animating = true;
                effects.push(
                    Effect::Schedule { timer: Timer::ThemeFlip, delay_ms: THEME_FLIP_DELAY_MS },
                );
                effects.push(
                    Effect::Schedule { timer: Timer::AnimationEnd, delay_ms: ANIMATION_DELAY_MS },
                );
            },
            Event::TimerFired(Timer::ThemeFlip) => {
                self.theme = self.theme.toggled();
            },
            Event::TimerFired(Timer::AnimationEnd) => {
                self.animating = false;
            },
            Event::PortMenuClicked => {
                self.menu_open = !self.menu_open;
                effects.push(Effect::FetchPorts);
            },
            Event::PortsLoaded(list) => {
                self.ports = list;
            },
            Event::PortChosen(name) => {
                self.chosen_port = name;
            },
            Event::PartEntered(p) => {
                self.hovered = Hovered::Part(p);
            },
            Event::PortMenuEntered => {
                self.hovered = Hovered::PortMenuIcon;
            },
            Event::PointerLeft => {
                self.hovered = Hovered::Nothing;
            },
            Event::PartClicked(p) => {
                let now_selected = match self.selected {
                    Some(q) => q == p,
                    None => false,
                };
                self.selected = if now_selected {
                    None
                } else {
                    Some(p)
                };
            },
            Event::RotationInput(text) => {
                self.rotation = rotation_value(text.as_str());
            },
            Event::ConnectClicked => {
                if self.connection != ConnectionStatus::Connected {
                    effects.push(
                        Effect::OpenPort { port_name: self.chosen_port.clone(), baudrate: BAUDRATE },
                    );
                }
            },
            Event::ConnectionReplied(ok) => {
                self.connection = if ok {
                    ConnectionStatus::Connected
                } else {
                    ConnectionStatus::Failed
                };
            },
            Event::ContractionInput(p, text) => {
                let v = slider_value(text.as_str());
                match p {
                    BodyPart::RightBicep => {
                        self.right_bicep = v;
                    },
                    BodyPart::RightFrontArm => {
                        self.right_front_arm = v;
                    },
                    BodyPart::LeftBicep => {
                        self.left_bicep = v;
                    },
                    BodyPart::LeftFrontArm => {
                        self.left_front_arm = v;
                    },
                }
                effects.push(
                    Effect::Device(DeviceCommand::Contract { contraction: v, part_index: p.index() }),
                );
            },
            Event::VibrateClicked(p) => {
                effects.push(Effect::Device(DeviceCommand::Vibrate { data: p.index() }));
            },
        }
        effects
    }

    /// Fill of body part `p`: highlighted while it is selected or pointed at,
    /// else the theme's plain fill.
    pub fn part_fill(&self, p: BodyPart) -> (c: &'static str)
        ensures
            c@ == (if self.selected == Some(p) || self.hovered == Hovered::Part(p) {
                "#397bed"@
            } else if self.theme == Theme::Dark {
                "white"@
            } else {
                "black"@
            }),
    {
        let selected = match self.selected {
            Some(q) => q == p,
            None => false,
        };
        if selected || self.hovered == Hovered::Part(p) {
            "#397bed"
        } else {
            self.theme.idle_part_fill()
        }
    }

    /// Icon of the serial port menu, under `/assets/` with `.svg` appended:
    /// grey while pointed at, else after the theme.
    pub fn port_menu_icon(&self) -> (c: &'static str)
        ensures
            c@ == (if self.hovered == Hovered::PortMenuIcon {
                "plan-grey"@
            } else if self.theme == Theme::Dark {
                "plan-white"@
            } else {
                "plan"@
            }),
    {
        if self.hovered == Hovered::PortMenuIcon {
            "plan-grey"
        } else {
            match self.theme {
                Theme::Dark => "plan-white",
                Theme::Light => "plan",
            }
        }
    }

    /// Animation of the theme icons: a spin while the theme button's
    /// animation runs, none otherwise.
    pub fn theme_icon_animation(&self) -> (c: &'static str)
        ensures
            c@ == (if self.animating {
                "rotate 1s linear infinite"@
            } else {
                ""@
            }),
    {
        if self.animating {
            "rotate 1s linear infinite"
        } else {
            ""
        }
    }

    /// Background of the menu row of the port named `port_name`: marked when
    /// it is the chosen port.
    pub fn port_row_color(&self, port_name: &String) -> (c: &'static str)
        ensures
            c@ == (if self.chosen_port@ == port_name@ {
                "#6acbfc"@
            } else {
                "white"@
            }),
    {
        if self.chosen_port == *port_name {
            "#6acbfc"
        } else {
            "white"
        }
    }
}

/// A click on a body part selects that part or clears the selection, never
/// another part; a second click on the same part gives back the selection of
/// before the first whenever that was nothing or that part.
pub proof fn law_part_click_toggles(d: Dashboard, p: BodyPart)
    ensures
        ({
            let s = next(d, Event::PartClicked(p)).0.selected;
            s == Some(p) || s == None::<BodyPart>
        }),
        d.selected == None::<BodyPart> || d.selected == Some(p) ==> next(
            next(d, Event::PartClicked(p)).0,
            Event::PartClicked(p),
        ).0.selected == d.selected,
{
}

/// A click on the theme button does not switch the theme by itself: it
/// starts the spin and schedules the switch before the end of the spin. Two
/// switches give back the theme of before.
pub proof fn law_theme_click_schedules_flip(d: Dashboard)
    ensures
        next(d, Event::ThemeClicked).0.theme == d.theme,
        next(d, Event::ThemeClicked).0.animating,
        next(d, Event::ThemeClicked).1.len() == 2,
        next(d, Event::ThemeClicked).1[0] == (Effect::Schedule {
            timer: Timer::ThemeFlip,
            delay_ms: THEME_FLIP_DELAY_MS,
        }),
        next(d, Event::ThemeClicked).1[1] == (Effect::Schedule {
            timer: Timer::AnimationEnd,
            delay_ms: ANIMATION_DELAY_MS,
        }),
        THEME_FLIP_DELAY_MS < ANIMATION_DELAY_MS,
        next(
            next(d, Event::TimerFired(Timer::ThemeFlip)).0,
            Event::TimerFired(Timer::ThemeFlip),
        ).0.theme == d.theme,
{
}

/// Moving a part's slider changes that part's contraction alone, to the
/// slider's value, and the board is sent a contraction frame that carries
/// exactly that value; nothing else of the page changes.
pub proof fn law_slider_reaches_board(d: Dashboard, p: BodyPart, text: String)
    ensures
        ({
            let (after, effects) = next(d, Event::ContractionInput(p, text));
            let v = crate::numeric_input::spec_u8_or_zero(vstd::utf8::encode_utf8(text@));
            &&& spec_contraction(after, p) == v
            &&& forall|q: BodyPart| q != p ==> #[trigger] spec_contraction(after, q) == spec_contraction(d, q)
            &&& after == with_contraction(d, p, v)
            &&& effects.len() == 1
            &&& effects[0] matches Effect::Device(cmd) && crate::device::spec_frame(cmd) == seq![
                crate::device::CONTRACTION_TAG,
                spec_contraction(after, p),
            ]
        }),
{
    let v = crate::numeric_input::spec_u8_or_zero(vstd::utf8::encode_utf8(text@));
    let after = next(d, Event::ContractionInput(p, text)).0;
    assert forall|q: BodyPart| q != p implies #[trigger] spec_contraction(after, q) == spec_contraction(d, q) by {
        match p {
            BodyPart::RightBicep => {},
            BodyPart::RightFrontArm => {},
            BodyPart::LeftBicep => {},
            BodyPart::LeftFrontArm => {},
        }
    }
}

/// The vibration button of a part leaves the page as it is and sends the
/// board a vibration frame that carries the part's number.
pub proof fn law_vibrate_reaches_board(d: Dashboard, p: BodyPart)
    ensures
        next(d, Event::VibrateClicked(p)).0 == d,
        next(d, Event::VibrateClicked(p)).1.len() == 1,
        next(d, Event::VibrateClicked(p)).1[0] matches Effect::Device(cmd) && crate::device::spec_frame(cmd) == seq![
            crate::device::VIBRATION_TAG,
            p.spec_index(),
        ],
{
}

/// Once connected, the connection button asks for nothing; before that, it
/// asks to open the chosen port at 9600 baud. The backend's answer alone
/// decides the status that follows.
pub proof fn law_connection_flow(d: Dashboard, ok: bool)
    ensures
        d.connection == ConnectionStatus::Connected ==> next(d, Event::ConnectClicked).1.len() == 0,
        d.connection != ConnectionStatus::Connected ==> next(d, Event::ConnectClicked).1 == seq![
            Effect::OpenPort { port_name: d.chosen_port, baudrate: 9600 },
        ],
        next(d, Event::ConnectClicked).0 == d,
        next(d, Event::ConnectionReplied(ok)).0.connection == (if ok {
            ConnectionStatus::Connected
        } else {
            ConnectionStatus::Failed
        }),
{
}

/// A click on a part that is not the selected one selects it, whichever part
/// was selected before; a click on the selected part clears the selection.
/// Nothing else of the page changes and nothing is asked for.
pub proof fn law_part_click_selects(d: Dashboard, p: BodyPart)
    ensures
        d.selected != Some(p) ==> next(d, Event::PartClicked(p)).0.selected == Some(p),
        d.selected == Some(p) ==> next(d, Event::PartClicked(p)).0.selected == None::<BodyPart>,
        (Dashboard { selected: d.selected, ..next(d, Event::PartClicked(p)).0 }) == d,
        next(d, Event::PartClicked(p)).1.len() == 0,
{
}

/// The flip timer always switches the theme, whatever else the page shows,
/// and changes nothing else; the end timer always stops the spin.
pub proof fn law_theme_timers(d: Dashboard)
    ensures
        next(d, Event::TimerFired(Timer::ThemeFlip)).0.theme != d.theme,
        (Dashboard { theme: d.theme, ..next(d, Event::TimerFired(Timer::ThemeFlip)).0 }) == d,
        next(d, Event::TimerFired(Timer::ThemeFlip)).1.len() == 0,
        !next(d, Event::TimerFired(Timer::AnimationEnd)).0.animating,
        (Dashboard {
            animating: d.animating,
            ..next(d, Event::TimerFired(Timer::AnimationEnd)).0
        }) == d,
        next(d, Event::TimerFired(Timer::AnimationEnd)).1.len() == 0,
        (Dashboard { animating: d.animating, ..next(d, Event::ThemeClicked).0 }) == d,
{
}

/// A click on the port icon opens a closed menu and closes an open one, and
/// always asks for the port list; loaded ports replace the list whatever the
/// menu shows; a chosen port becomes the one the connection button opens.
/// Each changes nothing else.
pub proof fn law_port_menu(d: Dashboard, list: Vec<PortInfo>, name: String)
    ensures
        next(d, Event::PortMenuClicked).0.menu_open == !d.menu_open,
        (Dashboard { menu_open: d.menu_open, ..next(d, Event::PortMenuClicked).0 }) == d,
        next(d, Event::PortMenuClicked).1 == seq![Effect::FetchPorts],
        next(d, Event::PortsLoaded(list)).0.ports == list,
        next(d, Event::PortsLoaded(list)).0.ports@ == list@,
        (Dashboard { ports: d.ports, ..next(d, Event::PortsLoaded(list)).0 }) == d,
        next(d, Event::PortsLoaded(list)).1.len() == 0,
        next(d, Event::PortChosen(name)).0.chosen_port == name,
        (Dashboard { chosen_port: d.chosen_port, ..next(d, Event::PortChosen(name)).0 }) == d,
        next(d, Event::PortChosen(name)).1.len() == 0,
{
}

/// The pointer marks the part or the icon it enters, and leaving clears the
/// mark; nothing else changes.
pub proof fn law_pointer(d: Dashboard, p: BodyPart)
    ensures
        next(d, Event::PartEntered(p)).0.hovered == Hovered::Part(p),
        (Dashboard { hovered: d.hovered, ..next(d, Event::PartEntered(p)).0 }) == d,
        next(d, Event::PortMenuEntered).0.hovered == Hovered::PortMenuIcon,
        (Dashboard { hovered: d.hovered, ..next(d, Event::PortMenuEntered).0 }) == d,
        next(d, Event::PointerLeft).0.hovered == Hovered::Nothing,
        (Dashboard { hovered: d.hovered, ..next(d, Event::PointerLeft).0 }) == d,
{
}

/// The rotation slider, set to any `i16` and so handing over that number's
/// decimal text, turns the drawing by exactly that number; text that is no
/// `i16` resets the rotation to zero. Nothing else changes.
pub proof fn law_rotation_follows_slider(d: Dashboard, text: String, n: i16)
    ensures
        vstd::utf8::encode_utf8(text@) == crate::numeric_input::signed_decimal(n as int)
            ==> next(d, Event::RotationInput(text)).0.rotation == n,
        crate::numeric_input::spec_parse_i16(vstd::utf8::encode_utf8(text@)) is None
            ==> next(d, Event::RotationInput(text)).0.rotation == 0,
        (Dashboard { rotation: d.rotation, ..next(d, Event::RotationInput(text)).0 }) == d,
        next(d, Event::RotationInput(text)).1.len() == 0,
{
    crate::numeric_input::law_rotation_value_of_decimal_text(n);
}

/// A part's slider, set to any `u8` and so handing over that number's decimal
/// text, sets that part's contraction to exactly that number and sends the
/// board the frame `[9, n]`; text that is no `u8` sets zero. The other parts
/// and the rest of the page keep their values.
pub proof fn law_contraction_follows_slider(d: Dashboard, p: BodyPart, text: String, n: u8)
    ensures
        vstd::utf8::encode_utf8(text@) == crate::numeric_input::decimal_digits(n as nat) ==> {
            &&& spec_contraction(next(d, Event::ContractionInput(p, text)).0, p) == n
            &&& next(d, Event::ContractionInput(p, text)).1 == seq![
                Effect::Device(DeviceCommand::Contract { contraction: n, part_index: p.spec_index() }),
            ]
            &&& crate::device::spec_frame(
                DeviceCommand::Contract { contraction: n, part_index: p.spec_index() },
            ) == seq![9u8, n]
        },
        crate::numeric_input::spec_parse_u8(vstd::utf8::encode_utf8(text@)) is None ==> spec_contraction(
            next(d, Event::ContractionInput(p, text)).0,
            p,
        ) == 0,
        forall|q: BodyPart|
            q != p ==> #[trigger] spec_contraction(next(d, Event::ContractionInput(p, text)).0, q)
                == spec_contraction(d, q),
        (Dashboard {
            right_bicep: d.right_bicep,
            right_front_arm: d.right_front_arm,
            left_bicep: d.left_bicep,
            left_front_arm: d.left_front_arm,
            ..next(d, Event::ContractionInput(p, text)).0
        }) == d,
{
    crate::numeric_input::law_slider_value_of_decimal_text(n);
    law_slider_reaches_board(d, p, text);
}

/// The backend's answer to an open request is the status shown, whatever it
/// was before; nothing else changes.
pub proof fn law_connection_reply(d: Dashboard, ok: bool)
    ensures
        ok ==> next(d, Event::ConnectionReplied(ok)).0.connection == ConnectionStatus::Connected,
        !ok ==> next(d, Event::ConnectionReplied(ok)).0.connection == ConnectionStatus::Failed,
        (Dashboard {
            connection: d.connection,
            ..next(d, Event::ConnectionReplied(ok)).0
        }) == d,
        next(d, Event::ConnectionReplied(ok)).1.len() == 0,
{
}

/// The four parts carry the numbers one to four, each its own; and the
/// contraction of a part is the field named after it.
pub proof fn law_part_numbers(d: Dashboard, p: BodyPart, q: BodyPart)
    ensures
        1 <= p.spec_index() <= 4,
        p.spec_index() == q.spec_index() ==> p == q,
        BodyPart::RightBicep.spec_index() == 1,
        BodyPart::RightFrontArm.spec_index() == 2,
        BodyPart::LeftBicep.spec_index() == 3,
        BodyPart::LeftFrontArm.spec_index() == 4,
        spec_contraction(d, BodyPart::RightBicep) == d.right_bicep,
        spec_contraction(d, BodyPart::RightFrontArm) == d.right_front_arm,
        spec_contraction(d, BodyPart::LeftBicep) == d.left_bicep,
        spec_contraction(d, BodyPart::LeftFrontArm) == d.left_front_arm,
{
}

} // verus!
