//! Key bindings and the state of the player's keyboard and controllers, as
//! the input layer polls them every frame.
use crate::text::str_eq;
use vstd::prelude::*;

verus! {

/// A direction of an analog stick or trigger, bound like a button.
#[derive(Clone, Copy, Debug, PartialEq, Eq, PartialOrd, Ord, Structural)]
pub enum Axis {
    LeftStickLeft,
    LeftStickUp,
    LeftStickDown,
    LeftStickRight,
    RightStickLeft,
    RightStickUp,
    RightStickDown,
    RightStickRight,
    LeftTriggerDown,
    LeftTriggerUp,
    RightTriggerDown,
    RightTriggerUp,
}

/// A keyboard key that can be bound.
#[derive(Clone, Copy, Debug, PartialEq, Eq, Structural)]
pub enum Keycode {
    F1,
    F2,
    F3,
    F4,
    F5,
    F6,
    F7,
    F8,
    F9,
    F10,
    F11,
    F12,
    Key0,
    Key1,
    Key2,
    Key3,
    Key4,
    Key5,
    Key6,
    Key7,
    Key8,
    Key9,
    Up,
    Left,
    Down,
    Right,
    Enter,
    Space,
    LControl,
    LShift,
    Tab,
    Escape,
    A,
    B,
    C,
    D,
    E,
    F,
    G,
    H,
    I,
    J,
    K,
    L,
    M,
    N,
    O,
    P,
    Q,
    R,
    S,
    T,
    U,
    V,
    W,
    X,
    Y,
    Z,
}

/// A game controller button that can be bound.
#[derive(Clone, Copy, Debug, PartialEq, Eq, Structural)]
pub enum Button {
    A,
    B,
    X,
    Y,
    Back,
    Guide,
    Start,
    LeftShoulder,
    RightShoulder,
    DPadUp,
    DPadLeft,
    DPadDown,
    DPadRight,
    Misc1,
    Paddle1,
    Paddle2,
    Paddle3,
    Paddle4,
    Touchpad,
    LeftStick,
    RightStick,
}

/// The keyboard key named in a key configuration.
pub open spec fn keyboard_binding(name: Seq<char>) -> Option<KeyBinding> {
    if name == "F1"@ {
        Some(KeyBinding::Keycode(Keycode::F1))
    } else if name == "F2"@ {
        Some(KeyBinding::Keycode(Keycode::F2))
    } else if name == "F3"@ {
        Some(KeyBinding::Keycode(Keycode::F3))
    } else if name == "F4"@ {
        Some(KeyBinding::Keycode(Keycode::F4))
    } else if name == "F5"@ {
        Some(KeyBinding::Keycode(Keycode::F5))
    } else if name == "F6"@ {
        Some(KeyBinding::Keycode(Keycode::F6))
    } else if name == "F7"@ {
        Some(KeyBinding::Keycode(Keycode::F7))
    } else if name == "F8"@ {
        Some(KeyBinding::Keycode(Keycode::F8))
    } else if name == "F9"@ {
        Some(KeyBinding::Keycode(Keycode::F9))
    } else if name == "F10"@ {
        Some(KeyBinding::Keycode(Keycode::F10))
    } else if name == "F11"@ {
        Some(KeyBinding::Keycode(Keycode::F11))
    } else if name == "F12"@ {
        Some(KeyBinding::Keycode(Keycode::F12))
    } else if name == "NUM0"@ {
        Some(KeyBinding::Keycode(Keycode::Key0))
    } else if name == "NUM1"@ {
        Some(KeyBinding::Keycode(Keycode::Key1))
    } else if name == "NUM2"@ {
        Some(KeyBinding::Keycode(Keycode::Key2))
    } else if name == "NUM3"@ {
        Some(KeyBinding::Keycode(Keycode::Key3))
    } else if name == "NUM4"@ {
        Some(KeyBinding::Keycode(Keycode::Key4))
    } else if name == "NUM5"@ {
        Some(KeyBinding::Keycode(Keycode::Key5))
    } else if name == "NUM6"@ {
        Some(KeyBinding::Keycode(Keycode::Key6))
    } else if name == "NUM7"@ {
        Some(KeyBinding::Keycode(Keycode::Key7))
    } else if name == "NUM8"@ {
        Some(KeyBinding::Keycode(Keycode::Key8))
    } else if name == "NUM9"@ {
        Some(KeyBinding::Keycode(Keycode::Key9))
    } else if name == "UPARROW"@ {
        Some(KeyBinding::Keycode(Keycode::Up))
    } else if name == "LEFTARROW"@ {
        Some(KeyBinding::Keycode(Keycode::Left))
    } else if name == "DOWNARROW"@ {
        Some(KeyBinding::Keycode(Keycode::Down))
    } else if name == "RIGHTARROW"@ {
        Some(KeyBinding::Keycode(Keycode::Right))
    } else if name == "ENTER"@ {
        Some(KeyBinding::Keycode(Keycode::Enter))
    } else if name == "SPACE"@ {
        Some(KeyBinding::Keycode(Keycode::Space))
    } else if name == "CONTROL"@ {
        Some(KeyBinding::Keycode(Keycode::LControl))
    } else if name == "SHIFT"@ {
        Some(KeyBinding::Keycode(Keycode::LShift))
    } else if name == "TAB"@ {
        Some(KeyBinding::Keycode(Keycode::Tab))
    } else if name == "ESCAPE"@ {
        Some(KeyBinding::Keycode(Keycode::Escape))
    } else if name == "A"@ {
        Some(KeyBinding::Keycode(Keycode::A))
    } else if name == "B"@ {
        Some(KeyBinding::Keycode(Keycode::B))
    } else if name == "C"@ {
        Some(KeyBinding::Keycode(Keycode::C))
    } else if name == "D"@ {
        Some(KeyBinding::Keycode(Keycode::D))
    } else if name == "E"@ {
        Some(KeyBinding::Keycode(Keycode::E))
    } else if name == "F"@ {
        Some(KeyBinding::Keycode(Keycode::F))
    } else if name == "G"@ {
        Some(KeyBinding::Keycode(Keycode::G))
    } else if name == "H"@ {
        Some(KeyBinding::Keycode(Keycode::H))
    } else if name == "I"@ {
        Some(KeyBinding::Keycode(Keycode::I))
    } else if name == "J"@ {
        Some(KeyBinding::Keycode(Keycode::J))
    } else if name == "K"@ {
        Some(KeyBinding::Keycode(Keycode::K))
    } else if name == "L"@ {
        Some(KeyBinding::Keycode(Keycode::L))
    } else if name == "M"@ {
        Some(KeyBinding::Keycode(Keycode::M))
    } else if name == "N"@ {
        Some(KeyBinding::Keycode(Keycode::N))
    } else if name == "O"@ {
        Some(KeyBinding::Keycode(Keycode::O))
    } else if name == "P"@ {
        Some(KeyBinding::Keycode(Keycode::P))
    } else if name == "Q"@ {
        Some(KeyBinding::Keycode(Keycode::Q))
    } else if name == "R"@ {
        Some(KeyBinding::Keycode(Keycode::R))
    } else if name == "S"@ {
        Some(KeyBinding::Keycode(Keycode::S))
    } else if name == "T"@ {
        Some(KeyBinding::Keycode(Keycode::T))
    } else if name == "U"@ {
        Some(KeyBinding::Keycode(Keycode::U))
    } else if name == "V"@ {
        Some(KeyBinding::Keycode(Keycode::V))
    } else if name == "W"@ {
        Some(KeyBinding::Keycode(Keycode::W))
    } else if name == "X"@ {
        Some(KeyBinding::Keycode(Keycode::X))
    } else if name == "Y"@ {
        Some(KeyBinding::Keycode(Keycode::Y))
    } else if name == "Z"@ {
        Some(KeyBinding::Keycode(Keycode::Z))
    } else {
        None
    }
}

/// The controller button named in a key configuration.
pub open spec fn button_binding(name: Seq<char>) -> Option<KeyBinding> {
    if name == "SDL_A"@ {
        Some(KeyBinding::Button(Button::A))
    } else if name == "SDL_B"@ {
        Some(KeyBinding::Button(Button::B))
    } else if name == "SDL_X"@ {
        Some(KeyBinding::Button(Button::X))
    } else if name == "SDL_Y"@ {
        Some(KeyBinding::Button(Button::Y))
    } else if name == "SDL_BACK"@ {
        Some(KeyBinding::Button(Button::Back))
    } else if name == "SDL_GUIDE"@ {
        Some(KeyBinding::Button(Button::Guide))
    } else if name == "SDL_START"@ {
        Some(KeyBinding::Button(Button::Start))
    } else if name == "SDL_LSHOULDER"@ {
        Some(KeyBinding::Button(Button::LeftShoulder))
    } else if name == "SDL_RSHOULDER"@ {
        Some(KeyBinding::Button(Button::RightShoulder))
    } else if name == "SDL_DPAD_UP"@ {
        Some(KeyBinding::Button(Button::DPadUp))
    } else if name == "SDL_DPAD_LEFT"@ {
        Some(KeyBinding::Button(Button::DPadLeft))
    } else if name == "SDL_DPAD_DOWN"@ {
        Some(KeyBinding::Button(Button::DPadDown))
    } else if name == "SDL_DPAD_RIGHT"@ {
        Some(KeyBinding::Button(Button::DPadRight))
    } else if name == "SDL_MISC"@ {
        Some(KeyBinding::Button(Button::Misc1))
    } else if name == "SDL_PADDLE1"@ {
        Some(KeyBinding::Button(Button::Paddle1))
    } else if name == "SDL_PADDLE2"@ {
        Some(KeyBinding::Button(Button::Paddle2))
    } else if name == "SDL_PADDLE3"@ {
        Some(KeyBinding::Button(Button::Paddle3))
    } else if name == "SDL_PADDLE4"@ {
        Some(KeyBinding::Button(Button::Paddle4))
    } else if name == "SDL_TOUCHPAD"@ {
        Some(KeyBinding::Button(Button::Touchpad))
    } else if name == "SDL_LSTICK_PRESS"@ {
        Some(KeyBinding::Button(Button::LeftStick))
    } else if name == "SDL_RSTICK_PRESS"@ {
        Some(KeyBinding::Button(Button::RightStick))
    } else {
        None
    }
}

/// The controller axis direction named in a key configuration.
pub open spec fn axis_binding(name: Seq<char>) -> Option<KeyBinding> {
    if name == "SDL_LSTICK_LEFT"@ {
        Some(KeyBinding::Axis(Axis::LeftStickLeft))
    } else if name == "SDL_LSTICK_UP"@ {
        Some(KeyBinding::Axis(Axis::LeftStickUp))
    } else if name == "SDL_LSTICK_DOWN"@ {
        Some(KeyBinding::Axis(Axis::LeftStickDown))
    } else if name == "SDL_LSTICK_RIGHT"@ {
        Some(KeyBinding::Axis(Axis::LeftStickRight))
    } else if name == "SDL_RSTICK_LEFT"@ {
        Some(KeyBinding::Axis(Axis::RightStickLeft))
    } else if name == "SDL_RSTICK_UP"@ {
        Some(KeyBinding::Axis(Axis::RightStickUp))
    } else if name == "SDL_RSTICK_DOWN"@ {
        Some(KeyBinding::Axis(Axis::RightStickDown))
    } else if name == "SDL_RSTICK_RIGHT"@ {
        Some(KeyBinding::Axis(Axis::RightStickRight))
    } else if name == "SDL_LTRIGGER_DOWN"@ {
        Some(KeyBinding::Axis(Axis::LeftTriggerDown))
    } else if name == "SDL_LTRIGGER_UP"@ {
        Some(KeyBinding::Axis(Axis::LeftTriggerUp))
    } else if name == "SDL_RTRIGGER_DOWN"@ {
        Some(KeyBinding::Axis(Axis::RightTriggerDown))
    } else if name == "SDL_RTRIGGER_UP"@ {
        Some(KeyBinding::Axis(Axis::RightTriggerUp))
    } else {
        None
    }
}

/// The keyboard key named `name`, if any.
fn lookup_keyboard(name: &str) -> (b: Option<KeyBinding>)
    ensures
        b == keyboard_binding(name@),
{
    if str_eq(name, "F1") {
        Some(KeyBinding::Keycode(Keycode::F1))
    } else if str_eq(name, "F2") {
        Some(KeyBinding::Keycode(Keycode::F2))
    } else if str_eq(name, "F3") {
        Some(KeyBinding::Keycode(Keycode::F3))
    } else if str_eq(name, "F4") {
        Some(KeyBinding::Keycode(Keycode::F4))
    } else if str_eq(name, "F5") {
        Some(KeyBinding::Keycode(Keycode::F5))
    } else if str_eq(name, "F6") {
        Some(KeyBinding::Keycode(Keycode::F6))
    } else if str_eq(name, "F7") {
        Some(KeyBinding::Keycode(Keycode::F7))
    } else if str_eq(name, "F8") {
        Some(KeyBinding::Keycode(Keycode::F8))
    } else if str_eq(name, "F9") {
        Some(KeyBinding::Keycode(Keycode::F9))
    } else if str_eq(name, "F10") {
        Some(KeyBinding::Keycode(Keycode::F10))
    } else if str_eq(name, "F11") {
        Some(KeyBinding::Keycode(Keycode::F11))
    } else if str_eq(name, "F12") {
        Some(KeyBinding::Keycode(Keycode::F12))
    } else if str_eq(name, "NUM0") {
        Some(KeyBinding::Keycode(Keycode::Key0))
    } else if str_eq(name, "NUM1") {
        Some(KeyBinding::Keycode(Keycode::Key1))
    } else if str_eq(name, "NUM2") {
        Some(KeyBinding::Keycode(Keycode::Key2))
    } else if str_eq(name, "NUM3") {
        Some(KeyBinding::Keycode(Keycode::Key3))
    } else if str_eq(name, "NUM4") {
        Some(KeyBinding::Keycode(Keycode::Key4))
    } else if str_eq(name, "NUM5") {
        Some(KeyBinding::Keycode(Keycode::Key5))
    } else if str_eq(name, "NUM6") {
        Some(KeyBinding::Keycode(Keycode::Key6))
    } else if str_eq(name, "NUM7") {
        Some(KeyBinding::Keycode(Keycode::Key7))
    } else if str_eq(name, "NUM8") {
        Some(KeyBinding::Keycode(Keycode::Key8))
    } else if str_eq(name, "NUM9") {
        Some(KeyBinding::Keycode(Keycode::Key9))
    } else if str_eq(name, "UPARROW") {
        Some(KeyBinding::Keycode(Keycode::Up))
    } else if str_eq(name, "LEFTARROW") {
        Some(KeyBinding::Keycode(Keycode::Left))
    } else if str_eq(name, "DOWNARROW") {
        Some(KeyBinding::Keycode(Keycode::Down))
    } else if str_eq(name, "RIGHTARROW") {
        Some(KeyBinding::Keycode(Keycode::Right))
    } else if str_eq(name, "ENTER") {
        Some(KeyBinding::Keycode(Keycode::Enter))
    } else if str_eq(name, "SPACE") {
        Some(KeyBinding::Keycode(Keycode::Space))
    } else if str_eq(name, "CONTROL") {
        Some(KeyBinding::Keycode(Keycode::LControl))
    } else if str_eq(name, "SHIFT") {
        Some(KeyBinding::Keycode(Keycode::LShift))
    } else if str_eq(name, "TAB") {
        Some(KeyBinding::Keycode(Keycode::Tab))
    } else if str_eq(name, "ESCAPE") {
        Some(KeyBinding::Keycode(Keycode::Escape))
    } else if str_eq(name, "A") {
        Some(KeyBinding::Keycode(Keycode::A))
    } else if str_eq(name, "B") {
        Some(KeyBinding::Keycode(Keycode::B))
    } else if str_eq(name, "C") {
        Some(KeyBinding::Keycode(Keycode::C))
    } else if str_eq(name, "D") {
        Some(KeyBinding::Keycode(Keycode::D))
    } else if str_eq(name, "E") {
        Some(KeyBinding::Keycode(Keycode::E))
    } else if str_eq(name, "F") {
        Some(KeyBinding::Keycode(Keycode::F))
    } else if str_eq(name, "G") {
        Some(KeyBinding::Keycode(Keycode::G))
    } else if str_eq(name, "H") {
        Some(KeyBinding::Keycode(Keycode::H))
    } else if str_eq(name, "I") {
        Some(KeyBinding::Keycode(Keycode::I))
    } else if str_eq(name, "J") {
        Some(KeyBinding::Keycode(Keycode::J))
    } else if str_eq(name, "K") {
        Some(KeyBinding::Keycode(Keycode::K))
    } else if str_eq(name, "L") {
        Some(KeyBinding::Keycode(Keycode::L))
    } else if str_eq(name, "M") {
        Some(KeyBinding::Keycode(Keycode::M))
    } else if str_eq(name, "N") {
        Some(KeyBinding::Keycode(Keycode::N))
    } else if str_eq(name, "O") {
        Some(KeyBinding::Keycode(Keycode::O))
    } else if str_eq(name, "P") {
        Some(KeyBinding::Keycode(Keycode::P))
    } else if str_eq(name, "Q") {
        Some(KeyBinding::Keycode(Keycode::Q))
    } else if str_eq(name, "R") {
        Some(KeyBinding::Keycode(Keycode::R))
    } else if str_eq(name, "S") {
        Some(KeyBinding::Keycode(Keycode::S))
    } else if str_eq(name, "T") {
        Some(KeyBinding::Keycode(Keycode::T))
    } else if str_eq(name, "U") {
        Some(KeyBinding::Keycode(Keycode::U))
    } else if str_eq(name, "V") {
        Some(KeyBinding::Keycode(Keycode::V))
    } else if str_eq(name, "W") {
        Some(KeyBinding::Keycode(Keycode::W))
    } else if str_eq(name, "X") {
        Some(KeyBinding::Keycode(Keycode::X))
    } else if str_eq(name, "Y") {
        Some(KeyBinding::Keycode(Keycode::Y))
    } else if str_eq(name, "Z") {
        Some(KeyBinding::Keycode(Keycode::Z))
    } else {
        None
    }
}

/// The controller button named `name`, if any.
fn lookup_button(name: &str) -> (b: Option<KeyBinding>)
    ensures
        b == button_binding(name@),
{
    if str_eq(name, "SDL_A") {
        Some(KeyBinding::Button(Button::A))
    } else if str_eq(name, "SDL_B") {
        Some(KeyBinding::Button(Button::B))
    } else if str_eq(name, "SDL_X") {
        Some(KeyBinding::Button(Button::X))
    } else if str_eq(name, "SDL_Y") {
        Some(KeyBinding::Button(Button::Y))
    } else if str_eq(name, "SDL_BACK") {
        Some(KeyBinding::Button(Button::Back))
    } else if str_eq(name, "SDL_GUIDE") {
        Some(KeyBinding::Button(Button::Guide))
    } else if str_eq(name, "SDL_START") {
        Some(KeyBinding::Button(Button::Start))
    } else if str_eq(name, "SDL_LSHOULDER") {
        Some(KeyBinding::Button(Button::LeftShoulder))
    } else if str_eq(name, "SDL_RSHOULDER") {
        Some(KeyBinding::Button(Button::RightShoulder))
    } else if str_eq(name, "SDL_DPAD_UP") {
        Some(KeyBinding::Button(Button::DPadUp))
    } else if str_eq(name, "SDL_DPAD_LEFT") {
        Some(KeyBinding::Button(Button::DPadLeft))
    } else if str_eq(name, "SDL_DPAD_DOWN") {
        Some(KeyBinding::Button(Button::DPadDown))
    } else if str_eq(name, "SDL_DPAD_RIGHT") {
        Some(KeyBinding::Button(Button::DPadRight))
    } else if str_eq(name, "SDL_MISC") {
        Some(KeyBinding::Button(Button::Misc1))
    } else if str_eq(name, "SDL_PADDLE1") {
        Some(KeyBinding::Button(Button::Paddle1))
    } else if str_eq(name, "SDL_PADDLE2") {
        Some(KeyBinding::Button(Button::Paddle2))
    } else if str_eq(name, "SDL_PADDLE3") {
        Some(KeyBinding::Button(Button::Paddle3))
    } else if str_eq(name, "SDL_PADDLE4") {
        Some(KeyBinding::Button(Button::Paddle4))
    } else if str_eq(name, "SDL_TOUCHPAD") {
        Some(KeyBinding::Button(Button::Touchpad))
    } else if str_eq(name, "SDL_LSTICK_PRESS") {
        Some(KeyBinding::Button(Button::LeftStick))
    } else if str_eq(name, "SDL_RSTICK_PRESS") {
        Some(KeyBinding::Button(Button::RightStick))
    } else {
        None
    }
}

/// The controller axis direction named `name`, if any.
fn lookup_axis(name: &str) -> (b: Option<KeyBinding>)
    ensures
        b == axis_binding(name@),
{
    if str_eq(name, "SDL_LSTICK_LEFT") {
        Some(KeyBinding::Axis(Axis::LeftStickLeft))
    } else if str_eq(name, "SDL_LSTICK_UP") {
        Some(KeyBinding::Axis(Axis::LeftStickUp))
    } else if str_eq(name, "SDL_LSTICK_DOWN") {
        Some(KeyBinding::Axis(Axis::LeftStickDown))
    } else if str_eq(name, "SDL_LSTICK_RIGHT") {
        Some(KeyBinding::Axis(Axis::LeftStickRight))
    } else if str_eq(name, "SDL_RSTICK_LEFT") {
        Some(KeyBinding::Axis(Axis::RightStickLeft))
    } else if str_eq(name, "SDL_RSTICK_UP") {
        Some(KeyBinding::Axis(Axis::RightStickUp))
    } else if str_eq(name, "SDL_RSTICK_DOWN") {
        Some(KeyBinding::Axis(Axis::RightStickDown))
    } else if str_eq(name, "SDL_RSTICK_RIGHT") {
        Some(KeyBinding::Axis(Axis::RightStickRight))
    } else if str_eq(name, "SDL_LTRIGGER_DOWN") {
        Some(KeyBinding::Axis(Axis::LeftTriggerDown))
    } else if str_eq(name, "SDL_LTRIGGER_UP") {
        Some(KeyBinding::Axis(Axis::LeftTriggerUp))
    } else if str_eq(name, "SDL_RTRIGGER_DOWN") {
        Some(KeyBinding::Axis(Axis::RightTriggerDown))
    } else if str_eq(name, "SDL_RTRIGGER_UP") {
        Some(KeyBinding::Axis(Axis::RightTriggerUp))
    } else {
        None
    }
}
/// One way of pressing a control of the cabinet.
#[derive(Clone, Copy, Debug, PartialEq, Eq, Structural)]
pub enum KeyBinding {
    Keycode(Keycode),
    Button(Button),
    Axis(Axis),
}

/// The binding named in a key configuration: a keyboard key (`F1`, `NUM0`,
/// `UPARROW`, `A`, ...), a controller button (`SDL_A`, `SDL_START`, ...) or
/// a controller axis direction (`SDL_LSTICK_LEFT`, ...).
pub open spec fn binding_named(name: Seq<char>) -> Option<KeyBinding> {
    if keyboard_binding(name) is Some {
        keyboard_binding(name)
    } else if button_binding(name) is Some {
        button_binding(name)
    } else {
        axis_binding(name)
    }
}

/// The binding named `name`, if the name is one of the known ones.
pub fn binding_for_name(name: &str) -> (b: Option<KeyBinding>)
    ensures
        b == binding_named(name@),
{
    match lookup_keyboard(name) {
        Some(b) => Some(b),
        None => match lookup_button(name) {
            Some(b) => Some(b),
            None => lookup_axis(name),
        },
    }
}

/// The name by which a key configuration names keyboard key `k`.
pub open spec fn key_name(k: Keycode) -> Seq<char> {
    match k {
        Keycode::F1 => "F1"@,
        Keycode::F2 => "F2"@,
        Keycode::F3 => "F3"@,
        Keycode::F4 => "F4"@,
        Keycode::F5 => "F5"@,
        Keycode::F6 => "F6"@,
        Keycode::F7 => "F7"@,
        Keycode::F8 => "F8"@,
        Keycode::F9 => "F9"@,
        Keycode::F10 => "F10"@,
        Keycode::F11 => "F11"@,
        Keycode::F12 => "F12"@,
        Keycode::Key0 => "NUM0"@,
        Keycode::Key1 => "NUM1"@,
        Keycode::Key2 => "NUM2"@,
        Keycode::Key3 => "NUM3"@,
        Keycode::Key4 => "NUM4"@,
        Keycode::Key5 => "NUM5"@,
        Keycode::Key6 => "NUM6"@,
        Keycode::Key7 => "NUM7"@,
        Keycode::Key8 => "NUM8"@,
        Keycode::Key9 => "NUM9"@,
        Keycode::Up => "UPARROW"@,
        Keycode::Left => "LEFTARROW"@,
        Keycode::Down => "DOWNARROW"@,
        Keycode::Right => "RIGHTARROW"@,
        Keycode::Enter => "ENTER"@,
        Keycode::Space => "SPACE"@,
        Keycode::LControl => "CONTROL"@,
        Keycode::LShift => "SHIFT"@,
        Keycode::Tab => "TAB"@,
        Keycode::Escape => "ESCAPE"@,
        Keycode::A => "A"@,
        Keycode::B => "B"@,
        Keycode::C => "C"@,
        Keycode::D => "D"@,
        Keycode::E => "E"@,
        Keycode::F => "F"@,
        Keycode::G => "G"@,
        Keycode::H => "H"@,
        Keycode::I => "I"@,
        Keycode::J => "J"@,
        Keycode::K => "K"@,
        Keycode::L => "L"@,
        Keycode::M => "M"@,
        Keycode::N => "N"@,
        Keycode::O => "O"@,
        Keycode::P => "P"@,
        Keycode::Q => "Q"@,
        Keycode::R => "R"@,
        Keycode::S => "S"@,
        Keycode::T => "T"@,
        Keycode::U => "U"@,
        Keycode::V => "V"@,
        Keycode::W => "W"@,
        Keycode::X => "X"@,
        Keycode::Y => "Y"@,
        Keycode::Z => "Z"@,
    }
}

/// The name by which a key configuration names controller button `b`.
pub open spec fn button_name(b: Button) -> Seq<char> {
    match b {
        Button::A => "SDL_A"@,
        Button::B => "SDL_B"@,
        Button::X => "SDL_X"@,
        Button::Y => "SDL_Y"@,
        Button::Back => "SDL_BACK"@,
        Button::Guide => "SDL_GUIDE"@,
        Button::Start => "SDL_START"@,
        Button::LeftShoulder => "SDL_LSHOULDER"@,
        Button::RightShoulder => "SDL_RSHOULDER"@,
        Button::DPadUp => "SDL_DPAD_UP"@,
        Button::DPadLeft => "SDL_DPAD_LEFT"@,
        Button::DPadDown => "SDL_DPAD_DOWN"@,
        Button::DPadRight => "SDL_DPAD_RIGHT"@,
        Button::Misc1 => "SDL_MISC"@,
        Button::Paddle1 => "SDL_PADDLE1"@,
        Button::Paddle2 => "SDL_PADDLE2"@,
        Button::Paddle3 => "SDL_PADDLE3"@,
        Button::Paddle4 => "SDL_PADDLE4"@,
        Button::Touchpad => "SDL_TOUCHPAD"@,
        Button::LeftStick => "SDL_LSTICK_PRESS"@,
        Button::RightStick => "SDL_RSTICK_PRESS"@,
    }
}

/// The name by which a key configuration names axis direction `a`.
pub open spec fn axis_name(a: Axis) -> Seq<char> {
    match a {
        Axis::LeftStickLeft => "SDL_LSTICK_LEFT"@,
        Axis::LeftStickUp => "SDL_LSTICK_UP"@,
        Axis::LeftStickDown => "SDL_LSTICK_DOWN"@,
        Axis::LeftStickRight => "SDL_LSTICK_RIGHT"@,
        Axis::RightStickLeft => "SDL_RSTICK_LEFT"@,
        Axis::RightStickUp => "SDL_RSTICK_UP"@,
        Axis::RightStickDown => "SDL_RSTICK_DOWN"@,
        Axis::RightStickRight => "SDL_RSTICK_RIGHT"@,
        Axis::LeftTriggerDown => "SDL_LTRIGGER_DOWN"@,
        Axis::LeftTriggerUp => "SDL_LTRIGGER_UP"@,
        Axis::RightTriggerDown => "SDL_RTRIGGER_DOWN"@,
        Axis::RightTriggerUp => "SDL_RTRIGGER_UP"@,
    }
}

/// The name by which a key configuration names binding `b`.
pub open spec fn binding_name(b: KeyBinding) -> Seq<char> {
    match b {
        KeyBinding::Keycode(k) => key_name(k),
        KeyBinding::Button(x) => button_name(x),
        KeyBinding::Axis(a) => axis_name(a),
    }
}

/// Law of key names: a known name gives the binding that it spells, and no
/// other; `LEFTARROW` gives the left arrow key, `SDL_RSTICK_DOWN` the right
/// stick pushed down.
pub proof fn lemma_named_binding_is_spelled(name: Seq<char>, b: KeyBinding)
    requires
        binding_named(name) == Some(b),
    ensures
        name == binding_name(b),
{
}

/// Law of key names: distinct known names give distinct bindings.
pub proof fn lemma_known_names_distinct(n1: Seq<char>, n2: Seq<char>)
    requires
        binding_named(n1) is Some,
        binding_named(n1) == binding_named(n2),
    ensures
        n1 == n2,
{
    lemma_named_binding_is_spelled(n1, binding_named(n1).unwrap());
    lemma_named_binding_is_spelled(n2, binding_named(n2).unwrap());
}

/// Law of key names: every key, button and axis direction can be bound, by
/// its name.
pub proof fn lemma_every_binding_named(b: KeyBinding)
    ensures
        binding_named(binding_name(b)) == Some(b),
{
    // Each name, with its length and the characters that tell it apart from
    // the other names of that length.
    reveal_strlit("F1");
    assert("F1"@.len() == 2 && "F1"@[1] == '1');
    reveal_strlit("F2");
    assert("F2"@.len() == 2 && "F2"@[1] == '2');
    reveal_strlit("F3");
    assert("F3"@.len() == 2 && "F3"@[1] == '3');
    reveal_strlit("F4");
    assert("F4"@.len() == 2 && "F4"@[1] == '4');
    reveal_strlit("F5");
    assert("F5"@.len() == 2 && "F5"@[1] == '5');
    reveal_strlit("F6");
    assert("F6"@.len() == 2 && "F6"@[1] == '6');
    reveal_strlit("F7");
    assert("F7"@.len() == 2 && "F7"@[1] == '7');
    reveal_strlit("F8");
    assert("F8"@.len() == 2 && "F8"@[1] == '8');
    reveal_strlit("F9");
    assert("F9"@.len() == 2 && "F9"@[1] == '9');
    reveal_strlit("F10");
    assert("F10"@.len() == 3 && "F10"@[0] == 'F' && "F10"@[2] == '0');
    reveal_strlit("F11");
    assert("F11"@.len() == 3 && "F11"@[0] == 'F' && "F11"@[2] == '1');
    reveal_strlit("F12");
    assert("F12"@.len() == 3 && "F12"@[0] == 'F' && "F12"@[2] == '2');
    reveal_strlit("NUM0");
    assert("NUM0"@.len() == 4 && "NUM0"@[3] == '0');
    reveal_strlit("NUM1");
    assert("NUM1"@.len() == 4 && "NUM1"@[3] == '1');
    reveal_strlit("NUM2");
    assert("NUM2"@.len() == 4 && "NUM2"@[3] == '2');
    reveal_strlit("NUM3");
    assert("NUM3"@.len() == 4 && "NUM3"@[3] == '3');
    reveal_strlit("NUM4");
    assert("NUM4"@.len() == 4 && "NUM4"@[3] == '4');
    reveal_strlit("NUM5");
    assert("NUM5"@.len() == 4 && "NUM5"@[3] == '5');
    reveal_strlit("NUM6");
    assert("NUM6"@.len() == 4 && "NUM6"@[3] == '6');
    reveal_strlit("NUM7");
    assert("NUM7"@.len() == 4 && "NUM7"@[3] == '7');
    reveal_strlit("NUM8");
    assert("NUM8"@.len() == 4 && "NUM8"@[3] == '8');
    reveal_strlit("NUM9");
    assert("NUM9"@.len() == 4 && "NUM9"@[3] == '9');
    reveal_strlit("UPARROW");
    assert("UPARROW"@.len() == 7 && "UPARROW"@[0] == 'U');
    reveal_strlit("LEFTARROW");
    assert("LEFTARROW"@.len() == 9 && "LEFTARROW"@[0] == 'L');
    reveal_strlit("DOWNARROW");
    assert("DOWNARROW"@.len() == 9 && "DOWNARROW"@[0] == 'D');
    reveal_strlit("RIGHTARROW");
    assert("RIGHTARROW"@.len() == 10);
    reveal_strlit("ENTER");
    assert("ENTER"@.len() == 5 && "ENTER"@[0] == 'E');
    reveal_strlit("SPACE");
    assert("SPACE"@.len() == 5 && "SPACE"@[0] == 'S' && "SPACE"@[1] == 'P');
    reveal_strlit("CONTROL");
    assert("CONTROL"@.len() == 7 && "CONTROL"@[0] == 'C');
    reveal_strlit("SHIFT");
    assert("SHIFT"@.len() == 5 && "SHIFT"@[0] == 'S' && "SHIFT"@[1] == 'H');
    reveal_strlit("TAB");
    assert("TAB"@.len() == 3 && "TAB"@[0] == 'T');
    reveal_strlit("ESCAPE");
    assert("ESCAPE"@.len() == 6);
    reveal_strlit("A");
    assert("A"@.len() == 1 && "A"@[0] == 'A');
    reveal_strlit("B");
    assert("B"@.len() == 1 && "B"@[0] == 'B');
    reveal_strlit("C");
    assert("C"@.len() == 1 && "C"@[0] == 'C');
    reveal_strlit("D");
    assert("D"@.len() == 1 && "D"@[0] == 'D');
    reveal_strlit("E");
    assert("E"@.len() == 1 && "E"@[0] == 'E');
    reveal_strlit("F");
    assert("F"@.len() == 1 && "F"@[0] == 'F');
    reveal_strlit("G");
    assert("G"@.len() == 1 && "G"@[0] == 'G');
    reveal_strlit("H");
    assert("H"@.len() == 1 && "H"@[0] == 'H');
    reveal_strlit("I");
    assert("I"@.len() == 1 && "I"@[0] == 'I');
    reveal_strlit("J");
    assert("J"@.len() == 1 && "J"@[0] == 'J');
    reveal_strlit("K");
    assert("K"@.len() == 1 && "K"@[0] == 'K');
    reveal_strlit("L");
    assert("L"@.len() == 1 && "L"@[0] == 'L');
    reveal_strlit("M");
    assert("M"@.len() == 1 && "M"@[0] == 'M');
    reveal_strlit("N");
    assert("N"@.len() == 1 && "N"@[0] == 'N');
    reveal_strlit("O");
    assert("O"@.len() == 1 && "O"@[0] == 'O');
    reveal_strlit("P");
    assert("P"@.len() == 1 && "P"@[0] == 'P');
    reveal_strlit("Q");
    assert("Q"@.len() == 1 && "Q"@[0] == 'Q');
    reveal_strlit("R");
    assert("R"@.len() == 1 && "R"@[0] == 'R');
    reveal_strlit("S");
    assert("S"@.len() == 1 && "S"@[0] == 'S');
    reveal_strlit("T");
    assert("T"@.len() == 1 && "T"@[0] == 'T');
    reveal_strlit("U");
    assert("U"@.len() == 1 && "U"@[0] == 'U');
    reveal_strlit("V");
    assert("V"@.len() == 1 && "V"@[0] == 'V');
    reveal_strlit("W");
    assert("W"@.len() == 1 && "W"@[0] == 'W');
    reveal_strlit("X");
    assert("X"@.len() == 1 && "X"@[0] == 'X');
    reveal_strlit("Y");
    assert("Y"@.len() == 1 && "Y"@[0] == 'Y');
    reveal_strlit("Z");
    assert("Z"@.len() == 1 && "Z"@[0] == 'Z');
    reveal_strlit("SDL_A");
    assert("SDL_A"@.len() == 5 && "SDL_A"@[0] == 'S' && "SDL_A"@[1] == 'D' && "SDL_A"@[4] == 'A');
    reveal_strlit("SDL_B");
    assert("SDL_B"@.len() == 5 && "SDL_B"@[0] == 'S' && "SDL_B"@[1] == 'D' && "SDL_B"@[4] == 'B');
    reveal_strlit("SDL_X");
    assert("SDL_X"@.len() == 5 && "SDL_X"@[0] == 'S' && "SDL_X"@[1] == 'D' && "SDL_X"@[4] == 'X');
    reveal_strlit("SDL_Y");
    assert("SDL_Y"@.len() == 5 && "SDL_Y"@[0] == 'S' && "SDL_Y"@[1] == 'D' && "SDL_Y"@[4] == 'Y');
    reveal_strlit("SDL_BACK");
    assert("SDL_BACK"@.len() == 8 && "SDL_BACK"@[4] == 'B');
    reveal_strlit("SDL_GUIDE");
    assert("SDL_GUIDE"@.len() == 9 && "SDL_GUIDE"@[0] == 'S' && "SDL_GUIDE"@[4] == 'G');
    reveal_strlit("SDL_START");
    assert("SDL_START"@.len() == 9 && "SDL_START"@[0] == 'S' && "SDL_START"@[4] == 'S');
    reveal_strlit("SDL_LSHOULDER");
    assert(
        "SDL_LSHOULDER"@.len() == 13 &&
        "SDL_LSHOULDER"@[4] == 'L' &&
        "SDL_LSHOULDER"@[6] == 'H'
    );
    reveal_strlit("SDL_RSHOULDER");
    assert(
        "SDL_RSHOULDER"@.len() == 13 &&
        "SDL_RSHOULDER"@[4] == 'R' &&
        "SDL_RSHOULDER"@[6] == 'H'
    );
    reveal_strlit("SDL_DPAD_UP");
    assert("SDL_DPAD_UP"@.len() == 11 && "SDL_DPAD_UP"@[4] == 'D');
    reveal_strlit("SDL_DPAD_LEFT");
    assert(
        "SDL_DPAD_LEFT"@.len() == 13 &&
        "SDL_DPAD_LEFT"@[4] == 'D' &&
        "SDL_DPAD_LEFT"@[9] == 'L'
    );
    reveal_strlit("SDL_DPAD_DOWN");
    assert(
        "SDL_DPAD_DOWN"@.len() == 13 &&
        "SDL_DPAD_DOWN"@[4] == 'D' &&
        "SDL_DPAD_DOWN"@[9] == 'D'
    );
    reveal_strlit("SDL_DPAD_RIGHT");
    assert("SDL_DPAD_RIGHT"@.len() == 14);
    reveal_strlit("SDL_MISC");
    assert("SDL_MISC"@.len() == 8 && "SDL_MISC"@[4] == 'M');
    reveal_strlit("SDL_PADDLE1");
    assert("SDL_PADDLE1"@.len() == 11 && "SDL_PADDLE1"@[4] == 'P' && "SDL_PADDLE1"@[10] == '1');
    reveal_strlit("SDL_PADDLE2");
    assert("SDL_PADDLE2"@.len() == 11 && "SDL_PADDLE2"@[4] == 'P' && "SDL_PADDLE2"@[10] == '2');
    reveal_strlit("SDL_PADDLE3");
    assert("SDL_PADDLE3"@.len() == 11 && "SDL_PADDLE3"@[4] == 'P' && "SDL_PADDLE3"@[10] == '3');
    reveal_strlit("SDL_PADDLE4");
    assert("SDL_PADDLE4"@.len() == 11 && "SDL_PADDLE4"@[4] == 'P' && "SDL_PADDLE4"@[10] == '4');
    reveal_strlit("SDL_TOUCHPAD");
    assert("SDL_TOUCHPAD"@.len() == 12);
    reveal_strlit("SDL_LSTICK_PRESS");
    assert(
        "SDL_LSTICK_PRESS"@.len() == 16 &&
        "SDL_LSTICK_PRESS"@[4] == 'L' &&
        "SDL_LSTICK_PRESS"@[11] == 'P'
    );
    reveal_strlit("SDL_RSTICK_PRESS");
    assert(
        "SDL_RSTICK_PRESS"@.len() == 16 &&
        "SDL_RSTICK_PRESS"@[4] == 'R' &&
        "SDL_RSTICK_PRESS"@[11] == 'P'
    );
    reveal_strlit("SDL_LSTICK_LEFT");
    assert(
        "SDL_LSTICK_LEFT"@.len() == 15 &&
        "SDL_LSTICK_LEFT"@[4] == 'L' &&
        "SDL_LSTICK_LEFT"@[5] == 'S' &&
        "SDL_LSTICK_LEFT"@[11] == 'L'
    );
    reveal_strlit("SDL_LSTICK_UP");
    assert(
        "SDL_LSTICK_UP"@.len() == 13 &&
        "SDL_LSTICK_UP"@[4] == 'L' &&
        "SDL_LSTICK_UP"@[6] == 'T'
    );
    reveal_strlit("SDL_LSTICK_DOWN");
    assert(
        "SDL_LSTICK_DOWN"@.len() == 15 &&
        "SDL_LSTICK_DOWN"@[4] == 'L' &&
        "SDL_LSTICK_DOWN"@[5] == 'S' &&
        "SDL_LSTICK_DOWN"@[11] == 'D'
    );
    reveal_strlit("SDL_LSTICK_RIGHT");
    assert(
        "SDL_LSTICK_RIGHT"@.len() == 16 &&
        "SDL_LSTICK_RIGHT"@[4] == 'L' &&
        "SDL_LSTICK_RIGHT"@[11] == 'R'
    );
    reveal_strlit("SDL_RSTICK_LEFT");
    assert(
        "SDL_RSTICK_LEFT"@.len() == 15 &&
        "SDL_RSTICK_LEFT"@[4] == 'R' &&
        "SDL_RSTICK_LEFT"@[5] == 'S' &&
        "SDL_RSTICK_LEFT"@[11] == 'L'
    );
    reveal_strlit("SDL_RSTICK_UP");
    assert(
        "SDL_RSTICK_UP"@.len() == 13 &&
        "SDL_RSTICK_UP"@[4] == 'R' &&
        "SDL_RSTICK_UP"@[6] == 'T'
    );
    reveal_strlit("SDL_RSTICK_DOWN");
    assert(
        "SDL_RSTICK_DOWN"@.len() == 15 &&
        "SDL_RSTICK_DOWN"@[4] == 'R' &&
        "SDL_RSTICK_DOWN"@[5] == 'S' &&
        "SDL_RSTICK_DOWN"@[11] == 'D'
    );
    reveal_strlit("SDL_RSTICK_RIGHT");
    assert(
        "SDL_RSTICK_RIGHT"@.len() == 16 &&
        "SDL_RSTICK_RIGHT"@[4] == 'R' &&
        "SDL_RSTICK_RIGHT"@[11] == 'R'
    );
    reveal_strlit("SDL_LTRIGGER_DOWN");
    assert("SDL_LTRIGGER_DOWN"@.len() == 17 && "SDL_LTRIGGER_DOWN"@[4] == 'L');
    reveal_strlit("SDL_LTRIGGER_UP");
    assert(
        "SDL_LTRIGGER_UP"@.len() == 15 &&
        "SDL_LTRIGGER_UP"@[4] == 'L' &&
        "SDL_LTRIGGER_UP"@[5] == 'T'
    );
    reveal_strlit("SDL_RTRIGGER_DOWN");
    assert("SDL_RTRIGGER_DOWN"@.len() == 17 && "SDL_RTRIGGER_DOWN"@[4] == 'R');
    reveal_strlit("SDL_RTRIGGER_UP");
    assert(
        "SDL_RTRIGGER_UP"@.len() == 15 &&
        "SDL_RTRIGGER_UP"@[4] == 'R' &&
        "SDL_RTRIGGER_UP"@[5] == 'T'
    );
}

/// All the ways of pressing one control: it counts as pressed when any of
/// them is.
pub struct KeyBindings {
    keys: Vec<KeyBinding>,
}

impl KeyBindings {
    /// The bindings, in configuration order.
    pub closed spec fn bindings(&self) -> Seq<KeyBinding> {
        self.keys@
    }

    /// The bindings, in configuration order.
    pub fn keys(&self) -> (k: &Vec<KeyBinding>)
        ensures
            k@ == self.bindings(),
    {
        &self.keys
    }
}

/// Whether every name of a configuration entry names a binding.
pub open spec fn all_named(names: Seq<String>) -> bool {
    forall|i: int| 0 <= i < names.len() ==> (#[trigger] binding_named(names[i]@)) is Some
}

/// Reads the bindings of one configuration entry; every name must be a
/// known one (see `binding_for_name`).
pub fn parse_keybinding(toml: Vec<String>) -> (kb: KeyBindings)
    requires
        all_named(toml@),
    ensures
        kb.bindings().len() == toml@.len(),
        forall|i: int|
            0 <= i < toml@.len() ==> Some(#[trigger] kb.bindings()[i]) == binding_named(toml@[i]@),
{
    let mut keys: Vec<KeyBinding> = Vec::new();
    let n = toml.len();
    let mut i: usize = 0;
    while i < n
        invariant
            n == toml@.len(),
            i <= n,
            all_named(toml@),
            keys@.len() == i,
            forall|j: int| 0 <= j < i ==> Some(#[trigger] keys@[j]) == binding_named(toml@[j]@),
        decreases n - i,
    {
        let value = toml[i].as_str();
        assert(binding_named(toml@[i as int]@) is Some);
        match binding_for_name(value) {
            Some(b) => keys.push(b),
            None => {
                assert(false);
            },
        }
        i = i + 1;
    }
    KeyBindings { keys }
}

fn contains_keycode(v: &Vec<Keycode>, k: Keycode) -> (r: bool)
    ensures
        r == v@.contains(k),
{
    let mut i: usize = 0;
    while i < v.len()
        invariant
            i <= v@.len(),
            forall|j: int| 0 <= j < i ==> v@[j] != k,
        decreases v@.len() - i,
    {
        if v[i] == k {
            return true;
        }
        i = i + 1;
    }
    false
}

fn contains_button(v: &Vec<Button>, b: Button) -> (r: bool)
    ensures
        r == v@.contains(b),
{
    let mut i: usize = 0;
    while i < v.len()
        invariant
            i <= v@.len(),
            forall|j: int| 0 <= j < i ==> v@[j] != b,
        decreases v@.len() - i,
    {
        if v[i] == b {
            return true;
        }
        i = i + 1;
    }
    false
}

fn contains_axis(v: &Vec<Axis>, a: Axis) -> (r: bool)
    ensures
        r == v@.contains(a),
{
    let mut i: usize = 0;
    while i < v.len()
        invariant
            i <= v@.len(),
            forall|j: int| 0 <= j < i ==> v@[j] != a,
        decreases v@.len() - i,
    {
        if v[i] == a {
            return true;
        }
        i = i + 1;
    }
    false
}

/// `v` without any copy of `b`, in order.
pub open spec fn without_button(v: Seq<Button>, b: Button) -> Seq<Button> {
    v.filter(other_button(b))
}

/// The buttons other than `b`.
pub open spec fn other_button(b: Button) -> spec_fn(Button) -> bool {
    |x: Button| x != b
}

/// The axis directions other than `a`.
pub open spec fn other_axis(a: Axis) -> spec_fn(Axis) -> bool {
    |x: Axis| x != a
}

/// `v` without any copy of `a`, in order.
pub open spec fn without_axis(v: Seq<Axis>, a: Axis) -> Seq<Axis> {
    v.filter(other_axis(a))
}

/// The digital state of the player's controls in the current and the
/// previous frame: the keyboard keys and controller buttons held, and the
/// axis directions whose value is not zero.
pub struct InputState {
    keyboard_state: Vec<Keycode>,
    last_keyboard_state: Vec<Keycode>,
    button_state: Vec<Button>,
    last_button_state: Vec<Button>,
    axis_state: Vec<Axis>,
    last_axis_state: Vec<Axis>,
}

impl InputState {
    /// Keys held in the current frame.
    pub closed spec fn keys_now(&self) -> Seq<Keycode> {
        self.keyboard_state@
    }

    /// Keys held in the previous frame.
    pub closed spec fn keys_before(&self) -> Seq<Keycode> {
        self.last_keyboard_state@
    }

    /// Buttons held in the current frame, in the order they were pressed.
    pub closed spec fn buttons_now(&self) -> Seq<Button> {
        self.button_state@
    }

    /// Buttons held in the previous frame.
    pub closed spec fn buttons_before(&self) -> Seq<Button> {
        self.last_button_state@
    }

    /// Axis directions deflected in the current frame.
    pub closed spec fn axes_now(&self) -> Seq<Axis> {
        self.axis_state@
    }

    /// Axis directions deflected in the previous frame.
    pub closed spec fn axes_before(&self) -> Seq<Axis> {
        self.last_axis_state@
    }

    /// Whether a binding is pressed in the current frame.
    pub open spec fn down(&self, b: KeyBinding) -> bool {
        match b {
            KeyBinding::Keycode(k) => self.keys_now().contains(k),
            KeyBinding::Button(x) => self.buttons_now().contains(x),
            KeyBinding::Axis(a) => self.axes_now().contains(a),
        }
    }

    /// Whether a binding was pressed in the previous frame.
    pub open spec fn was_down_spec(&self, b: KeyBinding) -> bool {
        match b {
            KeyBinding::Keycode(k) => self.keys_before().contains(k),
            KeyBinding::Button(x) => self.buttons_before().contains(x),
            KeyBinding::Axis(a) => self.axes_before().contains(a),
        }
    }

    /// Whether a binding went down between the two frames.
    pub open spec fn tapped(&self, b: KeyBinding) -> bool {
        self.down(b) && !self.was_down_spec(b)
    }

    /// Whether a binding went up between the two frames.
    pub open spec fn released(&self, b: KeyBinding) -> bool {
        !self.down(b) && self.was_down_spec(b)
    }

    /// Nothing held, now or before.
    pub fn new() -> (s: Self)
        ensures
            s.keys_now() == Seq::<Keycode>::empty(),
            s.keys_before() == Seq::<Keycode>::empty(),
            s.buttons_now() == Seq::<Button>::empty(),
            s.buttons_before() == Seq::<Button>::empty(),
            s.axes_now() == Seq::<Axis>::empty(),
            s.axes_before() == Seq::<Axis>::empty(),
    {
        InputState {
            keyboard_state: Vec::new(),
            last_keyboard_state: Vec::new(),
            button_state: Vec::new(),
            last_button_state: Vec::new(),
            axis_state: Vec::new(),
            last_axis_state: Vec::new(),
        }
    }

    /// Starts a new frame: the current state becomes the previous one, and
    /// the keyboard state is the one just read; buttons and axes carry over
    /// until their events arrive.
    pub fn begin_frame(&mut self, keyboard: Vec<Keycode>)
        ensures
            final(self).keys_before() == old(self).keys_now(),
            final(self).buttons_before() == old(self).buttons_now(),
            final(self).axes_before() == old(self).axes_now(),
            final(self).keys_now() == keyboard@,
            final(self).buttons_now() == old(self).buttons_now(),
            final(self).axes_now() == old(self).axes_now(),
    {
        self.last_keyboard_state = self.keyboard_state.clone();
        self.last_button_state = self.button_state.clone();
        self.last_axis_state = self.axis_state.clone();
        self.keyboard_state = keyboard;
        proof {
            assert(self.last_keyboard_state@ =~= old(self).keyboard_state@);
            assert(self.last_button_state@ =~= old(self).button_state@);
            assert(self.last_axis_state@ =~= old(self).axis_state@);
        }
    }

    /// A controller button went down.
    pub fn press_button(&mut self, button: Button)
        ensures
            final(self).buttons_now() == old(self).buttons_now().push(button),
            final(self).keys_now() == old(self).keys_now(),
            final(self).axes_now() == old(self).axes_now(),
            final(self).keys_before() == old(self).keys_before(),
            final(self).buttons_before() == old(self).buttons_before(),
            final(self).axes_before() == old(self).axes_before(),
    {
        self.button_state.push(button);
    }

    /// A controller button went up: it is no longer held, however often it
    /// went down.
    pub fn release_button(&mut self, button: Button)
        ensures
            final(self).buttons_now() == without_button(old(self).buttons_now(), button),
            forall|b: Button|
                #[trigger] final(self).buttons_now().contains(b) == (b != button && old(
                    self,
                ).buttons_now().contains(b)),
            final(self).keys_now() == old(self).keys_now(),
            final(self).axes_now() == old(self).axes_now(),
            final(self).keys_before() == old(self).keys_before(),
            final(self).buttons_before() == old(self).buttons_before(),
            final(self).axes_before() == old(self).axes_before(),
    {
        let ghost old_buttons = self.button_state@;
        let mut kept: Vec<Button> = Vec::new();
        let mut i: usize = 0;
        let n = self.button_state.len();
        while i < n
            invariant
                n == self.button_state@.len(),
                self.button_state@ == old_buttons,
                i <= n,
                kept@ == without_button(old_buttons.take(i as int), button),
            decreases n - i,
        {
            let b = self.button_state[i];
            assert(old_buttons.take(i + 1).drop_last() =~= old_buttons.take(i as int));
            reveal_with_fuel(Seq::filter, 1);
            if b != button {
                kept.push(b);
            }
            i = i + 1;
        }
        assert(old_buttons.take(n as int) =~= old_buttons);
        proof {
            let f = without_button(old_buttons, button);
            assert forall|b: Button| f.contains(b) <==> (old_buttons.contains(b) && b != button) by {
                broadcast use vstd::seq_lib::group_filter_ensures;

                if f.contains(b) {
                    old_buttons.lemma_filter_contains_rev(other_button(button), b);
                    let k = choose|k: int| 0 <= k < f.len() && f[k] == b;
                    assert(other_button(button)(f[k]));
                }
                if old_buttons.contains(b) && b != button {
                    let k = choose|k: int| 0 <= k < old_buttons.len() && old_buttons[k] == b;
                    assert(other_button(button)(old_buttons[k]));
                    assert(f.contains(old_buttons[k]));
                }
            }
        }
        self.button_state = kept;
    }

    /// Records whether an axis direction is deflected (has a non-zero value).
    pub fn set_axis_active(&mut self, axis: Axis, active: bool)
        ensures
            final(self).axes_now().contains(axis) == active,
            forall|a: Axis| a != axis ==> final(self).axes_now().contains(a) == old(self).axes_now().contains(a),
            final(self).keys_now() == old(self).keys_now(),
            final(self).buttons_now() == old(self).buttons_now(),
            final(self).keys_before() == old(self).keys_before(),
            final(self).buttons_before() == old(self).buttons_before(),
            final(self).axes_before() == old(self).axes_before(),
    {
        let ghost old_axes = self.axis_state@;
        let mut kept: Vec<Axis> = Vec::new();
        let mut i: usize = 0;
        let n = self.axis_state.len();
        while i < n
            invariant
                n == self.axis_state@.len(),
                self.axis_state@ == old_axes,
                i <= n,
                kept@ == without_axis(old_axes.take(i as int), axis),
            decreases n - i,
        {
            let a = self.axis_state[i];
            assert(old_axes.take(i + 1).drop_last() =~= old_axes.take(i as int));
            reveal_with_fuel(Seq::filter, 1);
            if a != axis {
                kept.push(a);
            }
            i = i + 1;
        }
        assert(old_axes.take(n as int) =~= old_axes);
        if active {
            kept.push(axis);
        }
        proof {
            let f = without_axis(old_axes, axis);
            assert forall|a: Axis| f.contains(a) <==> (old_axes.contains(a) && a != axis) by {
                broadcast use vstd::seq_lib::group_filter_ensures;

                if f.contains(a) {
                    old_axes.lemma_filter_contains_rev(other_axis(axis), a);
                    let k = choose|k: int| 0 <= k < f.len() && f[k] == a;
                    assert(other_axis(axis)(f[k]));
                }
                if old_axes.contains(a) && a != axis {
                    let k = choose|k: int| 0 <= k < old_axes.len() && old_axes[k] == a;
                    assert(other_axis(axis)(old_axes[k]));
                    assert(f.contains(old_axes[k]));
                }
            }
            if active {
                assert(kept@ == f.push(axis));
                assert(kept@[f.len() as int] == axis);
                assert forall|a: Axis| kept@.contains(a) <==> (f.contains(a) || a == axis) by {
                    if kept@.contains(a) && a != axis {
                        let k = choose|k: int| 0 <= k < kept@.len() && kept@[k] == a;
                        assert(f[k] == a);
                    }
                    if f.contains(a) {
                        let k = choose|k: int| 0 <= k < f.len() && f[k] == a;
                        assert(kept@[k] == a);
                    }
                }
            }
        }
        self.axis_state = kept;
    }

    /// Applies an axis update: the zeroed directions become inactive, in
    /// order, then the driven one, if any, becomes active or not as
    /// `driven_active` says (whether the value it takes is not zero). An
    /// update that keeps sticks apart (as every `axis_update` does) never
    /// leaves a stick reading as pushed both left and right.
    pub fn apply_axis_update(&mut self, update: &AxisUpdate, driven_active: bool)
        ensures
            forall|a: Axis|
                #[trigger] final(self).axes_now().contains(a) == deflected_after(
                    old(self).axes_now(),
                    update.zeroed@,
                    update.driven,
                    driven_active,
                    a,
                ),
            sticks_apart(old(self).axes_now()) && keeps_sticks_apart(update.zeroed@, update.driven)
                ==> sticks_apart(final(self).axes_now()),
            final(self).keys_now() == old(self).keys_now(),
            final(self).buttons_now() == old(self).buttons_now(),
            final(self).keys_before() == old(self).keys_before(),
            final(self).buttons_before() == old(self).buttons_before(),
            final(self).axes_before() == old(self).axes_before(),
    {
        let ghost before = self.axis_state@;
        let zeroed = &update.zeroed;
        let n = zeroed.len();
        let mut i: usize = 0;
        while i < n
            invariant
                n == zeroed@.len(),
                i <= n,
                forall|a: Axis|
                    #[trigger] self.axes_now().contains(a) == (!zeroed@.take(i as int).contains(a)
                        && before.contains(a)),
                self.keys_now() == old(self).keys_now(),
                self.buttons_now() == old(self).buttons_now(),
                self.keys_before() == old(self).keys_before(),
                self.buttons_before() == old(self).buttons_before(),
                self.axes_before() == old(self).axes_before(),
                before == old(self).axes_now(),
            decreases n - i,
        {
            let z = zeroed[i];
            self.set_axis_active(z, false);
            proof {
                assert forall|a: Axis|
                    #[trigger] zeroed@.take(i + 1).contains(a) == (zeroed@.take(i as int).contains(a)
                        || a == z) by {
                    let t = zeroed@.take(i + 1);
                    assert(t[i as int] == z);
                    if t.contains(a) && a != z {
                        let k = choose|k: int| 0 <= k < t.len() && t[k] == a;
                        assert(zeroed@.take(i as int)[k] == a);
                    }
                    if zeroed@.take(i as int).contains(a) {
                        let k = choose|k: int| 0 <= k < i && zeroed@.take(i as int)[k] == a;
                        assert(t[k] == a);
                    }
                }
            }
            i = i + 1;
        }
        assert(zeroed@.take(n as int) =~= zeroed@);
        match update.driven {
            Some(d) => {
                self.set_axis_active(d, driven_active);
            },
            None => {},
        }
        proof {
            lemma_update_keeps_sticks_apart_when(
                before,
                self.axes_now(),
                update.zeroed@,
                update.driven,
                driven_active,
            );
        }
    }

    /// Whether a keyboard key is held.
    pub fn keycode_is_down(&self, keycode: &Keycode) -> (r: bool)
        ensures
            r == self.keys_now().contains(*keycode),
    {
        contains_keycode(&self.keyboard_state, *keycode)
    }

    /// Whether a keyboard key is not held.
    pub fn keycode_is_up(&self, keycode: &Keycode) -> (r: bool)
        ensures
            r == !self.keys_now().contains(*keycode),
    {
        !contains_keycode(&self.keyboard_state, *keycode)
    }

    /// Whether a keyboard key was held in the previous frame.
    pub fn keycode_was_down(&self, keycode: &Keycode) -> (r: bool)
        ensures
            r == self.keys_before().contains(*keycode),
    {
        contains_keycode(&self.last_keyboard_state, *keycode)
    }

    /// Whether a keyboard key was not held in the previous frame.
    pub fn keycode_was_up(&self, keycode: &Keycode) -> (r: bool)
        ensures
            r == !self.keys_before().contains(*keycode),
    {
        !contains_keycode(&self.last_keyboard_state, *keycode)
    }

    /// Whether a controller button is held.
    pub fn button_is_down(&self, button: &Button) -> (r: bool)
        ensures
            r == self.buttons_now().contains(*button),
    {
        contains_button(&self.button_state, *button)
    }

    /// Whether a controller button was held in the previous frame.
    pub fn button_was_down(&self, button: &Button) -> (r: bool)
        ensures
            r == self.buttons_before().contains(*button),
    {
        contains_button(&self.last_button_state, *button)
    }

    /// Whether an axis direction is deflected.
    pub fn axis_is_down(&self, axis: &Axis) -> (r: bool)
        ensures
            r == self.axes_now().contains(*axis),
    {
        contains_axis(&self.axis_state, *axis)
    }

    /// Whether an axis direction was deflected in the previous frame.
    pub fn axis_was_down(&self, axis: &Axis) -> (r: bool)
        ensures
            r == self.axes_before().contains(*axis),
    {
        contains_axis(&self.last_axis_state, *axis)
    }

    /// Whether a binding is pressed.
    pub fn binding_is_down(&self, keybinding: &KeyBinding) -> (r: bool)
        ensures
            r == self.down(*keybinding),
    {
        match keybinding {
            KeyBinding::Keycode(k) => self.keycode_is_down(k),
            KeyBinding::Button(b) => self.button_is_down(b),
            KeyBinding::Axis(a) => self.axis_is_down(a),
        }
    }

    /// Whether a binding was pressed in the previous frame.
    pub fn binding_was_down(&self, keybinding: &KeyBinding) -> (r: bool)
        ensures
            r == self.was_down_spec(*keybinding),
    {
        match keybinding {
            KeyBinding::Keycode(k) => self.keycode_was_down(k),
            KeyBinding::Button(b) => self.button_was_down(b),
            KeyBinding::Axis(a) => self.axis_was_down(a),
        }
    }

    /// Whether a binding is not pressed.
    pub fn binding_is_up(&self, keybinding: &KeyBinding) -> (r: bool)
        ensures
            r == !self.down(*keybinding),
    {
        !self.binding_is_down(keybinding)
    }

    /// Whether a binding was not pressed in the previous frame.
    pub fn binding_was_up(&self, keybinding: &KeyBinding) -> (r: bool)
        ensures
            r == !self.was_down_spec(*keybinding),
    {
        !self.binding_was_down(keybinding)
    }

    /// Whether a binding went down since the previous frame.
    pub fn binding_is_tapped(&self, keybinding: &KeyBinding) -> (r: bool)
        ensures
            r == self.tapped(*keybinding),
    {
        self.binding_is_down(keybinding) && self.binding_was_up(keybinding)
    }

    /// Whether a binding went up since the previous frame.
    pub fn binding_is_released(&self, keybinding: &KeyBinding) -> (r: bool)
        ensures
            r == self.released(*keybinding),
    {
        self.binding_was_down(keybinding) && self.binding_is_up(keybinding)
    }

    /// Whether any binding of a control is not pressed.
    pub fn is_up(&self, keybindings: &KeyBindings) -> (r: bool)
        ensures
            r == exists|i: int|
                0 <= i < keybindings.bindings().len() && !self.down(#[trigger] keybindings.bindings()[i]),
    {
        let keys = keybindings.keys();
        let mut i: usize = 0;
        while i < keys.len()
            invariant
                keys@ == keybindings.bindings(),
                i <= keys@.len(),
                forall|j: int| 0 <= j < i ==> self.down(#[trigger] keys@[j]),
            decreases keys@.len() - i,
        {
            if self.binding_is_up(&keys[i]) {
                return true;
            }
            i = i + 1;
        }
        false
    }

    /// Whether any binding of a control was not pressed in the previous
    /// frame.
    pub fn was_up(&self, keybindings: &KeyBindings) -> (r: bool)
        ensures
            r == exists|i: int|
                0 <= i < keybindings.bindings().len() && !self.was_down_spec(
                    #[trigger] keybindings.bindings()[i],
                ),
    {
        let keys = keybindings.keys();
        let mut i: usize = 0;
        while i < keys.len()
            invariant
                keys@ == keybindings.bindings(),
                i <= keys@.len(),
                forall|j: int| 0 <= j < i ==> self.was_down_spec(#[trigger] keys@[j]),
            decreases keys@.len() - i,
        {
            if self.binding_was_up(&keys[i]) {
                return true;
            }
            i = i + 1;
        }
        false
    }

    /// Whether any binding of a control went down since the previous frame.
    pub fn is_tapped(&self, keybindings: &KeyBindings) -> (r: bool)
        ensures
            r == exists|i: int|
                0 <= i < keybindings.bindings().len() && self.tapped(#[trigger] keybindings.bindings()[i]),
    {
        let keys = keybindings.keys();
        let mut i: usize = 0;
        while i < keys.len()
            invariant
                keys@ == keybindings.bindings(),
                i <= keys@.len(),
                forall|j: int| 0 <= j < i ==> !self.tapped(#[trigger] keys@[j]),
            decreases keys@.len() - i,
        {
            if self.binding_is_tapped(&keys[i]) {
                return true;
            }
            i = i + 1;
        }
        false
    }

    /// Whether any binding of a control went up since the previous frame.
    pub fn is_released(&self, keybindings: &KeyBindings) -> (r: bool)
        ensures
            r == exists|i: int|
                0 <= i < keybindings.bindings().len() && self.released(
                    #[trigger] keybindings.bindings()[i],
                ),
    {
        let keys = keybindings.keys();
        let mut i: usize = 0;
        while i < keys.len()
            invariant
                keys@ == keybindings.bindings(),
                i <= keys@.len(),
                forall|j: int| 0 <= j < i ==> !self.released(#[trigger] keys@[j]),
            decreases keys@.len() - i,
        {
            if self.binding_is_released(&keys[i]) {
                return true;
            }
            i = i + 1;
        }
        false
    }
}

/// Law of taps: no binding is both tapped and released in the same frame.
pub proof fn lemma_tap_release_exclusive(s: InputState, b: KeyBinding)
    ensures
        !(s.tapped(b) && s.released(b)),
{
}

/// Law of frames: right after a frame starts, buttons and axis directions
/// are as they were, so none of them is tapped or released until an event
/// changes it; a key held in both frames is neither tapped nor released.
pub proof fn lemma_unchanged_not_tapped(s: InputState, b: KeyBinding)
    requires
        s.buttons_now() == s.buttons_before(),
        s.axes_now() == s.axes_before(),
        b matches KeyBinding::Keycode(k) ==> (s.keys_now().contains(k) == s.keys_before().contains(k)),
    ensures
        !s.tapped(b),
        !s.released(b),
{
}

/// Law of buttons: a button that goes down is held, and once it goes up it is
/// no longer held, however often it went down before.
pub proof fn lemma_press_then_release(before: Seq<Button>, button: Button)
    ensures
        before.push(button).contains(button),
        !without_button(before.push(button), button).contains(button),
{
    broadcast use vstd::seq_lib::group_filter_ensures;

    assert(before.push(button)[before.len() as int] == button);
    let f = without_button(before.push(button), button);
    if f.contains(button) {
        let k = choose|k: int| 0 <= k < f.len() && f[k] == button;
        assert(other_button(button)(f[k]));
    }
}

/// An analog axis of a game controller.
#[derive(Clone, Copy, Debug, PartialEq, Eq, Structural)]
pub enum ControllerAxis {
    LeftX,
    LeftY,
    RightX,
    RightY,
    TriggerLeft,
    TriggerRight,
}

/// Where an axis moved, relative to the dead zone.
#[derive(Clone, Copy, Debug, PartialEq, Eq, Structural)]
pub enum AxisMotion {
    /// Beyond the dead zone in the positive direction.
    Positive,
    /// Beyond the dead zone in the negative direction.
    Negative,
    /// Within the dead zone.
    Centered,
}

/// How an axis motion changes the axis directions: first the `zeroed` ones
/// are set to zero, in order, then the `driven` one, if any, takes the
/// magnitude of the motion.
pub struct AxisUpdate {
    pub zeroed: Vec<Axis>,
    pub driven: Option<Axis>,
}

/// The direction that a positive motion of an axis drives.
pub open spec fn positive_direction(axis: ControllerAxis) -> Axis {
    match axis {
        ControllerAxis::LeftX => Axis::LeftStickRight,
        ControllerAxis::LeftY => Axis::LeftStickDown,
        ControllerAxis::RightX => Axis::RightStickRight,
        ControllerAxis::RightY => Axis::RightStickDown,
        ControllerAxis::TriggerLeft => Axis::LeftTriggerDown,
        ControllerAxis::TriggerRight => Axis::RightTriggerDown,
    }
}

/// The direction that a negative motion of an axis drives.
pub open spec fn negative_direction(axis: ControllerAxis) -> Axis {
    match axis {
        ControllerAxis::LeftX => Axis::LeftStickLeft,
        ControllerAxis::LeftY => Axis::LeftStickUp,
        ControllerAxis::RightX => Axis::RightStickLeft,
        ControllerAxis::RightY => Axis::RightStickUp,
        ControllerAxis::TriggerLeft => Axis::LeftTriggerUp,
        ControllerAxis::TriggerRight => Axis::RightTriggerUp,
    }
}

/// The two directions that an axis returning to its centre sets to zero.
/// The left trigger's centring zeroes its own down direction and the right
/// trigger's down direction.
pub open spec fn centered_directions(axis: ControllerAxis) -> Seq<Axis> {
    match axis {
        ControllerAxis::LeftX => seq![Axis::LeftStickRight, Axis::LeftStickLeft],
        ControllerAxis::LeftY => seq![Axis::LeftStickDown, Axis::LeftStickUp],
        ControllerAxis::RightX => seq![Axis::RightStickRight, Axis::RightStickLeft],
        ControllerAxis::RightY => seq![Axis::RightStickDown, Axis::RightStickUp],
        ControllerAxis::TriggerLeft => seq![Axis::LeftTriggerDown, Axis::RightTriggerDown],
        ControllerAxis::TriggerRight => seq![Axis::RightTriggerDown, Axis::RightTriggerUp],
    }
}

/// The opposite horizontal stick direction that a horizontal stick
/// direction clears when it is driven.
pub open spec fn cleared_opposite(driven: Axis) -> Seq<Axis> {
    if driven == Axis::LeftStickRight {
        seq![Axis::LeftStickLeft]
    } else if driven == Axis::RightStickRight {
        seq![Axis::RightStickLeft]
    } else if driven == Axis::LeftStickLeft {
        seq![Axis::LeftStickRight]
    } else if driven == Axis::RightStickLeft {
        seq![Axis::RightStickRight]
    } else {
        Seq::<Axis>::empty()
    }
}

/// Whether an axis direction is one of the two horizontal directions of a
/// stick, and which is its opposite.
pub open spec fn horizontal_opposite(a: Axis) -> Option<Axis> {
    if a == Axis::LeftStickLeft {
        Some(Axis::LeftStickRight)
    } else if a == Axis::LeftStickRight {
        Some(Axis::LeftStickLeft)
    } else if a == Axis::RightStickLeft {
        Some(Axis::RightStickRight)
    } else if a == Axis::RightStickRight {
        Some(Axis::RightStickLeft)
    } else {
        None
    }
}

/// Whether an update zeroes the opposite direction of the horizontal stick
/// direction that it drives (so that a stick never reads as pushed both
/// ways).
pub open spec fn keeps_sticks_apart(zeroed: Seq<Axis>, driven: Option<Axis>) -> bool {
    match driven {
        Some(d) => match horizontal_opposite(d) {
            Some(o) => zeroed.contains(o),
            None => true,
        },
        None => true,
    }
}

/// Whether no stick reads as pushed both left and right among the deflected
/// directions `axes`.
pub open spec fn sticks_apart(axes: Seq<Axis>) -> bool {
    &&& !(axes.contains(Axis::LeftStickLeft) && axes.contains(Axis::LeftStickRight))
    &&& !(axes.contains(Axis::RightStickLeft) && axes.contains(Axis::RightStickRight))
}

/// Whether an axis direction is deflected after an update is applied to the
/// deflected directions `before`: the driven direction as `driven_active`
/// says, a zeroed one not, any other as before.
pub open spec fn deflected_after(
    before: Seq<Axis>,
    zeroed: Seq<Axis>,
    driven: Option<Axis>,
    driven_active: bool,
    a: Axis,
) -> bool {
    if driven == Some(a) {
        driven_active
    } else if zeroed.contains(a) {
        false
    } else {
        before.contains(a)
    }
}

/// Law of sticks: an update that zeroes the opposite of the horizontal
/// direction it drives keeps every stick from reading as pushed both left
/// and right.
pub proof fn lemma_update_keeps_sticks_apart(
    before: Seq<Axis>,
    after: Seq<Axis>,
    zeroed: Seq<Axis>,
    driven: Option<Axis>,
    driven_active: bool,
)
    requires
        sticks_apart(before),
        keeps_sticks_apart(zeroed, driven),
        forall|a: Axis|
            #[trigger] after.contains(a) == deflected_after(before, zeroed, driven, driven_active, a),
    ensures
        sticks_apart(after),
{
    assert(after.contains(Axis::LeftStickLeft) == deflected_after(before, zeroed, driven, driven_active, Axis::LeftStickLeft));
    assert(after.contains(Axis::LeftStickRight) == deflected_after(before, zeroed, driven, driven_active, Axis::LeftStickRight));
    assert(after.contains(Axis::RightStickLeft) == deflected_after(before, zeroed, driven, driven_active, Axis::RightStickLeft));
    assert(after.contains(Axis::RightStickRight) == deflected_after(before, zeroed, driven, driven_active, Axis::RightStickRight));
}

/// The stick law, conditional on the update keeping sticks apart.
proof fn lemma_update_keeps_sticks_apart_when(
    before: Seq<Axis>,
    after: Seq<Axis>,
    zeroed: Seq<Axis>,
    driven: Option<Axis>,
    driven_active: bool,
)
    requires
        forall|a: Axis|
            #[trigger] after.contains(a) == deflected_after(before, zeroed, driven, driven_active, a),
    ensures
        sticks_apart(before) && keeps_sticks_apart(zeroed, driven) ==> sticks_apart(after),
{
    if sticks_apart(before) && keeps_sticks_apart(zeroed, driven) {
        lemma_update_keeps_sticks_apart(before, after, zeroed, driven, driven_active);
    }
}

/// The controller axis that an axis direction belongs to.
pub open spec fn controller_axis_of(d: Axis) -> ControllerAxis {
    match d {
        Axis::LeftStickLeft | Axis::LeftStickRight => ControllerAxis::LeftX,
        Axis::LeftStickUp | Axis::LeftStickDown => ControllerAxis::LeftY,
        Axis::RightStickLeft | Axis::RightStickRight => ControllerAxis::RightX,
        Axis::RightStickUp | Axis::RightStickDown => ControllerAxis::RightY,
        Axis::LeftTriggerDown | Axis::LeftTriggerUp => ControllerAxis::TriggerLeft,
        Axis::RightTriggerDown | Axis::RightTriggerUp => ControllerAxis::TriggerRight,
    }
}

/// Whether an axis direction lies on the positive side of its axis: right
/// for a horizontal stick axis, down for a vertical one (SDL's axes grow to
/// the right and downwards), pressed for a trigger.
pub open spec fn on_positive_side(d: Axis) -> bool {
    match d {
        Axis::LeftStickRight | Axis::RightStickRight | Axis::LeftStickDown | Axis::RightStickDown
        | Axis::LeftTriggerDown | Axis::RightTriggerDown => true,
        _ => false,
    }
}

/// Law of axis motion: a positive motion drives the positive-side direction
/// of the axis that moved, a negative motion the other direction of that
/// same axis, and centring an axis zeroes its positive then its negative
/// direction (but for the left trigger, whose centring zeroes its own down
/// direction and the right trigger's).
pub proof fn lemma_axis_directions(axis: ControllerAxis)
    ensures
        controller_axis_of(positive_direction(axis)) == axis,
        on_positive_side(positive_direction(axis)),
        controller_axis_of(negative_direction(axis)) == axis,
        !on_positive_side(negative_direction(axis)),
        positive_direction(axis) != negative_direction(axis),
        axis != ControllerAxis::TriggerLeft ==> centered_directions(axis) == seq![
            positive_direction(axis),
            negative_direction(axis),
        ],
        axis == ControllerAxis::TriggerLeft ==> centered_directions(axis) == seq![
            Axis::LeftTriggerDown,
            Axis::RightTriggerDown,
        ],
{
}

/// How a motion of `axis` changes the axis directions.
pub fn axis_update(axis: ControllerAxis, motion: AxisMotion) -> (u: AxisUpdate)
    ensures
        match motion {
            AxisMotion::Positive => u.driven == Some(positive_direction(axis)) && u.zeroed@
                == cleared_opposite(positive_direction(axis)),
            AxisMotion::Negative => u.driven == Some(negative_direction(axis)) && u.zeroed@
                == cleared_opposite(negative_direction(axis)),
            AxisMotion::Centered => u.driven is None && u.zeroed@ == centered_directions(axis),
        },
        keeps_sticks_apart(u.zeroed@, u.driven),
{
    match motion {
        AxisMotion::Positive => {
            let driven = match axis {
                ControllerAxis::LeftX => Axis::LeftStickRight,
                ControllerAxis::LeftY => Axis::LeftStickDown,
                ControllerAxis::RightX => Axis::RightStickRight,
                ControllerAxis::RightY => Axis::RightStickDown,
                ControllerAxis::TriggerLeft => Axis::LeftTriggerDown,
                ControllerAxis::TriggerRight => Axis::RightTriggerDown,
            };
            let mut zeroed: Vec<Axis> = Vec::new();
            if driven == Axis::LeftStickRight {
                zeroed.push(Axis::LeftStickLeft);
            }
            if driven == Axis::RightStickRight {
                zeroed.push(Axis::RightStickLeft);
            }
            assert(zeroed@ =~= cleared_opposite(driven));
            proof {
                if zeroed@.len() > 0 {
                    assert(zeroed@.contains(zeroed@[0]));
                }
            }
            AxisUpdate { zeroed, driven: Some(driven) }
        },
        AxisMotion::Negative => {
            let driven = match axis {
                ControllerAxis::LeftX => Axis::LeftStickLeft,
                ControllerAxis::LeftY => Axis::LeftStickUp,
                ControllerAxis::RightX => Axis::RightStickLeft,
                ControllerAxis::RightY => Axis::RightStickUp,
                ControllerAxis::TriggerLeft => Axis::LeftTriggerUp,
                ControllerAxis::TriggerRight => Axis::RightTriggerUp,
            };
            let mut zeroed: Vec<Axis> = Vec::new();
            if driven == Axis::LeftStickLeft {
                zeroed.push(Axis::LeftStickRight);
            }
            if driven == Axis::RightStickLeft {
                zeroed.push(Axis::RightStickRight);
            }
            assert(zeroed@ =~= cleared_opposite(driven));
            proof {
                if zeroed@.len() > 0 {
                    assert(zeroed@.contains(zeroed@[0]));
                }
            }
            AxisUpdate { zeroed, driven: Some(driven) }
        },
        AxisMotion::Centered => {
            let (positive, negative) = match axis {
                ControllerAxis::LeftX => (Axis::LeftStickRight, Axis::LeftStickLeft),
                ControllerAxis::LeftY => (Axis::LeftStickDown, Axis::LeftStickUp),
                ControllerAxis::RightX => (Axis::RightStickRight, Axis::RightStickLeft),
                ControllerAxis::RightY => (Axis::RightStickDown, Axis::RightStickUp),
                ControllerAxis::TriggerLeft => (Axis::LeftTriggerDown, Axis::RightTriggerDown),
                ControllerAxis::TriggerRight => (Axis::RightTriggerDown, Axis::RightTriggerUp),
            };
            let zeroed: Vec<Axis> = vec![positive, negative];
            assert(zeroed@ =~= centered_directions(axis));
            AxisUpdate { zeroed, driven: None }
        },
    }
}

/// The bindings of every control of the cabinet.
pub struct KeyConfig {
    pub test: KeyBindings,
    pub service: KeyBindings,
    pub quit: KeyBindings,
    pub card_insert: KeyBindings,
    pub gear_next: KeyBindings,
    pub gear_previous: KeyBindings,
    pub gear_neutral: KeyBindings,
    pub gear_first: KeyBindings,
    pub gear_second: KeyBindings,
    pub gear_third: KeyBindings,
    pub gear_fourth: KeyBindings,
    pub gear_fifth: KeyBindings,
    pub gear_sixth: KeyBindings,
    pub gear_up: KeyBindings,
    pub gear_left: KeyBindings,
    pub gear_down: KeyBindings,
    pub gear_right: KeyBindings,
    pub perspective: KeyBindings,
    pub intrude: KeyBindings,
    pub gas: KeyBindings,
    pub brake: KeyBindings,
    pub wheel_left: KeyBindings,
    pub wheel_right: KeyBindings,
}

} // verus!
