//! The game's own configuration: key bindings, memory patches and text
//! language packs, with the names under which their values are stored.

use vstd::prelude::*;
use crate::coerce::same_text;

verus! {

/// A key or controller input that can be bound to a game action.
#[allow(non_camel_case_types)]
#[derive(Clone, Copy, Debug, PartialEq, Eq, Hash, Structural)]
pub enum Buttons {
    F1,
    F2,
    F3,
    F4,
    F5,
    F6,
    F7,
    F8,
    F9,
    F10,
    F11,
    F12,
    NUM0,
    NUM1,
    NUM2,
    NUM3,
    NUM4,
    NUM5,
    NUM6,
    NUM7,
    NUM8,
    NUM9,
    Q,
    W,
    E,
    R,
    T,
    Y,
    U,
    I,
    O,
    P,
    A,
    S,
    D,
    F,
    G,
    H,
    J,
    K,
    L,
    Z,
    X,
    C,
    V,
    B,
    N,
    M,
    UPARROW,
    LEFTARROW,
    DOWNARROW,
    RIGHTARROW,
    ENTER,
    SPACE,
    CONTROL,
    SHIFT,
    TAB,
    SDL_A,
    SDL_B,
    SDL_X,
    SDL_Y,
    SDL_BACK,
    SDL_GUIDE,
    SDL_START,
    SDL_LSHOULDER,
    SDL_LTRIGGER,
    SDL_RSHOULDER,
    SDL_RTRIGGER,
    SDL_DPAD_UP,
    SDL_DPAD_LEFT,
    SDL_DPAD_DOWN,
    SDL_DPAD_RIGHT,
    SDL_MISC,
    SDL_PADDLE1,
    SDL_PADDLE2,
    SDL_PADDLE3,
    SDL_PADDLE4,
    SDL_TOUCHPAD,
    SDL_LSTICK_UP,
    SDL_LSTICK_LEFT,
    SDL_LSTICK_RIGHT,
    SDL_LSTICK_DOWN,
    SDL_LSTICK_PRESS,
    SDL_RSTICK_UP,
    SDL_RSTICK_LEFT,
    SDL_RSTICK_RIGHT,
    SDL_RSTICK_DOWN,
    SDL_RSTICK_PRESS,
}

impl Buttons {
    /// The name under which the value is stored.
    pub open spec fn spec_name(self) -> Seq<char> {
        match self {
            Buttons::F1 => "F1"@,
            Buttons::F2 => "F2"@,
            Buttons::F3 => "F3"@,
            Buttons::F4 => "F4"@,
            Buttons::F5 => "F5"@,
            Buttons::F6 => "F6"@,
            Buttons::F7 => "F7"@,
            Buttons::F8 => "F8"@,
            Buttons::F9 => "F9"@,
            Buttons::F10 => "F10"@,
            Buttons::F11 => "F11"@,
            Buttons::F12 => "F12"@,
            Buttons::NUM0 => "NUM0"@,
            Buttons::NUM1 => "NUM1"@,
            Buttons::NUM2 => "NUM2"@,
            Buttons::NUM3 => "NUM3"@,
            Buttons::NUM4 => "NUM4"@,
            Buttons::NUM5 => "NUM5"@,
            Buttons::NUM6 => "NUM6"@,
            Buttons::NUM7 => "NUM7"@,
            Buttons::NUM8 => "NUM8"@,
            Buttons::NUM9 => "NUM9"@,
            Buttons::Q => "Q"@,
            Buttons::W => "W"@,
            Buttons::E => "E"@,
            Buttons::R => "R"@,
            Buttons::T => "T"@,
            Buttons::Y => "Y"@,
            Buttons::U => "U"@,
            Buttons::I => "I"@,
            Buttons::O => "O"@,
            Buttons::P => "P"@,
            Buttons::A => "A"@,
            Buttons::S => "S"@,
            Buttons::D => "D"@,
            Buttons::F => "F"@,
            Buttons::G => "G"@,
            Buttons::H => "H"@,
            Buttons::J => "J"@,
            Buttons::K => "K"@,
            Buttons::L => "L"@,
            Buttons::Z => "Z"@,
            Buttons::X => "X"@,
            Buttons::C => "C"@,
            Buttons::V => "V"@,
            Buttons::B => "B"@,
            Buttons::N => "N"@,
            Buttons::M => "M"@,
            Buttons::UPARROW => "UPARROW"@,
            Buttons::LEFTARROW => "LEFTARROW"@,
            Buttons::DOWNARROW => "DOWNARROW"@,
            Buttons::RIGHTARROW => "RIGHTARROW"@,
            Buttons::ENTER => "ENTER"@,
            Buttons::SPACE => "SPACE"@,
            Buttons::CONTROL => "CONTROL"@,
            Buttons::SHIFT => "SHIFT"@,
            Buttons::TAB => "TAB"@,
            Buttons::SDL_A => "SDL_A"@,
            Buttons::SDL_B => "SDL_B"@,
            Buttons::SDL_X => "SDL_X"@,
            Buttons::SDL_Y => "SDL_Y"@,
            Buttons::SDL_BACK => "SDL_BACK"@,
            Buttons::SDL_GUIDE => "SDL_GUIDE"@,
            Buttons::SDL_START => "SDL_START"@,
            Buttons::SDL_LSHOULDER => "SDL_LSHOULDER"@,
            Buttons::SDL_LTRIGGER => "SDL_LTRIGGER"@,
            Buttons::SDL_RSHOULDER => "SDL_RSHOULDER"@,
            Buttons::SDL_RTRIGGER => "SDL_RTRIGGER"@,
            Buttons::SDL_DPAD_UP => "SDL_DPAD_UP"@,
            Buttons::SDL_DPAD_LEFT => "SDL_DPAD_LEFT"@,
            Buttons::SDL_DPAD_DOWN => "SDL_DPAD_DOWN"@,
            Buttons::SDL_DPAD_RIGHT => "SDL_DPAD_RIGHT"@,
            Buttons::SDL_MISC => "SDL_MISC"@,
            Buttons::SDL_PADDLE1 => "SDL_PADDLE1"@,
            Buttons::SDL_PADDLE2 => "SDL_PADDLE2"@,
            Buttons::SDL_PADDLE3 => "SDL_PADDLE3"@,
            Buttons::SDL_PADDLE4 => "SDL_PADDLE4"@,
            Buttons::SDL_TOUCHPAD => "SDL_TOUCHPAD"@,
            Buttons::SDL_LSTICK_UP => "SDL_LSTICK_UP"@,
            Buttons::SDL_LSTICK_LEFT => "SDL_LSTICK_LEFT"@,
            Buttons::SDL_LSTICK_RIGHT => "SDL_LSTICK_RIGHT"@,
            Buttons::SDL_LSTICK_DOWN => "SDL_LSTICK_DOWN"@,
            Buttons::SDL_LSTICK_PRESS => "SDL_LSTICK_PRESS"@,
            Buttons::SDL_RSTICK_UP => "SDL_RSTICK_UP"@,
            Buttons::SDL_RSTICK_LEFT => "SDL_RSTICK_LEFT"@,
            Buttons::SDL_RSTICK_RIGHT => "SDL_RSTICK_RIGHT"@,
            Buttons::SDL_RSTICK_DOWN => "SDL_RSTICK_DOWN"@,
            Buttons::SDL_RSTICK_PRESS => "SDL_RSTICK_PRESS"@,
        }
    }

    /// The value stored under a name, if any.
    pub open spec fn spec_from_name(s: Seq<char>) -> Option<Buttons> {
        if s == "F1"@ {
            Some(Buttons::F1)
        } else if s == "F2"@ {
            Some(Buttons::F2)
        } else if s == "F3"@ {
            Some(Buttons::F3)
        } else if s == "F4"@ {
            Some(Buttons::F4)
        } else if s == "F5"@ {
            Some(Buttons::F5)
        } else if s == "F6"@ {
            Some(Buttons::F6)
        } else if s == "F7"@ {
            Some(Buttons::F7)
        } else if s == "F8"@ {
            Some(Buttons::F8)
        } else if s == "F9"@ {
            Some(Buttons::F9)
        } else if s == "F10"@ {
            Some(Buttons::F10)
        } else if s == "F11"@ {
            Some(Buttons::F11)
        } else if s == "F12"@ {
            Some(Buttons::F12)
        } else if s == "NUM0"@ {
            Some(Buttons::NUM0)
        } else if s == "NUM1"@ {
            Some(Buttons::NUM1)
        } else if s == "NUM2"@ {
            Some(Buttons::NUM2)
        } else if s == "NUM3"@ {
            Some(Buttons::NUM3)
        } else if s == "NUM4"@ {
            Some(Buttons::NUM4)
        } else if s == "NUM5"@ {
            Some(Buttons::NUM5)
        } else if s == "NUM6"@ {
            Some(Buttons::NUM6)
        } else if s == "NUM7"@ {
            Some(Buttons::NUM7)
        } else if s == "NUM8"@ {
            Some(Buttons::NUM8)
        } else if s == "NUM9"@ {
            Some(Buttons::NUM9)
        } else if s == "Q"@ {
            Some(Buttons::Q)
        } else if s == "W"@ {
            Some(Buttons::W)
        } else if s == "E"@ {
            Some(Buttons::E)
        } else if s == "R"@ {
            Some(Buttons::R)
        } else if s == "T"@ {
            Some(Buttons::T)
        } else if s == "Y"@ {
            Some(Buttons::Y)
        } else if s == "U"@ {
            Some(Buttons::U)
        } else if s == "I"@ {
            Some(Buttons::I)
        } else if s == "O"@ {
            Some(Buttons::O)
        } else if s == "P"@ {
            Some(Buttons::P)
        } else if s == "A"@ {
            Some(Buttons::A)
        } else if s == "S"@ {
            Some(Buttons::S)
        } else if s == "D"@ {
            Some(Buttons::D)
        } else if s == "F"@ {
            Some(Buttons::F)
        } else if s == "G"@ {
            Some(Buttons::G)
        } else if s == "H"@ {
            Some(Buttons::H)
        } else if s == "J"@ {
            Some(Buttons::J)
        } else if s == "K"@ {
            Some(Buttons::K)
        } else if s == "L"@ {
            Some(Buttons::L)
        } else if s == "Z"@ {
            Some(Buttons::Z)
        } else if s == "X"@ {
            Some(Buttons::X)
        } else if s == "C"@ {
            Some(Buttons::C)
        } else if s == "V"@ {
            Some(Buttons::V)
        } else if s == "B"@ {
            Some(Buttons::B)
        } else if s == "N"@ {
            Some(Buttons::N)
        } else if s == "M"@ {
            Some(Buttons::M)
        } else if s == "UPARROW"@ {
            Some(Buttons::UPARROW)
        } else if s == "LEFTARROW"@ {
            Some(Buttons::LEFTARROW)
        } else if s == "DOWNARROW"@ {
            Some(Buttons::DOWNARROW)
        } else if s == "RIGHTARROW"@ {
            Some(Buttons::RIGHTARROW)
        } else if s == "ENTER"@ {
            Some(Buttons::ENTER)
        } else if s == "SPACE"@ {
            Some(Buttons::SPACE)
        } else if s == "CONTROL"@ {
            Some(Buttons::CONTROL)
        } else if s == "SHIFT"@ {
            Some(Buttons::SHIFT)
        } else if s == "TAB"@ {
            Some(Buttons::TAB)
        } else if s == "SDL_A"@ {
            Some(Buttons::SDL_A)
        } else if s == "SDL_B"@ {
            Some(Buttons::SDL_B)
        } else if s == "SDL_X"@ {
            Some(Buttons::SDL_X)
        } else if s == "SDL_Y"@ {
            Some(Buttons::SDL_Y)
        } else if s == "SDL_BACK"@ {
            Some(Buttons::SDL_BACK)
        } else if s == "SDL_GUIDE"@ {
            Some(Buttons::SDL_GUIDE)
        } else if s == "SDL_START"@ {
            Some(Buttons::SDL_START)
        } else if s == "SDL_LSHOULDER"@ {
            Some(Buttons::SDL_LSHOULDER)
        } else if s == "SDL_LTRIGGER"@ {
            Some(Buttons::SDL_LTRIGGER)
        } else if s == "SDL_RSHOULDER"@ {
            Some(Buttons::SDL_RSHOULDER)
        } else if s == "SDL_RTRIGGER"@ {
            Some(Buttons::SDL_RTRIGGER)
        } else if s == "SDL_DPAD_UP"@ {
            Some(Buttons::SDL_DPAD_UP)
        } else if s == "SDL_DPAD_LEFT"@ {
            Some(Buttons::SDL_DPAD_LEFT)
        } else if s == "SDL_DPAD_DOWN"@ {
            Some(Buttons::SDL_DPAD_DOWN)
        } else if s == "SDL_DPAD_RIGHT"@ {
            Some(Buttons::SDL_DPAD_RIGHT)
        } else if s == "SDL_MISC"@ {
            Some(Buttons::SDL_MISC)
        } else if s == "SDL_PADDLE1"@ {
            Some(Buttons::SDL_PADDLE1)
        } else if s == "SDL_PADDLE2"@ {
            Some(Buttons::SDL_PADDLE2)
        } else if s == "SDL_PADDLE3"@ {
            Some(Buttons::SDL_PADDLE3)
        } else if s == "SDL_PADDLE4"@ {
            Some(Buttons::SDL_PADDLE4)
        } else if s == "SDL_TOUCHPAD"@ {
            Some(Buttons::SDL_TOUCHPAD)
        } else if s == "SDL_LSTICK_UP"@ {
            Some(Buttons::SDL_LSTICK_UP)
        } else if s == "SDL_LSTICK_LEFT"@ {
            Some(Buttons::SDL_LSTICK_LEFT)
        } else if s == "SDL_LSTICK_RIGHT"@ {
            Some(Buttons::SDL_LSTICK_RIGHT)
        } else if s == "SDL_LSTICK_DOWN"@ {
            Some(Buttons::SDL_LSTICK_DOWN)
        } else if s == "SDL_LSTICK_PRESS"@ {
            Some(Buttons::SDL_LSTICK_PRESS)
        } else if s == "SDL_RSTICK_UP"@ {
            Some(Buttons::SDL_RSTICK_UP)
        } else if s == "SDL_RSTICK_LEFT"@ {
            Some(Buttons::SDL_RSTICK_LEFT)
        } else if s == "SDL_RSTICK_RIGHT"@ {
            Some(Buttons::SDL_RSTICK_RIGHT)
        } else if s == "SDL_RSTICK_DOWN"@ {
            Some(Buttons::SDL_RSTICK_DOWN)
        } else if s == "SDL_RSTICK_PRESS"@ {
            Some(Buttons::SDL_RSTICK_PRESS)
        } else {
            None
        }
    }

    pub fn name(self) -> (r: &'static str)
        ensures
            r@ == self.spec_name(),
    {
        match self {
            Buttons::F1 => "F1",
            Buttons::F2 => "F2",
            Buttons::F3 => "F3",
            Buttons::F4 => "F4",
            Buttons::F5 => "F5",
            Buttons::F6 => "F6",
            Buttons::F7 => "F7",
            Buttons::F8 => "F8",
            Buttons::F9 => "F9",
            Buttons::F10 => "F10",
            Buttons::F11 => "F11",
            Buttons::F12 => "F12",
            Buttons::NUM0 => "NUM0",
            Buttons::NUM1 => "NUM1",
            Buttons::NUM2 => "NUM2",
            Buttons::NUM3 => "NUM3",
            Buttons::NUM4 => "NUM4",
            Buttons::NUM5 => "NUM5",
            Buttons::NUM6 => "NUM6",
            Buttons::NUM7 => "NUM7",
            Buttons::NUM8 => "NUM8",
            Buttons::NUM9 => "NUM9",
            Buttons::Q => "Q",
            Buttons::W => "W",
            Buttons::E => "E",
            Buttons::R => "R",
            Buttons::T => "T",
            Buttons::Y => "Y",
            Buttons::U => "U",
            Buttons::I => "I",
            Buttons::O => "O",
            Buttons::P => "P",
            Buttons::A => "A",
            Buttons::S => "S",
            Buttons::D => "D",
            Buttons::F => "F",
            Buttons::G => "G",
            Buttons::H => "H",
            Buttons::J => "J",
            Buttons::K => "K",
            Buttons::L => "L",
            Buttons::Z => "Z",
            Buttons::X => "X",
            Buttons::C => "C",
            Buttons::V => "V",
            Buttons::B => "B",
            Buttons::N => "N",
            Buttons::M => "M",
            Buttons::UPARROW => "UPARROW",
            Buttons::LEFTARROW => "LEFTARROW",
            Buttons::DOWNARROW => "DOWNARROW",
            Buttons::RIGHTARROW => "RIGHTARROW",
            Buttons::ENTER => "ENTER",
            Buttons::SPACE => "SPACE",
            Buttons::CONTROL => "CONTROL",
            Buttons::SHIFT => "SHIFT",
            Buttons::TAB => "TAB",
            Buttons::SDL_A => "SDL_A",
            Buttons::SDL_B => "SDL_B",
            Buttons::SDL_X => "SDL_X",
            Buttons::SDL_Y => "SDL_Y",
            Buttons::SDL_BACK => "SDL_BACK",
            Buttons::SDL_GUIDE => "SDL_GUIDE",
            Buttons::SDL_START => "SDL_START",
            Buttons::SDL_LSHOULDER => "SDL_LSHOULDER",
            Buttons::SDL_LTRIGGER => "SDL_LTRIGGER",
            Buttons::SDL_RSHOULDER => "SDL_RSHOULDER",
            Buttons::SDL_RTRIGGER => "SDL_RTRIGGER",
            Buttons::SDL_DPAD_UP => "SDL_DPAD_UP",
            Buttons::SDL_DPAD_LEFT => "SDL_DPAD_LEFT",
            Buttons::SDL_DPAD_DOWN => "SDL_DPAD_DOWN",
            Buttons::SDL_DPAD_RIGHT => "SDL_DPAD_RIGHT",
            Buttons::SDL_MISC => "SDL_MISC",
            Buttons::SDL_PADDLE1 => "SDL_PADDLE1",
            Buttons::SDL_PADDLE2 => "SDL_PADDLE2",
            Buttons::SDL_PADDLE3 => "SDL_PADDLE3",
            Buttons::SDL_PADDLE4 => "SDL_PADDLE4",
            Buttons::SDL_TOUCHPAD => "SDL_TOUCHPAD",
            Buttons::SDL_LSTICK_UP => "SDL_LSTICK_UP",
            Buttons::SDL_LSTICK_LEFT => "SDL_LSTICK_LEFT",
            Buttons::SDL_LSTICK_RIGHT => "SDL_LSTICK_RIGHT",
            Buttons::SDL_LSTICK_DOWN => "SDL_LSTICK_DOWN",
            Buttons::SDL_LSTICK_PRESS => "SDL_LSTICK_PRESS",
            Buttons::SDL_RSTICK_UP => "SDL_RSTICK_UP",
            Buttons::SDL_RSTICK_LEFT => "SDL_RSTICK_LEFT",
            Buttons::SDL_RSTICK_RIGHT => "SDL_RSTICK_RIGHT",
            Buttons::SDL_RSTICK_DOWN => "SDL_RSTICK_DOWN",
            Buttons::SDL_RSTICK_PRESS => "SDL_RSTICK_PRESS",
        }
    }

    /// Looks a value up by its name; the lookup is exact and case-sensitive.
    pub fn from_name(s: &str) -> (r: Option<Buttons>)
        ensures
            r == Buttons::spec_from_name(s@),
            r matches Some(v) ==> v.spec_name() == s@,
    {
        if same_text(s, "F1") {
            Some(Buttons::F1)
        } else if same_text(s, "F2") {
            Some(Buttons::F2)
        } else if same_text(s, "F3") {
            Some(Buttons::F3)
        } else if same_text(s, "F4") {
            Some(Buttons::F4)
        } else if same_text(s, "F5") {
            Some(Buttons::F5)
        } else if same_text(s, "F6") {
            Some(Buttons::F6)
        } else if same_text(s, "F7") {
            Some(Buttons::F7)
        } else if same_text(s, "F8") {
            Some(Buttons::F8)
        } else if same_text(s, "F9") {
            Some(Buttons::F9)
        } else if same_text(s, "F10") {
            Some(Buttons::F10)
        } else if same_text(s, "F11") {
            Some(Buttons::F11)
        } else if same_text(s, "F12") {
            Some(Buttons::F12)
        } else if same_text(s, "NUM0") {
            Some(Buttons::NUM0)
        } else if same_text(s, "NUM1") {
            Some(Buttons::NUM1)
        } else if same_text(s, "NUM2") {
            Some(Buttons::NUM2)
        } else if same_text(s, "NUM3") {
            Some(Buttons::NUM3)
        } else if same_text(s, "NUM4") {
            Some(Buttons::NUM4)
        } else if same_text(s, "NUM5") {
            Some(Buttons::NUM5)
        } else if same_text(s, "NUM6") {
            Some(Buttons::NUM6)
        } else if same_text(s, "NUM7") {
            Some(Buttons::NUM7)
        } else if same_text(s, "NUM8") {
            Some(Buttons::NUM8)
        } else if same_text(s, "NUM9") {
            Some(Buttons::NUM9)
        } else if same_text(s, "Q") {
            Some(Buttons::Q)
        } else if same_text(s, "W") {
            Some(Buttons::W)
        } else if same_text(s, "E") {
            Some(Buttons::E)
        } else if same_text(s, "R") {
            Some(Buttons::R)
        } else if same_text(s, "T") {
            Some(Buttons::T)
        } else if same_text(s, "Y") {
            Some(Buttons::Y)
        } else if same_text(s, "U") {
            Some(Buttons::U)
        } else if same_text(s, "I") {
            Some(Buttons::I)
        } else if same_text(s, "O") {
            Some(Buttons::O)
        } else if same_text(s, "P") {
            Some(Buttons::P)
        } else if same_text(s, "A") {
            Some(Buttons::A)
        } else if same_text(s, "S") {
            Some(Buttons::S)
        } else if same_text(s, "D") {
            Some(Buttons::D)
        } else if same_text(s, "F") {
            Some(Buttons::F)
        } else if same_text(s, "G") {
            Some(Buttons::G)
        } else if same_text(s, "H") {
            Some(Buttons::H)
        } else if same_text(s, "J") {
            Some(Buttons::J)
        } else if same_text(s, "K") {
            Some(Buttons::K)
        } else if same_text(s, "L") {
            Some(Buttons::L)
        } else if same_text(s, "Z") {
            Some(Buttons::Z)
        } else if same_text(s, "X") {
            Some(Buttons::X)
        } else if same_text(s, "C") {
            Some(Buttons::C)
        } else if same_text(s, "V") {
            Some(Buttons::V)
        } else if same_text(s, "B") {
            Some(Buttons::B)
        } else if same_text(s, "N") {
            Some(Buttons::N)
        } else if same_text(s, "M") {
            Some(Buttons::M)
        } else if same_text(s, "UPARROW") {
            Some(Buttons::UPARROW)
        } else if same_text(s, "LEFTARROW") {
            Some(Buttons::LEFTARROW)
        } else if same_text(s, "DOWNARROW") {
            Some(Buttons::DOWNARROW)
        } else if same_text(s, "RIGHTARROW") {
            Some(Buttons::RIGHTARROW)
        } else if same_text(s, "ENTER") {
            Some(Buttons::ENTER)
        } else if same_text(s, "SPACE") {
            Some(Buttons::SPACE)
        } else if same_text(s, "CONTROL") {
            Some(Buttons::CONTROL)
        } else if same_text(s, "SHIFT") {
            Some(Buttons::SHIFT)
        } else if same_text(s, "TAB") {
            Some(Buttons::TAB)
        } else if same_text(s, "SDL_A") {
            Some(Buttons::SDL_A)
        } else if same_text(s, "SDL_B") {
            Some(Buttons::SDL_B)
        } else if same_text(s, "SDL_X") {
            Some(Buttons::SDL_X)
        } else if same_text(s, "SDL_Y") {
            Some(Buttons::SDL_Y)
        } else if same_text(s, "SDL_BACK") {
            Some(Buttons::SDL_BACK)
        } else if same_text(s, "SDL_GUIDE") {
            Some(Buttons::SDL_GUIDE)
        } else if same_text(s, "SDL_START") {
            Some(Buttons::SDL_START)
        } else if same_text(s, "SDL_LSHOULDER") {
            Some(Buttons::SDL_LSHOULDER)
        } else if same_text(s, "SDL_LTRIGGER") {
            Some(Buttons::SDL_LTRIGGER)
        } else if same_text(s, "SDL_RSHOULDER") {
            Some(Buttons::SDL_RSHOULDER)
        } else if same_text(s, "SDL_RTRIGGER") {
            Some(Buttons::SDL_RTRIGGER)
        } else if same_text(s, "SDL_DPAD_UP") {
            Some(Buttons::SDL_DPAD_UP)
        } else if same_text(s, "SDL_DPAD_LEFT") {
            Some(Buttons::SDL_DPAD_LEFT)
        } else if same_text(s, "SDL_DPAD_DOWN") {
            Some(Buttons::SDL_DPAD_DOWN)
        } else if same_text(s, "SDL_DPAD_RIGHT") {
            Some(Buttons::SDL_DPAD_RIGHT)
        } else if same_text(s, "SDL_MISC") {
            Some(Buttons::SDL_MISC)
        } else if same_text(s, "SDL_PADDLE1") {
            Some(Buttons::SDL_PADDLE1)
        } else if same_text(s, "SDL_PADDLE2") {
            Some(Buttons::SDL_PADDLE2)
        } else if same_text(s, "SDL_PADDLE3") {
            Some(Buttons::SDL_PADDLE3)
        } else if same_text(s, "SDL_PADDLE4") {
            Some(Buttons::SDL_PADDLE4)
        } else if same_text(s, "SDL_TOUCHPAD") {
            Some(Buttons::SDL_TOUCHPAD)
        } else if same_text(s, "SDL_LSTICK_UP") {
            Some(Buttons::SDL_LSTICK_UP)
        } else if same_text(s, "SDL_LSTICK_LEFT") {
            Some(Buttons::SDL_LSTICK_LEFT)
        } else if same_text(s, "SDL_LSTICK_RIGHT") {
            Some(Buttons::SDL_LSTICK_RIGHT)
        } else if same_text(s, "SDL_LSTICK_DOWN") {
            Some(Buttons::SDL_LSTICK_DOWN)
        } else if same_text(s, "SDL_LSTICK_PRESS") {
            Some(Buttons::SDL_LSTICK_PRESS)
        } else if same_text(s, "SDL_RSTICK_UP") {
            Some(Buttons::SDL_RSTICK_UP)
        } else if same_text(s, "SDL_RSTICK_LEFT") {
            Some(Buttons::SDL_RSTICK_LEFT)
        } else if same_text(s, "SDL_RSTICK_RIGHT") {
            Some(Buttons::SDL_RSTICK_RIGHT)
        } else if same_text(s, "SDL_RSTICK_DOWN") {
            Some(Buttons::SDL_RSTICK_DOWN)
        } else if same_text(s, "SDL_RSTICK_PRESS") {
            Some(Buttons::SDL_RSTICK_PRESS)
        } else {
            None
        }
    }
}

/// The type of the data that a memory patch writes.
#[allow(non_camel_case_types)]
#[derive(Clone, Copy, Debug, PartialEq, Eq, Hash, Structural)]
pub enum DataTypes {
    i8,
    i8_arr,
    u8,
    u8_arr,
    i16,
    i16_arr,
    u16,
    u16_arr,
    i32,
    i32_arr,
    u32,
    u32_arr,
    i64,
    i64_arr,
    string,
}

impl DataTypes {
    /// The name under which the value is stored.
    pub open spec fn spec_name(self) -> Seq<char> {
        match self {
            DataTypes::i8 => "i8"@,
            DataTypes::i8_arr => "i8_arr"@,
            DataTypes::u8 => "u8"@,
            DataTypes::u8_arr => "u8_arr"@,
            DataTypes::i16 => "i16"@,
            DataTypes::i16_arr => "i16_arr"@,
            DataTypes::u16 => "u16"@,
            DataTypes::u16_arr => "u16_arr"@,
            DataTypes::i32 => "i32"@,
            DataTypes::i32_arr => "i32_arr"@,
            DataTypes::u32 => "u32"@,
            DataTypes::u32_arr => "u32_arr"@,
            DataTypes::i64 => "i64"@,
            DataTypes::i64_arr => "i64_arr"@,
            DataTypes::string => "string"@,
        }
    }

    /// The value stored under a name, if any.
    pub open spec fn spec_from_name(s: Seq<char>) -> Option<DataTypes> {
        if s == "i8"@ {
            Some(DataTypes::i8)
        } else if s == "i8_arr"@ {
            Some(DataTypes::i8_arr)
        } else if s == "u8"@ {
            Some(DataTypes::u8)
        } else if s == "u8_arr"@ {
            Some(DataTypes::u8_arr)
        } else if s == "i16"@ {
            Some(DataTypes::i16)
        } else if s == "i16_arr"@ {
            Some(DataTypes::i16_arr)
        } else if s == "u16"@ {
            Some(DataTypes::u16)
        } else if s == "u16_arr"@ {
            Some(DataTypes::u16_arr)
        } else if s == "i32"@ {
            Some(DataTypes::i32)
        } else if s == "i32_arr"@ {
            Some(DataTypes::i32_arr)
        } else if s == "u32"@ {
            Some(DataTypes::u32)
        } else if s == "u32_arr"@ {
            Some(DataTypes::u32_arr)
        } else if s == "i64"@ {
            Some(DataTypes::i64)
        } else if s == "i64_arr"@ {
            Some(DataTypes::i64_arr)
        } else if s == "string"@ {
            Some(DataTypes::string)
        } else {
            None
        }
    }

    pub fn name(self) -> (r: &'static str)
        ensures
            r@ == self.spec_name(),
    {
        match self {
            DataTypes::i8 => "i8",
            DataTypes::i8_arr => "i8_arr",
            DataTypes::u8 => "u8",
            DataTypes::u8_arr => "u8_arr",
            DataTypes::i16 => "i16",
            DataTypes::i16_arr => "i16_arr",
            DataTypes::u16 => "u16",
            DataTypes::u16_arr => "u16_arr",
            DataTypes::i32 => "i32",
            DataTypes::i32_arr => "i32_arr",
            DataTypes::u32 => "u32",
            DataTypes::u32_arr => "u32_arr",
            DataTypes::i64 => "i64",
            DataTypes::i64_arr => "i64_arr",
            DataTypes::string => "string",
        }
    }

    /// Looks a value up by its name; the lookup is exact and case-sensitive.
    pub fn from_name(s: &str) -> (r: Option<DataTypes>)
        ensures
            r == DataTypes::spec_from_name(s@),
            r matches Some(v) ==> v.spec_name() == s@,
    {
        if same_text(s, "i8") {
            Some(DataTypes::i8)
        } else if same_text(s, "i8_arr") {
            Some(DataTypes::i8_arr)
        } else if same_text(s, "u8") {
            Some(DataTypes::u8)
        } else if same_text(s, "u8_arr") {
            Some(DataTypes::u8_arr)
        } else if same_text(s, "i16") {
            Some(DataTypes::i16)
        } else if same_text(s, "i16_arr") {
            Some(DataTypes::i16_arr)
        } else if same_text(s, "u16") {
            Some(DataTypes::u16)
        } else if same_text(s, "u16_arr") {
            Some(DataTypes::u16_arr)
        } else if same_text(s, "i32") {
            Some(DataTypes::i32)
        } else if same_text(s, "i32_arr") {
            Some(DataTypes::i32_arr)
        } else if same_text(s, "u32") {
            Some(DataTypes::u32)
        } else if same_text(s, "u32_arr") {
            Some(DataTypes::u32_arr)
        } else if same_text(s, "i64") {
            Some(DataTypes::i64)
        } else if same_text(s, "i64_arr") {
            Some(DataTypes::i64_arr)
        } else if same_text(s, "string") {
            Some(DataTypes::string)
        } else {
            None
        }
    }
}

impl Default for DataTypes {
    fn default() -> (r: DataTypes)
        ensures
            r == DataTypes::u8_arr,
    {
        DataTypes::u8_arr
    }
}

/// A game state that a text replacement can be limited to.
#[allow(non_camel_case_types)]
#[derive(Clone, Copy, Debug, PartialEq, Eq, Hash, Structural)]
pub enum SubGameStates {
    SUB_DATA_INITIALIZE,
    SUB_SYSTEM_STARTUP,
    SUB_SYSTEM_STARTUP_ERROR,
    SUB_WARNING,
    SUB_LOGO,
    SUB_RATING,
    SUB_DEMO,
    SUB_TITLE,
    SUB_RANKING,
    SUB_SCORE_RANKING,
    SUB_CM,
    SUB_PHOTO_MODE_DEMO,
    SUB_SELECTOR,
    SUB_GAME_MAIN,
    SUB_GAME_SEL,
    SUB_STAGE_RESULT,
    SUB_SCREEN_SHOT_SEL,
    SUB_SCREEN_SHOT_RESULT,
    SUB_GAME_OVER,
    SUB_DATA_TEST_MAIN,
    SUB_DATA_TEST_MISC,
    SUB_DATA_TEST_OBJ,
    SUB_DATA_TEST_STG,
    SUB_DATA_TEST_MOT,
    SUB_DATA_TEST_COLLISION,
    SUB_DATA_TEST_SPR,
    SUB_DATA_TEST_AET,
    SUB_DATA_TEST_AUTH_3D,
    SUB_DATA_TEST_CHR,
    SUB_DATA_TEST_ITEM,
    SUB_DATA_TEST_PERF,
    SUB_DATA_TEST_PVSCRIPT,
    SUB_DATA_TEST_PRINT,
    SUB_DATA_TEST_CARD,
    SUB_DATA_TEST_OPD,
    SUB_DATA_TEST_SLIDER,
    SUB_DATA_TEST_GLITTER,
    SUB_DATA_TEST_GRAPHICS,
    SUB_DATA_TEST_COLLECTION_CARD,
    SUB_TEST_MODE_MAIN,
    SUB_APP_ERROR,
    SUB_MAX,
}

impl SubGameStates {
    /// The name under which the value is stored.
    pub open spec fn spec_name(self) -> Seq<char> {
        match self {
            SubGameStates::SUB_DATA_INITIALIZE => "SUB_DATA_INITIALIZE"@,
            SubGameStates::SUB_SYSTEM_STARTUP => "SUB_SYSTEM_STARTUP"@,
            SubGameStates::SUB_SYSTEM_STARTUP_ERROR => "SUB_SYSTEM_STARTUP_ERROR"@,
            SubGameStates::SUB_WARNING => "SUB_WARNING"@,
            SubGameStates::SUB_LOGO => "SUB_LOGO"@,
            SubGameStates::SUB_RATING => "SUB_RATING"@,
            SubGameStates::SUB_DEMO => "SUB_DEMO"@,
            SubGameStates::SUB_TITLE => "SUB_TITLE"@,
            SubGameStates::SUB_RANKING => "SUB_RANKING"@,
            SubGameStates::SUB_SCORE_RANKING => "SUB_SCORE_RANKING"@,
            SubGameStates::SUB_CM => "SUB_CM"@,
            SubGameStates::SUB_PHOTO_MODE_DEMO => "SUB_PHOTO_MODE_DEMO"@,
            SubGameStates::SUB_SELECTOR => "SUB_SELECTOR"@,
            SubGameStates::SUB_GAME_MAIN => "SUB_GAME_MAIN"@,
            SubGameStates::SUB_GAME_SEL => "SUB_GAME_SEL"@,
            SubGameStates::SUB_STAGE_RESULT => "SUB_STAGE_RESULT"@,
            SubGameStates::SUB_SCREEN_SHOT_SEL => "SUB_SCREEN_SHOT_SEL"@,
            SubGameStates::SUB_SCREEN_SHOT_RESULT => "SUB_SCREEN_SHOT_RESULT"@,
            SubGameStates::SUB_GAME_OVER => "SUB_GAME_OVER"@,
            SubGameStates::SUB_DATA_TEST_MAIN => "SUB_DATA_TEST_MAIN"@,
            SubGameStates::SUB_DATA_TEST_MISC => "SUB_DATA_TEST_MISC"@,
            SubGameStates::SUB_DATA_TEST_OBJ => "SUB_DATA_TEST_OBJ"@,
            SubGameStates::SUB_DATA_TEST_STG => "SUB_DATA_TEST_STG"@,
            SubGameStates::SUB_DATA_TEST_MOT => "SUB_DATA_TEST_MOT"@,
            SubGameStates::SUB_DATA_TEST_COLLISION => "SUB_DATA_TEST_COLLISION"@,
            SubGameStates::SUB_DATA_TEST_SPR => "SUB_DATA_TEST_SPR"@,
            SubGameStates::SUB_DATA_TEST_AET => "SUB_DATA_TEST_AET"@,
            SubGameStates::SUB_DATA_TEST_AUTH_3D => "SUB_DATA_TEST_AUTH_3D"@,
            SubGameStates::SUB_DATA_TEST_CHR => "SUB_DATA_TEST_CHR"@,
            SubGameStates::SUB_DATA_TEST_ITEM => "SUB_DATA_TEST_ITEM"@,
            SubGameStates::SUB_DATA_TEST_PERF => "SUB_DATA_TEST_PERF"@,
            SubGameStates::SUB_DATA_TEST_PVSCRIPT => "SUB_DATA_TEST_PVSCRIPT"@,
            SubGameStates::SUB_DATA_TEST_PRINT => "SUB_DATA_TEST_PRINT"@,
            SubGameStates::SUB_DATA_TEST_CARD => "SUB_DATA_TEST_CARD"@,
            SubGameStates::SUB_DATA_TEST_OPD => "SUB_DATA_TEST_OPD"@,
            SubGameStates::SUB_DATA_TEST_SLIDER => "SUB_DATA_TEST_SLIDER"@,
            SubGameStates::SUB_DATA_TEST_GLITTER => "SUB_DATA_TEST_GLITTER"@,
            SubGameStates::SUB_DATA_TEST_GRAPHICS => "SUB_DATA_TEST_GRAPHICS"@,
            SubGameStates::SUB_DATA_TEST_COLLECTION_CARD => "SUB_DATA_TEST_COLLECTION_CARD"@,
            SubGameStates::SUB_TEST_MODE_MAIN => "SUB_TEST_MODE_MAIN"@,
            SubGameStates::SUB_APP_ERROR => "SUB_APP_ERROR"@,
            SubGameStates::SUB_MAX => "SUB_MAX"@,
        }
    }

    /// The value stored under a name, if any.
    pub open spec fn spec_from_name(s: Seq<char>) -> Option<SubGameStates> {
        if s == "SUB_DATA_INITIALIZE"@ {
            Some(SubGameStates::SUB_DATA_INITIALIZE)
        } else if s == "SUB_SYSTEM_STARTUP"@ {
            Some(SubGameStates::SUB_SYSTEM_STARTUP)
        } else if s == "SUB_SYSTEM_STARTUP_ERROR"@ {
            Some(SubGameStates::SUB_SYSTEM_STARTUP_ERROR)
        } else if s == "SUB_WARNING"@ {
            Some(SubGameStates::SUB_WARNING)
        } else if s == "SUB_LOGO"@ {
            Some(SubGameStates::SUB_LOGO)
        } else if s == "SUB_RATING"@ {
            Some(SubGameStates::SUB_RATING)
        } else if s == "SUB_DEMO"@ {
            Some(SubGameStates::SUB_DEMO)
        } else if s == "SUB_TITLE"@ {
            Some(SubGameStates::SUB_TITLE)
        } else if s == "SUB_RANKING"@ {
            Some(SubGameStates::SUB_RANKING)
        } else if s == "SUB_SCORE_RANKING"@ {
            Some(SubGameStates::SUB_SCORE_RANKING)
        } else if s == "SUB_CM"@ {
            Some(SubGameStates::SUB_CM)
        } else if s == "SUB_PHOTO_MODE_DEMO"@ {
            Some(SubGameStates::SUB_PHOTO_MODE_DEMO)
        } else if s == "SUB_SELECTOR"@ {
            Some(SubGameStates::SUB_SELECTOR)
        } else if s == "SUB_GAME_MAIN"@ {
            Some(SubGameStates::SUB_GAME_MAIN)
        } else if s == "SUB_GAME_SEL"@ {
            Some(SubGameStates::SUB_GAME_SEL)
        } else if s == "SUB_STAGE_RESULT"@ {
            Some(SubGameStates::SUB_STAGE_RESULT)
        } else if s == "SUB_SCREEN_SHOT_SEL"@ {
            Some(SubGameStates::SUB_SCREEN_SHOT_SEL)
        } else if s == "SUB_SCREEN_SHOT_RESULT"@ {
            Some(SubGameStates::SUB_SCREEN_SHOT_RESULT)
        } else if s == "SUB_GAME_OVER"@ {
            Some(SubGameStates::SUB_GAME_OVER)
        } else if s == "SUB_DATA_TEST_MAIN"@ {
            Some(SubGameStates::SUB_DATA_TEST_MAIN)
        } else if s == "SUB_DATA_TEST_MISC"@ {
            Some(SubGameStates::SUB_DATA_TEST_MISC)
        } else if s == "SUB_DATA_TEST_OBJ"@ {
            Some(SubGameStates::SUB_DATA_TEST_OBJ)
        } else if s == "SUB_DATA_TEST_STG"@ {
            Some(SubGameStates::SUB_DATA_TEST_STG)
        } else if s == "SUB_DATA_TEST_MOT"@ {
            Some(SubGameStates::SUB_DATA_TEST_MOT)
        } else if s == "SUB_DATA_TEST_COLLISION"@ {
            Some(SubGameStates::SUB_DATA_TEST_COLLISION)
        } else if s == "SUB_DATA_TEST_SPR"@ {
            Some(SubGameStates::SUB_DATA_TEST_SPR)
        } else if s == "SUB_DATA_TEST_AET"@ {
            Some(SubGameStates::SUB_DATA_TEST_AET)
        } else if s == "SUB_DATA_TEST_AUTH_3D"@ {
            Some(SubGameStates::SUB_DATA_TEST_AUTH_3D)
        } else if s == "SUB_DATA_TEST_CHR"@ {
            Some(SubGameStates::SUB_DATA_TEST_CHR)
        } else if s == "SUB_DATA_TEST_ITEM"@ {
            Some(SubGameStates::SUB_DATA_TEST_ITEM)
        } else if s == "SUB_DATA_TEST_PERF"@ {
            Some(SubGameStates::SUB_DATA_TEST_PERF)
        } else if s == "SUB_DATA_TEST_PVSCRIPT"@ {
            Some(SubGameStates::SUB_DATA_TEST_PVSCRIPT)
        } else if s == "SUB_DATA_TEST_PRINT"@ {
            Some(SubGameStates::SUB_DATA_TEST_PRINT)
        } else if s == "SUB_DATA_TEST_CARD"@ {
            Some(SubGameStates::SUB_DATA_TEST_CARD)
        } else if s == "SUB_DATA_TEST_OPD"@ {
            Some(SubGameStates::SUB_DATA_TEST_OPD)
        } else if s == "SUB_DATA_TEST_SLIDER"@ {
            Some(SubGameStates::SUB_DATA_TEST_SLIDER)
        } else if s == "SUB_DATA_TEST_GLITTER"@ {
            Some(SubGameStates::SUB_DATA_TEST_GLITTER)
        } else if s == "SUB_DATA_TEST_GRAPHICS"@ {
            Some(SubGameStates::SUB_DATA_TEST_GRAPHICS)
        } else if s == "SUB_DATA_TEST_COLLECTION_CARD"@ {
            Some(SubGameStates::SUB_DATA_TEST_COLLECTION_CARD)
        } else if s == "SUB_TEST_MODE_MAIN"@ {
            Some(SubGameStates::SUB_TEST_MODE_MAIN)
        } else if s == "SUB_APP_ERROR"@ {
            Some(SubGameStates::SUB_APP_ERROR)
        } else if s == "SUB_MAX"@ {
            Some(SubGameStates::SUB_MAX)
        } else {
            None
        }
    }

    pub fn name(self) -> (r: &'static str)
        ensures
            r@ == self.spec_name(),
    {
        match self {
            SubGameStates::SUB_DATA_INITIALIZE => "SUB_DATA_INITIALIZE",
            SubGameStates::SUB_SYSTEM_STARTUP => "SUB_SYSTEM_STARTUP",
            SubGameStates::SUB_SYSTEM_STARTUP_ERROR => "SUB_SYSTEM_STARTUP_ERROR",
            SubGameStates::SUB_WARNING => "SUB_WARNING",
            SubGameStates::SUB_LOGO => "SUB_LOGO",
            SubGameStates::SUB_RATING => "SUB_RATING",
            SubGameStates::SUB_DEMO => "SUB_DEMO",
            SubGameStates::SUB_TITLE => "SUB_TITLE",
            SubGameStates::SUB_RANKING => "SUB_RANKING",
            SubGameStates::SUB_SCORE_RANKING => "SUB_SCORE_RANKING",
            SubGameStates::SUB_CM => "SUB_CM",
            SubGameStates::SUB_PHOTO_MODE_DEMO => "SUB_PHOTO_MODE_DEMO",
            SubGameStates::SUB_SELECTOR => "SUB_SELECTOR",
            SubGameStates::SUB_GAME_MAIN => "SUB_GAME_MAIN",
            SubGameStates::SUB_GAME_SEL => "SUB_GAME_SEL",
            SubGameStates::SUB_STAGE_RESULT => "SUB_STAGE_RESULT",
            SubGameStates::SUB_SCREEN_SHOT_SEL => "SUB_SCREEN_SHOT_SEL",
            SubGameStates::SUB_SCREEN_SHOT_RESULT => "SUB_SCREEN_SHOT_RESULT",
            SubGameStates::SUB_GAME_OVER => "SUB_GAME_OVER",
            SubGameStates::SUB_DATA_TEST_MAIN => "SUB_DATA_TEST_MAIN",
            SubGameStates::SUB_DATA_TEST_MISC => "SUB_DATA_TEST_MISC",
            SubGameStates::SUB_DATA_TEST_OBJ => "SUB_DATA_TEST_OBJ",
            SubGameStates::SUB_DATA_TEST_STG => "SUB_DATA_TEST_STG",
            SubGameStates::SUB_DATA_TEST_MOT => "SUB_DATA_TEST_MOT",
            SubGameStates::SUB_DATA_TEST_COLLISION => "SUB_DATA_TEST_COLLISION",
            SubGameStates::SUB_DATA_TEST_SPR => "SUB_DATA_TEST_SPR",
            SubGameStates::SUB_DATA_TEST_AET => "SUB_DATA_TEST_AET",
            SubGameStates::SUB_DATA_TEST_AUTH_3D => "SUB_DATA_TEST_AUTH_3D",
            SubGameStates::SUB_DATA_TEST_CHR => "SUB_DATA_TEST_CHR",
            SubGameStates::SUB_DATA_TEST_ITEM => "SUB_DATA_TEST_ITEM",
            SubGameStates::SUB_DATA_TEST_PERF => "SUB_DATA_TEST_PERF",
            SubGameStates::SUB_DATA_TEST_PVSCRIPT => "SUB_DATA_TEST_PVSCRIPT",
            SubGameStates::SUB_DATA_TEST_PRINT => "SUB_DATA_TEST_PRINT",
            SubGameStates::SUB_DATA_TEST_CARD => "SUB_DATA_TEST_CARD",
            SubGameStates::SUB_DATA_TEST_OPD => "SUB_DATA_TEST_OPD",
            SubGameStates::SUB_DATA_TEST_SLIDER => "SUB_DATA_TEST_SLIDER",
            SubGameStates::SUB_DATA_TEST_GLITTER => "SUB_DATA_TEST_GLITTER",
            SubGameStates::SUB_DATA_TEST_GRAPHICS => "SUB_DATA_TEST_GRAPHICS",
            SubGameStates::SUB_DATA_TEST_COLLECTION_CARD => "SUB_DATA_TEST_COLLECTION_CARD",
            SubGameStates::SUB_TEST_MODE_MAIN => "SUB_TEST_MODE_MAIN",
            SubGameStates::SUB_APP_ERROR => "SUB_APP_ERROR",
            SubGameStates::SUB_MAX => "SUB_MAX",
        }
    }

    /// Looks a value up by its name; the lookup is exact and case-sensitive.
    pub fn from_name(s: &str) -> (r: Option<SubGameStates>)
        ensures
            r == SubGameStates::spec_from_name(s@),
            r matches Some(v) ==> v.spec_name() == s@,
    {
        if same_text(s, "SUB_DATA_INITIALIZE") {
            Some(SubGameStates::SUB_DATA_INITIALIZE)
        } else if same_text(s, "SUB_SYSTEM_STARTUP") {
            Some(SubGameStates::SUB_SYSTEM_STARTUP)
        } else if same_text(s, "SUB_SYSTEM_STARTUP_ERROR") {
            Some(SubGameStates::SUB_SYSTEM_STARTUP_ERROR)
        } else if same_text(s, "SUB_WARNING") {
            Some(SubGameStates::SUB_WARNING)
        } else if same_text(s, "SUB_LOGO") {
            Some(SubGameStates::SUB_LOGO)
        } else if same_text(s, "SUB_RATING") {
            Some(SubGameStates::SUB_RATING)
        } else if same_text(s, "SUB_DEMO") {
            Some(SubGameStates::SUB_DEMO)
        } else if same_text(s, "SUB_TITLE") {
            Some(SubGameStates::SUB_TITLE)
        } else if same_text(s, "SUB_RANKING") {
            Some(SubGameStates::SUB_RANKING)
        } else if same_text(s, "SUB_SCORE_RANKING") {
            Some(SubGameStates::SUB_SCORE_RANKING)
        } else if same_text(s, "SUB_CM") {
            Some(SubGameStates::SUB_CM)
        } else if same_text(s, "SUB_PHOTO_MODE_DEMO") {
            Some(SubGameStates::SUB_PHOTO_MODE_DEMO)
        } else if same_text(s, "SUB_SELECTOR") {
            Some(SubGameStates::SUB_SELECTOR)
        } else if same_text(s, "SUB_GAME_MAIN") {
            Some(SubGameStates::SUB_GAME_MAIN)
        } else if same_text(s, "SUB_GAME_SEL") {
            Some(SubGameStates::SUB_GAME_SEL)
        } else if same_text(s, "SUB_STAGE_RESULT") {
            Some(SubGameStates::SUB_STAGE_RESULT)
        } else if same_text(s, "SUB_SCREEN_SHOT_SEL") {
            Some(SubGameStates::SUB_SCREEN_SHOT_SEL)
        } else if same_text(s, "SUB_SCREEN_SHOT_RESULT") {
            Some(SubGameStates::SUB_SCREEN_SHOT_RESULT)
        } else if same_text(s, "SUB_GAME_OVER") {
            Some(SubGameStates::SUB_GAME_OVER)
        } else if same_text(s, "SUB_DATA_TEST_MAIN") {
            Some(SubGameStates::SUB_DATA_TEST_MAIN)
        } else if same_text(s, "SUB_DATA_TEST_MISC") {
            Some(SubGameStates::SUB_DATA_TEST_MISC)
        } else if same_text(s, "SUB_DATA_TEST_OBJ") {
            Some(SubGameStates::SUB_DATA_TEST_OBJ)
        } else if same_text(s, "SUB_DATA_TEST_STG") {
            Some(SubGameStates::SUB_DATA_TEST_STG)
        } else if same_text(s, "SUB_DATA_TEST_MOT") {
            Some(SubGameStates::SUB_DATA_TEST_MOT)
        } else if same_text(s, "SUB_DATA_TEST_COLLISION") {
            Some(SubGameStates::SUB_DATA_TEST_COLLISION)
        } else if same_text(s, "SUB_DATA_TEST_SPR") {
            Some(SubGameStates::SUB_DATA_TEST_SPR)
        } else if same_text(s, "SUB_DATA_TEST_AET") {
            Some(SubGameStates::SUB_DATA_TEST_AET)
        } else if same_text(s, "SUB_DATA_TEST_AUTH_3D") {
            Some(SubGameStates::SUB_DATA_TEST_AUTH_3D)
        } else if same_text(s, "SUB_DATA_TEST_CHR") {
            Some(SubGameStates::SUB_DATA_TEST_CHR)
        } else if same_text(s, "SUB_DATA_TEST_ITEM") {
            Some(SubGameStates::SUB_DATA_TEST_ITEM)
        } else if same_text(s, "SUB_DATA_TEST_PERF") {
            Some(SubGameStates::SUB_DATA_TEST_PERF)
        } else if same_text(s, "SUB_DATA_TEST_PVSCRIPT") {
            Some(SubGameStates::SUB_DATA_TEST_PVSCRIPT)
        } else if same_text(s, "SUB_DATA_TEST_PRINT") {
            Some(SubGameStates::SUB_DATA_TEST_PRINT)
        } else if same_text(s, "SUB_DATA_TEST_CARD") {
            Some(SubGameStates::SUB_DATA_TEST_CARD)
        } else if same_text(s, "SUB_DATA_TEST_OPD") {
            Some(SubGameStates::SUB_DATA_TEST_OPD)
        } else if same_text(s, "SUB_DATA_TEST_SLIDER") {
            Some(SubGameStates::SUB_DATA_TEST_SLIDER)
        } else if same_text(s, "SUB_DATA_TEST_GLITTER") {
            Some(SubGameStates::SUB_DATA_TEST_GLITTER)
        } else if same_text(s, "SUB_DATA_TEST_GRAPHICS") {
            Some(SubGameStates::SUB_DATA_TEST_GRAPHICS)
        } else if same_text(s, "SUB_DATA_TEST_COLLECTION_CARD") {
            Some(SubGameStates::SUB_DATA_TEST_COLLECTION_CARD)
        } else if same_text(s, "SUB_TEST_MODE_MAIN") {
            Some(SubGameStates::SUB_TEST_MODE_MAIN)
        } else if same_text(s, "SUB_APP_ERROR") {
            Some(SubGameStates::SUB_APP_ERROR)
        } else if same_text(s, "SUB_MAX") {
            Some(SubGameStates::SUB_MAX)
        } else {
            None
        }
    }
}

impl Default for SubGameStates {
    fn default() -> (r: SubGameStates)
        ensures
            r == SubGameStates::SUB_MAX,
    {
        SubGameStates::SUB_MAX
    }
}

/// The inputs' names, in order.
pub fn buttons_vec_to_string(vec: &Vec<Buttons>) -> (r: Vec<String>)
    ensures
        r@.len() == vec@.len(),
        forall|i: int| 0 <= i < vec@.len() ==> #[trigger] r@[i]@ == vec@[i].spec_name(),
{
    let mut ret: Vec<String> = Vec::new();
    let mut i: usize = 0;
    while i < vec.len()
        invariant
            i <= vec@.len(),
            ret@.len() == i,
            forall|j: int| 0 <= j < i ==> #[trigger] ret@[j]@ == vec@[j].spec_name(),
        decreases vec@.len() - i,
    {
        ret.push(vec[i].name().to_owned());
        i = i + 1;
    }
    ret
}

/// The inputs named, in order; `None` when a name is not an input's.
pub fn buttons_from_names(names: &Vec<String>) -> (r: Option<Vec<Buttons>>)
    ensures
        r is Some <==> forall|i: int| 0 <= i < names@.len() ==> #[trigger] Buttons::spec_from_name(names@[i]@) is Some,
        r matches Some(v) ==> v@.len() == names@.len() && forall|i: int|
            0 <= i < names@.len() ==> Buttons::spec_from_name(names@[i]@) == Some(#[trigger] v@[i]),
{
    let mut ret: Vec<Buttons> = Vec::new();
    let mut i: usize = 0;
    while i < names.len()
        invariant
            i <= names@.len(),
            ret@.len() == i,
            forall|j: int| 0 <= j < i ==> Buttons::spec_from_name(names@[j]@) == Some(#[trigger] ret@[j]),
        decreases names@.len() - i,
    {
        match Buttons::from_name(names[i].as_str()) {
            Some(b) => ret.push(b),
            None => {
                assert(Buttons::spec_from_name(names@[i as int]@) is None);
                return None;
            },
        }
        i = i + 1;
    }
    assert forall|j: int| 0 <= j < names@.len() implies #[trigger] Buttons::spec_from_name(names@[j]@) is Some by {
        assert(Buttons::spec_from_name(names@[j]@) == Some(ret@[j]));
    }
    Some(ret)
}

/// The number of bindable game actions.
pub const BINDING_COUNT: usize = 29;

/// The game's display and controller settings.
#[derive(Clone, Debug, PartialEq)]
pub struct Config {
    pub fps: i32,
    pub internal_res_x: i32,
    pub internal_res_y: i32,
    pub fullscreen: bool,
    pub rumble_intensity: i32,
}

impl Default for Config {
    fn default() -> (r: Config)
        ensures
            r.fps == 0 && r.internal_res_x == 0 && r.internal_res_y == 0 && !r.fullscreen
                && r.rumble_intensity == 0,
    {
        Config { fps: 0, internal_res_x: 0, internal_res_y: 0, fullscreen: false, rumble_intensity: 0 }
    }
}

/// The inputs bound to each game action.
#[derive(Clone, Debug, PartialEq)]
pub struct Keyconfig {
    pub test: Vec<Buttons>,
    pub service: Vec<Buttons>,
    pub advertise: Vec<Buttons>,
    pub game: Vec<Buttons>,
    pub data_test: Vec<Buttons>,
    pub test_mode: Vec<Buttons>,
    pub app_error: Vec<Buttons>,
    pub start: Vec<Buttons>,
    pub triangle: Vec<Buttons>,
    pub square: Vec<Buttons>,
    pub cross: Vec<Buttons>,
    pub circle: Vec<Buttons>,
    pub left_left: Vec<Buttons>,
    pub left_right: Vec<Buttons>,
    pub right_left: Vec<Buttons>,
    pub right_right: Vec<Buttons>,
    pub camera_unlock_toggle: Vec<Buttons>,
    pub camera_move_forward: Vec<Buttons>,
    pub camera_move_backward: Vec<Buttons>,
    pub camera_move_left: Vec<Buttons>,
    pub camera_move_right: Vec<Buttons>,
    pub camera_move_up: Vec<Buttons>,
    pub camera_move_down: Vec<Buttons>,
    pub camera_rotate_cw: Vec<Buttons>,
    pub camera_rotate_ccw: Vec<Buttons>,
    pub camera_zoom_in: Vec<Buttons>,
    pub camera_zoom_out: Vec<Buttons>,
    pub camera_move_fast: Vec<Buttons>,
    pub camera_move_slow: Vec<Buttons>,
}

impl Keyconfig {
    /// The name under which action `i`'s inputs are stored.
    pub open spec fn spec_binding_name(i: int) -> Seq<char> {
        if i == 0 {
            "TEST"@
        } else if i == 1 {
            "SERVICE"@
        } else if i == 2 {
            "ADVERTISE"@
        } else if i == 3 {
            "GAME"@
        } else if i == 4 {
            "DATA_TEST"@
        } else if i == 5 {
            "TEST_MODE"@
        } else if i == 6 {
            "APP_ERROR"@
        } else if i == 7 {
            "START"@
        } else if i == 8 {
            "TRIANGLE"@
        } else if i == 9 {
            "SQUARE"@
        } else if i == 10 {
            "CROSS"@
        } else if i == 11 {
            "CIRCLE"@
        } else if i == 12 {
            "LEFT_LEFT"@
        } else if i == 13 {
            "LEFT_RIGHT"@
        } else if i == 14 {
            "RIGHT_LEFT"@
        } else if i == 15 {
            "RIGHT_RIGHT"@
        } else if i == 16 {
            "CAMERA_UNLOCK_TOGGLE"@
        } else if i == 17 {
            "CAMERA_MOVE_FORWARD"@
        } else if i == 18 {
            "CAMERA_MOVE_BACKWARD"@
        } else if i == 19 {
            "CAMERA_MOVE_LEFT"@
        } else if i == 20 {
            "CAMERA_MOVE_RIGHT"@
        } else if i == 21 {
            "CAMERA_MOVE_UP"@
        } else if i == 22 {
            "CAMERA_MOVE_DOWN"@
        } else if i == 23 {
            "CAMERA_ROTATE_CW"@
        } else if i == 24 {
            "CAMERA_ROTATE_CCW"@
        } else if i == 25 {
            "CAMERA_ZOOM_IN"@
        } else if i == 26 {
            "CAMERA_ZOOM_OUT"@
        } else if i == 27 {
            "CAMERA_MOVE_FAST"@
        } else {
            "CAMERA_MOVE_SLOW"@
        }
    }

    /// The inputs bound to action `i`.
    pub open spec fn spec_binding(&self, i: int) -> Seq<Buttons> {
        if i == 0 {
            self.test@
        } else if i == 1 {
            self.service@
        } else if i == 2 {
            self.advertise@
        } else if i == 3 {
            self.game@
        } else if i == 4 {
            self.data_test@
        } else if i == 5 {
            self.test_mode@
        } else if i == 6 {
            self.app_error@
        } else if i == 7 {
            self.start@
        } else if i == 8 {
            self.triangle@
        } else if i == 9 {
            self.square@
        } else if i == 10 {
            self.cross@
        } else if i == 11 {
            self.circle@
        } else if i == 12 {
            self.left_left@
        } else if i == 13 {
            self.left_right@
        } else if i == 14 {
            self.right_left@
        } else if i == 15 {
            self.right_right@
        } else if i == 16 {
            self.camera_unlock_toggle@
        } else if i == 17 {
            self.camera_move_forward@
        } else if i == 18 {
            self.camera_move_backward@
        } else if i == 19 {
            self.camera_move_left@
        } else if i == 20 {
            self.camera_move_right@
        } else if i == 21 {
            self.camera_move_up@
        } else if i == 22 {
            self.camera_move_down@
        } else if i == 23 {
            self.camera_rotate_cw@
        } else if i == 24 {
            self.camera_rotate_ccw@
        } else if i == 25 {
            self.camera_zoom_in@
        } else if i == 26 {
            self.camera_zoom_out@
        } else if i == 27 {
            self.camera_move_fast@
        } else {
            self.camera_move_slow@
        }
    }

    pub fn binding_name(i: usize) -> (r: &'static str)
        requires
            i < BINDING_COUNT,
        ensures
            r@ == Keyconfig::spec_binding_name(i as int),
    {
        if i == 0 {
            "TEST"
        } else if i == 1 {
            "SERVICE"
        } else if i == 2 {
            "ADVERTISE"
        } else if i == 3 {
            "GAME"
        } else if i == 4 {
            "DATA_TEST"
        } else if i == 5 {
            "TEST_MODE"
        } else if i == 6 {
            "APP_ERROR"
        } else if i == 7 {
            "START"
        } else if i == 8 {
            "TRIANGLE"
        } else if i == 9 {
            "SQUARE"
        } else if i == 10 {
            "CROSS"
        } else if i == 11 {
            "CIRCLE"
        } else if i == 12 {
            "LEFT_LEFT"
        } else if i == 13 {
            "LEFT_RIGHT"
        } else if i == 14 {
            "RIGHT_LEFT"
        } else if i == 15 {
            "RIGHT_RIGHT"
        } else if i == 16 {
            "CAMERA_UNLOCK_TOGGLE"
        } else if i == 17 {
            "CAMERA_MOVE_FORWARD"
        } else if i == 18 {
            "CAMERA_MOVE_BACKWARD"
        } else if i == 19 {
            "CAMERA_MOVE_LEFT"
        } else if i == 20 {
            "CAMERA_MOVE_RIGHT"
        } else if i == 21 {
            "CAMERA_MOVE_UP"
        } else if i == 22 {
            "CAMERA_MOVE_DOWN"
        } else if i == 23 {
            "CAMERA_ROTATE_CW"
        } else if i == 24 {
            "CAMERA_ROTATE_CCW"
        } else if i == 25 {
            "CAMERA_ZOOM_IN"
        } else if i == 26 {
            "CAMERA_ZOOM_OUT"
        } else if i == 27 {
            "CAMERA_MOVE_FAST"
        } else {
            "CAMERA_MOVE_SLOW"
        }
    }

    pub fn binding(&self, i: usize) -> (r: &Vec<Buttons>)
        requires
            i < BINDING_COUNT,
        ensures
            r@ == self.spec_binding(i as int),
    {
        if i == 0 {
            &self.test
        } else if i == 1 {
            &self.service
        } else if i == 2 {
            &self.advertise
        } else if i == 3 {
            &self.game
        } else if i == 4 {
            &self.data_test
        } else if i == 5 {
            &self.test_mode
        } else if i == 6 {
            &self.app_error
        } else if i == 7 {
            &self.start
        } else if i == 8 {
            &self.triangle
        } else if i == 9 {
            &self.square
        } else if i == 10 {
            &self.cross
        } else if i == 11 {
            &self.circle
        } else if i == 12 {
            &self.left_left
        } else if i == 13 {
            &self.left_right
        } else if i == 14 {
            &self.right_left
        } else if i == 15 {
            &self.right_right
        } else if i == 16 {
            &self.camera_unlock_toggle
        } else if i == 17 {
            &self.camera_move_forward
        } else if i == 18 {
            &self.camera_move_backward
        } else if i == 19 {
            &self.camera_move_left
        } else if i == 20 {
            &self.camera_move_right
        } else if i == 21 {
            &self.camera_move_up
        } else if i == 22 {
            &self.camera_move_down
        } else if i == 23 {
            &self.camera_rotate_cw
        } else if i == 24 {
            &self.camera_rotate_ccw
        } else if i == 25 {
            &self.camera_zoom_in
        } else if i == 26 {
            &self.camera_zoom_out
        } else if i == 27 {
            &self.camera_move_fast
        } else {
            &self.camera_move_slow
        }
    }

    /// Binds `buttons` to action `i`, leaving the other actions alone.
    pub fn set_binding(&mut self, i: usize, buttons: Vec<Buttons>)
        requires
            i < BINDING_COUNT,
        ensures
            final(self).spec_binding(i as int) == buttons@,
            forall|j: int| 0 <= j < BINDING_COUNT && j != i ==> #[trigger] final(self).spec_binding(j) == old(self).spec_binding(j),
    {
        if i == 0 {
            self.test = buttons;
        } else if i == 1 {
            self.service = buttons;
        } else if i == 2 {
            self.advertise = buttons;
        } else if i == 3 {
            self.game = buttons;
        } else if i == 4 {
            self.data_test = buttons;
        } else if i == 5 {
            self.test_mode = buttons;
        } else if i == 6 {
            self.app_error = buttons;
        } else if i == 7 {
            self.start = buttons;
        } else if i == 8 {
            self.triangle = buttons;
        } else if i == 9 {
            self.square = buttons;
        } else if i == 10 {
            self.cross = buttons;
        } else if i == 11 {
            self.circle = buttons;
        } else if i == 12 {
            self.left_left = buttons;
        } else if i == 13 {
            self.left_right = buttons;
        } else if i == 14 {
            self.right_left = buttons;
        } else if i == 15 {
            self.right_right = buttons;
        } else if i == 16 {
            self.camera_unlock_toggle = buttons;
        } else if i == 17 {
            self.camera_move_forward = buttons;
        } else if i == 18 {
            self.camera_move_backward = buttons;
        } else if i == 19 {
            self.camera_move_left = buttons;
        } else if i == 20 {
            self.camera_move_right = buttons;
        } else if i == 21 {
            self.camera_move_up = buttons;
        } else if i == 22 {
            self.camera_move_down = buttons;
        } else if i == 23 {
            self.camera_rotate_cw = buttons;
        } else if i == 24 {
            self.camera_rotate_ccw = buttons;
        } else if i == 25 {
            self.camera_zoom_in = buttons;
        } else if i == 26 {
            self.camera_zoom_out = buttons;
        } else if i == 27 {
            self.camera_move_fast = buttons;
        } else {
            self.camera_move_slow = buttons;
        }
    }
}

impl Default for Keyconfig {
    fn default() -> (r: Keyconfig)
        ensures
            forall|i: int| 0 <= i < BINDING_COUNT ==> #[trigger] r.spec_binding(i).len() == 0,
    {
        Keyconfig {
            test: Vec::new(),
            service: Vec::new(),
            advertise: Vec::new(),
            game: Vec::new(),
            data_test: Vec::new(),
            test_mode: Vec::new(),
            app_error: Vec::new(),
            start: Vec::new(),
            triangle: Vec::new(),
            square: Vec::new(),
            cross: Vec::new(),
            circle: Vec::new(),
            left_left: Vec::new(),
            left_right: Vec::new(),
            right_left: Vec::new(),
            right_right: Vec::new(),
            camera_unlock_toggle: Vec::new(),
            camera_move_forward: Vec::new(),
            camera_move_backward: Vec::new(),
            camera_move_left: Vec::new(),
            camera_move_right: Vec::new(),
            camera_move_up: Vec::new(),
            camera_move_down: Vec::new(),
            camera_rotate_cw: Vec::new(),
            camera_rotate_ccw: Vec::new(),
            camera_zoom_in: Vec::new(),
            camera_zoom_out: Vec::new(),
            camera_move_fast: Vec::new(),
            camera_move_slow: Vec::new(),
        }
    }
}

/// One memory write of a patch.
#[derive(Clone, Debug, PartialEq)]
pub struct InternalPatch {
    pub address: i64,
    pub data_type: DataTypes,
    pub data_int: i64,
    pub data_int_arr: Vec<i64>,
    pub data_string: String,
}

impl Default for InternalPatch {
    fn default() -> (r: InternalPatch)
        ensures
            r.address == 0 && r.data_type == DataTypes::u8_arr && r.data_int == 0
                && r.data_int_arr@.len() == 0 && r.data_string@.len() == 0,
    {
        InternalPatch {
            address: 0,
            data_type: DataTypes::default(),
            data_int: 0,
            data_int_arr: Vec::new(),
            data_string: String::new(),
        }
    }
}

/// A named set of memory writes that can be switched on and off.
#[derive(Clone, Debug, PartialEq)]
pub struct Patch {
    pub name: String,
    pub author: String,
    pub enabled: bool,
    pub patches: Vec<InternalPatch>,
}

impl Default for Patch {
    fn default() -> (r: Patch)
        ensures
            r.name@.len() == 0 && r.author@.len() == 0 && !r.enabled && r.patches@.len() == 0,
    {
        Patch { name: String::new(), author: String::new(), enabled: false, patches: Vec::new() }
    }
}

/// One replaced text, optionally limited to a game state.
#[derive(Clone, Debug, PartialEq)]
pub struct InternalTranslation {
    pub original: String,
    pub replacement: String,
    pub state: SubGameStates,
}

impl Default for InternalTranslation {
    fn default() -> (r: InternalTranslation)
        ensures
            r.original@.len() == 0 && r.replacement@.len() == 0 && r.state == SubGameStates::SUB_MAX,
    {
        InternalTranslation {
            original: String::new(),
            replacement: String::new(),
            state: SubGameStates::default(),
        }
    }
}

/// A language's set of replaced texts that can be switched on and off.
#[derive(Clone, Debug, PartialEq)]
pub struct Translation {
    pub language: String,
    pub author: String,
    pub enabled: bool,
    pub translations: Vec<InternalTranslation>,
}

impl Default for Translation {
    fn default() -> (r: Translation)
        ensures
            r.language@.len() == 0 && r.author@.len() == 0 && !r.enabled && r.translations@.len() == 0,
    {
        Translation {
            language: String::new(),
            author: String::new(),
            enabled: false,
            translations: Vec::new(),
        }
    }
}

/// Everything the game reads from its own configuration files.
#[derive(Clone, Debug, PartialEq)]
pub struct AllConfig {
    pub config: Config,
    pub keyconfig: Keyconfig,
    pub patches: Vec<Patch>,
    pub translations: Vec<Translation>,
}

impl Default for AllConfig {
    fn default() -> (r: AllConfig)
        ensures
            r.config.fps == 0 && r.config.internal_res_x == 0 && r.config.internal_res_y == 0,
            !r.config.fullscreen && r.config.rumble_intensity == 0,
            forall|i: int| 0 <= i < BINDING_COUNT ==> #[trigger] r.keyconfig.spec_binding(i).len() == 0,
            r.patches@.len() == 0 && r.translations@.len() == 0,
    {
        AllConfig {
            config: Config::default(),
            keyconfig: Keyconfig::default(),
            patches: Vec::new(),
            translations: Vec::new(),
        }
    }
}

} // verus!
