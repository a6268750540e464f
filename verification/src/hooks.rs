//! Low-level mouse and keyboard hooks: what their messages mean.
use crate::input_event::{
    InputEvent, KeyEvent, MouseButton, MouseButtonEvent, MouseMoveAbsEvent, MouseWheelEvent,
};
use vstd::prelude::*;

verus! {

#[derive(Clone, Copy, Debug, PartialEq, Eq, Structural)]
pub enum HookEvent {
    PointerPosition { x: i32, y: i32 },
    Input(InputEvent),
}

/// Whether local input reaches local programs.
#[derive(Clone, Copy, Debug, PartialEq, Eq, Structural)]
pub enum SuppressionMode {
    PassThrough,
    Suppress,
}

pub const WM_MOUSEMOVE: u32 = 0x0200;

pub const WM_LBUTTONDOWN: u32 = 0x0201;

pub const WM_LBUTTONUP: u32 = 0x0202;

pub const WM_RBUTTONDOWN: u32 = 0x0204;

pub const WM_RBUTTONUP: u32 = 0x0205;

pub const WM_MBUTTONDOWN: u32 = 0x0207;

pub const WM_MBUTTONUP: u32 = 0x0208;

pub const WM_MOUSEWHEEL: u32 = 0x020A;

pub const WM_XBUTTONDOWN: u32 = 0x020B;

pub const WM_XBUTTONUP: u32 = 0x020C;

pub const WM_MOUSEHWHEEL: u32 = 0x020E;

pub const WM_KEYDOWN: u32 = 0x0100;

pub const WM_KEYUP: u32 = 0x0101;

pub const WM_SYSKEYDOWN: u32 = 0x0104;

pub const WM_SYSKEYUP: u32 = 0x0105;

pub const XBUTTON1: u16 = 1;

pub const XBUTTON2: u16 = 2;

/// The parts of a mouse hook's record that tell what happened.
#[derive(Clone, Copy, Debug, PartialEq, Eq, Structural)]
pub struct MouseHookData {
    pub x: i32,
    pub y: i32,
    pub mouse_data: u32,
}

/// The upper half of a number's bits.
pub open spec fn upper_half(value: u32) -> int {
    value as int / 0x1_0000
}

/// The upper half of a number's bits.
pub fn high_word(value: u32) -> (r: u16)
    ensures
        r == upper_half(value),
{
    let shifted: u32 = value >> 16;
    assert(shifted == value / 0x1_0000 && shifted < 0x1_0000) by (bit_vector)
        requires
            shifted == value >> 16,
    ;
    shifted as u16
}

/// The upper half of a number's bits, in two's complement.
pub fn signed_high_word(value: u32) -> (r: i32)
    ensures
        r == (if upper_half(value) >= 0x8000 {
            upper_half(value) - 0x1_0000
        } else {
            upper_half(value)
        }),
{
    let word: i32 = high_word(value) as i32;
    if word >= 0x8000 {
        word - 0x1_0000
    } else {
        word
    }
}

/// The side button that a hook's record names.
pub open spec fn side_button(mouse_data: u32) -> Option<MouseButton> {
    if upper_half(mouse_data) == XBUTTON1 {
        Some(MouseButton::X1)
    } else if upper_half(mouse_data) == XBUTTON2 {
        Some(MouseButton::X2)
    } else {
        None
    }
}

pub fn x_mouse_button(mouse_data: u32) -> (r: Option<MouseButton>)
    ensures
        r == side_button(mouse_data),
{
    let word: u16 = high_word(mouse_data);
    if word == XBUTTON1 {
        Some(MouseButton::X1)
    } else if word == XBUTTON2 {
        Some(MouseButton::X2)
    } else {
        None
    }
}

/// The button that a message is about and whether it goes down.
pub open spec fn button_change(message: u32, mouse_data: u32) -> Option<(MouseButton, bool)> {
    if message == WM_LBUTTONDOWN {
        Some((MouseButton::Left, true))
    } else if message == WM_LBUTTONUP {
        Some((MouseButton::Left, false))
    } else if message == WM_RBUTTONDOWN {
        Some((MouseButton::Right, true))
    } else if message == WM_RBUTTONUP {
        Some((MouseButton::Right, false))
    } else if message == WM_MBUTTONDOWN {
        Some((MouseButton::Middle, true))
    } else if message == WM_MBUTTONUP {
        Some((MouseButton::Middle, false))
    } else if message == WM_XBUTTONDOWN || message == WM_XBUTTONUP {
        match side_button(mouse_data) {
            Some(button) => Some((button, message == WM_XBUTTONDOWN)),
            None => None,
        }
    } else {
        None
    }
}

/// The button event that a message stands for.
pub fn mouse_button_event(message: u32, data: &MouseHookData) -> (r: Option<InputEvent>)
    ensures
        r == (match button_change(message, data.mouse_data) {
            Some((button, pressed)) => Some(
                InputEvent::MouseButton(MouseButtonEvent { button, pressed }),
            ),
            None => None,
        }),
{
    let (button, pressed) = if message == WM_LBUTTONDOWN {
        (MouseButton::Left, true)
    } else if message == WM_LBUTTONUP {
        (MouseButton::Left, false)
    } else if message == WM_RBUTTONDOWN {
        (MouseButton::Right, true)
    } else if message == WM_RBUTTONUP {
        (MouseButton::Right, false)
    } else if message == WM_MBUTTONDOWN {
        (MouseButton::Middle, true)
    } else if message == WM_MBUTTONUP {
        (MouseButton::Middle, false)
    } else if message == WM_XBUTTONDOWN || message == WM_XBUTTONUP {
        match x_mouse_button(data.mouse_data) {
            Some(button) => (button, message == WM_XBUTTONDOWN),
            None => {
                return None;
            },
        }
    } else {
        return None;
    };
    Some(InputEvent::MouseButton(MouseButtonEvent { button, pressed }))
}

/// The events that a mouse message stands for: a movement is reported as a pointer
/// position and as an input event, a button or wheel as an input event.
pub open spec fn mouse_events(message: u32, data: MouseHookData) -> Seq<HookEvent> {
    if message == WM_MOUSEMOVE {
        seq![
            HookEvent::PointerPosition { x: data.x, y: data.y },
            HookEvent::Input(InputEvent::MouseMoveAbs(MouseMoveAbsEvent { x: data.x, y: data.y })),
        ]
    } else if message == WM_MOUSEWHEEL || message == WM_MOUSEHWHEEL {
        let word = upper_half(data.mouse_data);
        seq![
            HookEvent::Input(
                InputEvent::MouseWheel(
                    MouseWheelEvent {
                        delta: (if word >= 0x8000 { word - 0x1_0000 } else { word }) as i32,
                        horizontal: message == WM_MOUSEHWHEEL,
                    },
                ),
            ),
        ]
    } else {
        match button_change(message, data.mouse_data) {
            Some((button, pressed)) => seq![
                HookEvent::Input(InputEvent::MouseButton(MouseButtonEvent { button, pressed })),
            ],
            None => Seq::empty(),
        }
    }
}

/// Reads a mouse hook message.
pub fn mouse_hook_events(message: u32, data: &MouseHookData) -> (r: Vec<HookEvent>)
    ensures
        r@ == mouse_events(message, *data),
{
    let mut events: Vec<HookEvent> = Vec::new();
    if message == WM_MOUSEMOVE {
        events.push(HookEvent::PointerPosition { x: data.x, y: data.y });
        events.push(
            HookEvent::Input(InputEvent::MouseMoveAbs(MouseMoveAbsEvent { x: data.x, y: data.y })),
        );
    } else if message == WM_MOUSEWHEEL || message == WM_MOUSEHWHEEL {
        events.push(
            HookEvent::Input(
                InputEvent::MouseWheel(
                    MouseWheelEvent {
                        delta: signed_high_word(data.mouse_data),
                        horizontal: message == WM_MOUSEHWHEEL,
                    },
                ),
            ),
        );
    } else {
        match mouse_button_event(message, data) {
            Some(event) => {
                events.push(HookEvent::Input(event));
            },
            None => {},
        }
    }
    assert(events@ =~= mouse_events(message, *data));
    events
}

/// The event that a keyboard message stands for. Virtual key codes have sixteen bits.
pub open spec fn key_event(message: u32, vk_code: u32) -> Option<HookEvent> {
    if message == WM_KEYDOWN || message == WM_SYSKEYDOWN || message == WM_KEYUP || message
        == WM_SYSKEYUP {
        Some(
            HookEvent::Input(
                InputEvent::Key(
                    KeyEvent {
                        vk_code: (vk_code % 0x1_0000) as u16,
                        pressed: message == WM_KEYDOWN || message == WM_SYSKEYDOWN,
                    },
                ),
            ),
        )
    } else {
        None
    }
}

/// Reads a keyboard hook message.
pub fn keyboard_hook_event(message: u32, vk_code: u32) -> (r: Option<HookEvent>)
    ensures
        r == key_event(message, vk_code),
{
    let pressed = if message == WM_KEYDOWN || message == WM_SYSKEYDOWN {
        true
    } else if message == WM_KEYUP || message == WM_SYSKEYUP {
        false
    } else {
        return None;
    };
    Some(
        HookEvent::Input(InputEvent::Key(KeyEvent { vk_code: (vk_code % 0x1_0000) as u16, pressed })),
    )
}

/// The hook code of a message that is to be looked at.
pub const HC_ACTION: i32 = 0;

/// What a hook procedure does with a message: the events it reports, and whether the
/// message ends there.
#[derive(Debug, PartialEq, Eq)]
pub struct HookOutcome {
    pub events: Vec<HookEvent>,
    pub swallow: bool,
}

/// The hooks of this computer: whether they swallow what they see.
#[derive(Clone, Copy, Debug, PartialEq, Eq, Structural)]
pub struct HookManager {
    pub mode: SuppressionMode,
}

impl HookManager {
    /// Hooks that let everything pass.
    pub fn new() -> (r: Self)
        ensures
            r.mode == SuppressionMode::PassThrough,
    {
        HookManager { mode: SuppressionMode::PassThrough }
    }

    pub fn set_suppression_mode(&mut self, mode: SuppressionMode)
        ensures
            final(self).mode == mode,
    {
        self.mode = mode;
    }

    /// The hooks are given up: everything passes again.
    pub fn restore(&mut self)
        ensures
            final(self).mode == SuppressionMode::PassThrough,
    {
        self.set_suppression_mode(SuppressionMode::PassThrough);
    }

    /// Whether messages end at the hooks.
    pub fn hook_should_suppress(&self) -> (r: bool)
        ensures
            r == (self.mode == SuppressionMode::Suppress),
    {
        matches!(self.mode, SuppressionMode::Suppress)
    }

    /// A message of the mouse. Where the hook code says so, it is passed on unseen.
    pub fn mouse_hook_proc(&self, ncode: i32, message: u32, data: Option<MouseHookData>) -> (r:
        HookOutcome)
        ensures
            r.events@ == (match data {
                Some(data) if ncode == HC_ACTION => mouse_events(message, data),
                _ => Seq::empty(),
            }),
            r.swallow == (ncode == HC_ACTION && self.mode == SuppressionMode::Suppress),
    {
        if ncode != HC_ACTION {
            return HookOutcome { events: Vec::new(), swallow: false };
        }
        let events = match data {
            Some(data) => mouse_hook_events(message, &data),
            None => Vec::new(),
        };
        HookOutcome { events, swallow: self.hook_should_suppress() }
    }

    /// A message of the keyboard. Where the hook code says so, it is passed on unseen.
    pub fn keyboard_hook_proc(&self, ncode: i32, message: u32, vk_code: Option<u32>) -> (r:
        HookOutcome)
        ensures
            r.events@ == (match vk_code {
                Some(vk_code) if ncode == HC_ACTION => match key_event(message, vk_code) {
                    Some(event) => seq![event],
                    None => Seq::empty(),
                },
                _ => Seq::empty(),
            }),
            r.swallow == (ncode == HC_ACTION && self.mode == SuppressionMode::Suppress),
    {
        let mut events: Vec<HookEvent> = Vec::new();
        if ncode != HC_ACTION {
            return HookOutcome { events, swallow: false };
        }
        match vk_code {
            Some(vk_code) => match keyboard_hook_event(message, vk_code) {
                Some(event) => {
                    events.push(event);
                },
                None => {},
            },
            None => {},
        }
        HookOutcome { events, swallow: self.hook_should_suppress() }
    }
}

/// A movement of the mouse is reported at its place, as a position and as input; every
/// other mouse message is reported as at most one input event that is no movement.
pub proof fn law_movements_are_reported_at_their_place(message: u32, data: MouseHookData)
    ensures
        ({
            let events = mouse_events(message, data);
            &&& message == 0x0200 <==> events.len() == 2
            &&& message == 0x0200 ==> {
                &&& events[0] == HookEvent::PointerPosition { x: data.x, y: data.y }
                &&& events[1] == HookEvent::Input(
                    InputEvent::MouseMoveAbs(MouseMoveAbsEvent { x: data.x, y: data.y }),
                )
            }
            &&& message != 0x0200 && events.len() == 1 ==> (events[0] matches HookEvent::Input(
                input,
            ) && (input is MouseButton || input is MouseWheel))
            &&& events.len() <= 2
        }),
{
}

/// The messages of the buttons, by the numbers that the system gives them.
pub proof fn law_button_messages_name_their_button(message: u32, data: MouseHookData)
    ensures
        ({
            let events = mouse_events(message, data);
            let report = |button: MouseButton, pressed: bool|
                seq![
                    HookEvent::Input(InputEvent::MouseButton(MouseButtonEvent { button, pressed })),
                ];
            let side = data.mouse_data / 0x1_0000;
            &&& message == 0x0201 ==> events == report(MouseButton::Left, true)
            &&& message == 0x0202 ==> events == report(MouseButton::Left, false)
            &&& message == 0x0204 ==> events == report(MouseButton::Right, true)
            &&& message == 0x0205 ==> events == report(MouseButton::Right, false)
            &&& message == 0x0207 ==> events == report(MouseButton::Middle, true)
            &&& message == 0x0208 ==> events == report(MouseButton::Middle, false)
            &&& message == 0x020B && side == 1 ==> events == report(MouseButton::X1, true)
            &&& message == 0x020C && side == 1 ==> events == report(MouseButton::X1, false)
            &&& message == 0x020B && side == 2 ==> events == report(MouseButton::X2, true)
            &&& message == 0x020C && side == 2 ==> events == report(MouseButton::X2, false)
            &&& (message == 0x020B || message == 0x020C) && side != 1 && side != 2 ==> events.len()
                == 0
            &&& !(0x0200 <= message <= 0x020E) ==> events.len() == 0
        }),
{
}

/// The wheel is reported with the rotation that the upper half of its record holds, with
/// its sign, and with its direction.
pub proof fn law_wheel_messages_keep_their_rotation(message: u32, data: MouseHookData)
    requires
        message == 0x020A || message == 0x020E,
    ensures
        mouse_events(message, data).len() == 1,
        mouse_events(message, data)[0] matches HookEvent::Input(InputEvent::MouseWheel(wheel)) && {
            &&& wheel.horizontal <==> message == 0x020E
            &&& -0x8000 <= wheel.delta < 0x8000
            &&& wheel.delta >= 0 ==> wheel.delta * 0x1_0000 <= data.mouse_data < (wheel.delta + 1)
                * 0x1_0000
            &&& wheel.delta < 0 ==> (wheel.delta + 0x1_0000) * 0x1_0000 <= data.mouse_data < (
            wheel.delta + 0x1_0001) * 0x1_0000
        },
{
}

/// A key is reported with its code, down or up as the message says, also while the system
/// key is held; other messages are no keys.
pub proof fn law_key_messages_name_their_key(message: u32, vk_code: u32)
    ensures
        key_event(message, vk_code) is Some <==> message == 0x0100 || message == 0x0101 || message
            == 0x0104 || message == 0x0105,
        key_event(message, vk_code) matches Some(event) ==> (event matches HookEvent::Input(
            InputEvent::Key(key),
        ) && (key.pressed <==> message == 0x0100 || message == 0x0104) && (vk_code < 0x1_0000
            ==> key.vk_code == vk_code)),
{
}

/// Input ends at the hooks exactly while they suppress it and are asked about it; whatever
/// they do, what they see is reported the same.
pub proof fn law_suppression_hides_nothing(
    hooks: HookManager,
    ncode: i32,
    message: u32,
    data: Option<MouseHookData>,
    vk_code: Option<u32>,
    mouse: HookOutcome,
    keyboard: HookOutcome,
)
    requires
        call_ensures(HookManager::mouse_hook_proc, (&hooks, ncode, message, data), mouse),
        call_ensures(HookManager::keyboard_hook_proc, (&hooks, ncode, message, vk_code), keyboard),
    ensures
        mouse.swallow <==> ncode == 0 && hooks.mode == SuppressionMode::Suppress,
        keyboard.swallow <==> ncode == 0 && hooks.mode == SuppressionMode::Suppress,
        ncode == 0 && data is Some ==> mouse.events@ == mouse_events(message, data->0),
        ncode == 0 && vk_code is Some ==> (keyboard.events@.len() == 1 <==> key_event(
            message,
            vk_code->0,
        ) is Some),
        keyboard.events@.len() <= 1,
        ncode == 0 && keyboard.events@.len() == 1 ==> vk_code is Some && key_event(
            message,
            vk_code->0,
        ) == Some(keyboard.events@[0]),
        ncode != 0 ==> mouse.events@.len() == 0 && keyboard.events@.len() == 0,
{
}

} // verus!
