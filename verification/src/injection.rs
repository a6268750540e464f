//! Turning input events into the records that the system is given.
use crate::geometry::{clamp_int, Point, Rect};
use crate::hooks::{XBUTTON1, XBUTTON2};
use crate::input_event::{
    ascending, InputEvent, KeyEvent, MouseButton, MouseButtonEvent, MouseMoveAbsEvent,
    MouseWheelEvent, PressedState, PressedView,
};
use crate::octets::bits32;
use crate::pointer::anchor_of;
use crate::text::{decimal, join2, join4, number};
use vstd::prelude::*;
use vstd::std_specs::iter::IteratorSpec;

verus! {

broadcast use {vstd::std_specs::btree::group_btree_axioms, vstd::laws_cmp::group_laws_cmp};

/// Marks input that this program made for its own computer.
pub const BORDERLESS_INPUT_MARKER: usize = 0x4244_524C;

pub const KEYEVENTF_EXTENDEDKEY: u32 = 0x0001;

pub const KEYEVENTF_KEYUP: u32 = 0x0002;

pub const MOUSEEVENTF_MOVE: u32 = 0x0001;

pub const MOUSEEVENTF_LEFTDOWN: u32 = 0x0002;

pub const MOUSEEVENTF_LEFTUP: u32 = 0x0004;

pub const MOUSEEVENTF_RIGHTDOWN: u32 = 0x0008;

pub const MOUSEEVENTF_RIGHTUP: u32 = 0x0010;

pub const MOUSEEVENTF_MIDDLEDOWN: u32 = 0x0020;

pub const MOUSEEVENTF_MIDDLEUP: u32 = 0x0040;

pub const MOUSEEVENTF_XDOWN: u32 = 0x0080;

pub const MOUSEEVENTF_XUP: u32 = 0x0100;

pub const MOUSEEVENTF_WHEEL: u32 = 0x0800;

pub const MOUSEEVENTF_HWHEEL: u32 = 0x1000;

pub const MOUSEEVENTF_VIRTUALDESK: u32 = 0x4000;

pub const MOUSEEVENTF_ABSOLUTE: u32 = 0x8000;

/// A movement to a place on the whole desktop.
pub const MOVE_ON_DESKTOP: u32 = MOUSEEVENTF_MOVE + MOUSEEVENTF_ABSOLUTE + MOUSEEVENTF_VIRTUALDESK;

/// The largest absolute coordinate of the system.
pub const ABSOLUTE_RANGE: i32 = 65_535;

/// What the system is given to make input.
#[derive(Clone, Copy, Debug, PartialEq, Eq, Structural)]
pub enum InputRecord {
    Key { vk_code: u16, flags: u32 },
    Mouse { dx: i32, dy: i32, mouse_data: u32, flags: u32, marker: usize },
}

/// A coordinate in the absolute range of the system.
pub open spec fn absolute(value: int, start: int, len: int) -> int {
    if len <= 1 {
        0
    } else {
        clamp_int(value - start, 0, len - 1) * ABSOLUTE_RANGE / (len - 1)
    }
}

pub fn normalize_axis(value: i32, start: i32, len: i32) -> (r: i32)
    ensures
        r == absolute(value as int, start as int, len as int),
        0 <= r <= ABSOLUTE_RANGE,
{
    if len <= 1 {
        return 0;
    }
    let max_offset: i64 = len as i64 - 1;
    let difference: i64 = value as i64 - start as i64;
    let offset: i64 = if difference < 0 {
        0
    } else if difference > max_offset {
        max_offset
    } else {
        difference
    };
    proof {
        lemma_absolute_range(offset as int, max_offset as int);
    }
    ((offset * ABSOLUTE_RANGE as i64) / max_offset) as i32
}

proof fn lemma_absolute_range(offset: int, max_offset: int)
    requires
        0 <= offset <= max_offset,
        0 < max_offset < 0x8000_0000,
    ensures
        0 <= offset * ABSOLUTE_RANGE <= 0x8000_0000 * 0x1_0000,
        0 <= offset * ABSOLUTE_RANGE / max_offset <= ABSOLUTE_RANGE,
{
    assert(0 <= offset * ABSOLUTE_RANGE <= 0x8000_0000 * 0x1_0000) by (nonlinear_arith)
        requires
            0 <= offset < 0x8000_0000,
            ABSOLUTE_RANGE == 65_535,
    ;
    assert(0 <= offset * ABSOLUTE_RANGE / max_offset <= ABSOLUTE_RANGE) by (nonlinear_arith)
        requires
            0 <= offset <= max_offset,
            0 < max_offset,
            ABSOLUTE_RANGE == 65_535,
    ;
}

/// A point in the absolute range of the system.
pub fn normalize(point: Point, desktop: Rect) -> (r: (i32, i32))
    ensures
        r.0 == absolute(point.x as int, desktop.left as int, desktop.width as int),
        r.1 == absolute(point.y as int, desktop.top as int, desktop.height as int),
{
    (
        normalize_axis(point.x, desktop.left, desktop.width),
        normalize_axis(point.y, desktop.top, desktop.height),
    )
}

/// A key that the system tells apart from its twin on the number pad.
pub open spec fn extended(vk_code: u16) -> bool {
    ||| 0x21 <= vk_code <= 0x28
    ||| vk_code == 0x2D
    ||| vk_code == 0x2E
    ||| vk_code == 0x5B
    ||| vk_code == 0x5C
    ||| vk_code == 0x5D
    ||| vk_code == 0x6F
    ||| vk_code == 0x90
    ||| vk_code == 0xA3
    ||| vk_code == 0xA5
}

pub fn is_extended_vk(vk_code: u16) -> (r: bool)
    ensures
        r == extended(vk_code),
{
    (0x21 <= vk_code && vk_code <= 0x28) || vk_code == 0x2D || vk_code == 0x2E || vk_code == 0x5B
        || vk_code == 0x5C || vk_code == 0x5D || vk_code == 0x6F || vk_code == 0x90 || vk_code
        == 0xA3 || vk_code == 0xA5
}

/// The record of a key event.
pub open spec fn key_record(event: KeyEvent) -> InputRecord {
    InputRecord::Key {
        vk_code: event.vk_code,
        flags: ((if event.pressed { 0int } else { KEYEVENTF_KEYUP as int }) + (if extended(
            event.vk_code,
        ) {
            KEYEVENTF_EXTENDEDKEY as int
        } else {
            0
        })) as u32,
    }
}

pub fn key_input(event: &KeyEvent) -> (r: InputRecord)
    ensures
        r == key_record(*event),
{
    let mut flags: u32 = if event.pressed { 0 } else { KEYEVENTF_KEYUP };
    if is_extended_vk(event.vk_code) {
        flags = flags + KEYEVENTF_EXTENDEDKEY;
    }
    InputRecord::Key { vk_code: event.vk_code, flags }
}

/// The record of a mouse event that is not a movement.
pub open spec fn mouse_record(mouse_data: u32, flags: u32) -> InputRecord {
    InputRecord::Mouse { dx: 0, dy: 0, mouse_data, flags, marker: 0 }
}

/// The record of a button event.
pub open spec fn button_record(event: MouseButtonEvent) -> InputRecord {
    match event.button {
        MouseButton::Left => mouse_record(
            0,
            if event.pressed { MOUSEEVENTF_LEFTDOWN } else { MOUSEEVENTF_LEFTUP },
        ),
        MouseButton::Right => mouse_record(
            0,
            if event.pressed { MOUSEEVENTF_RIGHTDOWN } else { MOUSEEVENTF_RIGHTUP },
        ),
        MouseButton::Middle => mouse_record(
            0,
            if event.pressed { MOUSEEVENTF_MIDDLEDOWN } else { MOUSEEVENTF_MIDDLEUP },
        ),
        MouseButton::X1 => mouse_record(
            XBUTTON1 as u32,
            if event.pressed { MOUSEEVENTF_XDOWN } else { MOUSEEVENTF_XUP },
        ),
        MouseButton::X2 => mouse_record(
            XBUTTON2 as u32,
            if event.pressed { MOUSEEVENTF_XDOWN } else { MOUSEEVENTF_XUP },
        ),
    }
}

pub fn mouse_button_input(event: &MouseButtonEvent) -> (r: InputRecord)
    ensures
        r == button_record(*event),
{
    let (flags, mouse_data): (u32, u32) = match event.button {
        MouseButton::Left => (
            if event.pressed { MOUSEEVENTF_LEFTDOWN } else { MOUSEEVENTF_LEFTUP },
            0,
        ),
        MouseButton::Right => (
            if event.pressed { MOUSEEVENTF_RIGHTDOWN } else { MOUSEEVENTF_RIGHTUP },
            0,
        ),
        MouseButton::Middle => (
            if event.pressed { MOUSEEVENTF_MIDDLEDOWN } else { MOUSEEVENTF_MIDDLEUP },
            0,
        ),
        MouseButton::X1 => (
            if event.pressed { MOUSEEVENTF_XDOWN } else { MOUSEEVENTF_XUP },
            XBUTTON1 as u32,
        ),
        MouseButton::X2 => (
            if event.pressed { MOUSEEVENTF_XDOWN } else { MOUSEEVENTF_XUP },
            XBUTTON2 as u32,
        ),
    };
    InputRecord::Mouse { dx: 0, dy: 0, mouse_data, flags, marker: 0 }
}

/// The record of a wheel event: the rotation in two's complement.
pub open spec fn wheel_record(event: MouseWheelEvent) -> InputRecord {
    mouse_record(
        bits32(event.delta) as u32,
        if event.horizontal { MOUSEEVENTF_HWHEEL } else { MOUSEEVENTF_WHEEL },
    )
}

pub fn mouse_wheel_input(event: &MouseWheelEvent) -> (r: InputRecord)
    ensures
        r == wheel_record(*event),
{
    let mouse_data: u32 = if event.delta < 0 {
        (event.delta as i64 + 0x1_0000_0000) as u32
    } else {
        event.delta as u32
    };
    let flags: u32 = if event.horizontal { MOUSEEVENTF_HWHEEL } else { MOUSEEVENTF_WHEEL };
    InputRecord::Mouse { dx: 0, dy: 0, mouse_data, flags, marker: 0 }
}

/// The record of a movement to a point of a desktop.
pub open spec fn move_record(point: Point, desktop: Rect, marker: usize) -> InputRecord {
    InputRecord::Mouse {
        dx: absolute(point.x as int, desktop.left as int, desktop.width as int) as i32,
        dy: absolute(point.y as int, desktop.top as int, desktop.height as int) as i32,
        mouse_data: 0,
        flags: MOVE_ON_DESKTOP,
        marker,
    }
}

/// The records that release keys.
pub open spec fn key_releases(keys: Seq<u16>) -> Seq<InputRecord> {
    keys.map_values(|vk_code: u16| key_record(KeyEvent { vk_code, pressed: false }))
}

/// The records that release buttons.
pub open spec fn button_releases(buttons: Seq<MouseButton>) -> Seq<InputRecord> {
    buttons.map_values(|button: MouseButton| button_record(MouseButtonEvent { button, pressed: false }))
}

/// Keys in some order, each once.
pub open spec fn lists_keys(keys: Seq<u16>, set: Set<u16>) -> bool {
    keys.no_duplicates() && keys.to_set() == set
}

/// The records of an event. Held input is released in some order of the keys, then
/// the buttons.
pub open spec fn records_of(
    event: InputEvent,
    pressed: PressedView,
    desktop: Rect,
    records: Seq<InputRecord>,
) -> bool {
    match event {
        InputEvent::Key(key) => records == seq![key_record(key)],
        InputEvent::MouseButton(button) => records == seq![button_record(button)],
        InputEvent::MouseMoveAbs(to) => records == seq![
            move_record(Point { x: to.x, y: to.y }, desktop, 0),
        ],
        InputEvent::MouseWheel(wheel) => records == seq![wheel_record(wheel)],
        InputEvent::MouseMoveDelta(_) => records == Seq::<InputRecord>::empty(),
        InputEvent::ReleaseAll => exists|keys: Seq<u16>| #[trigger]
            lists_keys(keys, pressed.keys) && records == key_releases(keys) + button_releases(
                ascending(pressed.buttons),
            ),
    }
}

fn release_records(pressed: &PressedState) -> (r: Vec<InputRecord>)
    ensures
        records_of(InputEvent::ReleaseAll, pressed@, arbitrary(), r@),
{
    let mut records: Vec<InputRecord> = Vec::new();
    let ghost mut keys: Seq<u16> = Seq::empty();
    assert(key_releases(keys) =~= records@);
    let held_keys = pressed.keys.iter();
    let ghost listed = held_keys.remaining().unref();
    assert(keys =~= listed.take(0));
    for vk_code in held: held_keys
        invariant
            held.seq().unref() == listed,
            keys == listed.take(held.index() as int),
            records@ == key_releases(keys),
    {
        records.push(key_input(&KeyEvent { vk_code: *vk_code, pressed: false }));
        proof {
            let longer = keys.push(*vk_code);
            assert(longer =~= listed.take(held.index() as int + 1));
            keys = longer;
            assert(records@ =~= key_releases(keys));
        }
    }
    proof {
        assert(listed.take(listed.len() as int) =~= listed);
        assert(lists_keys(keys, pressed@.keys));
    }
    let ghost before = records@;
    let buttons = pressed.mouse_buttons.buttons();
    let ghost wanted = button_releases(buttons@);
    let mut i: usize = 0;
    assert(before + wanted.take(0) =~= before);
    while i < buttons.len()
        invariant
            i <= buttons@.len(),
            wanted == button_releases(buttons@),
            records@ == before + wanted.take(i as int),
        decreases buttons@.len() - i,
    {
        records.push(mouse_button_input(&MouseButtonEvent { button: buttons[i], pressed: false }));
        assert(records@ =~= before + wanted.take(i as int + 1));
        i = i + 1;
    }
    assert(wanted.take(wanted.len() as int) =~= wanted);
    records
}

/// The records of an event, with the note of what is held down.
pub fn build_inputs(event: &InputEvent, pressed: &mut PressedState, desktop: Rect) -> (r: Vec<
    InputRecord,
>)
    ensures
        records_of(*event, old(pressed)@, desktop, r@),
        final(pressed)@ == old(pressed)@.after(*event),
{
    let mut records: Vec<InputRecord> = Vec::new();
    match event {
        InputEvent::Key(key) => {
            pressed.apply(event);
            records.push(key_input(key));
        },
        InputEvent::MouseButton(button) => {
            pressed.apply(event);
            records.push(mouse_button_input(button));
        },
        InputEvent::MouseMoveAbs(to) => {
            let (dx, dy) = normalize(Point::new(to.x, to.y), desktop);
            records.push(
                InputRecord::Mouse { dx, dy, mouse_data: 0, flags: MOVE_ON_DESKTOP, marker: 0 },
            );
        },
        InputEvent::MouseWheel(wheel) => {
            records.push(mouse_wheel_input(wheel));
        },
        InputEvent::MouseMoveDelta(_) => {},
        InputEvent::ReleaseAll => {
            let releases = release_records(pressed);
            pressed.clear();
            return releases;
        },
    }
    records
}

/// The record with the mark of this program.
pub fn tag_borderless_mouse_input(input: InputRecord) -> (r: InputRecord)
    ensures
        r == (match input {
            InputRecord::Mouse { dx, dy, mouse_data, flags, .. } => InputRecord::Mouse {
                dx,
                dy,
                mouse_data,
                flags,
                marker: BORDERLESS_INPUT_MARKER,
            },
            key => key,
        }),
{
    match input {
        InputRecord::Mouse { dx, dy, mouse_data, flags, marker: _ } => InputRecord::Mouse {
            dx,
            dy,
            mouse_data,
            flags,
            marker: BORDERLESS_INPUT_MARKER,
        },
        key => key,
    }
}

/// The record that releases the left button of this computer.
pub fn local_left_button_release_input() -> (r: InputRecord)
    ensures
        r == (InputRecord::Mouse {
            dx: 0,
            dy: 0,
            mouse_data: 0,
            flags: MOUSEEVENTF_LEFTUP,
            marker: BORDERLESS_INPUT_MARKER,
        }),
{
    tag_borderless_mouse_input(
        mouse_button_input(&MouseButtonEvent { button: MouseButton::Left, pressed: false }),
    )
}

/// The records that move the pointer of this computer.
pub fn local_pointer_move_inputs(desktop: Rect, point: Point) -> (r: Vec<InputRecord>)
    ensures
        r@ == seq![move_record(point, desktop, BORDERLESS_INPUT_MARKER)],
{
    let mut pressed = PressedState::default();
    let mut built = build_inputs(
        &InputEvent::MouseMoveAbs(MouseMoveAbsEvent { x: point.x, y: point.y }),
        &mut pressed,
        desktop,
    );
    let first = built.remove(0);
    let mut records: Vec<InputRecord> = Vec::new();
    records.push(tag_borderless_mouse_input(first));
    assert(records@ =~= seq![move_record(point, desktop, BORDERLESS_INPUT_MARKER)]);
    records
}

/// Why the system took fewer records than it was given.
pub fn send_input_mismatch_message(sent: u32, expected: usize, last_error: &str) -> (r: String)
    ensures
        r@ == "SendInput sent "@ + decimal(sent as nat) + " of "@ + decimal(expected as nat)
            + " input events; last Windows error: "@ + last_error@,
{
    let sent_text = number(sent as u64);
    let expected_text = number(expected as u64);
    let start = join4("SendInput sent ", sent_text.as_str(), " of ", expected_text.as_str());
    let middle = join2(start.as_str(), " input events; last Windows error: ");
    join2(middle.as_str(), last_error)
}

/// Whether the system took all records; if there are none, it is not asked.
pub fn check_sent(sent: u32, expected: usize, last_error: &str) -> (r: Result<(), String>)
    ensures
        match r {
            Ok(_) => sent == expected,
            Err(error) => sent != expected && error@ == "SendInput sent "@ + decimal(sent as nat)
                + " of "@ + decimal(expected as nat) + " input events; last Windows error: "@
                + last_error@,
        },
{
    if sent as usize == expected {
        Ok(())
    } else {
        Err(send_input_mismatch_message(sent, expected, last_error))
    }
}

/// Injects the input of the other computer and knows what is held down by it.
#[derive(Debug, PartialEq, Eq)]
pub struct InputInjector {
    desktop: Rect,
    pressed: PressedState,
}

impl InputInjector {
    /// The desktop of an injector.
    pub closed spec fn area(self) -> Rect {
        self.desktop
    }

    /// What is held down.
    pub closed spec fn held(self) -> PressedView {
        self.pressed@
    }

    pub fn new(desktop: Rect) -> (r: Self)
        ensures
            r.area() == desktop,
            r.held() == PressedView::released(),
    {
        InputInjector { desktop, pressed: PressedState::default() }
    }

    /// The records that inject an event. What is held down changes only once the
    /// system has taken them.
    pub fn inject(&self, event: &InputEvent) -> (r: Vec<InputRecord>)
        ensures
            records_of(*event, self.held(), self.area(), r@),
    {
        let mut next_pressed = self.pressed.clone();
        build_inputs(event, &mut next_pressed, self.desktop)
    }

    /// The records that release everything that is held down.
    pub fn release_all(&self) -> (r: Vec<InputRecord>)
        ensures
            records_of(InputEvent::ReleaseAll, self.held(), self.area(), r@),
    {
        self.inject(&InputEvent::ReleaseAll)
    }

    /// The system has taken the records of an event.
    pub fn injected(&mut self, event: &InputEvent)
        ensures
            final(self).area() == old(self).area(),
            final(self).held() == old(self).held().after(*event),
    {
        self.pressed.apply(event);
    }
}

/// The records that move the pointer to the middle of a desktop.
pub fn manual_move_check(desktop: Rect) -> (r: Vec<InputRecord>)
    ensures
        r@ == seq![move_record(anchor_of(desktop), desktop, 0)],
{
    let mut somewhere: Option<Point> = None;
    let center = crate::pointer::mark_local_pointer_parked_for_remote_control(
        desktop,
        &mut somewhere,
    );
    let injector = InputInjector::new(desktop);
    injector.inject(&InputEvent::MouseMoveAbs(MouseMoveAbsEvent { x: center.x, y: center.y }))
}

/// Releasing everything releases every key that is held down, and afterwards nothing
/// is.
pub proof fn law_release_all_releases_every_key(
    pressed: PressedView,
    desktop: Rect,
    records: Seq<InputRecord>,
    vk_code: u16,
)
    requires
        records_of(InputEvent::ReleaseAll, pressed, desktop, records),
        pressed.keys.contains(vk_code),
    ensures
        records.contains(key_record(KeyEvent { vk_code, pressed: false })),
        pressed.after(InputEvent::ReleaseAll) == PressedView::released(),
{
    let keys = choose|keys: Seq<u16>| #[trigger]
        lists_keys(keys, pressed.keys) && records == key_releases(keys) + button_releases(
            ascending(pressed.buttons),
        );
    assert(keys.to_set().contains(vk_code));
    let i = choose|i: int| 0 <= i < keys.len() && keys[i] == vk_code;
    assert(records[i] == key_record(KeyEvent { vk_code, pressed: false }));
}

/// The corners of a desktop are the ends of the absolute range.
pub proof fn law_desktop_spans_the_absolute_range(start: int, len: int)
    requires
        len > 1,
    ensures
        absolute(start, start, len) == 0,
        absolute(start + len - 1, start, len) == ABSOLUTE_RANGE,
{
    assert(0 * ABSOLUTE_RANGE / (len - 1) == 0) by (nonlinear_arith)
        requires
            len > 1,
    ;
    assert((len - 1) * ABSOLUTE_RANGE / (len - 1) == ABSOLUTE_RANGE) by (nonlinear_arith)
        requires
            len > 1,
    ;
}

/// The record of a button tells which button it is and which way it goes: no two button
/// events have the same record. The numbers are those of the system.
pub proof fn law_button_records_tell_buttons_apart(a: MouseButtonEvent, b: MouseButtonEvent)
    ensures
        button_record(a) == button_record(b) <==> a == b,
        ({
            let (down, up, data): (u32, u32, u32) = match a.button {
                MouseButton::Left => (0x0002, 0x0004, 0),
                MouseButton::Right => (0x0008, 0x0010, 0),
                MouseButton::Middle => (0x0020, 0x0040, 0),
                MouseButton::X1 => (0x0080, 0x0100, 1),
                MouseButton::X2 => (0x0080, 0x0100, 2),
            };
            button_record(a) == (InputRecord::Mouse {
                dx: 0,
                dy: 0,
                mouse_data: data,
                flags: if a.pressed { down } else { up },
                marker: 0,
            })
        }),
{
}

/// The record of a key names that key, and no two key events have the same record. A key
/// that goes up has the second bit, one that exists twice on a keyboard the first.
pub proof fn law_key_records_tell_keys_apart(a: KeyEvent, b: KeyEvent)
    ensures
        key_record(a) == key_record(b) <==> a == b,
        key_record(a) matches InputRecord::Key { vk_code, flags } && vk_code == a.vk_code
            && flags < 4 && (flags >= 2 <==> !a.pressed) && (flags % 2 == 1 <==> extended(
            a.vk_code,
        )),
        key_record(KeyEvent { vk_code: a.vk_code, pressed: true }) != key_record(
            KeyEvent { vk_code: a.vk_code, pressed: false },
        ),
{
}

/// The keys that exist twice: the block between the letters and the number pad, the
/// system keys, the division and lock keys of the number pad, and the right control and
/// alternate keys.
pub proof fn law_extended_keys(vk_code: u16)
    ensures
        extended(vk_code) <==> seq![
            0x21u16, 0x22, 0x23, 0x24, 0x25, 0x26, 0x27, 0x28, 0x2D, 0x2E, 0x5B, 0x5C, 0x5D, 0x6F,
            0x90, 0xA3, 0xA5,
        ].contains(vk_code),
{
    let all = seq![
        0x21u16, 0x22, 0x23, 0x24, 0x25, 0x26, 0x27, 0x28, 0x2D, 0x2E, 0x5B, 0x5C, 0x5D, 0x6F,
        0x90, 0xA3, 0xA5,
    ];
    if extended(vk_code) {
        let i: int = if vk_code <= 0x28 {
            vk_code - 0x21
        } else if vk_code == 0x2D {
            8
        } else if vk_code == 0x2E {
            9
        } else if vk_code == 0x5B {
            10
        } else if vk_code == 0x5C {
            11
        } else if vk_code == 0x5D {
            12
        } else if vk_code == 0x6F {
            13
        } else if vk_code == 0x90 {
            14
        } else if vk_code == 0xA3 {
            15
        } else {
            16
        };
        assert(all[i] == vk_code);
    }
}

/// The record of a wheel event has its rotation in two's complement and its direction: no
/// two wheel events have the same record, and none has that of a button.
pub proof fn law_wheel_records_tell_rotations_apart(
    a: MouseWheelEvent,
    b: MouseWheelEvent,
    button: MouseButtonEvent,
)
    ensures
        wheel_record(a) == wheel_record(b) <==> a == b,
        wheel_record(a) != button_record(button),
        wheel_record(a) matches InputRecord::Mouse { dx, dy, mouse_data, flags, marker } && {
            &&& dx == 0 && dy == 0 && marker == 0
            &&& a.delta >= 0 ==> mouse_data == a.delta
            &&& a.delta < 0 ==> mouse_data == a.delta + 0x1_0000_0000
            &&& flags == if a.horizontal { 0x1000u32 } else { 0x0800u32 }
        },
{
}

/// A movement goes to the place in proportion: the distance from the corner of the
/// desktop, scaled to the range of the system and rounded down. What lies outside counts
/// as the nearest pixel.
pub proof fn law_movements_go_to_their_place(point: Point, desktop: Rect, marker: usize)
    requires
        desktop.width > 1,
        desktop.height > 1,
    ensures
        move_record(point, desktop, marker) matches InputRecord::Mouse {
            dx,
            dy,
            mouse_data,
            flags,
            marker: m,
        } && {
            let right = desktop.left + desktop.width - 1;
            let bottom = desktop.top + desktop.height - 1;
            &&& mouse_data == 0
            &&& flags == 0xC001
            &&& m == marker
            &&& point.x <= desktop.left ==> dx == 0
            &&& point.x >= right ==> dx == 65_535
            &&& desktop.left <= point.x <= right ==> dx * (desktop.width - 1) <= (point.x
                - desktop.left) * 65_535 < (dx + 1) * (desktop.width - 1)
            &&& point.y <= desktop.top ==> dy == 0
            &&& point.y >= bottom ==> dy == 65_535
            &&& desktop.top <= point.y <= bottom ==> dy * (desktop.height - 1) <= (point.y
                - desktop.top) * 65_535 < (dy + 1) * (desktop.height - 1)
        },
{
    lemma_absolute_place(point.x as int, desktop.left as int, desktop.width as int);
    lemma_absolute_place(point.y as int, desktop.top as int, desktop.height as int);
}

proof fn lemma_absolute_place(value: int, start: int, len: int)
    requires
        1 < len <= 0x7fff_ffff,
    ensures
        ({
            let r = absolute(value, start, len);
            &&& 0 <= r <= 65_535
            &&& value <= start ==> r == 0
            &&& value >= start + len - 1 ==> r == 65_535
            &&& start <= value <= start + len - 1 ==> r * (len - 1) <= (value - start) * 65_535
                < (r + 1) * (len - 1)
        }),
{
    let offset = clamp_int(value - start, 0, len - 1);
    let d = len - 1;
    lemma_absolute_range(offset, d);
    law_desktop_spans_the_absolute_range(start, len);
    let product = offset * ABSOLUTE_RANGE;
    assert((product / d) * d <= product < (product / d + 1) * d) by (nonlinear_arith)
        requires
            d > 0,
    ;
}

/// Input is injected as it is: one record for a key, a button, a wheel or a movement,
/// which depends on the event alone, and none for a relative movement.
pub proof fn law_events_become_their_records(
    event: InputEvent,
    pressed: PressedView,
    desktop: Rect,
    records: Seq<InputRecord>,
)
    requires
        records_of(event, pressed, desktop, records),
    ensures
        event matches InputEvent::Key(key) ==> records == seq![key_record(key)],
        event matches InputEvent::MouseButton(button) ==> records == seq![button_record(button)],
        event matches InputEvent::MouseWheel(wheel) ==> records == seq![wheel_record(wheel)],
        event matches InputEvent::MouseMoveAbs(to) ==> records == seq![
            move_record(Point { x: to.x, y: to.y }, desktop, 0),
        ],
        event is MouseMoveDelta ==> records.len() == 0,
{
}

/// Releasing everything releases every button that is held down, and nothing else than
/// what is held down: each record is the release of a held key or button.
pub proof fn law_release_all_releases_what_is_held(
    pressed: PressedView,
    desktop: Rect,
    records: Seq<InputRecord>,
    button: MouseButton,
    i: int,
)
    requires
        records_of(InputEvent::ReleaseAll, pressed, desktop, records),
    ensures
        pressed.buttons.contains(button) ==> records.contains(
            button_record(MouseButtonEvent { button, pressed: false }),
        ),
        0 <= i < records.len() ==> (exists|vk_code: u16|
            pressed.keys.contains(vk_code) && records[i] == #[trigger] key_record(
                KeyEvent { vk_code, pressed: false },
            )) || (exists|held: MouseButton|
            pressed.buttons.contains(held) && records[i] == #[trigger] button_record(
                MouseButtonEvent { button: held, pressed: false },
            )),
{
    let keys = choose|keys: Seq<u16>| #[trigger]
        lists_keys(keys, pressed.keys) && records == key_releases(keys) + button_releases(
            ascending(pressed.buttons),
        );
    let order = ascending(pressed.buttons);
    crate::input_event::law_ascending_lists_the_buttons(pressed.buttons, button);
    if pressed.buttons.contains(button) {
        let k = choose|k: int| 0 <= k < order.len() && order[k] == button;
        assert(records[keys.len() + k] == button_record(
            MouseButtonEvent { button, pressed: false },
        ));
    }
    if 0 <= i < records.len() {
        if i < keys.len() {
            assert(keys.to_set().contains(keys[i]));
            assert(records[i] == key_record(KeyEvent { vk_code: keys[i], pressed: false }));
        } else {
            let held = order[i - keys.len()];
            crate::input_event::law_ascending_lists_the_buttons(pressed.buttons, held);
            assert(order.contains(held));
            assert(records[i] == button_record(MouseButtonEvent { button: held, pressed: false }));
        }
    }
}

/// A mark changes nothing of a record but the mark itself, and keys have none.
pub proof fn law_marks_change_nothing_else(input: InputRecord, r: InputRecord)
    requires
        call_ensures(tag_borderless_mouse_input, (input,), r),
    ensures
        input is Key ==> r == input,
        input matches InputRecord::Mouse { dx, dy, mouse_data, flags, .. } ==> r
            == (InputRecord::Mouse { dx, dy, mouse_data, flags, marker: 0x4244_524C }),
{
}

/// What this program injects on its own computer is marked: the release of the left
/// button, and the movement to a point.
pub proof fn law_own_input_is_marked(
    release: InputRecord,
    desktop: Rect,
    point: Point,
    moves: Vec<InputRecord>,
)
    requires
        call_ensures(local_left_button_release_input, (), release),
        call_ensures(local_pointer_move_inputs, (desktop, point), moves),
    ensures
        release == (InputRecord::Mouse {
            dx: 0,
            dy: 0,
            mouse_data: 0,
            flags: 0x0004,
            marker: 0x4244_524C,
        }),
        moves@.len() == 1,
        moves@[0] == move_record(point, desktop, 0x4244_524C),
{
}

/// Whether the system took all records is exactly whether it took as many as it was given.
pub proof fn law_missing_records_are_reported(
    sent: u32,
    expected: usize,
    last_error: &str,
    r: Result<(), String>,
)
    requires
        call_ensures(check_sent, (sent, expected, last_error), r),
    ensures
        r is Ok <==> sent == expected,
{
}

} // verus!
