//! Input events and the set of keys and buttons that are held down.
use std::collections::BTreeSet;
use vstd::prelude::*;

verus! {

broadcast use {vstd::std_specs::btree::group_btree_axioms, vstd::laws_cmp::group_laws_cmp};

#[derive(Clone, Copy, Debug, PartialEq, Eq, PartialOrd, Ord, Structural)]
pub enum MouseButton {
    Left,
    Right,
    Middle,
    X1,
    X2,
}

#[derive(Clone, Copy, Debug, PartialEq, Eq, Structural)]
pub struct KeyEvent {
    pub vk_code: u16,
    pub pressed: bool,
}

#[derive(Clone, Copy, Debug, PartialEq, Eq, Structural)]
pub struct MouseButtonEvent {
    pub button: MouseButton,
    pub pressed: bool,
}

#[derive(Clone, Copy, Debug, PartialEq, Eq, Structural)]
pub struct MouseMoveAbsEvent {
    pub x: i32,
    pub y: i32,
}

#[derive(Clone, Copy, Debug, PartialEq, Eq, Structural)]
pub struct MouseMoveDeltaEvent {
    pub dx: i32,
    pub dy: i32,
}

#[derive(Clone, Copy, Debug, PartialEq, Eq, Structural)]
pub struct MouseWheelEvent {
    pub delta: i32,
    pub horizontal: bool,
}

#[derive(Clone, Copy, Debug, PartialEq, Eq, Structural)]
pub enum InputEvent {
    Key(KeyEvent),
    MouseButton(MouseButtonEvent),
    MouseMoveAbs(MouseMoveAbsEvent),
    MouseMoveDelta(MouseMoveDeltaEvent),
    MouseWheel(MouseWheelEvent),
    ReleaseAll,
}

/// A set of mouse buttons.
#[derive(Clone, Copy, Debug, PartialEq, Eq, Structural)]
pub struct ButtonSet {
    left: bool,
    right: bool,
    middle: bool,
    x1: bool,
    x2: bool,
}

impl View for ButtonSet {
    type V = Set<MouseButton>;

    closed spec fn view(&self) -> Set<MouseButton> {
        Set::new(|button: MouseButton| self.has(button))
    }
}

/// The buttons of a set in ascending order.
pub open spec fn ascending(buttons: Set<MouseButton>) -> Seq<MouseButton> {
    let all = seq![
        MouseButton::Left,
        MouseButton::Right,
        MouseButton::Middle,
        MouseButton::X1,
        MouseButton::X2,
    ];
    all.filter(|button: MouseButton| buttons.contains(button))
}

impl ButtonSet {
    spec fn has(&self, button: MouseButton) -> bool {
        match button {
            MouseButton::Left => self.left,
            MouseButton::Right => self.right,
            MouseButton::Middle => self.middle,
            MouseButton::X1 => self.x1,
            MouseButton::X2 => self.x2,
        }
    }

    /// The empty set.
    pub fn new() -> (r: Self)
        ensures
            r@ == Set::<MouseButton>::empty(),
    {
        let r = ButtonSet { left: false, right: false, middle: false, x1: false, x2: false };
        assert(r@ =~= Set::<MouseButton>::empty());
        r
    }

    fn set(&mut self, button: MouseButton, value: bool)
        ensures
            forall|b: MouseButton|
                final(self).has(b) == if b == button { value } else { old(self).has(b) },
    {
        match button {
            MouseButton::Left => { self.left = value; },
            MouseButton::Right => { self.right = value; },
            MouseButton::Middle => { self.middle = value; },
            MouseButton::X1 => { self.x1 = value; },
            MouseButton::X2 => { self.x2 = value; },
        }
    }

    pub fn contains(&self, button: &MouseButton) -> (r: bool)
        ensures
            r == self@.contains(*button),
    {
        match *button {
            MouseButton::Left => self.left,
            MouseButton::Right => self.right,
            MouseButton::Middle => self.middle,
            MouseButton::X1 => self.x1,
            MouseButton::X2 => self.x2,
        }
    }

    /// Adds a button and tells whether it was new.
    pub fn insert(&mut self, button: MouseButton) -> (r: bool)
        ensures
            final(self)@ == old(self)@.insert(button),
            r == !old(self)@.contains(button),
    {
        let known = self.contains(&button);
        self.set(button, true);
        assert(self@ =~= old(self)@.insert(button));
        !known
    }

    /// Removes a button and tells whether it was there.
    pub fn remove(&mut self, button: &MouseButton) -> (r: bool)
        ensures
            final(self)@ == old(self)@.remove(*button),
            r == old(self)@.contains(*button),
    {
        let known = self.contains(button);
        self.set(*button, false);
        assert(self@ =~= old(self)@.remove(*button));
        known
    }

    pub fn clear(&mut self)
        ensures
            final(self)@ == Set::<MouseButton>::empty(),
    {
        *self = ButtonSet::new();
    }

    pub fn is_empty(&self) -> (r: bool)
        ensures
            r == (self@ == Set::<MouseButton>::empty()),
    {
        proof {
            if !self.left && !self.right && !self.middle && !self.x1 && !self.x2 {
                assert(self@ =~= Set::<MouseButton>::empty());
            } else {
                assert(self.left ==> self@.contains(MouseButton::Left));
                assert(self.right ==> self@.contains(MouseButton::Right));
                assert(self.middle ==> self@.contains(MouseButton::Middle));
                assert(self.x1 ==> self@.contains(MouseButton::X1));
                assert(self.x2 ==> self@.contains(MouseButton::X2));
            }
        }
        !self.left && !self.right && !self.middle && !self.x1 && !self.x2
    }

    /// The buttons in ascending order.
    pub fn buttons(&self) -> (r: Vec<MouseButton>)
        ensures
            r@ == ascending(self@),
    {
        let mut out: Vec<MouseButton> = Vec::new();
        if self.left {
            out.push(MouseButton::Left);
        }
        if self.right {
            out.push(MouseButton::Right);
        }
        if self.middle {
            out.push(MouseButton::Middle);
        }
        if self.x1 {
            out.push(MouseButton::X1);
        }
        if self.x2 {
            out.push(MouseButton::X2);
        }
        proof {
            let all = seq![
                MouseButton::Left,
                MouseButton::Right,
                MouseButton::Middle,
                MouseButton::X1,
                MouseButton::X2,
            ];
            let keep = |button: MouseButton| self@.contains(button);
            reveal_with_fuel(Seq::filter, 6);
            assert(all.drop_last().drop_last().drop_last().drop_last().drop_last() =~= Seq::empty());
            assert(all.last() == MouseButton::X2);
            assert(all.drop_last().last() == MouseButton::X1);
            assert(all.drop_last().drop_last().last() == MouseButton::Middle);
            assert(all.drop_last().drop_last().drop_last().last() == MouseButton::Right);
            assert(all.drop_last().drop_last().drop_last().drop_last().last() == MouseButton::Left);
            assert(out@ =~= all.filter(keep));
        }
        out
    }
}

/// The keys and mouse buttons that are held down.
#[derive(Debug, PartialEq, Eq)]
pub struct PressedState {
    pub keys: BTreeSet<u16>,
    pub mouse_buttons: ButtonSet,
}

/// What is held down: virtual key codes and buttons.
#[verifier::ext_equal]
pub struct PressedView {
    pub keys: Set<u16>,
    pub buttons: Set<MouseButton>,
}

impl PressedView {
    /// Nothing is held down.
    pub open spec fn released() -> PressedView {
        PressedView { keys: Set::empty(), buttons: Set::empty() }
    }

    /// What is held down after an event.
    pub open spec fn after(self, event: InputEvent) -> PressedView {
        match event {
            InputEvent::Key(key) => PressedView {
                keys: if key.pressed {
                    self.keys.insert(key.vk_code)
                } else {
                    self.keys.remove(key.vk_code)
                },
                ..self
            },
            InputEvent::MouseButton(mouse) => PressedView {
                buttons: if mouse.pressed {
                    self.buttons.insert(mouse.button)
                } else {
                    self.buttons.remove(mouse.button)
                },
                ..self
            },
            InputEvent::ReleaseAll => PressedView::released(),
            InputEvent::MouseMoveAbs(_) | InputEvent::MouseMoveDelta(_) | InputEvent::MouseWheel(
                _,
            ) => self,
        }
    }
}

impl View for PressedState {
    type V = PressedView;

    open spec fn view(&self) -> PressedView {
        PressedView { keys: self.keys@, buttons: self.mouse_buttons@ }
    }
}

impl Default for PressedState {
    fn default() -> (r: Self)
        ensures
            r@ == PressedView::released(),
    {
        PressedState { keys: BTreeSet::new(), mouse_buttons: ButtonSet::new() }
    }
}

impl Clone for PressedState {
    fn clone(&self) -> (r: Self)
        ensures
            r@ == self@,
    {
        PressedState { keys: self.keys.clone(), mouse_buttons: self.mouse_buttons }
    }
}

impl PressedState {
    /// Takes note of an event.
    pub fn apply(&mut self, event: &InputEvent)
        ensures
            final(self)@ == old(self)@.after(*event),
    {
        match event {
            InputEvent::Key(key) => {
                if key.pressed {
                    self.keys.insert(key.vk_code);
                } else {
                    self.keys.remove(&key.vk_code);
                }
            },
            InputEvent::MouseButton(mouse) => {
                if mouse.pressed {
                    self.mouse_buttons.insert(mouse.button);
                } else {
                    self.mouse_buttons.remove(&mouse.button);
                }
            },
            InputEvent::ReleaseAll => {
                self.clear();
            },
            InputEvent::MouseMoveAbs(_) | InputEvent::MouseMoveDelta(_) | InputEvent::MouseWheel(
                _,
            ) => {},
        }
    }

    pub fn clear(&mut self)
        ensures
            final(self)@ == PressedView::released(),
    {
        self.keys.clear();
        self.mouse_buttons.clear();
    }

    pub fn is_empty(&self) -> (r: bool)
        ensures
            r == (self@ == PressedView::released()),
    {
        let r = self.keys.is_empty() && self.mouse_buttons.is_empty();
        assert(self.keys@.is_empty() ==> self.keys@ =~= Set::<u16>::empty());
        r
    }
}

/// A key or button that goes down and up again leaves the other ones as they were.
pub proof fn law_press_and_release_cancel_out(s: PressedView, key: u16, button: MouseButton)
    ensures
        s.after(InputEvent::Key(KeyEvent { vk_code: key, pressed: true })).after(
            InputEvent::Key(KeyEvent { vk_code: key, pressed: false }),
        ) == (PressedView { keys: s.keys.remove(key), ..s }),
        s.after(InputEvent::MouseButton(MouseButtonEvent { button, pressed: true })).after(
            InputEvent::MouseButton(MouseButtonEvent { button, pressed: false }),
        ) == (PressedView { buttons: s.buttons.remove(button), ..s }),
        s.after(InputEvent::ReleaseAll) == PressedView::released(),
{
    assert(s.keys.insert(key).remove(key) =~= s.keys.remove(key));
    assert(s.buttons.insert(button).remove(button) =~= s.buttons.remove(button));
}

/// The place of a button in the order of the buttons.
pub open spec fn place_of(button: MouseButton) -> int {
    match button {
        MouseButton::Left => 0,
        MouseButton::Right => 1,
        MouseButton::Middle => 2,
        MouseButton::X1 => 3,
        MouseButton::X2 => 4,
    }
}

/// The buttons of a set are listed each once, none besides, and the left before the right
/// before the middle before the side buttons.
pub proof fn law_ascending_lists_the_buttons(buttons: Set<MouseButton>, button: MouseButton)
    ensures
        ascending(buttons).contains(button) <==> buttons.contains(button),
        forall|i: int, j: int|
            0 <= i < j < ascending(buttons).len() ==> place_of(#[trigger] ascending(buttons)[i])
                < place_of(#[trigger] ascending(buttons)[j]),
{
    let all = seq![
        MouseButton::Left,
        MouseButton::Right,
        MouseButton::Middle,
        MouseButton::X1,
        MouseButton::X2,
    ];
    let keep = |b: MouseButton| buttons.contains(b);
    let place = place_of(button);
    assert(all[place] == button);
    if buttons.contains(button) {
        all.lemma_filter_contains(keep, place);
    }
    if ascending(buttons).contains(button) {
        let k = choose|k: int| 0 <= k < ascending(buttons).len() && ascending(buttons)[k] == button;
        all.lemma_filter_pred(keep, k);
    }
    reveal_with_fuel(Seq::filter, 6);
    let two = all.drop_last().drop_last().drop_last();
    assert(two.drop_last().drop_last() =~= Seq::empty());
    assert(all.last() == MouseButton::X2);
    assert(all.drop_last().last() == MouseButton::X1);
    assert(all.drop_last().drop_last().last() == MouseButton::Middle);
    assert(two.last() == MouseButton::Right);
    assert(two.drop_last().last() == MouseButton::Left);
}

/// An event concerns its own key or button and no other: a key is held down after it went
/// down and not after it went up, and all others are held as before. Movements and the
/// wheel hold nothing down.
pub proof fn law_events_concern_their_own_key(
    s: PressedView,
    event: InputEvent,
    vk_code: u16,
    button: MouseButton,
)
    ensures
        event matches InputEvent::Key(key) ==> {
            &&& s.after(event).keys.contains(key.vk_code) == key.pressed
            &&& vk_code != key.vk_code ==> s.after(event).keys.contains(vk_code)
                == s.keys.contains(vk_code)
            &&& s.after(event).buttons == s.buttons
        },
        event matches InputEvent::MouseButton(mouse) ==> {
            &&& s.after(event).buttons.contains(mouse.button) == mouse.pressed
            &&& button != mouse.button ==> s.after(event).buttons.contains(button)
                == s.buttons.contains(button)
            &&& s.after(event).keys == s.keys
        },
        event is MouseMoveAbs || event is MouseMoveDelta || event is MouseWheel ==> s.after(event)
            == s,
        event is ReleaseAll ==> !s.after(event).keys.contains(vk_code) && !s.after(
            event,
        ).buttons.contains(button),
{
}

} // verus!
