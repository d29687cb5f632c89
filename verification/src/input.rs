//! Encoding of mouse, pointer and keyboard input.

use vstd::prelude::*;

verus! {

/// Mouse event type: a button went down.
pub const MOUSE_TYPE_DOWN: i32 = 1;

/// Mouse event type: a button went up.
pub const MOUSE_TYPE_UP: i32 = 2;

/// Mouse event type: the wheel turned.
pub const MOUSE_TYPE_WHEEL: i32 = 3;

/// Mouse event type: the trackpad scrolled.
pub const MOUSE_TYPE_TRACKPAD: i32 = 4;

/// Mouse buttons, as the bits above the event type.
pub const MOUSE_BUTTON_LEFT: i32 = 1;

pub const MOUSE_BUTTON_RIGHT: i32 = 2;

pub const MOUSE_BUTTON_WHEEL: i32 = 4;

/// Keys that are sent by name.
#[derive(Clone, Copy, Debug, PartialEq, Eq, Structural)]
pub enum ControlKey {
    Unknown,
    Alt,
    Backspace,
    CapsLock,
    Control,
    Delete,
    DownArrow,
    End,
    Escape,
    F1,
    F2,
    F3,
    F4,
    F5,
    F6,
    F7,
    F8,
    F9,
    F10,
    F11,
    F12,
    Home,
    LeftArrow,
    Meta,
    PageDown,
    PageUp,
    Return,
    RightArrow,
    Shift,
    Space,
    Tab,
    UpArrow,
    Numpad0,
    Numpad1,
    Numpad2,
    Numpad3,
    Numpad4,
    Numpad5,
    Numpad6,
    Numpad7,
    Numpad8,
    Numpad9,
    Cancel,
    Clear,
    Menu,
    Pause,
    Kana,
    Hangul,
    Junja,
    FinalMode,
    Hanja,
    Kanji,
    Convert,
    Select,
    Print,
    Execute,
    Snapshot,
    Insert,
    Help,
    Sleep,
    Separator,
    Scroll,
    NumLock,
    RWin,
    Apps,
    Multiply,
    Add,
    Subtract,
    Decimal,
    Divide,
    Equals,
    NumpadEnter,
    RShift,
    RControl,
    RAlt,
    CtrlAltDel,
    LockScreen,
}

/// The code of a key.
#[derive(Clone, Copy, Debug, PartialEq, Eq, Structural)]
pub enum Key {
    ControlKey(ControlKey),
    Chr(u32),
    _Raw(u32),
}

/// A mouse event: `mask` packs the buttons and the event type, `x` and `y`
/// are absolute, in pixels of the remote display.
#[derive(Clone, Debug)]
pub struct MouseEvent {
    pub mask: i32,
    pub x: i32,
    pub y: i32,
    pub modifiers: Vec<ControlKey>,
}

/// What a touch did.
#[derive(Clone, Copy, Debug, PartialEq, Eq, Structural)]
pub enum TouchEvent {
    ScaleUpdate { scale: i32 },
    PanStart { x: i32, y: i32 },
    PanUpdate { x: i32, y: i32 },
    PanEnd { x: i32, y: i32 },
}

/// An event of a pointer device other than the mouse.
#[derive(Clone, Debug)]
pub struct PointerDeviceEvent {
    pub touch: Option<TouchEvent>,
    pub modifiers: Vec<ControlKey>,
}

/// What a key event carries.
#[derive(Clone, Debug)]
pub enum KeyData {
    Nothing,
    ControlKey(ControlKey),
    Chr(u32),
    /// A run of text to type.
    Text(String),
}

/// A keyboard event.
#[derive(Clone, Debug)]
pub struct KeyEvent {
    pub down: bool,
    pub press: bool,
    pub data: KeyData,
    pub modifiers: Vec<ControlKey>,
}

/// The modifier keys that are held, in the order in which they are sent.
pub open spec fn spec_modifiers(alt: bool, ctrl: bool, shift: bool, command: bool) -> Seq<
    ControlKey,
> {
    (if alt {
        seq![ControlKey::Alt]
    } else {
        seq![]
    }) + (if shift {
        seq![ControlKey::Shift]
    } else {
        seq![]
    }) + (if ctrl {
        seq![ControlKey::Control]
    } else {
        seq![]
    }) + (if command {
        seq![ControlKey::Meta]
    } else {
        seq![]
    })
}

/// Adds the modifier keys that are held to `modifiers`.
pub fn push_modifiers(
    modifiers: &mut Vec<ControlKey>,
    alt: bool,
    ctrl: bool,
    shift: bool,
    command: bool,
)
    ensures
        final(modifiers)@ == old(modifiers)@ + spec_modifiers(alt, ctrl, shift, command),
{
    if alt {
        modifiers.push(ControlKey::Alt);
    }
    if shift {
        modifiers.push(ControlKey::Shift);
    }
    if ctrl {
        modifiers.push(ControlKey::Control);
    }
    if command {
        modifiers.push(ControlKey::Meta);
    }
    assert(modifiers@ =~= old(modifiers)@ + spec_modifiers(alt, ctrl, shift, command));
}

/// The mask of a mouse event: the buttons above the three bits of the type.
pub open spec fn spec_mask(buttons: i32, event_type: i32) -> i32 {
    (buttons << 3) | event_type
}

/// Packs buttons and event type into a mask.
pub fn mask(buttons: i32, event_type: i32) -> (r: i32)
    ensures
        r == spec_mask(buttons, event_type),
{
    (buttons << 3) | event_type
}

/// Whether a mouse event is a scroll of the trackpad, by the rule for a
/// macOS host without its own trackpad events: an event of the trackpad
/// type is; a wheel event is where its deltas are none that a wheel
/// produces.
pub open spec fn spec_check_scroll_on_mac(mask: i32, x: i32, y: i32) -> bool {
    if mask & 7 == MOUSE_TYPE_TRACKPAD {
        true
    } else if mask & 3 != MOUSE_TYPE_WHEEL {
        false
    } else if y == -1 {
        (mask >> 3) != 0xff88 && (mask >> 3) != -0x780000
    } else if y == 1 {
        (mask >> 3) != 0x78 && (mask >> 3) != 0x780000
    } else {
        x != 0
    }
}

/// Whether a mouse event is a scroll of the trackpad, by the rule for a
/// macOS host without its own trackpad events.
pub fn check_scroll_on_mac(mask: i32, x: i32, y: i32) -> (r: bool)
    ensures
        r == spec_check_scroll_on_mac(mask, x, y),
{
    if mask & 7 == MOUSE_TYPE_TRACKPAD {
        return true;
    }
    if mask & 3 != MOUSE_TYPE_WHEEL {
        return false;
    }
    let btn = mask >> 3;
    if y == -1 {
        btn != 0xff88 && btn != -0x780000
    } else if y == 1 {
        btn != 0x78 && btn != 0x780000
    } else {
        x != 0
    }
}

/// How much a trackpad scroll is scaled up.
pub const TRACKPAD_FACTOR: i32 = 3;

/// Whether a mouse event is rewritten as a trackpad scroll.
pub open spec fn spec_rewritten(mask: i32, x: i32, y: i32, mac_rule: bool) -> bool {
    mac_rule && spec_check_scroll_on_mac(mask, x, y)
}

/// Builds a mouse event with the modifier keys that are held. With
/// `mac_rule`, the rule for a macOS host without its own trackpad events
/// applies: a trackpad scroll gets the trackpad type and three times its
/// deltas.
pub fn send_mouse(
    mask: i32,
    x: i32,
    y: i32,
    alt: bool,
    ctrl: bool,
    shift: bool,
    command: bool,
    mac_rule: bool,
) -> (r: MouseEvent)
    requires
        spec_rewritten(mask, x, y, mac_rule) ==> i32::MIN <= x * TRACKPAD_FACTOR <= i32::MAX
            && i32::MIN <= y * TRACKPAD_FACTOR <= i32::MAX,
    ensures
        r.modifiers@ == spec_modifiers(alt, ctrl, shift, command),
        spec_rewritten(mask, x, y, mac_rule) ==> r.mask == MOUSE_TYPE_TRACKPAD && r.x == x
            * TRACKPAD_FACTOR && r.y == y * TRACKPAD_FACTOR,
        !spec_rewritten(mask, x, y, mac_rule) ==> r.mask == mask && r.x == x && r.y == y,
{
    let mut event = MouseEvent { mask, x, y, modifiers: Vec::new() };
    push_modifiers(&mut event.modifiers, alt, ctrl, shift, command);
    if mac_rule && check_scroll_on_mac(mask, x, y) {
        event.mask = MOUSE_TYPE_TRACKPAD;
        event.x = x * TRACKPAD_FACTOR;
        event.y = y * TRACKPAD_FACTOR;
    }
    event
}

/// Adds the modifier keys that are held to a pointer event.
pub fn send_pointer_device_event(
    evt: PointerDeviceEvent,
    alt: bool,
    ctrl: bool,
    shift: bool,
    command: bool,
) -> (r: PointerDeviceEvent)
    ensures
        r.touch == evt.touch,
        r.modifiers@ == evt.modifiers@ + spec_modifiers(alt, ctrl, shift, command),
{
    let mut evt = evt;
    push_modifiers(&mut evt.modifiers, alt, ctrl, shift, command);
    evt
}

/// One step of a run of input: an event to send, or a pause in
/// milliseconds.
#[derive(Clone, Debug)]
pub enum InputStep {
    Mouse(MouseEvent),
    Key(KeyEvent),
    Sleep(u64),
}

/// Whether a step sends a mouse event without modifiers.
pub open spec fn is_mouse(step: InputStep, mask: i32, x: i32, y: i32) -> bool {
    &&& step matches InputStep::Mouse(e)
    &&& e.mask == mask
    &&& e.x == x
    &&& e.y == y
    &&& e.modifiers@.len() == 0
}

/// Whether a step presses a key without modifiers.
pub open spec fn is_press(step: InputStep, data: KeyData) -> bool {
    &&& step matches InputStep::Key(e)
    &&& e.press
    &&& !e.down
    &&& e.data == data
    &&& e.modifiers@.len() == 0
}

/// A mouse event without modifiers.
fn plain_mouse(mask: i32, x: i32, y: i32) -> (r: InputStep)
    ensures
        is_mouse(r, mask, x, y),
{
    InputStep::Mouse(MouseEvent { mask, x, y, modifiers: Vec::new() })
}

/// The pause between the steps that wake the peer's screen, in
/// milliseconds.
pub const ACTIVATE_GAP: u64 = 50;

/// The pause before the password is typed, in milliseconds.
pub const PASSWORD_GAP: u64 = 1200;

/// The steps that wake the peer's screen: the left button released, the
/// pointer moved to the corner and on to (3, 3) with pauses in between,
/// then a click, left or right.
pub open spec fn spec_is_activation(steps: Seq<InputStep>, send_left_click: bool) -> bool {
    let button = if send_left_click {
        MOUSE_BUTTON_LEFT
    } else {
        MOUSE_BUTTON_RIGHT
    };
    &&& steps.len() == 8
    &&& is_mouse(steps[0], spec_mask(MOUSE_BUTTON_LEFT, MOUSE_TYPE_UP), 0, 0)
    &&& steps[1] == InputStep::Sleep(ACTIVATE_GAP)
    &&& is_mouse(steps[2], 0, 0, 0)
    &&& steps[3] == InputStep::Sleep(ACTIVATE_GAP)
    &&& is_mouse(steps[4], 0, 3, 3)
    &&& steps[5] == InputStep::Sleep(ACTIVATE_GAP)
    &&& is_mouse(steps[6], spec_mask(button, MOUSE_TYPE_DOWN), 0, 0)
    &&& is_mouse(steps[7], spec_mask(button, MOUSE_TYPE_UP), 0, 0)
}

/// The steps that wake the peer's screen and bring up the password box, or
/// dismiss it with a right click where there is no password to type.
pub fn activate_os(send_left_click: bool) -> (r: Vec<InputStep>)
    ensures
        spec_is_activation(r@, send_left_click),
{
    let button = if send_left_click {
        MOUSE_BUTTON_LEFT
    } else {
        MOUSE_BUTTON_RIGHT
    };
    let mut steps: Vec<InputStep> = Vec::new();
    steps.push(plain_mouse(mask(MOUSE_BUTTON_LEFT, MOUSE_TYPE_UP), 0, 0));
    steps.push(InputStep::Sleep(ACTIVATE_GAP));
    steps.push(plain_mouse(0, 0, 0));
    steps.push(InputStep::Sleep(ACTIVATE_GAP));
    steps.push(plain_mouse(0, 3, 3));
    steps.push(InputStep::Sleep(ACTIVATE_GAP));
    steps.push(plain_mouse(mask(button, MOUSE_TYPE_DOWN), 0, 0));
    steps.push(plain_mouse(mask(button, MOUSE_TYPE_UP), 0, 0));
    steps
}

/// The steps that type the password of the peer's operating system: with
/// `activate`, the screen is woken first and given time; then the
/// password is typed as one run of text, and Return is pressed. Without a
/// password nothing is typed.
pub open spec fn spec_is_password_input(steps: Seq<InputStep>, p: String, activate: bool) -> bool {
    let lead: int = if activate {
        9
    } else {
        0
    };
    let typed: int = if p@.len() > 0 {
        2
    } else {
        0
    };
    &&& steps.len() == lead + typed
    &&& activate ==> spec_is_activation(steps.take(8), p@.len() > 0) && steps[8]
        == InputStep::Sleep(PASSWORD_GAP)
    &&& p@.len() > 0 ==> is_press(steps[lead], KeyData::Text(p)) && is_press(
        steps[lead + 1],
        KeyData::ControlKey(ControlKey::Return),
    )
}

/// The steps that type the password of the peer's operating system.
pub fn input_os_password(p: String, activate: bool) -> (r: Vec<InputStep>)
    ensures
        spec_is_password_input(r@, p, activate),
{
    let input_password = !p.as_str().is_empty();
    let mut steps: Vec<InputStep> = Vec::new();
    if activate {
        steps = activate_os(input_password);
        let ghost woken = steps@;
        steps.push(InputStep::Sleep(PASSWORD_GAP));
        assert(steps@.take(8) =~= woken);
    }
    if input_password {
        steps.push(
            InputStep::Key(
                KeyEvent { down: false, press: true, data: KeyData::Text(p), modifiers: Vec::new() },
            ),
        );
        steps.push(
            InputStep::Key(
                KeyEvent {
                    down: false,
                    press: true,
                    data: KeyData::ControlKey(ControlKey::Return),
                    modifiers: Vec::new(),
                },
            ),
        );
    }
    steps
}

} // verus!
