//! Decoding of the native event record.
//!
//! The native layer hands out events as a fixed-size tagged union: a 32-bit
//! type code at offset 0, a timestamp at offset 4, and a payload whose layout
//! depends on the type code. All fields are little-endian. The decoder reads
//! the type code first and only then the fields that belong to that type.

use vstd::prelude::*;

verus! {

/// Size in bytes of one native event record.
pub const EVENT_RECORD_SIZE: usize = 56;

/// Length in bytes of the text buffer of a text input record.
pub const TEXT_INPUT_CAPACITY: usize = 32;

pub const QUIT: u32 = 0x100;
pub const WINDOW_EVENT: u32 = 0x200;
pub const KEY_DOWN: u32 = 0x300;
pub const KEY_UP: u32 = 0x301;
pub const TEXT_INPUT: u32 = 0x303;
pub const MOUSE_MOTION: u32 = 0x400;
pub const MOUSE_BUTTON_DOWN: u32 = 0x401;
pub const MOUSE_BUTTON_UP: u32 = 0x402;
pub const MOUSE_WHEEL: u32 = 0x403;
pub const CONTROLLER_AXIS_MOTION: u32 = 0x650;
pub const CONTROLLER_BUTTON_DOWN: u32 = 0x651;
pub const CONTROLLER_BUTTON_UP: u32 = 0x652;
pub const CONTROLLER_DEVICE_ADDED: u32 = 0x653;
pub const CONTROLLER_DEVICE_REMOVED: u32 = 0x654;

/// A decoded event.
#[derive(Debug, Clone, PartialEq, Eq)]
pub enum Event {
    /// The user asked the program to quit.
    Quit,
    /// A window changed state; `event` says how, `data1` and `data2` carry
    /// what that change needs (a new size or position).
    Window { window_id: u32, event: u8, data1: i32, data2: i32 },
    /// A key went down or up.
    Keyboard {
        window_id: u32,
        is_key_down: bool,
        repeat: bool,
        scancode: u32,
        keycode: i32,
        modifiers: u16,
    },
    /// Committed text input, as the bytes before the first zero byte.
    TextInput { window_id: u32, text: Vec<u8> },
    /// The mouse moved.
    MouseMotion {
        window_id: u32,
        mouse_id: u32,
        button_state: u32,
        x: i32,
        y: i32,
        delta_x: i32,
        delta_y: i32,
    },
    /// A mouse button went down or up.
    MouseButton {
        window_id: u32,
        mouse_id: u32,
        button: u8,
        is_pressed: bool,
        clicks: u8,
        x: i32,
        y: i32,
    },
    /// The mouse wheel scrolled.
    MouseWheel { window_id: u32, mouse_id: u32, x: i32, y: i32, is_flipped: bool },
    /// A controller axis moved.
    ControllerAxis { joystick_id: i32, axis: u8, value: i16 },
    /// A controller button went down or up.
    ControllerButton { joystick_id: i32, button: u8, is_pressed: bool },
    /// A controller was attached; it carries the joystick device index.
    ControllerAdded { device_index: i32 },
    /// A controller was detached; it carries its joystick id.
    ControllerRemoved { joystick_id: i32 },
    /// Any type code not modelled above, carried as it was read.
    Unknown(u32),
}

/// The byte at `off`.
pub open spec fn byte_at(b: Seq<u8>, off: int) -> u8 {
    b[off]
}

/// The little-endian 16-bit value at `off`.
pub open spec fn le_u16(b: Seq<u8>, off: int) -> u16 {
    (b[off] as int + 256 * b[off + 1] as int) as u16
}

/// The little-endian 32-bit value at `off`.
pub open spec fn le_u32(b: Seq<u8>, off: int) -> u32 {
    (b[off] as int + 256 * b[off + 1] as int + 65536 * b[off + 2] as int + 16777216 * b[off
        + 3] as int) as u32
}

/// The little-endian two's complement 32-bit value at `off`.
pub open spec fn le_i32(b: Seq<u8>, off: int) -> i32 {
    le_u32(b, off) as i32
}

/// The little-endian two's complement 16-bit value at `off`.
pub open spec fn le_i16(b: Seq<u8>, off: int) -> i16 {
    le_u16(b, off) as i16
}

/// The type code of a record.
pub open spec fn record_type(b: Seq<u8>) -> u32 {
    le_u32(b, 0)
}

/// Length of the text of a text input record: the position of the first zero
/// byte of the buffer at offset 12, counted from `i`, or the buffer's length.
pub open spec fn text_len_from(b: Seq<u8>, i: int) -> int
    decreases TEXT_INPUT_CAPACITY - i,
{
    if i >= TEXT_INPUT_CAPACITY || b[12 + i] == 0 {
        i
    } else {
        text_len_from(b, i + 1)
    }
}

/// The text of a text input record.
pub open spec fn record_text(b: Seq<u8>) -> Seq<u8> {
    b.subrange(12, 12 + text_len_from(b, 0))
}

/// `e` is what the record `b` holds.
pub open spec fn decodes_to(b: Seq<u8>, e: Event) -> bool {
    let t = record_type(b);
    if t == QUIT {
        e == Event::Quit
    } else if t == WINDOW_EVENT {
        e == Event::Window {
            window_id: le_u32(b, 8),
            event: byte_at(b, 12),
            data1: le_i32(b, 16),
            data2: le_i32(b, 20),
        }
    } else if t == KEY_DOWN || t == KEY_UP {
        e == Event::Keyboard {
            window_id: le_u32(b, 8),
            is_key_down: t == KEY_DOWN,
            repeat: byte_at(b, 13) != 0,
            scancode: le_u32(b, 16),
            keycode: le_i32(b, 20),
            modifiers: le_u16(b, 24),
        }
    } else if t == TEXT_INPUT {
        match e {
            Event::TextInput { window_id, text } => window_id == le_u32(b, 8) && text@
                == record_text(b),
            _ => false,
        }
    } else if t == MOUSE_MOTION {
        e == Event::MouseMotion {
            window_id: le_u32(b, 8),
            mouse_id: le_u32(b, 12),
            button_state: le_u32(b, 16),
            x: le_i32(b, 20),
            y: le_i32(b, 24),
            delta_x: le_i32(b, 28),
            delta_y: le_i32(b, 32),
        }
    } else if t == MOUSE_BUTTON_DOWN || t == MOUSE_BUTTON_UP {
        e == Event::MouseButton {
            window_id: le_u32(b, 8),
            mouse_id: le_u32(b, 12),
            button: byte_at(b, 16),
            is_pressed: byte_at(b, 17) != 0,
            clicks: byte_at(b, 18),
            x: le_i32(b, 20),
            y: le_i32(b, 24),
        }
    } else if t == MOUSE_WHEEL {
        e == Event::MouseWheel {
            window_id: le_u32(b, 8),
            mouse_id: le_u32(b, 12),
            x: le_i32(b, 16),
            y: le_i32(b, 20),
            is_flipped: le_u32(b, 24) == 1,
        }
    } else if t == CONTROLLER_AXIS_MOTION {
        e == Event::ControllerAxis {
            joystick_id: le_i32(b, 8),
            axis: byte_at(b, 12),
            value: le_i16(b, 16),
        }
    } else if t == CONTROLLER_BUTTON_DOWN || t == CONTROLLER_BUTTON_UP {
        e == Event::ControllerButton {
            joystick_id: le_i32(b, 8),
            button: byte_at(b, 12),
            is_pressed: byte_at(b, 13) != 0,
        }
    } else if t == CONTROLLER_DEVICE_ADDED {
        e == Event::ControllerAdded { device_index: le_i32(b, 8) }
    } else if t == CONTROLLER_DEVICE_REMOVED {
        e == Event::ControllerRemoved { joystick_id: le_i32(b, 8) }
    } else {
        e == Event::Unknown(t)
    }
}

fn read_u16(b: &[u8], off: usize) -> (r: u16)
    requires
        off + 2 <= b@.len(),
    ensures
        r == le_u16(b@, off as int),
{
    b[off] as u16 + 256u16 * (b[off + 1] as u16)
}

fn read_u32(b: &[u8], off: usize) -> (r: u32)
    requires
        off + 4 <= b@.len(),
    ensures
        r == le_u32(b@, off as int),
{
    b[off] as u32 + 256u32 * (b[off + 1] as u32) + 65536u32 * (b[off + 2] as u32) + 16777216u32
        * (b[off + 3] as u32)
}

fn read_i32(b: &[u8], off: usize) -> (r: i32)
    requires
        off + 4 <= b@.len(),
    ensures
        r == le_i32(b@, off as int),
{
    read_u32(b, off) as i32
}

/// The text of a text input record.
fn read_text(b: &[u8]) -> (r: Vec<u8>)
    requires
        b@.len() == EVENT_RECORD_SIZE,
    ensures
        r@ == record_text(b@),
{
    let mut text: Vec<u8> = Vec::new();
    let mut i: usize = 0;
    while i < TEXT_INPUT_CAPACITY && b[12 + i] != 0
        invariant
            b@.len() == EVENT_RECORD_SIZE,
            i <= TEXT_INPUT_CAPACITY,
            text_len_from(b@, 0) == text_len_from(b@, i as int),
            text@ == b@.subrange(12, 12 + i as int),
        decreases TEXT_INPUT_CAPACITY - i,
    {
        text.push(b[12 + i]);
        i = i + 1;
        assert(text@ =~= b@.subrange(12, 12 + i as int));
    }
    text
}

/// Decodes one native event record.
///
/// Type codes that are not modelled decode to `Event::Unknown` with the code
/// as it was read; no record is an error.
pub fn decode_event(raw: &[u8]) -> (e: Event)
    requires
        raw@.len() == EVENT_RECORD_SIZE,
    ensures
        decodes_to(raw@, e),
{
    let t = read_u32(raw, 0);
    if t == QUIT {
        Event::Quit
    } else if t == WINDOW_EVENT {
        Event::Window {
            window_id: read_u32(raw, 8),
            event: raw[12],
            data1: read_i32(raw, 16),
            data2: read_i32(raw, 20),
        }
    } else if t == KEY_DOWN || t == KEY_UP {
        Event::Keyboard {
            window_id: read_u32(raw, 8),
            is_key_down: t == KEY_DOWN,
            repeat: raw[13] != 0,
            scancode: read_u32(raw, 16),
            keycode: read_i32(raw, 20),
            modifiers: read_u16(raw, 24),
        }
    } else if t == TEXT_INPUT {
        Event::TextInput { window_id: read_u32(raw, 8), text: read_text(raw) }
    } else if t == MOUSE_MOTION {
        Event::MouseMotion {
            window_id: read_u32(raw, 8),
            mouse_id: read_u32(raw, 12),
            button_state: read_u32(raw, 16),
            x: read_i32(raw, 20),
            y: read_i32(raw, 24),
            delta_x: read_i32(raw, 28),
            delta_y: read_i32(raw, 32),
        }
    } else if t == MOUSE_BUTTON_DOWN || t == MOUSE_BUTTON_UP {
        Event::MouseButton {
            window_id: read_u32(raw, 8),
            mouse_id: read_u32(raw, 12),
            button: raw[16],
            is_pressed: raw[17] != 0,
            clicks: raw[18],
            x: read_i32(raw, 20),
            y: read_i32(raw, 24),
        }
    } else if t == MOUSE_WHEEL {
        Event::MouseWheel {
            window_id: read_u32(raw, 8),
            mouse_id: read_u32(raw, 12),
            x: read_i32(raw, 16),
            y: read_i32(raw, 20),
            is_flipped: read_u32(raw, 24) == 1,
        }
    } else if t == CONTROLLER_AXIS_MOTION {
        Event::ControllerAxis {
            joystick_id: read_i32(raw, 8),
            axis: raw[12],
            value: read_u16(raw, 16) as i16,
        }
    } else if t == CONTROLLER_BUTTON_DOWN || t == CONTROLLER_BUTTON_UP {
        Event::ControllerButton {
            joystick_id: read_i32(raw, 8),
            button: raw[12],
            is_pressed: raw[13] != 0,
        }
    } else if t == CONTROLLER_DEVICE_ADDED {
        Event::ControllerAdded { device_index: read_i32(raw, 8) }
    } else if t == CONTROLLER_DEVICE_REMOVED {
        Event::ControllerRemoved { joystick_id: read_i32(raw, 8) }
    } else {
        Event::Unknown(t)
    }
}

/// The result of one poll of the native queue: `status` is what the native
/// poll returned (1 when it filled `raw` with a record, 0 when the queue was
/// empty). An empty queue gives `None`, a filled record its decoded event.
pub fn poll_result(status: i32, raw: &[u8]) -> (r: Option<Event>)
    requires
        raw@.len() == EVENT_RECORD_SIZE,
    ensures
        status != 1 ==> r is None,
        status == 1 ==> r is Some && decodes_to(raw@, r->Some_0),
{
    if status == 1 {
        Some(decode_event(raw))
    } else {
        None
    }
}

/// The type codes that decode to a modelled event.
pub open spec fn modelled_type(t: u32) -> bool {
    t == QUIT || t == WINDOW_EVENT || t == KEY_DOWN || t == KEY_UP || t == TEXT_INPUT || t
        == MOUSE_MOTION || t == MOUSE_BUTTON_DOWN || t == MOUSE_BUTTON_UP || t == MOUSE_WHEEL
        || t == CONTROLLER_AXIS_MOTION || t == CONTROLLER_BUTTON_DOWN || t
        == CONTROLLER_BUTTON_UP || t == CONTROLLER_DEVICE_ADDED || t == CONTROLLER_DEVICE_REMOVED
}

/// A record with the quit code is the `Quit` event, and a record whose type
/// code is not modelled is `Unknown` carrying that code: never an error, and
/// never dropped.
pub proof fn lemma_quit_and_unknown(b: Seq<u8>, e: Event)
    requires
        b.len() == EVENT_RECORD_SIZE,
    ensures
        record_type(b) == QUIT ==> (decodes_to(b, e) <==> e == Event::Quit),
        !modelled_type(record_type(b)) ==> (decodes_to(b, e) <==> e == Event::Unknown(
            record_type(b),
        )),
{
}

} // verus!
