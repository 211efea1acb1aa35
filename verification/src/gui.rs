//! The GUI integration's input vocabulary and decisions.
//!
//! The windowing library and the immediate-mode GUI toolkit each speak
//! their own key and button vocabulary; the shell converts those one for
//! one into the enums here, and the verified tables below decide what the
//! GUI layer receives: which physical keys translate to which GUI keys,
//! which named logical keys do, which mouse buttons become pointer
//! buttons, how the modifier record is derived, and which keyboard events
//! are forwarded at all. Unrecognized inputs are silently dropped, never
//! forwarded and never an error. The GUI-edited simulation knobs and
//! their validity test live here too.

use vstd::prelude::*;
use crate::float_bits::f32_is_positive;

verus! {

/// A physical key location, in the windowing library's vocabulary; keys
/// the simulator never reads arrive as `Other`.
#[derive(Clone, Copy, PartialEq, Eq, Debug)]
pub enum KeyCode {
    Backslash, BracketLeft, BracketRight, Comma, NumpadComma,
    Digit0, Digit1, Digit2, Digit3, Digit4,
    Digit5, Digit6, Digit7, Digit8, Digit9,
    Numpad0, Numpad1, Numpad2, Numpad3, Numpad4,
    Numpad5, Numpad6, Numpad7, Numpad8, Numpad9,
    Equal,
    KeyA, KeyB, KeyC, KeyD, KeyE, KeyF, KeyG, KeyH, KeyI, KeyJ,
    KeyK, KeyL, KeyM, KeyN, KeyO, KeyP, KeyQ, KeyR, KeyS, KeyT,
    KeyU, KeyV, KeyW, KeyX, KeyY, KeyZ,
    Minus, NumpadSubtract, Period, NumpadDecimal, Semicolon,
    Slash, NumpadDivide, Backspace, NumpadBackspace, Enter, NumpadEnter,
    Space, Tab, Delete, End, Home, Insert, PageDown, PageUp,
    ArrowDown, ArrowLeft, ArrowRight, ArrowUp,
    NumpadAdd, NumpadEqual, Escape, F11,
    Other,
}

/// A key in the GUI toolkit's vocabulary.
#[derive(Clone, Copy, PartialEq, Eq, Debug)]
pub enum UiKey {
    Backslash, OpenBracket, CloseBracket, Comma,
    Num0, Num1, Num2, Num3, Num4, Num5, Num6, Num7, Num8, Num9,
    Equals,
    A, B, C, D, E, F, G, H, I, J, K, L, M,
    N, O, P, Q, R, S, T, U, V, W, X, Y, Z,
    Minus, Period, Semicolon, Slash, Backspace, Enter, Space, Tab,
    Delete, End, Home, Insert, PageDown, PageUp,
    ArrowDown, ArrowLeft, ArrowRight, ArrowUp,
    Plus, Escape,
}

/// A named (non-character) logical key, in the windowing library's
/// vocabulary; names the simulator never reads arrive as `Other`.
#[derive(Clone, Copy, PartialEq, Eq, Debug)]
pub enum NamedKey {
    Backspace, Enter, Space, Tab, Delete, End, Home, Insert,
    PageDown, PageUp, ArrowDown, ArrowLeft, ArrowRight, ArrowUp, Escape,
    Other,
}

/// The physical-key table: which GUI key a key location stands for, with
/// the numpad folded onto the main row and everything else dropped.
pub open spec fn keycode_to_ui_key_spec(key: KeyCode) -> Option<UiKey> {
    match key {
        KeyCode::Backslash => Some(UiKey::Backslash),
        KeyCode::BracketLeft => Some(UiKey::OpenBracket),
        KeyCode::BracketRight => Some(UiKey::CloseBracket),
        KeyCode::Comma | KeyCode::NumpadComma => Some(UiKey::Comma),
        KeyCode::Digit0 | KeyCode::Numpad0 => Some(UiKey::Num0),
        KeyCode::Digit1 | KeyCode::Numpad1 => Some(UiKey::Num1),
        KeyCode::Digit2 | KeyCode::Numpad2 => Some(UiKey::Num2),
        KeyCode::Digit3 | KeyCode::Numpad3 => Some(UiKey::Num3),
        KeyCode::Digit4 | KeyCode::Numpad4 => Some(UiKey::Num4),
        KeyCode::Digit5 | KeyCode::Numpad5 => Some(UiKey::Num5),
        KeyCode::Digit6 | KeyCode::Numpad6 => Some(UiKey::Num6),
        KeyCode::Digit7 | KeyCode::Numpad7 => Some(UiKey::Num7),
        KeyCode::Digit8 | KeyCode::Numpad8 => Some(UiKey::Num8),
        KeyCode::Digit9 | KeyCode::Numpad9 => Some(UiKey::Num9),
        KeyCode::Equal => Some(UiKey::Equals),
        KeyCode::KeyA => Some(UiKey::A),
        KeyCode::KeyB => Some(UiKey::B),
        KeyCode::KeyC => Some(UiKey::C),
        KeyCode::KeyD => Some(UiKey::D),
        KeyCode::KeyE => Some(UiKey::E),
        KeyCode::KeyF => Some(UiKey::F),
        KeyCode::KeyG => Some(UiKey::G),
        KeyCode::KeyH => Some(UiKey::H),
        KeyCode::KeyI => Some(UiKey::I),
        KeyCode::KeyJ => Some(UiKey::J),
        KeyCode::KeyK => Some(UiKey::K),
        KeyCode::KeyL => Some(UiKey::L),
        KeyCode::KeyM => Some(UiKey::M),
        KeyCode::KeyN => Some(UiKey::N),
        KeyCode::KeyO => Some(UiKey::O),
        KeyCode::KeyP => Some(UiKey::P),
        KeyCode::KeyQ => Some(UiKey::Q),
        KeyCode::KeyR => Some(UiKey::R),
        KeyCode::KeyS => Some(UiKey::S),
        KeyCode::KeyT => Some(UiKey::T),
        KeyCode::KeyU => Some(UiKey::U),
        KeyCode::KeyV => Some(UiKey::V),
        KeyCode::KeyW => Some(UiKey::W),
        KeyCode::KeyX => Some(UiKey::X),
        KeyCode::KeyY => Some(UiKey::Y),
        KeyCode::KeyZ => Some(UiKey::Z),
        KeyCode::Minus | KeyCode::NumpadSubtract => Some(UiKey::Minus),
        KeyCode::Period | KeyCode::NumpadDecimal => Some(UiKey::Period),
        KeyCode::Semicolon => Some(UiKey::Semicolon),
        KeyCode::Slash | KeyCode::NumpadDivide => Some(UiKey::Slash),
        KeyCode::Backspace | KeyCode::NumpadBackspace => Some(UiKey::Backspace),
        KeyCode::Enter | KeyCode::NumpadEnter => Some(UiKey::Enter),
        KeyCode::Space => Some(UiKey::Space),
        KeyCode::Tab => Some(UiKey::Tab),
        KeyCode::Delete => Some(UiKey::Delete),
        KeyCode::End => Some(UiKey::End),
        KeyCode::Home => Some(UiKey::Home),
        KeyCode::Insert => Some(UiKey::Insert),
        KeyCode::PageDown => Some(UiKey::PageDown),
        KeyCode::PageUp => Some(UiKey::PageUp),
        KeyCode::ArrowDown => Some(UiKey::ArrowDown),
        KeyCode::ArrowLeft => Some(UiKey::ArrowLeft),
        KeyCode::ArrowRight => Some(UiKey::ArrowRight),
        KeyCode::ArrowUp => Some(UiKey::ArrowUp),
        KeyCode::NumpadAdd => Some(UiKey::Plus),
        KeyCode::NumpadEqual => Some(UiKey::Equals),
        KeyCode::Escape => Some(UiKey::Escape),
        KeyCode::F11 | KeyCode::Other => None,
    }
}

/// Translates a physical key location into the GUI toolkit's key.
pub fn keycode_to_ui_key(key: KeyCode) -> (r: Option<UiKey>)
    ensures
        r == keycode_to_ui_key_spec(key),
{
    match key {
        KeyCode::Backslash => Some(UiKey::Backslash),
        KeyCode::BracketLeft => Some(UiKey::OpenBracket),
        KeyCode::BracketRight => Some(UiKey::CloseBracket),
        KeyCode::Comma | KeyCode::NumpadComma => Some(UiKey::Comma),
        KeyCode::Digit0 | KeyCode::Numpad0 => Some(UiKey::Num0),
        KeyCode::Digit1 | KeyCode::Numpad1 => Some(UiKey::Num1),
        KeyCode::Digit2 | KeyCode::Numpad2 => Some(UiKey::Num2),
        KeyCode::Digit3 | KeyCode::Numpad3 => Some(UiKey::Num3),
        KeyCode::Digit4 | KeyCode::Numpad4 => Some(UiKey::Num4),
        KeyCode::Digit5 | KeyCode::Numpad5 => Some(UiKey::Num5),
        KeyCode::Digit6 | KeyCode::Numpad6 => Some(UiKey::Num6),
        KeyCode::Digit7 | KeyCode::Numpad7 => Some(UiKey::Num7),
        KeyCode::Digit8 | KeyCode::Numpad8 => Some(UiKey::Num8),
        KeyCode::Digit9 | KeyCode::Numpad9 => Some(UiKey::Num9),
        KeyCode::Equal => Some(UiKey::Equals),
        KeyCode::KeyA => Some(UiKey::A),
        KeyCode::KeyB => Some(UiKey::B),
        KeyCode::KeyC => Some(UiKey::C),
        KeyCode::KeyD => Some(UiKey::D),
        KeyCode::KeyE => Some(UiKey::E),
        KeyCode::KeyF => Some(UiKey::F),
        KeyCode::KeyG => Some(UiKey::G),
        KeyCode::KeyH => Some(UiKey::H),
        KeyCode::KeyI => Some(UiKey::I),
        KeyCode::KeyJ => Some(UiKey::J),
        KeyCode::KeyK => Some(UiKey::K),
        KeyCode::KeyL => Some(UiKey::L),
        KeyCode::KeyM => Some(UiKey::M),
        KeyCode::KeyN => Some(UiKey::N),
        KeyCode::KeyO => Some(UiKey::O),
        KeyCode::KeyP => Some(UiKey::P),
        KeyCode::KeyQ => Some(UiKey::Q),
        KeyCode::KeyR => Some(UiKey::R),
        KeyCode::KeyS => Some(UiKey::S),
        KeyCode::KeyT => Some(UiKey::T),
        KeyCode::KeyU => Some(UiKey::U),
        KeyCode::KeyV => Some(UiKey::V),
        KeyCode::KeyW => Some(UiKey::W),
        KeyCode::KeyX => Some(UiKey::X),
        KeyCode::KeyY => Some(UiKey::Y),
        KeyCode::KeyZ => Some(UiKey::Z),
        KeyCode::Minus | KeyCode::NumpadSubtract => Some(UiKey::Minus),
        KeyCode::Period | KeyCode::NumpadDecimal => Some(UiKey::Period),
        KeyCode::Semicolon => Some(UiKey::Semicolon),
        KeyCode::Slash | KeyCode::NumpadDivide => Some(UiKey::Slash),
        KeyCode::Backspace | KeyCode::NumpadBackspace => Some(UiKey::Backspace),
        KeyCode::Enter | KeyCode::NumpadEnter => Some(UiKey::Enter),
        KeyCode::Space => Some(UiKey::Space),
        KeyCode::Tab => Some(UiKey::Tab),
        KeyCode::Delete => Some(UiKey::Delete),
        KeyCode::End => Some(UiKey::End),
        KeyCode::Home => Some(UiKey::Home),
        KeyCode::Insert => Some(UiKey::Insert),
        KeyCode::PageDown => Some(UiKey::PageDown),
        KeyCode::PageUp => Some(UiKey::PageUp),
        KeyCode::ArrowDown => Some(UiKey::ArrowDown),
        KeyCode::ArrowLeft => Some(UiKey::ArrowLeft),
        KeyCode::ArrowRight => Some(UiKey::ArrowRight),
        KeyCode::ArrowUp => Some(UiKey::ArrowUp),
        KeyCode::NumpadAdd => Some(UiKey::Plus),
        KeyCode::NumpadEqual => Some(UiKey::Equals),
        KeyCode::Escape => Some(UiKey::Escape),
        KeyCode::F11 | KeyCode::Other => None,
    }
}

/// The named-key table: which GUI key a named logical key stands for.
pub open spec fn named_key_to_ui_key_spec(key: NamedKey) -> Option<UiKey> {
    match key {
        NamedKey::Backspace => Some(UiKey::Backspace),
        NamedKey::Enter => Some(UiKey::Enter),
        NamedKey::Space => Some(UiKey::Space),
        NamedKey::Tab => Some(UiKey::Tab),
        NamedKey::Delete => Some(UiKey::Delete),
        NamedKey::End => Some(UiKey::End),
        NamedKey::Home => Some(UiKey::Home),
        NamedKey::Insert => Some(UiKey::Insert),
        NamedKey::PageDown => Some(UiKey::PageDown),
        NamedKey::PageUp => Some(UiKey::PageUp),
        NamedKey::ArrowDown => Some(UiKey::ArrowDown),
        NamedKey::ArrowLeft => Some(UiKey::ArrowLeft),
        NamedKey::ArrowRight => Some(UiKey::ArrowRight),
        NamedKey::ArrowUp => Some(UiKey::ArrowUp),
        NamedKey::Escape => Some(UiKey::Escape),
        NamedKey::Other => None,
    }
}

/// Translates a named logical key into the GUI toolkit's key.
pub fn named_key_to_ui_key(key: NamedKey) -> (r: Option<UiKey>)
    ensures
        r == named_key_to_ui_key_spec(key),
{
    match key {
        NamedKey::Backspace => Some(UiKey::Backspace),
        NamedKey::Enter => Some(UiKey::Enter),
        NamedKey::Space => Some(UiKey::Space),
        NamedKey::Tab => Some(UiKey::Tab),
        NamedKey::Delete => Some(UiKey::Delete),
        NamedKey::End => Some(UiKey::End),
        NamedKey::Home => Some(UiKey::Home),
        NamedKey::Insert => Some(UiKey::Insert),
        NamedKey::PageDown => Some(UiKey::PageDown),
        NamedKey::PageUp => Some(UiKey::PageUp),
        NamedKey::ArrowDown => Some(UiKey::ArrowDown),
        NamedKey::ArrowLeft => Some(UiKey::ArrowLeft),
        NamedKey::ArrowRight => Some(UiKey::ArrowRight),
        NamedKey::ArrowUp => Some(UiKey::ArrowUp),
        NamedKey::Escape => Some(UiKey::Escape),
        NamedKey::Other => None,
    }
}

/// A logical key as the keyboard event reports it: a named key, a
/// character (whose text the shell keeps), or nothing identifiable.
#[derive(Clone, Copy, PartialEq, Eq, Debug)]
pub enum LogicalKey {
    Named(NamedKey),
    Character,
    Unidentified,
    Dead,
}

/// What the GUI layer does with a keyboard event it was handed.
#[derive(Clone, Copy, PartialEq, Eq, Debug)]
pub enum KeyEventAction {
    /// Push the character's text (presses of character keys only).
    EmitText,
    /// Push a key event for this GUI key.
    EmitKey(UiKey),
    /// Drop the event silently.
    Ignore,
}

/// Decides what a keyboard event becomes: pressed character keys emit
/// their text, named keys with a translation emit that key (pressed or
/// released), and everything else is dropped.
pub fn key_event_action(key: LogicalKey, pressed: bool) -> (r: KeyEventAction)
    ensures
        r == (match key {
            LogicalKey::Character => if pressed {
                KeyEventAction::EmitText
            } else {
                KeyEventAction::Ignore
            },
            LogicalKey::Named(named) => match named_key_to_ui_key_spec(named) {
                Some(k) => KeyEventAction::EmitKey(k),
                None => KeyEventAction::Ignore,
            },
            LogicalKey::Unidentified | LogicalKey::Dead => KeyEventAction::Ignore,
        }),
{
    match key {
        LogicalKey::Character => {
            if pressed {
                KeyEventAction::EmitText
            } else {
                KeyEventAction::Ignore
            }
        }
        LogicalKey::Named(named) => {
            match named_key_to_ui_key(named) {
                Some(k) => KeyEventAction::EmitKey(k),
                None => KeyEventAction::Ignore,
            }
        }
        LogicalKey::Unidentified | LogicalKey::Dead => KeyEventAction::Ignore,
    }
}

/// A mouse button, in the windowing library's vocabulary; vendor-specific
/// button identifiers arrive as `Other`.
#[derive(Clone, Copy, PartialEq, Eq, Debug)]
pub enum MouseButton {
    Left,
    Right,
    Middle,
    Back,
    Forward,
    Other,
}

/// A pointer button, in the GUI toolkit's vocabulary.
#[derive(Clone, Copy, PartialEq, Eq, Debug)]
pub enum PointerButton {
    Primary,
    Secondary,
    Middle,
    Extra1,
    Extra2,
}

/// The button table: vendor-specific buttons are dropped.
pub open spec fn mouse_button_to_pointer_spec(button: MouseButton) -> Option<PointerButton> {
    match button {
        MouseButton::Left => Some(PointerButton::Primary),
        MouseButton::Right => Some(PointerButton::Secondary),
        MouseButton::Middle => Some(PointerButton::Middle),
        MouseButton::Back => Some(PointerButton::Extra1),
        MouseButton::Forward => Some(PointerButton::Extra2),
        MouseButton::Other => None,
    }
}

/// Translates a mouse button into the GUI toolkit's pointer button.
pub fn mouse_button_to_pointer(button: MouseButton) -> (r: Option<PointerButton>)
    ensures
        r == mouse_button_to_pointer_spec(button),
{
    match button {
        MouseButton::Left => Some(PointerButton::Primary),
        MouseButton::Right => Some(PointerButton::Secondary),
        MouseButton::Middle => Some(PointerButton::Middle),
        MouseButton::Back => Some(PointerButton::Extra1),
        MouseButton::Forward => Some(PointerButton::Extra2),
        MouseButton::Other => None,
    }
}

/// The modifier record the GUI layer tracks.
#[derive(Clone, Copy, PartialEq, Eq, Debug)]
pub struct Modifiers {
    pub alt: bool,
    pub ctrl: bool,
    pub shift: bool,
    pub mac_cmd: bool,
    pub command: bool,
}

/// Builds the modifier record from the reported modifier state: the
/// command flag is control or the platform's meta key.
pub fn modifiers_from_state(alt: bool, control: bool, shift: bool, meta: bool)
    -> (m: Modifiers)
    ensures
        m.alt == alt,
        m.ctrl == control,
        m.shift == shift,
        m.mac_cmd == meta,
        m.command == (control || meta),
{
    Modifiers {
        alt,
        ctrl: control,
        shift,
        mac_cmd: meta,
        command: control || meta,
    }
}

/// The GUI-edited simulation knobs: the live values and the edits typed
/// into the panels, each floating-point value carried as its bit pattern.
pub struct SimulationSettings {
    /// The particle count the simulation currently runs with.
    pub particles: u32,
    /// Bit pattern of the gravitational constant currently in force.
    pub gravity: u32,
    /// The particle count typed into the panel, applied on request.
    pub edited_particles: u32,
    /// Bit pattern of the gravitational constant typed into the panel.
    pub edited_gravity: u32,
}

impl SimulationSettings {
    /// An apply request fires only while the edited particle count is
    /// positive and the edited gravitational constant is above zero.
    pub open spec fn edits_valid(&self) -> bool {
        self.edited_particles > 0 && f32_is_positive(self.edited_gravity)
    }
}

} // verus!
