//! Keyboard input for the interactive server.
//!
//! Keys are read only when standard input is a terminal. The handler starts
//! listening once, forwards key presses (not releases or repeats), and stops
//! listening on request; raw mode is switched on after start and off before
//! stop, both only when input is enabled. Reading the terminal is done by
//! the caller.

use vstd::prelude::*;
use vstd::string::StringExecFns;

verus! {

/// The modifier bit of the Control key.
pub const CONTROL: u8 = 0b0000_0010;

/// A key, as far as the service tells keys apart.
#[derive(Debug, Clone, Copy, PartialEq, Eq, Structural)]
pub enum KeyInput {
    /// A character key.
    Char(char),
    /// Any other key.
    Other,
}

/// A key press: the key and the set of modifiers held, as bits
/// (shift 1, control 2, alt 4, super 8, hyper 16, meta 32).
#[derive(Debug, Clone, Copy, PartialEq, Eq, Structural)]
pub struct KeyPressed {
    pub key: KeyInput,
    pub modifiers: u8,
}

/// The keyboard handler's state.
pub struct KeyboardHandler {
    enabled: bool,
    initialized: bool,
    listening: bool,
}

/// The warning shown when input is not a terminal.
pub open spec fn non_tty_warning_text() -> Seq<char> {
    "Keyboard input disabled (non-TTY environment). Server will run without interactive commands."@
}

impl Default for KeyboardHandler {
    /// A handler that is neither enabled nor started.
    fn default() -> (h: Self)
        ensures
            !h.spec_enabled(),
            !h.spec_initialized(),
            !h.spec_listening(),
    {
        KeyboardHandler { enabled: false, initialized: false, listening: false }
    }
}

/// What the start notification leads to.
#[derive(Debug, Clone, Copy, PartialEq, Eq, Structural)]
pub enum StartDecision {
    /// The handler was already started; nothing happens.
    AlreadyStarted,
    /// Input is disabled; no key is read.
    Disabled,
    /// Key events are to be read until the handler is stopped.
    Listen,
}

impl KeyboardHandler {
    pub closed spec fn spec_enabled(&self) -> bool {
        self.enabled
    }

    pub closed spec fn spec_initialized(&self) -> bool {
        self.initialized
    }

    pub closed spec fn spec_listening(&self) -> bool {
        self.listening
    }

    /// A handler for an input that is (`stdin_is_tty`) or is not a terminal.
    pub fn new(stdin_is_tty: bool) -> (h: Self)
        ensures
            h.spec_enabled() == stdin_is_tty,
            !h.spec_initialized(),
            !h.spec_listening(),
    {
        KeyboardHandler { enabled: stdin_is_tty, initialized: false, listening: false }
    }

    /// Whether keys are read.
    pub fn enabled(&self) -> (b: bool)
        ensures
            b == self.spec_enabled(),
    {
        self.enabled
    }

    /// Whether the handler has been started.
    pub fn initialized(&self) -> (b: bool)
        ensures
            b == self.spec_initialized(),
    {
        self.initialized
    }

    /// Whether key events are being read.
    pub fn listening(&self) -> (b: bool)
        ensures
            b == self.spec_listening(),
    {
        self.listening
    }

    /// The warning to show when the handler is created: one when input is
    /// not a terminal.
    pub fn creation_warning(&self) -> (w: Option<String>)
        ensures
            self.spec_enabled() ==> w is None,
            !self.spec_enabled() ==> w is Some && w->Some_0@ == non_tty_warning_text(),
    {
        if self.enabled {
            None
        } else {
            Some(
                String::from_str(
                    "Keyboard input disabled (non-TTY environment). Server will run without interactive commands.",
                ),
            )
        }
    }

    /// Whether raw mode is to be switched on after start (and off before stop).
    pub fn uses_raw_mode(&self) -> (b: bool)
        ensures
            b == self.spec_enabled(),
    {
        self.enabled
    }

    /// The start notification: the handler starts at most once, and reads
    /// keys only when enabled.
    pub fn on_started(&mut self) -> (d: StartDecision)
        ensures
            old(self).spec_initialized() ==> d == StartDecision::AlreadyStarted && final(self).spec_initialized()
                && final(self).spec_listening() == old(self).spec_listening(),
            !old(self).spec_initialized() && !old(self).spec_enabled() ==> d
                == StartDecision::Disabled && final(self).spec_initialized()
                && final(self).spec_listening() == old(self).spec_listening(),
            !old(self).spec_initialized() && old(self).spec_enabled() ==> d == StartDecision::Listen
                && final(self).spec_initialized() && final(self).spec_listening(),
            final(self).spec_enabled() == old(self).spec_enabled(),
    {
        if self.initialized {
            return StartDecision::AlreadyStarted;
        }
        self.initialized = true;
        if !self.enabled {
            return StartDecision::Disabled;
        }
        self.listening = true;
        StartDecision::Listen
    }

    /// The stop request: the reading of keys ends; returns whether it was running.
    pub fn on_stop(&mut self) -> (was_listening: bool)
        ensures
            was_listening == old(self).spec_listening(),
            !final(self).spec_listening(),
            final(self).spec_enabled() == old(self).spec_enabled(),
            final(self).spec_initialized() == old(self).spec_initialized(),
    {
        let was = self.listening;
        self.listening = false;
        was
    }
}

/// A key event read from the terminal is forwarded only when it is a press.
pub fn key_event_to_message(is_press: bool, key: KeyInput, modifiers: u8) -> (m: Option<KeyPressed>)
    ensures
        is_press ==> m == Some(KeyPressed { key, modifiers }),
        !is_press ==> m is None,
{
    if is_press {
        Some(KeyPressed { key, modifiers })
    } else {
        None
    }
}

} // verus!
