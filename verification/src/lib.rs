//! Core of a text-expansion engine.
//!
//! The engine watches decoded keyboard input, keeps a bounded rolling buffer
//! of recent characters, and, whenever a delimiter arrives, matches the
//! buffer's suffix against a set of `(trigger, replacement)` rules.  On a
//! match it plans an injection: erase the trigger plus the delimiter with
//! synthetic backspaces, then type the replacement.
//!
//! Everything that decides — pause bookkeeping, buffer maintenance, rule
//! matching, injection planning, the diagnostics ring — lives here and is
//! verified.  The platform work (installing the system key listener, emitting
//! synthetic keystrokes, the tray icon itself) is left to the surrounding
//! application, which feeds decoded characters in and carries planned
//! injections out.

pub mod buffer;
pub mod diagnostics;
pub mod engine;
pub mod matcher;
pub mod rules;
pub mod state;
pub mod tray;
