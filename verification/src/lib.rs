//! Selection-tracking and text-replacement engine.
//!
//! The engine watches the focused UI element of an arbitrary foreground
//! application through an accessibility capability interface, detects text
//! selections and caret-only paragraphs together with their on-screen
//! geometry, debounces an indicator that tracks the selection, and
//! orchestrates a clipboard-based round trip that writes replacement text
//! back into the originally focused application.
//!
//! Platform bindings (accessibility queries, clipboard, keystroke
//! simulation, window manipulation) live outside this crate behind the
//! capability traits in [`probe`]; everything here is platform-agnostic
//! decision logic.
//!
//! Text is modelled as UTF-16 code units (`Vec<u16>`), the indexing unit of
//! the accessibility surface. Screen coordinates are modelled as integers in
//! hundredths of a logical unit ("centi-units"), so a tolerance of half a
//! logical unit is the integer 50.

pub mod anim;
pub mod capture;
pub mod commands;
pub mod errors;
pub mod geom;
pub mod helper_text;
pub mod line_anchor;
pub mod paragraph;
pub mod probe;
pub mod replace;
pub mod text16;
pub mod tracker;
