//! Capability interfaces to the platform.
//!
//! The engine is written once against these traits; a backing
//! implementation bound to the operating system's accessibility surface,
//! clipboard and input synthesis is selected at composition time, outside
//! this crate. Every method is independently fallible and promises nothing
//! about its answers: the engine states what holds of its own decisions
//! whatever the platform reports, and clamps every coordinate on entry.

use vstd::prelude::*;

use crate::geom::SelectionBounds;

verus! {

/// A selected-text range in UTF-16 code-unit offsets. A `length` of zero
/// denotes a caret with no selection.
#[derive(Clone, Copy, Debug, PartialEq, Eq, Structural)]
pub struct TextRange {
    /// Offset of the first selected code unit.
    pub location: usize,
    /// Number of selected code units.
    pub length: usize,
}

/// Read/write capability over the currently focused UI element.
///
/// An `Element` value stands for an acquired handle to one element; the
/// implementation releases the underlying resource when the value is
/// dropped, so every exit path of the engine releases what it acquired.
pub trait AccessibilityProbe {
    /// An acquired handle to a UI element.
    type Element;

    /// Whether the process holds accessibility permission. All other
    /// operations are meaningful only when this is true.
    fn is_trusted(&mut self) -> bool;

    /// Resolve the system-wide focused UI element.
    fn focused_element(&mut self) -> Option<Self::Element>;

    /// The element's currently selected text, as UTF-16 code units.
    fn selected_text(&mut self, el: &Self::Element) -> Option<Vec<u16>>;

    /// The element's selected-text range.
    fn selection_range(&mut self, el: &Self::Element) -> Option<TextRange>;

    /// The element's entire text value, as UTF-16 code units.
    fn full_text(&mut self, el: &Self::Element) -> Option<Vec<u16>>;

    /// Screen rectangle covering the given sub-range of the element's
    /// text. May legitimately fail for some element kinds and boundary
    /// offsets, notably a caret at the end of the text.
    fn bounds_for_range(&mut self, el: &Self::Element, location: usize, length: usize) -> Option<
        SelectionBounds,
    >;

    /// Replace the element's selection with the given range. Returns
    /// whether the surface accepted the write.
    fn set_selection_range(&mut self, el: &Self::Element, location: usize, length: usize) -> bool;
}

/// System capabilities outside the accessibility surface: application
/// identity and activation, clipboard, synthetic input, pointer position,
/// and the settle delay between them.
pub trait SystemActions {
    /// Name of the frontmost application, when one can be identified.
    fn frontmost_app_name(&mut self) -> Option<String>;

    /// Write `text` to the system clipboard; `Err` carries the helper's
    /// diagnostic.
    fn set_clipboard(&mut self, text: &str) -> Result<(), String>;

    /// Activate the application with the given name; `Err` carries the
    /// helper's diagnostic.
    fn activate_app(&mut self, name: &str) -> Result<(), String>;

    /// Wait for the given number of milliseconds.
    fn settle(&mut self, millis: u64);

    /// Simulate a paste keystroke into the frontmost application; `Err`
    /// carries the helper's diagnostic.
    fn simulate_paste(&mut self) -> Result<(), String>;

    /// Current on-screen pointer position in centi-units, used only as a
    /// positioning fallback.
    fn mouse_position(&mut self) -> (i64, i64);
}

} // verus!
