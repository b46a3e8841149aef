//! Error taxonomy of the engine.
//!
//! Probe-level failures are recovered by the tracker as mode fallback;
//! failures of explicit user commands are surfaced verbatim through these
//! kinds.

use vstd::prelude::*;

verus! {

/// The external helper whose invocation failed during a replacement.
#[derive(Clone, Copy, Debug, PartialEq, Eq, Structural)]
pub enum ExternalTool {
    /// Writing the replacement text to the system clipboard.
    Clipboard,
    /// Reactivating the stored application by name.
    AppActivation,
    /// Simulating the paste keystroke.
    PasteKeystroke,
}

/// Every failure the engine reports.
///
/// `ExternalToolFailure` carries the underlying diagnostic of the helper
/// that failed; all other kinds are decided by the engine itself.
#[derive(Clone, Debug)]
pub enum EngineError {
    /// The process lacks accessibility permission.
    PermissionDenied,
    /// No system-wide focused UI element could be resolved.
    NoFocusedElement,
    /// The focused element has no (non-blank) selected text.
    NoSelection,
    /// The focused element reports no selected-text range.
    NoTextRange,
    /// The paragraph path was invoked while a real selection exists.
    HasSelection,
    /// The focused element has no full text value.
    NoTextValue,
    /// The paragraph around the caret is empty or whitespace-only.
    EmptyParagraph,
    /// The selection reported no usable bounds and the pointer fallback was
    /// disabled.
    NoSelectionBounds,
    /// The paragraph reported no usable bounds.
    NoParagraphBounds,
    /// No application identity is stored, so replacement has no target.
    NoStoredApp,
    /// No paragraph snapshot is cached to promote into a selection.
    NoCachedParagraph,
    /// No capture snapshot is cached to reopen the panel from.
    NoCachedSelection,
    /// The frontmost application could not be identified.
    NoFrontmostApp,
    /// Writing the selection range back into the element failed.
    SelectionWriteFailed,
    /// An external helper process failed; carries its diagnostic output.
    ExternalToolFailure(ExternalTool, String),
}

impl EngineError {
    /// The stable machine-readable code of this error kind.
    pub fn code(&self) -> (r: &'static str)
        ensures
            r@ == self.code_spec(),
    {
        proof {
            reveal_strlit("accessibility_denied");
            reveal_strlit("no_focused_element");
            reveal_strlit("no_selection");
            reveal_strlit("no_text_range");
            reveal_strlit("has_selection");
            reveal_strlit("no_text_value");
            reveal_strlit("empty_paragraph");
            reveal_strlit("no_selection_bounds");
            reveal_strlit("no_paragraph_bounds");
            reveal_strlit("no_stored_app");
            reveal_strlit("no_cached_paragraph");
            reveal_strlit("no_cached_selection");
            reveal_strlit("no_frontmost_app");
            reveal_strlit("set_selected_range_failed");
            reveal_strlit("external_tool_failure");
        }
        match self {
            EngineError::PermissionDenied => "accessibility_denied",
            EngineError::NoFocusedElement => "no_focused_element",
            EngineError::NoSelection => "no_selection",
            EngineError::NoTextRange => "no_text_range",
            EngineError::HasSelection => "has_selection",
            EngineError::NoTextValue => "no_text_value",
            EngineError::EmptyParagraph => "empty_paragraph",
            EngineError::NoSelectionBounds => "no_selection_bounds",
            EngineError::NoParagraphBounds => "no_paragraph_bounds",
            EngineError::NoStoredApp => "no_stored_app",
            EngineError::NoCachedParagraph => "no_cached_paragraph",
            EngineError::NoCachedSelection => "no_cached_selection",
            EngineError::NoFrontmostApp => "no_frontmost_app",
            EngineError::SelectionWriteFailed => "set_selected_range_failed",
            EngineError::ExternalToolFailure(_, _) => "external_tool_failure",
        }
    }

    /// The code each kind maps to.
    pub open spec fn code_spec(self) -> Seq<char> {
        match self {
            EngineError::PermissionDenied => "accessibility_denied"@,
            EngineError::NoFocusedElement => "no_focused_element"@,
            EngineError::NoSelection => "no_selection"@,
            EngineError::NoTextRange => "no_text_range"@,
            EngineError::HasSelection => "has_selection"@,
            EngineError::NoTextValue => "no_text_value"@,
            EngineError::EmptyParagraph => "empty_paragraph"@,
            EngineError::NoSelectionBounds => "no_selection_bounds"@,
            EngineError::NoParagraphBounds => "no_paragraph_bounds"@,
            EngineError::NoStoredApp => "no_stored_app"@,
            EngineError::NoCachedParagraph => "no_cached_paragraph"@,
            EngineError::NoCachedSelection => "no_cached_selection"@,
            EngineError::NoFrontmostApp => "no_frontmost_app"@,
            EngineError::SelectionWriteFailed => "set_selected_range_failed"@,
            EngineError::ExternalToolFailure(_, _) => "external_tool_failure"@,
        }
    }
}

} // verus!
