//! Selection state of the area selector window.
//!
//! The window is generic over the rectangle type: it only stores the
//! rectangle the user drew and hands it on when the selection is confirmed.

use vstd::prelude::*;

verus! {

/// Events of the area selector window.
#[derive(Debug, Clone, Copy, PartialEq, Eq)]
pub enum ASWindowEvent<R> {
    /// A valid rectangle was drawn
    AreaSelected(R),
    /// The drawn rectangle was too small to mean anything
    AreaAbort,
    /// The drawn rectangle is not a valid selection
    Invalid,
    /// Escape: close without selecting
    ExitAbort,
    /// Enter: confirm the selection and close
    ExitValid,
}

/// What the application is asked to do after an event.
#[derive(Debug, Clone, Copy, PartialEq, Eq)]
pub enum ASWindowAction<R> {
    /// Nothing to do; the window stays open
    Stay,
    /// Close the window
    Close,
    /// Use this area, then close the window
    SelectAndClose(R),
}

/// The area selector: the rectangle drawn so far and whether it is invalid.
pub struct ASWindow<R> {
    pub area: Option<R>,
    pub invalid: bool,
}

/// One event of the area selector: the new rectangle, the new invalid flag
/// and the action asked of the application. A drawn rectangle replaces the
/// previous one; an aborted or invalid one clears it; confirming a valid
/// rectangle hands it on and closes the window, otherwise the window closes
/// without a selection.
pub open spec fn area_step<R>(area: Option<R>, invalid: bool, event: ASWindowEvent<R>) -> (
    Option<R>,
    bool,
    ASWindowAction<R>,
) {
    match event {
        ASWindowEvent::AreaSelected(a) => (Some(a), false, ASWindowAction::Stay),
        ASWindowEvent::AreaAbort => (None, false, ASWindowAction::Stay),
        ASWindowEvent::Invalid => (None, true, ASWindowAction::Stay),
        ASWindowEvent::ExitAbort => (area, invalid, ASWindowAction::Close),
        ASWindowEvent::ExitValid => if !invalid && area is Some {
            (None, invalid, ASWindowAction::SelectAndClose(area.unwrap()))
        } else {
            (area, invalid, ASWindowAction::Close)
        },
    }
}

/// The hint the area selector shows.
pub open spec fn hint_text(invalid: bool, has_area: bool) -> Seq<char> {
    if invalid {
        "Invalid selection"@
    } else if has_area {
        "Enter to Confirm | Click to Reset"@
    } else {
        "Esc to Cancel"@
    }
}

impl<R> ASWindow<R> {
    /// Nothing drawn yet.
    pub fn new() -> (w: Self)
        ensures
            w.area is None,
            !w.invalid,
    {
        ASWindow { area: None, invalid: false }
    }

    /// Applies an event and says what the application should do.
    pub fn update(&mut self, event: ASWindowEvent<R>) -> (action: ASWindowAction<R>)
        ensures
            (final(self).area, final(self).invalid, action) == area_step(
                old(self).area,
                old(self).invalid,
                event,
            ),
    {
        match event {
            ASWindowEvent::AreaSelected(area) => {
                self.invalid = false;
                self.area = Some(area);
                ASWindowAction::Stay
            },
            ASWindowEvent::AreaAbort => {
                self.invalid = false;
                self.area = None;
                ASWindowAction::Stay
            },
            ASWindowEvent::Invalid => {
                self.invalid = true;
                self.area = None;
                ASWindowAction::Stay
            },
            ASWindowEvent::ExitAbort => ASWindowAction::Close,
            ASWindowEvent::ExitValid => {
                if !self.invalid && self.area.is_some() {
                    match self.area.take() {
                        Some(area) => ASWindowAction::SelectAndClose(area),
                        None => ASWindowAction::Close,
                    }
                } else {
                    ASWindowAction::Close
                }
            },
        }
    }

    /// The hint shown over the selection.
    pub fn hint(&self) -> (s: &'static str)
        ensures
            s@ == hint_text(self.invalid, self.area is Some),
    {
        if self.invalid {
            "Invalid selection"
        } else if self.area.is_some() {
            "Enter to Confirm | Click to Reset"
        } else {
            "Esc to Cancel"
        }
    }
}

/// Confirming right after drawing a rectangle hands on that rectangle and
/// closes the window, whatever was drawn or flagged before.
pub proof fn law_confirm_hands_on_last_area<R>(area: Option<R>, invalid: bool, drawn: R)
    ensures
        ({
            let after_draw = area_step(area, invalid, ASWindowEvent::AreaSelected(drawn));
            area_step(after_draw.0, after_draw.1, ASWindowEvent::ExitValid).2
                == ASWindowAction::SelectAndClose(drawn)
        }),
{
}

/// An invalid selection is never handed on.
pub proof fn law_invalid_is_never_selected<R>(area: Option<R>, invalid: bool)
    ensures
        ({
            let after = area_step(area, invalid, ASWindowEvent::<R>::Invalid);
            area_step(after.0, after.1, ASWindowEvent::ExitValid).2 == ASWindowAction::<R>::Close
        }),
{
}


/// A reset clears the selection whatever was drawn or flagged: afterwards
/// no area is held, nothing is flagged, the window stays open, and
/// confirming closes the window without handing on an area.
pub proof fn law_reset_clears_selection<R>(area: Option<R>, invalid: bool)
    ensures
        ({
            let after = area_step(area, invalid, ASWindowEvent::<R>::AreaAbort);
            &&& after.0 is None
            &&& !after.1
            &&& after.2 == ASWindowAction::<R>::Stay
            &&& area_step(after.0, after.1, ASWindowEvent::ExitValid).2 == ASWindowAction::<R>::Close
        }),
{
}

/// Only confirming hands on an area, and only one that was drawn: whatever
/// the event, a `SelectAndClose` action carries the area held before it, and
/// no event but `ExitValid` closes with a selection.
pub proof fn law_selection_comes_from_held_area<R>(area: Option<R>, invalid: bool, event: ASWindowEvent<R>)
    ensures
        area_step(area, invalid, event).2 matches ASWindowAction::SelectAndClose(a) ==> (event
            is ExitValid && area == Some(a) && !invalid),
{
}

} // verus!
