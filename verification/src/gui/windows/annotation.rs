//! Drawing settings of the annotation window.
//!
//! The window is generic over the kinds of shape (`K`), the colours (`C`)
//! and the stroke widths (`S`) that the drawing canvas offers: it only keeps
//! the settings the user picked and whether its toolbar is shown.

use vstd::prelude::*;

verus! {

/// The settings the next drawn shape is made with.
#[derive(Debug, Clone, Copy, PartialEq, Eq)]
pub struct Shape<K, C, S> {
    pub s_type: K,
    pub is_filled: bool,
    pub is_solid: bool,
    pub color: C,
    pub stroke: S,
}

/// Events of the annotation window.
#[derive(Debug, Clone, Copy, PartialEq, Eq)]
pub enum AnnotationWindowEvent<K, C, S> {
    /// A kind of shape was picked, filled or not, solid or not
    ChooseShapeType(K, bool, bool),
    /// A colour was picked
    ChangeColor(C),
    /// A stroke width was picked
    ChangeStroke(S),
    /// The window is to close
    Exit,
    /// Nothing to do
    Ignore,
    /// Show or hide the toolbar
    ToggleToolbar,
}

/// What the application is asked to do after an event.
#[derive(Debug, Clone, Copy, PartialEq, Eq, Structural)]
pub enum AnnotationAction {
    /// Nothing to do; the window stays open
    Stay,
    /// Close the window
    Close,
}

/// The annotation window: the drawing settings and whether the toolbar shows.
pub struct AnnotationWindow<K, C, S> {
    pub shape: Shape<K, C, S>,
    pub show_toolbar: bool,
}

/// One event of the annotation window: the new settings, the new toolbar
/// flag and the action asked of the application. Picking changes only what
/// was picked; the toolbar toggles; `Exit` closes the window.
pub open spec fn annotation_step<K, C, S>(
    shape: Shape<K, C, S>,
    show_toolbar: bool,
    event: AnnotationWindowEvent<K, C, S>,
) -> (Shape<K, C, S>, bool, AnnotationAction) {
    match event {
        AnnotationWindowEvent::ChooseShapeType(k, filled, solid) => (
            Shape { s_type: k, is_filled: filled, is_solid: solid, ..shape },
            show_toolbar,
            AnnotationAction::Stay,
        ),
        AnnotationWindowEvent::ChangeColor(c) => (
            Shape { color: c, ..shape },
            show_toolbar,
            AnnotationAction::Stay,
        ),
        AnnotationWindowEvent::ChangeStroke(s) => (
            Shape { stroke: s, ..shape },
            show_toolbar,
            AnnotationAction::Stay,
        ),
        AnnotationWindowEvent::Exit => (shape, show_toolbar, AnnotationAction::Close),
        AnnotationWindowEvent::Ignore => (shape, show_toolbar, AnnotationAction::Stay),
        AnnotationWindowEvent::ToggleToolbar => (shape, !show_toolbar, AnnotationAction::Stay),
    }
}

impl<K: Default, C: Default, S: Default> AnnotationWindow<K, C, S> {
    /// Each setting at its default (neither filled nor solid), toolbar hidden.
    pub fn new() -> (w: Self)
        ensures
            !w.show_toolbar,
            !w.shape.is_filled,
            !w.shape.is_solid,
    {
        AnnotationWindow {
            shape: Shape {
                s_type: K::default(),
                is_filled: false,
                is_solid: false,
                color: C::default(),
                stroke: S::default(),
            },
            show_toolbar: false,
        }
    }
}

impl<K, C, S> AnnotationWindow<K, C, S> {
    /// Applies an event and says what the application should do.
    pub fn update(&mut self, event: AnnotationWindowEvent<K, C, S>) -> (action: AnnotationAction)
        ensures
            (final(self).shape, final(self).show_toolbar, action) == annotation_step(
                old(self).shape,
                old(self).show_toolbar,
                event,
            ),
    {
        match event {
            AnnotationWindowEvent::ChooseShapeType(shape_type, is_filled, is_solid) => {
                self.shape.s_type = shape_type;
                self.shape.is_filled = is_filled;
                self.shape.is_solid = is_solid;
                AnnotationAction::Stay
            },
            AnnotationWindowEvent::ChangeStroke(stroke_width) => {
                self.shape.stroke = stroke_width;
                AnnotationAction::Stay
            },
            AnnotationWindowEvent::ChangeColor(color) => {
                self.shape.color = color;
                AnnotationAction::Stay
            },
            AnnotationWindowEvent::Ignore => AnnotationAction::Stay,
            AnnotationWindowEvent::Exit => AnnotationAction::Close,
            AnnotationWindowEvent::ToggleToolbar => {
                self.show_toolbar = !self.show_toolbar;
                AnnotationAction::Stay
            },
        }
    }
}

/// Toggling the toolbar twice leaves the window as it was.
pub proof fn law_toolbar_toggle_round_trip<K, C, S>(shape: Shape<K, C, S>, show_toolbar: bool)
    ensures
        ({
            let once = annotation_step(shape, show_toolbar, AnnotationWindowEvent::ToggleToolbar);
            let twice = annotation_step(once.0, once.1, AnnotationWindowEvent::ToggleToolbar);
            twice.0 == shape && twice.1 == show_toolbar
        }),
{
}

} // verus!
