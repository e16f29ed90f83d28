//! A filled button with a label and an optional icon.

use vstd::prelude::*;

use crate::gui::theme::styles::buttons::ButtonType;
use crate::gui::types::icons::Icon;

verus! {

/// A filled button: a label, an optional icon, a style.
pub struct FilledButton {
    label: String,
    icon: Option<Icon>,
    style: ButtonType,
}

impl FilledButton {
    pub closed spec fn label_text(&self) -> Seq<char> {
        self.label@
    }

    pub closed spec fn icon_choice(&self) -> Option<Icon> {
        self.icon
    }

    pub closed spec fn style_choice(&self) -> ButtonType {
        self.style
    }

    /// A standard button with the given label and no icon.
    pub fn new(label: &str) -> (b: Self)
        ensures
            b.label_text() == label@,
            b.icon_choice() is None,
            b.style_choice() == ButtonType::Standard,
    {
        FilledButton { label: label.to_owned(), icon: None, style: ButtonType::Standard }
    }

    /// The button with another style.
    pub fn style(self, style: ButtonType) -> (b: Self)
        ensures
            b.style_choice() == style,
            b.label_text() == self.label_text(),
            b.icon_choice() == self.icon_choice(),
    {
        let mut b = self;
        b.style = style;
        b
    }

    /// The button with an icon before its label.
    pub fn icon(self, icon: Icon) -> (b: Self)
        ensures
            b.icon_choice() == Some(icon),
            b.label_text() == self.label_text(),
            b.style_choice() == self.style_choice(),
    {
        let mut b = self;
        b.icon = Some(icon);
        b
    }
}

impl Default for FilledButton {
    fn default() -> (b: Self)
        ensures
            b.label_text() == Seq::<char>::empty(),
            b.icon_choice() is None,
            b.style_choice() == ButtonType::Standard,
    {
        FilledButton { label: String::new(), icon: None, style: ButtonType::Standard }
    }
}

} // verus!
