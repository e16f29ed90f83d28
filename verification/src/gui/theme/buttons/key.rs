//! A key of the on-screen keyboard shown in the hotkey settings.

use vstd::prelude::*;

use crate::gui::theme::styles::buttons::ButtonType;

verus! {

/// A keyboard key: its label, style and size class.
pub struct Key4Board {
    label: String,
    style: ButtonType,
    size: usize,
}

impl Key4Board {
    pub closed spec fn label_text(&self) -> Seq<char> {
        self.label@
    }

    pub closed spec fn style_choice(&self) -> ButtonType {
        self.style
    }

    pub closed spec fn size_class(&self) -> usize {
        self.size
    }

    /// A key with the given label and size class.
    pub fn new(label: String, size: usize) -> (k: Self)
        ensures
            k.label_text() == label@,
            k.size_class() == size,
            k.style_choice() == ButtonType::KeyBoard,
    {
        Key4Board { label, style: ButtonType::KeyBoard, size }
    }

    /// The key with another style.
    pub fn style(self, style: ButtonType) -> (k: Self)
        ensures
            k.style_choice() == style,
            k.label_text() == self.label_text(),
            k.size_class() == self.size_class(),
    {
        let mut k = self;
        k.style = style;
        k
    }
}

impl Default for Key4Board {
    fn default() -> (k: Self)
        ensures
            k.label_text() == Seq::<char>::empty(),
            k.size_class() == 0,
            k.style_choice() == ButtonType::Standard,
    {
        Key4Board { label: String::new(), style: ButtonType::Standard, size: 0 }
    }
}

} // verus!
