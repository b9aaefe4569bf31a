//! What the controls of a row show, held as plain values. The graphical shell
//! copies them to its widgets.

use vstd::prelude::*;

verus! {

/// What a button shows.
#[derive(Debug, PartialEq, Eq)]
pub struct Button {
    /// Whether the button can be pressed.
    pub sensitive: bool,
    /// The name of the button's icon.
    pub icon_name: String,
    /// The text of the button's tooltip, if it has one.
    pub tooltip_text: Option<String>,
}

/// What a label shows.
#[derive(Debug, PartialEq, Eq)]
pub struct Label {
    /// The label's text.
    pub label: String,
}

impl Button {
    /// A button that can be pressed and shows nothing yet.
    pub fn new() -> (button: Button)
        ensures
            button.sensitive,
            button.icon_name@ == Seq::<char>::empty(),
            button.tooltip_text is None,
    {
        Button { sensitive: true, icon_name: String::new(), tooltip_text: None }
    }
}

impl Label {
    /// A label with the given text.
    pub fn new(text: &str) -> (label: Label)
        ensures
            label.label@ == text@,
    {
        Label { label: String::from_str(text) }
    }
}

} // verus!
