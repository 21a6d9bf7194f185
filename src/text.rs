use crate::alignment::{HorizontalAlign, TextAlignment, VerticalAlign};
use vstd::prelude::*;

verus! {

/// One run of text that shares a style.
#[derive(Clone, Debug)]
pub struct TextSection<St> {
    pub value: String,
    pub style: St,
}

/// The content of an independently placed text entity: its sections, in
/// order, and how the laid out block is anchored. Content is replaced whole or
/// extended by whole sections; a section is never edited in place.
#[derive(Clone, Debug)]
pub struct UiText<St> {
    pub sections: Vec<TextSection<St>>,
    pub alignment: TextAlignment,
}

/// The anchor that new text gets: centered on both axes.
pub open spec fn default_alignment() -> TextAlignment {
    TextAlignment { vertical: VerticalAlign::Center, horizontal: HorizontalAlign::Center }
}

impl<St> UiText<St> {
    /// Text with a single section.
    pub fn from_section(value: String, style: St) -> (r: UiText<St>)
        ensures
            r.sections@.len() == 1,
            r.sections@[0].value@ == value@,
            r.sections@[0].style == style,
            r.alignment == default_alignment(),
    {
        let mut sections: Vec<TextSection<St>> = Vec::new();
        sections.push(TextSection { value, style });
        UiText { sections, alignment: TextAlignment::default() }
    }

    /// Text made of the given sections, in order.
    pub fn from_sections(sections: Vec<TextSection<St>>) -> (r: UiText<St>)
        ensures
            r.sections@ == sections@,
            r.alignment == default_alignment(),
    {
        UiText { sections, alignment: TextAlignment::default() }
    }

    /// Appends a section at the end of the text.
    pub fn push_section(&mut self, value: String, style: St)
        ensures
            final(self).sections@.len() == old(self).sections@.len() + 1,
            final(self).sections@.take(old(self).sections@.len() as int) == old(self).sections@,
            final(self).sections@.last().value@ == value@,
            final(self).sections@.last().style == style,
            final(self).alignment == old(self).alignment,
    {
        self.sections.push(TextSection { value, style });
    }
}

} // verus!
