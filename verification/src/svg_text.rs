//! The text interface of the vector-markup backend. Text is not
//! implemented: builders can be had, and building fails.

use vstd::prelude::*;
use crate::error::Error;
use crate::stroke::Real;

verus! {

/// The text factory of the backend.
pub struct Text(());

/// The builder of a font.
pub struct FontBuilder(());

/// A font. None can be built yet.
pub struct Font(());

/// The builder of a text layout.
pub struct TextLayoutBuilder(());

/// A text layout. None can be built yet.
pub struct TextLayout(());

impl Clone for TextLayout {
    fn clone(&self) -> (r: TextLayout)
        ensures
            r == *self,
    {
        TextLayout(())
    }
}

impl Text {
    /// The text factory.
    pub fn new() -> (t: Text) {
        Text(())
    }

    /// A builder for the named font at the given size.
    pub fn new_font_by_name(&mut self, _name: &str, _size: Real) -> (b: FontBuilder)
        ensures
            *final(self) == *old(self),
    {
        FontBuilder(())
    }

    /// A builder for a layout of the text in the font, wrapped at the
    /// width if one is given.
    pub fn new_text_layout(&mut self, _font: &Font, _text: &str, _width: Option<Real>) -> (b: TextLayoutBuilder)
        ensures
            *final(self) == *old(self),
    {
        TextLayoutBuilder(())
    }
}

impl FontBuilder {
    /// Fails with `NotSupported`: the backend builds no fonts.
    pub fn build(self) -> (r: Result<Font, Error>)
        ensures
            r matches Err(e) && e == Error::NotSupported,
    {
        Err(Error::NotSupported)
    }
}

impl TextLayoutBuilder {
    /// Fails with `NotSupported`: the backend lays out no text.
    pub fn build(self) -> (r: Result<TextLayout, Error>)
        ensures
            r matches Err(e) && e == Error::NotSupported,
    {
        Err(Error::NotSupported)
    }
}

} // verus!
