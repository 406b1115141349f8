//! Semantic categories of tokenized runs and the color theme that maps each
//! category to a display color.

use vstd::prelude::*;

verus! {

/// Semantic class of a run of characters produced by the scanner.
#[derive(Clone, Copy, Debug, PartialEq, Eq, Structural)]
pub enum Category {
    Default,
    Key,
    String,
    Number,
    Boolean,
    Null,
    Punctuation,
}

/// A plain RGB color value (one byte per channel).
#[derive(Clone, Copy, Debug, PartialEq, Eq, Structural)]
pub struct Rgb {
    pub r: u8,
    pub g: u8,
    pub b: u8,
}

/// An immutable mapping from each `Category` to a display color.
/// Every category has an entry; a partial theme cannot be constructed.
#[derive(Clone, Copy, Debug, PartialEq, Eq, Structural)]
pub struct Theme {
    pub key: Rgb,
    pub string: Rgb,
    pub number: Rgb,
    pub boolean: Rgb,
    pub null_: Rgb,
    pub punct: Rgb,
    pub default: Rgb,
}

impl Theme {
    /// The color this theme assigns to a category.
    pub open spec fn spec_color_of(&self, c: Category) -> Rgb {
        match c {
            Category::Key => self.key,
            Category::String => self.string,
            Category::Number => self.number,
            Category::Boolean => self.boolean,
            Category::Null => self.null_,
            Category::Punctuation => self.punct,
            Category::Default => self.default,
        }
    }

    /// Look up the color for a category.
    pub fn color_of(&self, c: Category) -> (r: Rgb)
        ensures
            r == self.spec_color_of(c),
    {
        match c {
            Category::Key => self.key,
            Category::String => self.string,
            Category::Number => self.number,
            Category::Boolean => self.boolean,
            Category::Null => self.null_,
            Category::Punctuation => self.punct,
            Category::Default => self.default,
        }
    }
}

impl Default for Theme {
    /// The fixed default palette; each of the seven categories gets its own
    /// distinct color.
    fn default() -> (r: Self)
        ensures
            r.key == (Rgb { r: 67, g: 156, b: 255 }),
            r.string == (Rgb { r: 80, g: 250, b: 123 }),
            r.number == (Rgb { r: 255, g: 184, b: 108 }),
            r.boolean == (Rgb { r: 189, g: 147, b: 249 }),
            r.null_ == (Rgb { r: 139, g: 139, b: 139 }),
            r.punct == (Rgb { r: 120, g: 120, b: 120 }),
            r.default == (Rgb { r: 220, g: 220, b: 220 }),
    {
        Theme {
            key: Rgb { r: 67, g: 156, b: 255 },
            string: Rgb { r: 80, g: 250, b: 123 },
            number: Rgb { r: 255, g: 184, b: 108 },
            boolean: Rgb { r: 189, g: 147, b: 249 },
            null_: Rgb { r: 139, g: 139, b: 139 },
            punct: Rgb { r: 120, g: 120, b: 120 },
            default: Rgb { r: 220, g: 220, b: 220 },
        }
    }
}

/// The distinctive color used for the diagnostic run emitted on invalid input.
pub fn warning_color() -> (r: Rgb)
    ensures
        r == (Rgb { r: 255, g: 100, b: 100 }),
{
    Rgb { r: 255, g: 100, b: 100 }
}

} // verus!
