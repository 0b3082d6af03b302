//! How a shape is filled: with a texture, a flat color, or the default
//! mid-gray color.
//!
//! A shape's look is built by setting an optional texture and an optional
//! color; when both are set the texture wins, and when neither is set the
//! shape gets the default color. The texture and color types are left to the
//! renderer.
use vstd::prelude::*;

verus! {

#[derive(Clone, Copy, Debug, PartialEq, Eq)]
pub enum Fill<T, C> {
    Texture(T),
    Color(C),
    /// Neither a texture nor a color was set.
    DefaultColor,
}

/// What a shape builder has been told about its surface.
#[derive(Clone, Copy, Debug)]
pub struct Look<T, C> {
    pub texture: Option<T>,
    pub color: Option<C>,
}

/// The fill chosen from what was set: texture first, then color, then the default.
pub open spec fn chosen_fill<T, C>(texture: Option<T>, color: Option<C>) -> Fill<T, C> {
    match texture {
        Some(t) => Fill::Texture(t),
        None => match color {
            Some(c) => Fill::Color(c),
            None => Fill::DefaultColor,
        },
    }
}

impl<T, C> Look<T, C> {
    /// Nothing set yet.
    pub fn new() -> (r: Look<T, C>)
        ensures
            r.texture is None,
            r.color is None,
    {
        Look { texture: None, color: None }
    }

    /// Sets the texture, replacing an earlier one.
    pub fn texture(self, t: T) -> (r: Look<T, C>)
        ensures
            r.texture == Some(t),
            r.color == self.color,
    {
        Look { texture: Some(t), color: self.color }
    }

    /// Sets the flat color, replacing an earlier one.
    pub fn color(self, c: C) -> (r: Look<T, C>)
        ensures
            r.texture == self.texture,
            r.color == Some(c),
    {
        Look { texture: self.texture, color: Some(c) }
    }

    /// The fill the shape is drawn with.
    pub fn fill(self) -> (r: Fill<T, C>)
        ensures
            r == chosen_fill(self.texture, self.color),
    {
        match self.texture {
            Some(t) => Fill::Texture(t),
            None => match self.color {
                Some(c) => Fill::Color(c),
                None => Fill::DefaultColor,
            },
        }
    }
}

/// A look with nothing set gets the default color; a color alone is used as
/// it is; a texture wins over a color whichever was set first.
pub proof fn lemma_fill_precedence<T, C>(t: T, c: C)
    ensures
        chosen_fill::<T, C>(None, None) == Fill::<T, C>::DefaultColor,
        chosen_fill::<T, C>(None, Some(c)) == Fill::<T, C>::Color(c),
        chosen_fill::<T, C>(Some(t), None) == Fill::<T, C>::Texture(t),
        chosen_fill::<T, C>(Some(t), Some(c)) == Fill::<T, C>::Texture(t),
{
}

} // verus!
