//! What a sketch is set up with.

use vstd::prelude::*;
use crate::types::{Size, UNIT};

verus! {

/// The code of a key of the keyboard.
pub type Key = u32;

/// The settings of a sketch's window.
#[derive(Clone, Copy, Debug)]
pub struct Settings<'a> {
    pub title: Option<&'a str>,
    pub size: Size,
    pub decorations: bool,
    /// The frames per second to hold the sketch to, if any.
    pub framerate: Option<u32>,
    /// The key that ends the sketch, if any.
    pub exit_key: Option<Key>,
}

impl<'a> Default for Settings<'a> {
    /// A decorated window of 800 by 600 units without a title, frames as
    /// fast as they come, no exit key.
    fn default() -> (s: Self)
        ensures
            s.title is None,
            s.size.width == 800 * UNIT,
            s.size.height == 600 * UNIT,
            s.decorations,
            s.framerate is None,
            s.exit_key is None,
    {
        Settings {
            title: None,
            size: Size::new(800 * UNIT, 600 * UNIT),
            decorations: true,
            framerate: None,
            exit_key: None,
        }
    }
}

} // verus!
