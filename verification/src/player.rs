//! What a script sees of the player: the values it passes and gets, the
//! objects it holds, and the state its calls act on.

use vstd::prelude::*;
use crate::color::Color;
use crate::stage::{StageAlign, StageDisplayState, StageQuality, StageScaleMode};

verus! {

/// An object as a script holds it.
#[derive(Clone, Copy, Debug, PartialEq, Eq, Structural)]
pub enum Object {
    /// The stage.
    Stage,
    /// An object on the display list other than the stage, by its number.
    DisplayObject(u32),
    /// An object that cannot be displayed, by its number.
    Other(u32),
}

impl Object {
    /// The object can be displayed: it is the stage or stands on the display
    /// list.
    pub open spec fn is_displayed(self) -> bool {
        !(self is Other)
    }

    /// Tells whether the object can be displayed.
    pub fn is_display_object(&self) -> (displayed: bool)
        ensures
            displayed == self.is_displayed(),
    {
        match self {
            Object::Other(_) => false,
            _ => true,
        }
    }
}

/// `this` is the stage.
pub open spec fn is_stage(this: Option<Object>) -> bool {
    this == Some(Object::Stage)
}

/// Tells whether the receiver of a call is the stage.
pub fn as_stage(this: Option<Object>) -> (stage: bool)
    ensures
        stage == is_stage(this),
{
    match this {
        Some(Object::Stage) => true,
        _ => false,
    }
}

/// A number that may have a fraction, held as the 64 bits of its binary form.
/// Such a number is passed on as it is: nothing here computes with it, and
/// two of them are the same only if all their bits are.
#[derive(Clone, Copy, Debug, PartialEq, Eq, Structural)]
pub struct Number {
    pub bits: u64,
}

/// A value as a script passes and gets it.
#[derive(Debug, PartialEq, Eq)]
pub enum Value {
    Undefined,
    Null,
    Bool(bool),
    Integer(i32),
    Unsigned(u32),
    Number(Number),
    String(String),
    Object(Object),
    /// A dense array of objects.
    Array(Vec<Object>),
}

/// Why a call failed.
#[derive(Clone, Copy, Debug, PartialEq, Eq)]
pub enum Error {
    /// An argument was not among the accepted values: the number of the error
    /// and its message.
    ArgumentError { code: u32, message: &'static str },
    /// The player refused the call.
    Refused(&'static str),
}

/// The stage and its settings.
#[derive(Debug, PartialEq, Eq)]
pub struct Stage {
    pub align: StageAlign,
    pub display_state: StageDisplayState,
    pub scale_mode: StageScaleMode,
    pub quality: StageQuality,
    /// Whether the context menu shows the player's own entries.
    pub show_menu: bool,
    /// Whether the object in focus is framed.
    pub stage_focus_rect: bool,
    /// The width of the stage, in pixels.
    pub stage_width: u32,
    /// The height of the stage, in pixels.
    pub stage_height: u32,
    /// The colour behind the movie, where the movie has set one.
    pub background_color: Option<Color>,
    /// Whether the stage has asked to be drawn again.
    pub invalidated: bool,
    /// The 3D surfaces of the stage.
    pub stage3ds: Vec<Object>,
}

/// The state of the player that a call can reach.
#[derive(Debug, PartialEq, Eq)]
pub struct UpdateContext {
    pub stage: Stage,
    /// The object that gets the keyboard input, if any. It is one that can be
    /// displayed.
    pub focus: Option<Object>,
    /// Frames per second.
    pub frame_rate: Number,
    /// Device pixels per pixel of the stage, as the renderer reports it.
    pub viewport_scale_factor: Number,
}

/// One call from a script into the player.
#[derive(Debug, PartialEq, Eq)]
pub struct Activation {
    pub context: UpdateContext,
}

} // verus!
