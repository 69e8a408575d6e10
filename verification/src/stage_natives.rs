//! The properties and methods of the stage as scripts call them.
//!
//! Each function is one call: it gets the player's state, the receiver of the
//! call and, where the call has one, its argument as the script's value was
//! read. Several of them act only where the receiver is the stage, and give
//! `Undefined` otherwise.

use vstd::prelude::*;
use vstd::string::*;
use crate::color::{color_from_rgb, color_to_rgba, opaque_white, packed, unpacked, white};
use crate::player::{
    Activation, Error, Number, Object, Stage, UpdateContext, Value, as_stage, is_stage,
};
use crate::stage::{StageAlign, StageDisplayState, StageQuality, StageScaleMode};

verus! {

/// `result` is the text `text`.
pub open spec fn is_text(result: Result<Value, Error>, text: Seq<char>) -> bool {
    result matches Ok(Value::String(s)) && s@ == text
}

/// `activation` with `stage` in place of its stage.
pub open spec fn with_stage(activation: Activation, stage: Stage) -> Activation {
    Activation { context: UpdateContext { stage, ..activation.context } }
}

/// The error for a text that names none of the accepted display states.
pub open spec fn bad_display_state() -> Error {
    Error::ArgumentError {
        code: 2008,
        message: "Error #2008: Parameter displayState must be one of the accepted values.",
    }
}

/// The error for a text that names none of the accepted scale modes.
pub open spec fn bad_scale_mode() -> Error {
    Error::ArgumentError {
        code: 2008,
        message: "Error #2008: Parameter scaleMode must be one of the accepted values.",
    }
}

/// The error for a focus target that cannot be displayed.
pub open spec fn bad_focus() -> Error {
    Error::Refused("Cannot set focus to non-DisplayObject")
}

/// The state that is set when a script asks for `asked`: full screen always
/// comes with keyboard input.
pub open spec fn granted(asked: StageDisplayState) -> StageDisplayState {
    if asked == StageDisplayState::FullScreen {
        StageDisplayState::FullScreenInteractive
    } else {
        asked
    }
}

/// The end of the stage's initialiser. `super_init` says how the initialiser
/// of the class above ended, which is run where there is a receiver: its
/// failure is the failure of the call. The call gives `Undefined` otherwise.
pub fn native_instance_init(this: Option<Object>, super_init: Result<(), Error>) -> (result: Result<
    Value,
    Error,
>)
    ensures
        result == match (this, super_init) {
            (Some(_), Err(error)) => Err::<Value, Error>(error),
            _ => Ok(Value::Undefined),
        },
{
    if let Some(_) = this {
        if let Err(error) = super_init {
            return Err(error);
        }
    }
    Ok(Value::Undefined)
}

/// Reads `align`: the letters of the sides the movie is held against, in the
/// order T, B, L, R.
pub fn get_align(activation: &mut Activation, _this: Option<Object>) -> (result: Result<
    Value,
    Error,
>)
    ensures
        *final(activation) == *old(activation),
        is_text(result, old(activation).context.stage.align.letters()),
{
    Ok(Value::String(activation.context.stage.align.to_letters()))
}

/// Writes `align`: the movie is held against the sides that `align` names.
pub fn set_align(activation: &mut Activation, _this: Option<Object>, align: &str) -> (result:
    Result<Value, Error>)
    ensures
        result == Ok::<Value, Error>(Value::Undefined),
        *final(activation) == with_stage(
            *old(activation),
            Stage { align: StageAlign::named(align@), ..old(activation).context.stage },
        ),
{
    activation.context.stage.align = StageAlign::parse(align);
    Ok(Value::Undefined)
}

/// Reads `browserZoomFactor` of the stage: the scale factor of the viewport.
pub fn get_browser_zoom_factor(activation: &mut Activation, this: Option<Object>) -> (result:
    Result<Value, Error>)
    ensures
        *final(activation) == *old(activation),
        result == Ok::<Value, Error>(
            if is_stage(this) {
                Value::Number(old(activation).context.viewport_scale_factor)
            } else {
                Value::Undefined
            },
        ),
{
    if as_stage(this) {
        return Ok(Value::Number(activation.context.viewport_scale_factor));
    }
    Ok(Value::Undefined)
}

/// Reads `color` of the stage: the colour behind the movie as a packed value
/// with its alpha in the highest byte, opaque white where the movie has set
/// none.
pub fn get_color(activation: &mut Activation, this: Option<Object>) -> (result: Result<
    Value,
    Error,
>)
    ensures
        *final(activation) == *old(activation),
        result == if is_stage(this) {
            Ok::<Value, Error>(
                Value::Unsigned(
                    packed(
                        match old(activation).context.stage.background_color {
                            Some(color) => color,
                            None => white(),
                        },
                    ),
                ),
            )
        } else {
            Ok(Value::Undefined)
        },
{
    if as_stage(this) {
        let color = match activation.context.stage.background_color {
            Some(color) => color,
            None => opaque_white(),
        };
        return Ok(Value::Unsigned(color_to_rgba(color)));
    }
    Ok(Value::Undefined)
}

/// Writes `color` of the stage: the colour behind the movie becomes the
/// opaque colour whose red, green and blue are the three low bytes of `rgb`.
pub fn set_color(activation: &mut Activation, this: Option<Object>, rgb: u32) -> (result: Result<
    Value,
    Error,
>)
    ensures
        result == Ok::<Value, Error>(Value::Undefined),
        *final(activation) == if is_stage(this) {
            with_stage(
                *old(activation),
                Stage {
                    background_color: Some(unpacked(rgb, 255)),
                    ..old(activation).context.stage
                },
            )
        } else {
            *old(activation)
        },
{
    if as_stage(this) {
        let color = color_from_rgb(rgb, 255);
        activation.context.stage.background_color = Some(color);
    }
    Ok(Value::Undefined)
}

/// Reads `contentsScaleFactor` of the stage: the scale factor of the viewport.
pub fn get_contents_scale_factor(activation: &mut Activation, this: Option<Object>) -> (result:
    Result<Value, Error>)
    ensures
        *final(activation) == *old(activation),
        result == Ok::<Value, Error>(
            if is_stage(this) {
                Value::Number(old(activation).context.viewport_scale_factor)
            } else {
                Value::Undefined
            },
        ),
{
    if as_stage(this) {
        return Ok(Value::Number(activation.context.viewport_scale_factor));
    }
    Ok(Value::Undefined)
}

/// Reads `displayState`: the name of the display state.
pub fn get_display_state(activation: &mut Activation, _this: Option<Object>) -> (result: Result<
    Value,
    Error,
>)
    ensures
        *final(activation) == *old(activation),
        is_text(result, old(activation).context.stage.display_state.name()),
{
    Ok(Value::String(String::from_str(activation.context.stage.display_state.as_str())))
}

/// Writes `displayState`. A text that names a display state sets it, full
/// screen with keyboard input where plain full screen was asked for. Any
/// other text is an argument error and changes nothing.
pub fn set_display_state(activation: &mut Activation, _this: Option<Object>, state: &str) -> (result:
    Result<Value, Error>)
    ensures
        match StageDisplayState::named(state@) {
            Some(asked) => {
                &&& result == Ok::<Value, Error>(Value::Undefined)
                &&& *final(activation) == with_stage(
                    *old(activation),
                    Stage { display_state: granted(asked), ..old(activation).context.stage },
                )
            },
            None => {
                &&& result == Err::<Value, Error>(bad_display_state())
                &&& *final(activation) == *old(activation)
            },
        },
{
    if let Some(mut display_state) = StageDisplayState::parse(state) {
        if display_state == StageDisplayState::FullScreen {
            display_state = StageDisplayState::FullScreenInteractive;
        }
        activation.context.stage.display_state = display_state;
    } else {
        return Err(
            Error::ArgumentError {
                code: 2008,
                message: "Error #2008: Parameter displayState must be one of the accepted values.",
            },
        );
    }
    Ok(Value::Undefined)
}

/// Reads `focus`: the object that gets the keyboard input, `Null` if there is
/// none.
pub fn get_focus(activation: &mut Activation, _this: Option<Object>) -> (result: Result<
    Value,
    Error,
>)
    ensures
        *final(activation) == *old(activation),
        result == Ok::<Value, Error>(
            match old(activation).context.focus {
                Some(object) => Value::Object(object),
                None => Value::Null,
            },
        ),
{
    Ok(
        match activation.context.focus {
            Some(object) => Value::Object(object),
            None => Value::Null,
        },
    )
}

/// Writes `focus`. No object takes the focus away; an object that can be
/// displayed gets it; any other object is refused and changes nothing.
pub fn set_focus(activation: &mut Activation, _this: Option<Object>, target: Option<Object>) -> (result:
    Result<Value, Error>)
    ensures
        match target {
            Some(object) if !object.is_displayed() => {
                &&& result == Err::<Value, Error>(bad_focus())
                &&& *final(activation) == *old(activation)
            },
            _ => {
                &&& result == Ok::<Value, Error>(Value::Undefined)
                &&& *final(activation) == (Activation {
                    context: UpdateContext { focus: target, ..old(activation).context },
                })
            },
        },
{
    match target {
        None => {
            activation.context.focus = None;
        },
        Some(object) => {
            if object.is_display_object() {
                activation.context.focus = Some(object);
            } else {
                return Err(Error::Refused("Cannot set focus to non-DisplayObject"));
            }
        },
    };
    Ok(Value::Undefined)
}

/// Reads `frameRate`.
pub fn get_frame_rate(activation: &mut Activation, _this: Option<Object>) -> (result: Result<
    Value,
    Error,
>)
    ensures
        *final(activation) == *old(activation),
        result == Ok::<Value, Error>(Value::Number(old(activation).context.frame_rate)),
{
    Ok(Value::Number(activation.context.frame_rate))
}

/// Writes `frameRate`.
pub fn set_frame_rate(
    activation: &mut Activation,
    _this: Option<Object>,
    new_frame_rate: Number,
) -> (result: Result<Value, Error>)
    ensures
        result == Ok::<Value, Error>(Value::Undefined),
        *final(activation) == (Activation {
            context: UpdateContext { frame_rate: new_frame_rate, ..old(activation).context },
        }),
{
    activation.context.frame_rate = new_frame_rate;
    Ok(Value::Undefined)
}

/// Reads `showDefaultContextMenu`.
pub fn get_show_default_context_menu(activation: &mut Activation, _this: Option<Object>) -> (result:
    Result<Value, Error>)
    ensures
        *final(activation) == *old(activation),
        result == Ok::<Value, Error>(Value::Bool(old(activation).context.stage.show_menu)),
{
    Ok(Value::Bool(activation.context.stage.show_menu))
}

/// Writes `showDefaultContextMenu`.
pub fn set_show_default_context_menu(
    activation: &mut Activation,
    _this: Option<Object>,
    show_default_context_menu: bool,
) -> (result: Result<Value, Error>)
    ensures
        result == Ok::<Value, Error>(Value::Undefined),
        *final(activation) == with_stage(
            *old(activation),
            Stage { show_menu: show_default_context_menu, ..old(activation).context.stage },
        ),
{
    activation.context.stage.show_menu = show_default_context_menu;
    Ok(Value::Undefined)
}

/// Reads `scaleMode`: the name of the scale mode.
pub fn get_scale_mode(activation: &mut Activation, _this: Option<Object>) -> (result: Result<
    Value,
    Error,
>)
    ensures
        *final(activation) == *old(activation),
        is_text(result, old(activation).context.stage.scale_mode.name()),
{
    Ok(Value::String(String::from_str(activation.context.stage.scale_mode.as_str())))
}

/// Writes `scaleMode`. A text that names a scale mode sets it. Any other text
/// is an argument error and changes nothing.
pub fn set_scale_mode(activation: &mut Activation, _this: Option<Object>, mode: &str) -> (result:
    Result<Value, Error>)
    ensures
        match StageScaleMode::named(mode@) {
            Some(scale_mode) => {
                &&& result == Ok::<Value, Error>(Value::Undefined)
                &&& *final(activation) == with_stage(
                    *old(activation),
                    Stage { scale_mode, ..old(activation).context.stage },
                )
            },
            None => {
                &&& result == Err::<Value, Error>(bad_scale_mode())
                &&& *final(activation) == *old(activation)
            },
        },
{
    if let Some(scale_mode) = StageScaleMode::parse(mode) {
        activation.context.stage.scale_mode = scale_mode;
    } else {
        return Err(
            Error::ArgumentError {
                code: 2008,
                message: "Error #2008: Parameter scaleMode must be one of the accepted values.",
            },
        );
    }
    Ok(Value::Undefined)
}

/// Reads `stageFocusRect` of the stage.
pub fn get_stage_focus_rect(activation: &mut Activation, this: Option<Object>) -> (result: Result<
    Value,
    Error,
>)
    ensures
        *final(activation) == *old(activation),
        result == Ok::<Value, Error>(
            if is_stage(this) {
                Value::Bool(old(activation).context.stage.stage_focus_rect)
            } else {
                Value::Undefined
            },
        ),
{
    if as_stage(this) {
        return Ok(Value::Bool(activation.context.stage.stage_focus_rect));
    }
    Ok(Value::Undefined)
}

/// Writes `stageFocusRect` of the stage.
pub fn set_stage_focus_rect(activation: &mut Activation, this: Option<Object>, rf: bool) -> (result:
    Result<Value, Error>)
    ensures
        result == Ok::<Value, Error>(Value::Undefined),
        *final(activation) == if is_stage(this) {
            with_stage(
                *old(activation),
                Stage { stage_focus_rect: rf, ..old(activation).context.stage },
            )
        } else {
            *old(activation)
        },
{
    if as_stage(this) {
        activation.context.stage.stage_focus_rect = rf;
    }
    Ok(Value::Undefined)
}

/// Reads `stageWidth` of the stage.
pub fn get_stage_width(activation: &mut Activation, this: Option<Object>) -> (result: Result<
    Value,
    Error,
>)
    ensures
        *final(activation) == *old(activation),
        result == Ok::<Value, Error>(
            if is_stage(this) {
                Value::Unsigned(old(activation).context.stage.stage_width)
            } else {
                Value::Undefined
            },
        ),
{
    if as_stage(this) {
        return Ok(Value::Unsigned(activation.context.stage.stage_width));
    }
    Ok(Value::Undefined)
}

/// Writes `stageWidth`: the property can be written, and nothing happens.
pub fn set_stage_width(activation: &mut Activation, _this: Option<Object>) -> (result: Result<
    Value,
    Error,
>)
    ensures
        *final(activation) == *old(activation),
        result == Ok::<Value, Error>(Value::Undefined),
{
    Ok(Value::Undefined)
}

/// Reads `stageHeight` of the stage.
pub fn get_stage_height(activation: &mut Activation, this: Option<Object>) -> (result: Result<
    Value,
    Error,
>)
    ensures
        *final(activation) == *old(activation),
        result == Ok::<Value, Error>(
            if is_stage(this) {
                Value::Unsigned(old(activation).context.stage.stage_height)
            } else {
                Value::Undefined
            },
        ),
{
    if as_stage(this) {
        return Ok(Value::Unsigned(activation.context.stage.stage_height));
    }
    Ok(Value::Undefined)
}

/// Writes `stageHeight`: the property can be written, and nothing happens.
pub fn set_stage_height(activation: &mut Activation, _this: Option<Object>) -> (result: Result<
    Value,
    Error,
>)
    ensures
        *final(activation) == *old(activation),
        result == Ok::<Value, Error>(Value::Undefined),
{
    Ok(Value::Undefined)
}

/// Reads `allowsFullScreen`: always true.
pub fn get_allows_full_screen(activation: &mut Activation, _this: Option<Object>) -> (result:
    Result<Value, Error>)
    ensures
        *final(activation) == *old(activation),
        result == Ok::<Value, Error>(Value::Bool(true)),
{
    Ok(Value::Bool(true))
}

/// Reads `allowsFullScreenInteractive`: always false.
pub fn get_allows_full_screen_interactive(
    activation: &mut Activation,
    _this: Option<Object>,
) -> (result: Result<Value, Error>)
    ensures
        *final(activation) == *old(activation),
        result == Ok::<Value, Error>(Value::Bool(false)),
{
    Ok(Value::Bool(false))
}

/// Reads `quality`: the name of the quality.
pub fn get_quality(activation: &mut Activation, _this: Option<Object>) -> (result: Result<
    Value,
    Error,
>)
    ensures
        *final(activation) == *old(activation),
        is_text(result, old(activation).context.stage.quality.name()),
{
    let quality = activation.context.stage.quality.into_avm_str();
    Ok(Value::String(String::from_str(quality)))
}

/// Writes `quality`. A text that names a quality sets it; any other text
/// changes nothing and is no error.
pub fn set_quality(activation: &mut Activation, _this: Option<Object>, quality: &str) -> (result:
    Result<Value, Error>)
    ensures
        result == Ok::<Value, Error>(Value::Undefined),
        *final(activation) == match StageQuality::named(quality@) {
            Some(quality) => with_stage(
                *old(activation),
                Stage { quality, ..old(activation).context.stage },
            ),
            None => *old(activation),
        },
{
    if let Some(quality) = StageQuality::parse(quality) {
        activation.context.stage.quality = quality;
    }
    Ok(Value::Undefined)
}

/// Reads `stage3Ds` of the stage: its 3D surfaces, in order, as a new array.
pub fn get_stage3ds(activation: &mut Activation, this: Option<Object>) -> (result: Result<
    Value,
    Error,
>)
    ensures
        *final(activation) == *old(activation),
        if is_stage(this) {
            result matches Ok(Value::Array(surfaces)) && surfaces@ == old(
                activation,
            ).context.stage.stage3ds@
        } else {
            result == Ok::<Value, Error>(Value::Undefined)
        },
{
    if as_stage(this) {
        let mut surfaces: Vec<Object> = Vec::new();
        let mut i: usize = 0;
        while i < activation.context.stage.stage3ds.len()
            invariant
                *activation == *old(activation),
                i <= activation.context.stage.stage3ds@.len(),
                surfaces@ == activation.context.stage.stage3ds@.take(i as int),
            decreases activation.context.stage.stage3ds@.len() - i,
        {
            surfaces.push(activation.context.stage.stage3ds[i]);
            proof {
                let all = activation.context.stage.stage3ds@;
                assert(all.take(i as int + 1) =~= all.take(i as int).push(all[i as int]));
            }
            i = i + 1;
        }
        proof {
            let all = activation.context.stage.stage3ds@;
            assert(all.take(i as int) =~= all);
        }
        return Ok(Value::Array(surfaces));
    }
    Ok(Value::Undefined)
}

/// Calls `invalidate` on the stage: the stage asks to be drawn again.
pub fn invalidate(activation: &mut Activation, this: Option<Object>) -> (result: Result<
    Value,
    Error,
>)
    ensures
        result == Ok::<Value, Error>(Value::Undefined),
        *final(activation) == if is_stage(this) {
            with_stage(*old(activation), Stage { invalidated: true, ..old(activation).context.stage })
        } else {
            *old(activation)
        },
{
    if as_stage(this) {
        activation.context.stage.invalidated = true;
    }
    Ok(Value::Undefined)
}

/// Reads `fullScreenSourceRect`: there is none.
pub fn get_full_screen_source_rect(activation: &mut Activation, _this: Option<Object>) -> (result:
    Result<Value, Error>)
    ensures
        *final(activation) == *old(activation),
        result == Ok::<Value, Error>(Value::Undefined),
{
    Ok(Value::Undefined)
}

/// Writes `fullScreenSourceRect`: nothing happens.
pub fn set_full_screen_source_rect(activation: &mut Activation, _this: Option<Object>) -> (result:
    Result<Value, Error>)
    ensures
        *final(activation) == *old(activation),
        result == Ok::<Value, Error>(Value::Undefined),
{
    Ok(Value::Undefined)
}

/// Reads `fullScreenHeight`: always 768.
pub fn get_full_screen_height(activation: &mut Activation, _this: Option<Object>) -> (result:
    Result<Value, Error>)
    ensures
        *final(activation) == *old(activation),
        result == Ok::<Value, Error>(Value::Integer(768)),
{
    Ok(Value::Integer(768))
}

/// Reads `fullScreenWidth`: always 1024.
pub fn get_full_screen_width(activation: &mut Activation, _this: Option<Object>) -> (result: Result<
    Value,
    Error,
>)
    ensures
        *final(activation) == *old(activation),
        result == Ok::<Value, Error>(Value::Integer(1024)),
{
    Ok(Value::Integer(1024))
}

} // verus!
