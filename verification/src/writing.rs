//! Assigning variables: user variables of an instance, arguments of a call,
//! and the table of built-in variables.

use vstd::prelude::*;
use crate::error::Error;
use crate::error::ErrorModel;
use crate::error::plain_result;
use crate::game::BackgroundLayer;
use crate::game::Context;
use crate::game::ContextModel;
use crate::game::Game;
use crate::game::GameModel;
use crate::game::Host;
use crate::game::RoomView;
use crate::game::SceneChange;
use crate::game::Status;
use crate::game::TextsModel;
use crate::game::values_view;
use crate::instance::InstanceModel;
use crate::instance::InstanceState;
use crate::number::Real;
use crate::number::ONE_BITS;
use crate::reading::layer_of;
use crate::reading::layer_slot;
use crate::reading::view_of;
use crate::value::Value;
use crate::value::ValueModel;
use crate::variable::InstanceVariable;

verus! {

broadcast use vstd::std_specs::hash::group_hash_axioms;

/// The type of the event that tells a game that something ran out.
pub const EVENT_OTHER: usize = 7;

/// The number of the event for running out of lives.
pub const EVENT_NO_MORE_LIVES: usize = 6;

/// The number of the event for running out of health.
pub const EVENT_NO_MORE_HEALTH: usize = 9;

/// True when a count goes from above zero to zero or below.
pub open spec fn runs_out(before: i32, after: i32) -> bool {
    before > 0 && after <= 0
}

/// True when an amount goes from above zero to zero or below.
pub open spec fn drains(before: Real, after: Real) -> bool {
    (Real { bits: 0 }).less(before) && (after.less(Real { bits: 0 }) || after.is_zero())
}

/// The state of an instance after a variable was assigned that is one of its
/// plain values and that the runtime sets by itself; `None` for any other
/// variable. Where the assignment changes the place, the scale, the angle or
/// the mask of the instance, the bounding box is marked stale.
pub open spec fn write_state(s: InstanceState, var: InstanceVariable, value: ValueModel) -> Option<
    InstanceState,
> {
    match var {
        InstanceVariable::X => Some(
            if value.to_real() != s.x {
                InstanceState { x: value.to_real(), bbox_is_stale: true, ..s }
            } else {
                s
            },
        ),
        InstanceVariable::Y => Some(
            if value.to_real() != s.y {
                InstanceState { y: value.to_real(), bbox_is_stale: true, ..s }
            } else {
                s
            },
        ),
        InstanceVariable::Xprevious => Some(InstanceState { xprevious: value.to_real(), ..s }),
        InstanceVariable::Yprevious => Some(InstanceState { yprevious: value.to_real(), ..s }),
        InstanceVariable::Xstart => Some(InstanceState { xstart: value.to_real(), ..s }),
        InstanceVariable::Ystart => Some(InstanceState { ystart: value.to_real(), ..s }),
        InstanceVariable::Friction => Some(InstanceState { friction: value.to_real(), ..s }),
        InstanceVariable::Gravity => Some(InstanceState { gravity: value.to_real(), ..s }),
        InstanceVariable::GravityDirection => Some(InstanceState { gravity_direction: value.to_real(), ..s }),
        InstanceVariable::Solid => Some(InstanceState { solid: value.truthy(), ..s }),
        InstanceVariable::Visible => Some(InstanceState { visible: value.truthy(), ..s }),
        InstanceVariable::Persistent => Some(InstanceState { persistent: value.truthy(), ..s }),
        InstanceVariable::Depth => Some(InstanceState { depth: value.to_real(), ..s }),
        InstanceVariable::ImageIndex => Some(InstanceState { image_index: value.to_real(), ..s }),
        InstanceVariable::ImageXscale => Some(
            if value.to_real() != s.image_xscale {
                InstanceState { image_xscale: value.to_real(), bbox_is_stale: true, ..s }
            } else {
                s
            },
        ),
        InstanceVariable::ImageYscale => Some(
            if value.to_real() != s.image_yscale {
                InstanceState { image_yscale: value.to_real(), bbox_is_stale: true, ..s }
            } else {
                s
            },
        ),
        InstanceVariable::ImageAngle => Some(
            if value.to_real() != s.image_angle {
                InstanceState { image_angle: value.to_real(), bbox_is_stale: true, ..s }
            } else {
                s
            },
        ),
        InstanceVariable::ImageAlpha => Some(InstanceState { image_alpha: value.to_real(), ..s }),
        InstanceVariable::ImageBlend => Some(InstanceState { image_blend: value.to_i32(), ..s }),
        InstanceVariable::ImageSpeed => Some(InstanceState { image_speed: value.to_real(), ..s }),
        InstanceVariable::MaskIndex => Some(
            if value.to_i32() != s.mask_index {
                InstanceState { mask_index: value.to_i32(), bbox_is_stale: true, ..s }
            } else {
                s
            },
        ),
        InstanceVariable::PathPositionprevious => Some(InstanceState { path_positionprevious: value.to_real(), ..s }),
        InstanceVariable::PathSpeed => Some(InstanceState { path_speed: value.to_real(), ..s }),
        InstanceVariable::PathScale => Some(InstanceState { path_scale: value.to_real(), ..s }),
        InstanceVariable::PathOrientation => Some(InstanceState { path_orientation: value.to_real(), ..s }),
        InstanceVariable::PathEndAction => Some(InstanceState { path_endaction: value.to_i32(), ..s }),
        InstanceVariable::TimelineIndex => Some(InstanceState { timeline_index: value.to_i32(), ..s }),
        InstanceVariable::TimelinePosition => Some(InstanceState { timeline_position: value.to_real(), ..s }),
        InstanceVariable::TimelineSpeed => Some(InstanceState { timeline_speed: value.to_real(), ..s }),
        InstanceVariable::TimelineRunning => Some(InstanceState { timeline_running: value.truthy(), ..s }),
        InstanceVariable::TimelineLoop => Some(InstanceState { timeline_loop: value.truthy(), ..s }),
        InstanceVariable::ImageSingle => Some(
            if value.to_real().non_negative() {
                InstanceState {
                    image_index: value.to_real(),
                    image_speed: Real { bits: 0 },
                    ..s
                }
            } else {
                InstanceState { image_speed: Real { bits: ONE_BITS }, ..s }
            },
        ),
        _ => None,
    }
}

/// The plain values of the game after a variable was assigned that is one
/// of them and that the runtime sets by itself, or the error that the
/// assignment is; `None` for any other variable.
pub open spec fn write_status(status: Status, var: InstanceVariable, value: ValueModel) -> Option<
    Result<Status, ErrorModel>,
> {
    match var {
        InstanceVariable::Room => Some(
            Ok(Status { scene_change: Some(SceneChange::Room(value.to_i32())), ..status }),
        ),
        InstanceVariable::RoomSpeed => Some(
            if value.to_i32() <= 0 {
                Err(ErrorModel::InvalidRoomSpeed(value.to_i32()))
            } else {
                Ok(Status { room_speed: value.to_i32() as u32, ..status })
            },
        ),
        InstanceVariable::BackgroundColor => Some(
            Ok(Status { room_colour: value.to_i32() as u32, ..status }),
        ),
        InstanceVariable::TransitionKind => Some(Ok(Status { transition_kind: value.to_i32(), ..status })),
        InstanceVariable::TransitionSteps => Some(Ok(Status { transition_steps: value.to_i32(), ..status })),
        InstanceVariable::Score => Some(Ok(Status { score: value.to_i32(), ..status })),
        InstanceVariable::BackgroundShowcolor => Some(Ok(Status { show_room_colour: value.truthy(), ..status })),
        InstanceVariable::ViewEnabled => Some(Ok(Status { views_enabled: value.truthy(), ..status })),
        InstanceVariable::CursorSprite => Some(Ok(Status { cursor_sprite: value.to_i32(), ..status })),
        InstanceVariable::ShowScore => Some(Ok(Status { show_score: value.truthy(), ..status })),
        InstanceVariable::ShowLives => Some(Ok(Status { show_lives: value.truthy(), ..status })),
        InstanceVariable::ShowHealth => Some(Ok(Status { show_health: value.truthy(), ..status })),
        InstanceVariable::ErrorOccurred => Some(Ok(Status { error_occurred: value.truthy(), ..status })),
        InstanceVariable::MouseButton => Some(
            Ok(if value.to_i32() > 0 { Status { mouse_button: value.to_i32(), ..status } } else { status }),
        ),
        InstanceVariable::MouseLastbutton => Some(
            Ok(if value.to_i32() > 0 { Status { mouse_lastbutton: value.to_i32(), ..status } } else { status }),
        ),
        InstanceVariable::KeyboardKey => Some(
            Ok(if value.to_i32() > 0 { Status { keyboard_key: value.to_i32(), ..status } } else { status }),
        ),
        InstanceVariable::KeyboardLastkey => Some(
            Ok(if value.to_i32() > 0 { Status { keyboard_lastkey: value.to_i32(), ..status } } else { status }),
        ),
        _ => None,
    }
}

/// A background layer after a variable was assigned that is one of its
/// values; `None` for any other variable.
pub open spec fn write_layer(layer: BackgroundLayer, var: InstanceVariable, value: ValueModel)
    -> Option<BackgroundLayer> {
    match var {
        InstanceVariable::BackgroundVisible => Some(BackgroundLayer { visible: value.truthy(), ..layer }),
        InstanceVariable::BackgroundForeground => Some(BackgroundLayer { is_foreground: value.truthy(), ..layer }),
        InstanceVariable::BackgroundIndex => Some(BackgroundLayer { background_id: value.to_i32(), ..layer }),
        InstanceVariable::BackgroundX => Some(BackgroundLayer { x_offset: value.to_real(), ..layer }),
        InstanceVariable::BackgroundY => Some(BackgroundLayer { y_offset: value.to_real(), ..layer }),
        InstanceVariable::BackgroundHtiled => Some(BackgroundLayer { tile_horizontal: value.truthy(), ..layer }),
        InstanceVariable::BackgroundVtiled => Some(BackgroundLayer { tile_vertical: value.truthy(), ..layer }),
        InstanceVariable::BackgroundXscale => Some(BackgroundLayer { xscale: value.to_real(), ..layer }),
        InstanceVariable::BackgroundYscale => Some(BackgroundLayer { yscale: value.to_real(), ..layer }),
        InstanceVariable::BackgroundHspeed => Some(BackgroundLayer { hspeed: value.to_real(), ..layer }),
        InstanceVariable::BackgroundVspeed => Some(BackgroundLayer { vspeed: value.to_real(), ..layer }),
        InstanceVariable::BackgroundBlend => Some(BackgroundLayer { blend: value.to_i32(), ..layer }),
        InstanceVariable::BackgroundAlpha => Some(BackgroundLayer { alpha: value.to_real(), ..layer }),
        _ => None,
    }
}

/// A view after a variable was assigned that is one of its values; `None`
/// for any other variable.
pub open spec fn write_view(view: RoomView, var: InstanceVariable, value: ValueModel) -> Option<
    RoomView,
> {
    match var {
        InstanceVariable::ViewVisible => Some(RoomView { visible: value.truthy(), ..view }),
        InstanceVariable::ViewXview => Some(RoomView { source_x: value.to_i32(), ..view }),
        InstanceVariable::ViewYview => Some(RoomView { source_y: value.to_i32(), ..view }),
        InstanceVariable::ViewWview => Some(RoomView { source_w: value.to_i32(), ..view }),
        InstanceVariable::ViewHview => Some(RoomView { source_h: value.to_i32(), ..view }),
        InstanceVariable::ViewXport => Some(RoomView { port_x: value.to_i32(), ..view }),
        InstanceVariable::ViewYport => Some(RoomView { port_y: value.to_i32(), ..view }),
        InstanceVariable::ViewWport => Some(RoomView { port_w: value.to_i32(), ..view }),
        InstanceVariable::ViewHport => Some(RoomView { port_h: value.to_i32(), ..view }),
        InstanceVariable::ViewAngle => Some(RoomView { angle: value.to_real(), ..view }),
        InstanceVariable::ViewHborder => Some(RoomView { follow_hborder: value.to_i32(), ..view }),
        InstanceVariable::ViewVborder => Some(RoomView { follow_vborder: value.to_i32(), ..view }),
        InstanceVariable::ViewHspeed => Some(RoomView { follow_hspeed: value.to_i32(), ..view }),
        InstanceVariable::ViewVspeed => Some(RoomView { follow_vspeed: value.to_i32(), ..view }),
        InstanceVariable::ViewObject => Some(RoomView { follow_target: value.to_i32(), ..view }),
        _ => None,
    }
}

/// The texts of the game after a variable was assigned that is one of them;
/// `None` for any other variable.
pub open spec fn write_text(texts: TextsModel, var: InstanceVariable, value: ValueModel) -> Option<
    TextsModel,
> {
    match var {
        InstanceVariable::RoomCaption => Some(TextsModel { caption: value.to_bytes(), ..texts }),
        InstanceVariable::CaptionScore => Some(TextsModel { score_caption: value.to_bytes(), ..texts }),
        InstanceVariable::CaptionLives => Some(TextsModel { lives_caption: value.to_bytes(), ..texts }),
        InstanceVariable::CaptionHealth => Some(TextsModel { health_caption: value.to_bytes(), ..texts }),
        InstanceVariable::ErrorLast => Some(TextsModel { error_last: value.to_bytes(), ..texts }),
        _ => None,
    }
}

/// The frame after an argument was assigned, and whether that is an error.
/// A slot that was passed can be assigned, and so can any slot that the
/// frame has where the game lets unset arguments read as zero; to assign
/// beyond the frame then does nothing. Everything else is an error.
pub open spec fn write_argument(game: GameModel, ctx: ContextModel, slot: usize, value: ValueModel)
    -> (ContextModel, Result<(), ErrorModel>) {
    if slot < ctx.arguments.len() {
        if slot < ctx.argument_count || game.status.uninit_args_are_zero {
            (ContextModel { arguments: ctx.arguments.update(slot as int, value), ..ctx }, Ok(()))
        } else {
            (ctx, Err(ErrorModel::UninitializedArgument(slot)))
        }
    } else if game.status.uninit_args_are_zero {
        (ctx, Ok(()))
    } else {
        (ctx, Err(ErrorModel::UninitializedArgument(slot)))
    }
}

/// The state of an instance after its sprite was assigned: a sprite other
/// than the one before marks the bounding box stale, and a frame that the
/// new sprite does not have goes back to the first. A sprite has the frame
/// of an image index if it has more frames than the index is, which is the
/// same as having more than the whole part of the index.
pub open spec fn write_sprite(game: GameModel, s: InstanceState, sprite_index: i32)
    -> InstanceState {
    let frames = match game.assets.sprite(sprite_index as int) {
        Some(sprite) => Real::of_int(sprite.frame_count as int),
        None => Real { bits: 0 },
    };
    let image_index = if frames.at_most(s.image_index) {
        Real { bits: 0 }
    } else {
        s.image_index
    };
    if sprite_index != s.sprite_index {
        InstanceState { sprite_index, bbox_is_stale: true, image_index, ..s }
    } else {
        InstanceState { image_index, ..s }
    }
}

/// True for the variables whose assignment the host completes: the four of
/// motion, which it reconciles, and the position on a path, for which it
/// looks up the speed of the path.
pub open spec fn host_completes(var: InstanceVariable) -> bool {
    var == InstanceVariable::Hspeed || var == InstanceVariable::Vspeed || var
        == InstanceVariable::Direction || var == InstanceVariable::Speed || var
        == InstanceVariable::PathPosition
}

/// The state of an instance after one of the four variables of motion was
/// assigned and the host gave the two values that go with it: speed and
/// direction for a horizontal or vertical speed, horizontal and vertical
/// speed for a speed or direction.
pub open spec fn reconciled(
    s: InstanceState,
    var: InstanceVariable,
    value: Real,
    first: Real,
    second: Real,
) -> InstanceState {
    match var {
        InstanceVariable::Hspeed => InstanceState {
            hspeed: value,
            speed: first,
            direction: second,
            ..s
        },
        InstanceVariable::Vspeed => InstanceState {
            vspeed: value,
            speed: first,
            direction: second,
            ..s
        },
        InstanceVariable::Direction => InstanceState {
            direction: value,
            hspeed: first,
            vspeed: second,
            ..s
        },
        InstanceVariable::Speed => InstanceState { speed: value, hspeed: first, vspeed: second, ..s },
        _ => s,
    }
}

/// The state of an instance after its position on a path was assigned: the
/// position is held between zero and one, and the speed of the path there
/// is what the host gave, or what it was if the instance has no path.
pub open spec fn repositioned(s: InstanceState, value: Real, point_speed: Real) -> InstanceState {
    InstanceState { path_position: value.clamped_to_unit(), path_pointspeed: point_speed, ..s }
}

/// What an assignment that the host completes leaves behind, whatever the
/// host gave: the instance is as `reconciled` or `repositioned` says for
/// the numbers that it now holds, and nothing else has changed.
pub open spec fn completed(
    before: GameModel,
    after: GameModel,
    handle: usize,
    var: InstanceVariable,
    value: ValueModel,
) -> bool {
    let s = before.instances[handle as int].state;
    let t = after.instances[handle as int].state;
    &&& after == before.with_instance(
        handle,
        InstanceModel { state: t, ..before.instances[handle as int] },
    )
    &&& t == match var {
        InstanceVariable::Hspeed | InstanceVariable::Vspeed => reconciled(
            s,
            var,
            value.to_real(),
            t.speed,
            t.direction,
        ),
        InstanceVariable::Direction | InstanceVariable::Speed => reconciled(
            s,
            var,
            value.to_real(),
            t.hspeed,
            t.vspeed,
        ),
        _ => repositioned(s, value.to_real(), t.path_pointspeed),
    }
}

/// The slot that a variable names if it names an argument.
pub open spec fn argument_named(var: InstanceVariable, index: u32) -> Option<usize> {
    if var == InstanceVariable::Argument {
        Some(index as usize)
    } else {
        var.spec_argument_slot()
    }
}

/// What the assignment of a variable does that takes more than one plain
/// value to say; `None` where the host has a say.
pub open spec fn write_special(
    game: GameModel,
    ctx: ContextModel,
    handle: usize,
    inst: InstanceModel,
    var: InstanceVariable,
    index: u32,
    value: ValueModel,
) -> Option<(GameModel, ContextModel, Result<(), ErrorModel>)> {
    let s = inst.state;
    if let Some(slot) = argument_named(var, index) {
        let (frame, res) = write_argument(game, ctx, slot, value);
        Some((game, frame, res))
    } else if let Some(texts) = write_text(game.texts, var, value) {
        Some(
            (
                GameModel {
                    texts,
                    status: if var == InstanceVariable::RoomCaption {
                        Status { caption_stale: true, ..game.status }
                    } else {
                        game.status
                    },
                    ..game
                },
                ctx,
                Ok(()),
            ),
        )
    } else {
        match var {
            InstanceVariable::Alarm => Some(
                (
                    game.with_instance(
                        handle,
                        InstanceModel { alarms: inst.alarms.insert(index, value.to_i32()), ..inst },
                    ),
                    ctx,
                    Ok(()),
                ),
            ),
            InstanceVariable::SpriteIndex => Some(
                (
                    game.with_instance(
                        handle,
                        InstanceModel { state: write_sprite(game, s, value.to_i32()), ..inst },
                    ),
                    ctx,
                    Ok(()),
                ),
            ),
            InstanceVariable::Hspeed | InstanceVariable::Vspeed | InstanceVariable::Direction
            | InstanceVariable::Speed => None,
            InstanceVariable::PathPosition => if game.assets.has_path(s.path_index as int) {
                None
            } else {
                Some(
                    (
                        game.with_instance(
                            handle,
                            InstanceModel {
                                state: repositioned(s, value.to_real(), s.path_pointspeed),
                                ..inst
                            },
                        ),
                        ctx,
                        Ok(()),
                    ),
                )
            },
            InstanceVariable::Lives => if runs_out(game.status.lives, value.to_i32()) {
                None
            } else {
                Some((game.with_status(Status { lives: value.to_i32(), ..game.status }), ctx, Ok(())))
            },
            InstanceVariable::Health => if drains(game.status.health, value.to_real()) {
                None
            } else {
                Some(
                    (game.with_status(Status { health: value.to_real(), ..game.status }), ctx, Ok(())),
                )
            },
            _ => Some((game, ctx, Err(ErrorModel::ReadOnlyVariable(var)))),
        }
    }
}

/// What the assignment of a built-in variable does, where the runtime alone
/// decides it: the game and the frame after it, and whether it is an error.
/// `None` where the host has a say: the four variables of motion, a
/// position on a path that the instance has, and lives or health that run
/// out. A handle that the list does not hold changes nothing.
pub open spec fn write_variable(
    game: GameModel,
    ctx: ContextModel,
    handle: usize,
    var: InstanceVariable,
    index: u32,
    value: ValueModel,
) -> Option<(GameModel, ContextModel, Result<(), ErrorModel>)> {
    match game.instance(handle) {
        None => Some((game, ctx, Ok(()))),
        Some(inst) => if let Some(state) = write_state(inst.state, var, value) {
            Some((game.with_instance(handle, InstanceModel { state, ..inst }), ctx, Ok(())))
        } else if let Some(res) = write_status(game.status, var, value) {
            match res {
                Ok(status) => Some((game.with_status(status), ctx, Ok(()))),
                Err(e) => Some((game, ctx, Err(e))),
            }
        } else if let Some(layer) = write_layer(layer_of(game.backgrounds, index), var, value) {
            Some(
                (
                    GameModel {
                        backgrounds: game.backgrounds.update(layer_slot(index), layer),
                        ..game
                    },
                    ctx,
                    Ok(()),
                ),
            )
        } else if let Some(view) = write_view(view_of(game.views, index), var, value) {
            Some((GameModel { views: game.views.update(layer_slot(index), view), ..game }, ctx, Ok(())))
        } else {
            write_special(game, ctx, handle, inst, var, index, value)
        },
    }
}

/// The view of a result that holds plain values of the game.
pub open spec fn status_result(r: Option<Result<Status, Error>>) -> Option<
    Result<Status, ErrorModel>,
> {
    match r {
        Some(Ok(s)) => Some(Ok(s)),
        Some(Err(e)) => Some(Err(e@)),
        None => None,
    }
}

impl InstanceState {
    /// Assigns a variable that is one of the plain values of the instance
    /// and that the runtime sets by itself; `None` for any other.
    pub fn assign(&self, var: InstanceVariable, value: &Value) -> (r: Option<InstanceState>)
        ensures
            r == write_state(*self, var, value@),
    {
        let s = *self;
        match var {
            InstanceVariable::X => {
                let v = value.to_real();
                if v != s.x {
                    Some(InstanceState { x: v, bbox_is_stale: true, ..s })
                } else {
                    Some(s)
                }
            },
            InstanceVariable::Y => {
                let v = value.to_real();
                if v != s.y {
                    Some(InstanceState { y: v, bbox_is_stale: true, ..s })
                } else {
                    Some(s)
                }
            },
            InstanceVariable::Xprevious => Some(InstanceState { xprevious: value.to_real(), ..s }),
            InstanceVariable::Yprevious => Some(InstanceState { yprevious: value.to_real(), ..s }),
            InstanceVariable::Xstart => Some(InstanceState { xstart: value.to_real(), ..s }),
            InstanceVariable::Ystart => Some(InstanceState { ystart: value.to_real(), ..s }),
            InstanceVariable::Friction => Some(InstanceState { friction: value.to_real(), ..s }),
            InstanceVariable::Gravity => Some(InstanceState { gravity: value.to_real(), ..s }),
            InstanceVariable::GravityDirection => Some(InstanceState { gravity_direction: value.to_real(), ..s }),
            InstanceVariable::Solid => Some(InstanceState { solid: value.is_truthy(), ..s }),
            InstanceVariable::Visible => Some(InstanceState { visible: value.is_truthy(), ..s }),
            InstanceVariable::Persistent => Some(InstanceState { persistent: value.is_truthy(), ..s }),
            InstanceVariable::Depth => Some(InstanceState { depth: value.to_real(), ..s }),
            InstanceVariable::ImageIndex => Some(InstanceState { image_index: value.to_real(), ..s }),
            InstanceVariable::ImageXscale => {
                let v = value.to_real();
                if v != s.image_xscale {
                    Some(InstanceState { image_xscale: v, bbox_is_stale: true, ..s })
                } else {
                    Some(s)
                }
            },
            InstanceVariable::ImageYscale => {
                let v = value.to_real();
                if v != s.image_yscale {
                    Some(InstanceState { image_yscale: v, bbox_is_stale: true, ..s })
                } else {
                    Some(s)
                }
            },
            InstanceVariable::ImageAngle => {
                let v = value.to_real();
                if v != s.image_angle {
                    Some(InstanceState { image_angle: v, bbox_is_stale: true, ..s })
                } else {
                    Some(s)
                }
            },
            InstanceVariable::ImageAlpha => Some(InstanceState { image_alpha: value.to_real(), ..s }),
            InstanceVariable::ImageBlend => Some(InstanceState { image_blend: value.to_i32(), ..s }),
            InstanceVariable::ImageSpeed => Some(InstanceState { image_speed: value.to_real(), ..s }),
            InstanceVariable::MaskIndex => {
                let v = value.to_i32();
                if v != s.mask_index {
                    Some(InstanceState { mask_index: v, bbox_is_stale: true, ..s })
                } else {
                    Some(s)
                }
            },
            InstanceVariable::PathPositionprevious => Some(InstanceState { path_positionprevious: value.to_real(), ..s }),
            InstanceVariable::PathSpeed => Some(InstanceState { path_speed: value.to_real(), ..s }),
            InstanceVariable::PathScale => Some(InstanceState { path_scale: value.to_real(), ..s }),
            InstanceVariable::PathOrientation => Some(InstanceState { path_orientation: value.to_real(), ..s }),
            InstanceVariable::PathEndAction => Some(InstanceState { path_endaction: value.to_i32(), ..s }),
            InstanceVariable::TimelineIndex => Some(InstanceState { timeline_index: value.to_i32(), ..s }),
            InstanceVariable::TimelinePosition => Some(InstanceState { timeline_position: value.to_real(), ..s }),
            InstanceVariable::TimelineSpeed => Some(InstanceState { timeline_speed: value.to_real(), ..s }),
            InstanceVariable::TimelineRunning => Some(InstanceState { timeline_running: value.is_truthy(), ..s }),
            InstanceVariable::TimelineLoop => Some(InstanceState { timeline_loop: value.is_truthy(), ..s }),
            InstanceVariable::ImageSingle => {
                let img = value.to_real();
                if img.is_non_negative() {
                    Some(InstanceState { image_index: img, image_speed: Real { bits: 0 }, ..s })
                } else {
                    Some(InstanceState { image_speed: Real { bits: ONE_BITS }, ..s })
                }
            },
            _ => None,
        }
    }
}

impl InstanceState {
    /// The state after one of the four variables of motion was assigned and
    /// the host gave the two values that go with it.
    pub fn reconcile(&self, var: InstanceVariable, value: Real, first: Real, second: Real) -> (r:
        InstanceState)
        ensures
            r == reconciled(*self, var, value, first, second),
    {
        let s = *self;
        match var {
            InstanceVariable::Hspeed => InstanceState {
                hspeed: value,
                speed: first,
                direction: second,
                ..s
            },
            InstanceVariable::Vspeed => InstanceState {
                vspeed: value,
                speed: first,
                direction: second,
                ..s
            },
            InstanceVariable::Direction => InstanceState {
                direction: value,
                hspeed: first,
                vspeed: second,
                ..s
            },
            InstanceVariable::Speed => InstanceState {
                speed: value,
                hspeed: first,
                vspeed: second,
                ..s
            },
            _ => s,
        }
    }

    /// The state after the position on a path was assigned and the speed
    /// of the path there is known.
    pub fn reposition(&self, value: Real, point_speed: Real) -> (r: InstanceState)
        ensures
            r == repositioned(*self, value, point_speed),
    {
        InstanceState {
            path_position: value.clamp_to_unit(),
            path_pointspeed: point_speed,
            ..*self
        }
    }
}

impl Status {
    /// Assigns a variable that is one of the plain values of the game and
    /// that the runtime sets by itself; `None` for any other.
    pub fn assign(&self, var: InstanceVariable, value: &Value) -> (r: Option<Result<Status, Error>>)
        ensures
            status_result(r) == write_status(*self, var, value@),
    {
        let status = *self;
        match var {
            InstanceVariable::Room => Some(
                Ok(Status { scene_change: Some(SceneChange::Room(value.to_i32())), ..status }),
            ),
            InstanceVariable::RoomSpeed => {
                let speed = value.to_i32();
                if speed <= 0 {
                    Some(Err(Error::InvalidRoomSpeed(speed)))
                } else {
                    Some(Ok(Status { room_speed: speed as u32, ..status }))
                }
            },
            InstanceVariable::BackgroundColor => Some(
                Ok(Status { room_colour: value.to_i32() as u32, ..status }),
            ),
            InstanceVariable::TransitionKind => Some(Ok(Status { transition_kind: value.to_i32(), ..status })),
            InstanceVariable::TransitionSteps => Some(Ok(Status { transition_steps: value.to_i32(), ..status })),
            InstanceVariable::Score => Some(Ok(Status { score: value.to_i32(), ..status })),
            InstanceVariable::BackgroundShowcolor => Some(Ok(Status { show_room_colour: value.is_truthy(), ..status })),
            InstanceVariable::ViewEnabled => Some(Ok(Status { views_enabled: value.is_truthy(), ..status })),
            InstanceVariable::CursorSprite => Some(Ok(Status { cursor_sprite: value.to_i32(), ..status })),
            InstanceVariable::ShowScore => Some(Ok(Status { show_score: value.is_truthy(), ..status })),
            InstanceVariable::ShowLives => Some(Ok(Status { show_lives: value.is_truthy(), ..status })),
            InstanceVariable::ShowHealth => Some(Ok(Status { show_health: value.is_truthy(), ..status })),
            InstanceVariable::ErrorOccurred => Some(Ok(Status { error_occurred: value.is_truthy(), ..status })),
            InstanceVariable::MouseButton => {
                let v = value.to_i32();
                Some(Ok(if v > 0 { Status { mouse_button: v, ..status } } else { status }))
            },
            InstanceVariable::MouseLastbutton => {
                let v = value.to_i32();
                Some(Ok(if v > 0 { Status { mouse_lastbutton: v, ..status } } else { status }))
            },
            InstanceVariable::KeyboardKey => {
                let v = value.to_i32();
                Some(Ok(if v > 0 { Status { keyboard_key: v, ..status } } else { status }))
            },
            InstanceVariable::KeyboardLastkey => {
                let v = value.to_i32();
                Some(Ok(if v > 0 { Status { keyboard_lastkey: v, ..status } } else { status }))
            },
            _ => None,
        }
    }
}

impl BackgroundLayer {
    /// Assigns a variable that is a value of the layer; `None` for any
    /// other.
    pub fn assign(&self, var: InstanceVariable, value: &Value) -> (r: Option<BackgroundLayer>)
        ensures
            r == write_layer(*self, var, value@),
    {
        let layer = *self;
        match var {
            InstanceVariable::BackgroundVisible => Some(BackgroundLayer { visible: value.is_truthy(), ..layer }),
            InstanceVariable::BackgroundForeground => Some(BackgroundLayer { is_foreground: value.is_truthy(), ..layer }),
            InstanceVariable::BackgroundIndex => Some(BackgroundLayer { background_id: value.to_i32(), ..layer }),
            InstanceVariable::BackgroundX => Some(BackgroundLayer { x_offset: value.to_real(), ..layer }),
            InstanceVariable::BackgroundY => Some(BackgroundLayer { y_offset: value.to_real(), ..layer }),
            InstanceVariable::BackgroundHtiled => Some(BackgroundLayer { tile_horizontal: value.is_truthy(), ..layer }),
            InstanceVariable::BackgroundVtiled => Some(BackgroundLayer { tile_vertical: value.is_truthy(), ..layer }),
            InstanceVariable::BackgroundXscale => Some(BackgroundLayer { xscale: value.to_real(), ..layer }),
            InstanceVariable::BackgroundYscale => Some(BackgroundLayer { yscale: value.to_real(), ..layer }),
            InstanceVariable::BackgroundHspeed => Some(BackgroundLayer { hspeed: value.to_real(), ..layer }),
            InstanceVariable::BackgroundVspeed => Some(BackgroundLayer { vspeed: value.to_real(), ..layer }),
            InstanceVariable::BackgroundBlend => Some(BackgroundLayer { blend: value.to_i32(), ..layer }),
            InstanceVariable::BackgroundAlpha => Some(BackgroundLayer { alpha: value.to_real(), ..layer }),
            _ => None,
        }
    }
}

impl RoomView {
    /// Assigns a variable that is a value of the view; `None` for any other.
    pub fn assign(&self, var: InstanceVariable, value: &Value) -> (r: Option<RoomView>)
        ensures
            r == write_view(*self, var, value@),
    {
        let view = *self;
        match var {
            InstanceVariable::ViewVisible => Some(RoomView { visible: value.is_truthy(), ..view }),
            InstanceVariable::ViewXview => Some(RoomView { source_x: value.to_i32(), ..view }),
            InstanceVariable::ViewYview => Some(RoomView { source_y: value.to_i32(), ..view }),
            InstanceVariable::ViewWview => Some(RoomView { source_w: value.to_i32(), ..view }),
            InstanceVariable::ViewHview => Some(RoomView { source_h: value.to_i32(), ..view }),
            InstanceVariable::ViewXport => Some(RoomView { port_x: value.to_i32(), ..view }),
            InstanceVariable::ViewYport => Some(RoomView { port_y: value.to_i32(), ..view }),
            InstanceVariable::ViewWport => Some(RoomView { port_w: value.to_i32(), ..view }),
            InstanceVariable::ViewHport => Some(RoomView { port_h: value.to_i32(), ..view }),
            InstanceVariable::ViewAngle => Some(RoomView { angle: value.to_real(), ..view }),
            InstanceVariable::ViewHborder => Some(RoomView { follow_hborder: value.to_i32(), ..view }),
            InstanceVariable::ViewVborder => Some(RoomView { follow_vborder: value.to_i32(), ..view }),
            InstanceVariable::ViewHspeed => Some(RoomView { follow_hspeed: value.to_i32(), ..view }),
            InstanceVariable::ViewVspeed => Some(RoomView { follow_vspeed: value.to_i32(), ..view }),
            InstanceVariable::ViewObject => Some(RoomView { follow_target: value.to_i32(), ..view }),
            _ => None,
        }
    }
}

impl Game {
    /// Writes a user variable of an instance. A handle that the list does
    /// not hold changes nothing.
    pub fn set_instance_field(
        &mut self,
        instance: usize,
        field_id: usize,
        array_index: u32,
        value: Value,
    )
        ensures
            final(self)@ == (match old(self)@.instance(instance) {
                Some(inst) => old(self)@.with_instance(
                    instance,
                    InstanceModel {
                        fields: inst.fields.insert((field_id, array_index), value@),
                        ..inst
                    },
                ),
                None => old(self)@,
            }),
    {
        self.instance_list.set_field(instance, field_id, array_index, value);
    }

    /// Assigns an argument of the running call.
    pub fn set_argument(&self, context: &mut Context, arg: usize, value: Value) -> (r: Result<
        (),
        Error,
    >)
        ensures
            (final(context)@, plain_result(r)) == write_argument(
                self@,
                old(context)@,
                arg,
                value@,
            ),
    {
        if arg < context.arguments.len() {
            if arg < context.argument_count || self.status.uninit_args_are_zero {
                context.arguments[arg] = value;
                assert(values_view(context.arguments@) =~= values_view(old(context).arguments@).update(
                    arg as int,
                    value@,
                ));
                Ok(())
            } else {
                Err(Error::UninitializedArgument(arg))
            }
        } else if self.status.uninit_args_are_zero {
            Ok(())
        } else {
            Err(Error::UninitializedArgument(arg))
        }
    }

    /// Assigns a variable that is one of the texts of the game; false for
    /// any other.
    fn assign_text(&mut self, var: InstanceVariable, value: &Value) -> (r: bool)
        ensures
            match write_text(old(self)@.texts, var, value@) {
                Some(texts) => r && final(self)@ == (GameModel {
                    texts,
                    status: if var == InstanceVariable::RoomCaption {
                        Status { caption_stale: true, ..old(self)@.status }
                    } else {
                        old(self)@.status
                    },
                    ..old(self)@
                }),
                None => !r && final(self)@ == old(self)@,
            },
    {
        match var {
            InstanceVariable::RoomCaption => {
                self.texts.caption = value.to_bytes();
                self.status.caption_stale = true;
                true
            },
            InstanceVariable::CaptionScore => {
                self.texts.score_caption = value.to_bytes();
                true
            },
            InstanceVariable::CaptionLives => {
                self.texts.lives_caption = value.to_bytes();
                true
            },
            InstanceVariable::CaptionHealth => {
                self.texts.health_caption = value.to_bytes();
                true
            },
            InstanceVariable::ErrorLast => {
                self.texts.error_last = value.to_bytes();
                true
            },
            _ => false,
        }
    }

    /// Assigns a variable whose assignment takes more than one plain value
    /// to say.
    fn set_special<H: Host>(
        &mut self,
        host: &mut H,
        instance_handle: usize,
        s: InstanceState,
        var: &InstanceVariable,
        array_index: u32,
        value: Value,
        context: &mut Context,
        budget: u64,
    ) -> (r: Result<(), Error>)
        requires
            instance_handle < old(self)@.instances.len(),
            s == old(self)@.instances[instance_handle as int].state,
        ensures
            write_special(
                old(self)@,
                old(context)@,
                instance_handle,
                old(self)@.instances[instance_handle as int],
                *var,
                array_index,
                value@,
            ) matches Some((g, c, res)) ==> final(self)@ == g && final(context)@ == c
                && plain_result(r) == res,
            host_completes(*var) ==> r is Ok && final(context)@ == old(context)@ && completed(
                old(self)@,
                final(self)@,
                instance_handle,
                *var,
                value@,
            ),
    {
        let slot = if let InstanceVariable::Argument = var {
            Some(array_index as usize)
        } else {
            var.argument_slot()
        };
        if let Some(slot) = slot {
            return self.set_argument(context, slot, value);
        }
        if self.assign_text(*var, &value) {
            return Ok(());
        }
        match var {
            InstanceVariable::Alarm => {
                self.instance_list.set_alarm(instance_handle, array_index, value.to_i32());
                Ok(())
            },
            InstanceVariable::SpriteIndex => {
                let v = value.to_i32();
                let frames = match self.assets.get_sprite(v) {
                    Some(sprite) => Real::from_usize(sprite.frame_count),
                    None => Real { bits: 0 },
                };
                let image_index = if frames.is_at_most(s.image_index) {
                    Real { bits: 0 }
                } else {
                    s.image_index
                };
                let state = if v != s.sprite_index {
                    InstanceState { sprite_index: v, bbox_is_stale: true, image_index, ..s }
                } else {
                    InstanceState { image_index, ..s }
                };
                self.instance_list.set_state(instance_handle, state);
                Ok(())
            },
            InstanceVariable::Hspeed => {
                let hspeed = value.to_real();
                let (speed, direction) = host.polar(hspeed, s.vspeed);
                self.instance_list.set_state(
                    instance_handle,
                    s.reconcile(*var, hspeed, speed, direction),
                );
                Ok(())
            },
            InstanceVariable::Vspeed => {
                let vspeed = value.to_real();
                let (speed, direction) = host.polar(s.hspeed, vspeed);
                self.instance_list.set_state(
                    instance_handle,
                    s.reconcile(*var, vspeed, speed, direction),
                );
                Ok(())
            },
            InstanceVariable::Direction => {
                let direction = value.to_real();
                let (hspeed, vspeed) = host.cartesian(s.speed, direction);
                self.instance_list.set_state(
                    instance_handle,
                    s.reconcile(*var, direction, hspeed, vspeed),
                );
                Ok(())
            },
            InstanceVariable::Speed => {
                let speed = value.to_real();
                let (hspeed, vspeed) = host.cartesian(speed, s.direction);
                self.instance_list.set_state(
                    instance_handle,
                    s.reconcile(*var, speed, hspeed, vspeed),
                );
                Ok(())
            },
            InstanceVariable::PathPosition => {
                let position = value.to_real();
                let mut point_speed = s.path_pointspeed;
                if s.path_index >= 0 && (s.path_index as usize) < self.assets.paths.len() {
                    if let Some(path) = &self.assets.paths[s.path_index as usize] {
                        point_speed = host.path_point_speed(path, position.clamp_to_unit());
                    }
                }
                self.instance_list.set_state(instance_handle, s.reposition(position, point_speed));
                Ok(())
            },
            InstanceVariable::Lives => {
                let before = self.status.lives;
                let after = value.to_i32();
                self.status.lives = after;
                if before > 0 && after <= 0 {
                    host.run_object_event(self, EVENT_OTHER, EVENT_NO_MORE_LIVES, budget)
                } else {
                    Ok(())
                }
            },
            InstanceVariable::Health => {
                let before = self.status.health;
                let after = value.to_real();
                self.status.health = after;
                let zero = Real { bits: 0 };
                if zero.is_less(before) && (after.is_less(zero) || after.check_zero()) {
                    host.run_object_event(self, EVENT_OTHER, EVENT_NO_MORE_HEALTH, budget)
                } else {
                    Ok(())
                }
            },
            _ => Err(Error::ReadOnlyVariable(*var)),
        }
    }

    /// Assigns a built-in variable for an instance. Where the host completes
    /// the assignment, everything but the numbers that the host gave is
    /// settled here.
    pub fn set_instance_var<H: Host>(
        &mut self,
        host: &mut H,
        instance_handle: usize,
        var: &InstanceVariable,
        array_index: u32,
        value: Value,
        context: &mut Context,
        budget: u64,
    ) -> (r: Result<(), Error>)
        ensures
            write_variable(
                old(self)@,
                old(context)@,
                instance_handle,
                *var,
                array_index,
                value@,
            ) matches Some((g, c, res)) ==> final(self)@ == g && final(context)@ == c
                && plain_result(r) == res,
            host_completes(*var) && instance_handle < old(self)@.instances.len() ==> r is Ok
                && final(context)@ == old(context)@ && completed(
                old(self)@,
                final(self)@,
                instance_handle,
                *var,
                value@,
            ),
    {
        let s = match self.instance_list.state(instance_handle) {
            Some(s) => s,
            None => {
                return Ok(());
            },
        };
        if let Some(state) = s.assign(*var, &value) {
            self.instance_list.set_state(instance_handle, state);
            return Ok(());
        }
        if let Some(res) = self.status.assign(*var, &value) {
            return match res {
                Ok(status) => {
                    self.status = status;
                    Ok(())
                },
                Err(e) => Err(e),
            };
        }
        let slot: usize = if array_index < 8 { array_index as usize } else { 0 };
        if let Some(layer) = self.backgrounds[slot].assign(*var, &value) {
            self.backgrounds[slot] = layer;
            assert(self@.backgrounds =~= old(self)@.backgrounds.update(slot as int, layer));
            return Ok(());
        }
        if let Some(view) = self.views[slot].assign(*var, &value) {
            self.views[slot] = view;
            assert(self@.views =~= old(self)@.views.update(slot as int, view));
            return Ok(());
        }
        self.set_special(host, instance_handle, s, var, array_index, value, context, budget)
    }
}

/// An assignment to `x`, `y`, `mask_index`, `image_xscale`, `image_yscale`
/// or `image_angle` that changes the value leaves the bounding box marked
/// stale, and one that does not change it leaves the instance as it was.
pub proof fn lemma_assignment_marks_bbox_stale(
    s: InstanceState,
    var: InstanceVariable,
    value: ValueModel,
)
    requires
        var == InstanceVariable::X || var == InstanceVariable::Y || var
            == InstanceVariable::MaskIndex || var == InstanceVariable::ImageXscale || var
            == InstanceVariable::ImageYscale || var == InstanceVariable::ImageAngle,
    ensures
        write_state(s, var, value) matches Some(after) && (after != s ==> after.bbox_is_stale),
{
}

/// An assignment to `sprite_index` that changes the sprite leaves the
/// bounding box marked stale.
pub proof fn lemma_sprite_change_marks_bbox_stale(game: GameModel, s: InstanceState, sprite: i32)
    requires
        sprite != s.sprite_index,
    ensures
        write_sprite(game, s, sprite).bbox_is_stale,
{
}

/// `room_speed` takes no value that rounds to zero or less: the assignment
/// is an error and nothing changes.
pub proof fn lemma_room_speed_rejects_non_positive(
    game: GameModel,
    ctx: ContextModel,
    handle: usize,
    index: u32,
    value: ValueModel,
)
    requires
        handle < game.instances.len(),
        value.to_i32() <= 0,
    ensures
        write_variable(game, ctx, handle, InstanceVariable::RoomSpeed, index, value) == Some(
            (game, ctx, Err::<(), ErrorModel>(ErrorModel::InvalidRoomSpeed(value.to_i32()))),
        ),
{
}

/// Whether an assignment to `lives` is left to the host, which then runs the
/// event for running out of lives, is decided by the count before and the
/// count assigned alone: it is exactly when lives go from above zero to zero
/// or below. The same holds of `health` and its event.
pub proof fn lemma_event_exactly_when_crossing(
    game: GameModel,
    ctx: ContextModel,
    handle: usize,
    index: u32,
    value: ValueModel,
)
    requires
        handle < game.instances.len(),
    ensures
        write_variable(game, ctx, handle, InstanceVariable::Lives, index, value) is None
            <==> runs_out(game.status.lives, value.to_i32()),
        write_variable(game, ctx, handle, InstanceVariable::Health, index, value) is None
            <==> drains(game.status.health, value.to_real()),
{
}

} // verus!
