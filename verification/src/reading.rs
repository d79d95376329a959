//! Reading variables: user variables of an instance, arguments of a call,
//! and the table of built-in variables.

use vstd::prelude::*;
use crate::asset::Sprite;
use crate::error::Error;
use crate::error::ErrorModel;
use crate::error::value_result;
use crate::field::lookup;
use crate::game::BackgroundLayer;
use crate::game::Context;
use crate::game::ContextModel;
use crate::game::Game;
use crate::game::GameModel;
use crate::game::Host;
use crate::game::RoomView;
use crate::game::Status;
use crate::game::Texts;
use crate::game::TextsModel;
use crate::game::Version;
use crate::instance::count_active;
use crate::instance::nth_active_id;
use crate::instance::BoundingBox;
use crate::instance::InstanceModel;
use crate::instance::InstanceState;
use crate::number::Real;
use crate::value::copy_bytes;
use crate::value::Value;
use crate::value::ValueModel;
use crate::variable::InstanceVariable;

verus! {

broadcast use vstd::std_specs::hash::group_hash_axioms;

/// What an alarm reads as before it is set.
pub const DEFAULT_ALARM: i32 = -1;

/// The operating system that games are told they run on.
pub const OS_WIN32: i32 = 0;

/// The device that games are told they run on.
pub const DEVICE_IOS_IPHONE: i32 = 0;

/// The double -1.0.
pub const MINUS_ONE_BITS: u64 = 0xBFF0_0000_0000_0000;

/// The double 14.0.
pub const FOURTEEN_BITS: u64 = 0x402C_0000_0000_0000;

/// The double 800.0.
pub const VERSION_800_BITS: u64 = 0x4089_0000_0000_0000;

/// The double 810.0.
pub const VERSION_810_BITS: u64 = 0x4089_5000_0000_0000;

/// The version number that scripts read.
pub open spec fn version_bits(version: Version) -> u64 {
    match version {
        Version::GameMaker8_0 => VERSION_800_BITS,
        Version::GameMaker8_1 => VERSION_810_BITS,
    }
}

/// What stands for a variable that was never set: zero where the game asks
/// for that, else an error that names the variable.
pub open spec fn unset(game: GameModel, name: Seq<char>, index: u32) -> Result<
    ValueModel,
    ErrorModel,
> {
    if game.status.uninit_fields_are_zero {
        Ok(ValueModel::zero())
    } else {
        Err(ErrorModel::UninitializedVariable(name, index))
    }
}

/// What a user variable of an instance reads as.
pub open spec fn field_of(game: GameModel, handle: usize, field: usize, index: u32) -> Result<
    ValueModel,
    ErrorModel,
> {
    match game.instance(handle) {
        Some(inst) => match lookup(inst.fields, field, index) {
            Some(v) => Ok(v),
            None => unset(game, game.field_name(field), index),
        },
        None => unset(game, game.field_name(field), index),
    }
}

/// What an argument of the running call reads as: its value if the frame
/// has that slot, else zero where the game asks for that, else an error.
pub open spec fn argument_of(game: GameModel, ctx: ContextModel, slot: usize) -> Result<
    ValueModel,
    ErrorModel,
> {
    if slot < ctx.arguments.len() {
        Ok(ctx.arguments[slot as int])
    } else if game.status.uninit_args_are_zero {
        Ok(ValueModel::zero())
    } else {
        Err(ErrorModel::UninitializedArgument(slot))
    }
}

/// What an alarm reads as.
pub open spec fn alarm_of(alarms: Map<u32, i32>, slot: u32) -> i32 {
    if alarms.contains_key(slot) {
        alarms[slot]
    } else {
        DEFAULT_ALARM
    }
}

/// The place in a room's eight layers or views that an index means: itself
/// if there is such a place, else the first.
pub open spec fn layer_slot(index: u32) -> int {
    if index < 8 {
        index as int
    } else {
        0
    }
}

/// The background layer that an index means.
pub open spec fn layer_of(layers: Seq<BackgroundLayer>, index: u32) -> BackgroundLayer {
    layers[layer_slot(index)]
}

/// The view that an index means.
pub open spec fn view_of(views: Seq<RoomView>, index: u32) -> RoomView {
    views[layer_slot(index)]
}

/// The milliseconds that a spoofed time reads as: the low 32 bits of the
/// whole milliseconds.
pub open spec fn spoofed_millis(nanos: u128) -> u32 {
    (nanos / 1_000_000) as u32
}

/// The sprite that an instance shows, if it has one.
pub open spec fn sprite_of(game: GameModel, handle: usize) -> Option<Sprite> {
    match game.instance(handle) {
        Some(inst) => game.assets.sprite(inst.state.sprite_index as int),
        None => None,
    }
}

/// The sprite that gives an instance its collision mask, if it has one: the
/// mask sprite if one is set, else the sprite that it shows.
pub open spec fn mask_sprite_of(game: GameModel, handle: usize) -> Option<Sprite> {
    match game.instance(handle) {
        Some(inst) => game.assets.sprite(inst.state.mask_sprite_index() as int),
        None => None,
    }
}

/// True for the four variables that read the bounding box.
pub open spec fn reads_bbox(var: InstanceVariable) -> bool {
    var == InstanceVariable::BboxLeft || var == InstanceVariable::BboxRight || var
        == InstanceVariable::BboxTop || var == InstanceVariable::BboxBottom
}

/// The milliseconds that scripts read off the host's clock: the low 32 bits,
/// in steps of sixteen.
pub open spec fn clock_reading(millis: u64) -> u32 {
    (millis as u32) & 0xFFFF_FFF0
}

/// The side of the bounding box that a variable reads.
pub open spec fn bbox_side(s: InstanceState, var: InstanceVariable) -> i32 {
    match var {
        InstanceVariable::BboxLeft => s.bbox_left,
        InstanceVariable::BboxRight => s.bbox_right,
        InstanceVariable::BboxTop => s.bbox_top,
        _ => s.bbox_bottom,
    }
}

/// What reading a side of the bounding box leaves behind and gives,
/// whatever box the host computed: the instance has a fresh box and is
/// otherwise what it was, a box that was fresh before is the same box,
/// nothing else has changed, and the value read is the side of that box.
pub open spec fn bbox_read(
    before: GameModel,
    after: GameModel,
    handle: usize,
    var: InstanceVariable,
    result: Result<ValueModel, ErrorModel>,
) -> bool {
    let s = before.instances[handle as int].state;
    let t = after.instances[handle as int].state;
    &&& after == before.with_instance(
        handle,
        InstanceModel { state: t, ..before.instances[handle as int] },
    )
    &&& t == s.with_bbox(
        BoundingBox { left: t.bbox_left, right: t.bbox_right, top: t.bbox_top, bottom: t.bbox_bottom },
    )
    &&& !s.bbox_is_stale ==> t == s
    &&& result == Ok::<ValueModel, ErrorModel>(ValueModel::of_int(bbox_side(t, var) as int))
}

/// The view of a value that may be missing.
pub open spec fn maybe(v: Option<Value>) -> Option<ValueModel> {
    match v {
        Some(v) => Some(v@),
        None => None,
    }
}

/// True for the variables that this runtime does not hold: they read as
/// never set and cannot be assigned.
pub open spec fn unheld(var: InstanceVariable) -> bool {
    var == InstanceVariable::RoomPersistent || var == InstanceVariable::KeyboardLastchar || var == InstanceVariable::KeyboardString
}

/// What a variable reads as that is one of the plain values of an instance.
pub open spec fn read_state(s: InstanceState, var: InstanceVariable) -> Option<ValueModel> {
    match var {
        InstanceVariable::X => Some(ValueModel::Real(s.x)),
        InstanceVariable::Y => Some(ValueModel::Real(s.y)),
        InstanceVariable::Xprevious => Some(ValueModel::Real(s.xprevious)),
        InstanceVariable::Yprevious => Some(ValueModel::Real(s.yprevious)),
        InstanceVariable::Xstart => Some(ValueModel::Real(s.xstart)),
        InstanceVariable::Ystart => Some(ValueModel::Real(s.ystart)),
        InstanceVariable::Hspeed => Some(ValueModel::Real(s.hspeed)),
        InstanceVariable::Vspeed => Some(ValueModel::Real(s.vspeed)),
        InstanceVariable::Direction => Some(ValueModel::Real(s.direction)),
        InstanceVariable::Speed => Some(ValueModel::Real(s.speed)),
        InstanceVariable::Friction => Some(ValueModel::Real(s.friction)),
        InstanceVariable::Gravity => Some(ValueModel::Real(s.gravity)),
        InstanceVariable::GravityDirection => Some(ValueModel::Real(s.gravity_direction)),
        InstanceVariable::ObjectIndex => Some(ValueModel::of_int(s.object_index as int)),
        InstanceVariable::Id => Some(ValueModel::of_int(s.id as int)),
        InstanceVariable::Solid => Some(ValueModel::of_bool(s.solid)),
        InstanceVariable::Visible => Some(ValueModel::of_bool(s.visible)),
        InstanceVariable::Persistent => Some(ValueModel::of_bool(s.persistent)),
        InstanceVariable::Depth => Some(ValueModel::Real(s.depth)),
        InstanceVariable::SpriteIndex => Some(ValueModel::of_int(s.sprite_index as int)),
        InstanceVariable::ImageIndex => Some(ValueModel::Real(s.image_index)),
        InstanceVariable::ImageXscale => Some(ValueModel::Real(s.image_xscale)),
        InstanceVariable::ImageYscale => Some(ValueModel::Real(s.image_yscale)),
        InstanceVariable::ImageAngle => Some(ValueModel::Real(s.image_angle)),
        InstanceVariable::ImageAlpha => Some(ValueModel::Real(s.image_alpha)),
        InstanceVariable::ImageBlend => Some(ValueModel::of_int(s.image_blend as int)),
        InstanceVariable::ImageSpeed => Some(ValueModel::Real(s.image_speed)),
        InstanceVariable::MaskIndex => Some(ValueModel::of_int(s.mask_index as int)),
        InstanceVariable::PathIndex => Some(ValueModel::of_int(s.path_index as int)),
        InstanceVariable::PathPosition => Some(ValueModel::Real(s.path_position)),
        InstanceVariable::PathPositionprevious => Some(ValueModel::Real(s.path_positionprevious)),
        InstanceVariable::PathSpeed => Some(ValueModel::Real(s.path_speed)),
        InstanceVariable::PathScale => Some(ValueModel::Real(s.path_scale)),
        InstanceVariable::PathOrientation => Some(ValueModel::Real(s.path_orientation)),
        InstanceVariable::PathEndAction => Some(ValueModel::of_int(s.path_endaction as int)),
        InstanceVariable::TimelineIndex => Some(ValueModel::of_int(s.timeline_index as int)),
        InstanceVariable::TimelinePosition => Some(ValueModel::Real(s.timeline_position)),
        InstanceVariable::TimelineSpeed => Some(ValueModel::Real(s.timeline_speed)),
        InstanceVariable::TimelineRunning => Some(ValueModel::of_bool(s.timeline_running)),
        InstanceVariable::TimelineLoop => Some(ValueModel::of_bool(s.timeline_loop)),
        InstanceVariable::ImageSingle => Some(if s.image_speed.is_zero() { ValueModel::Real(s.image_index) } else { ValueModel::of_int(-1) }),
        _ => None,
    }
}

/// What a variable reads as that is one of the plain values of the game, or
/// the same in every game.
pub open spec fn read_status(status: Status, var: InstanceVariable) -> Option<ValueModel> {
    match var {
        InstanceVariable::Room => Some(ValueModel::of_int(status.room_id as int)),
        InstanceVariable::TransitionKind => Some(ValueModel::of_int(status.transition_kind as int)),
        InstanceVariable::TransitionSteps => Some(ValueModel::of_int(status.transition_steps as int)),
        InstanceVariable::Score => Some(ValueModel::of_int(status.score as int)),
        InstanceVariable::Lives => Some(ValueModel::of_int(status.lives as int)),
        InstanceVariable::Health => Some(ValueModel::Real(status.health)),
        InstanceVariable::GameId => Some(ValueModel::of_int(status.game_id as int)),
        InstanceVariable::RoomWidth => Some(ValueModel::of_int(status.room_width as int)),
        InstanceVariable::RoomHeight => Some(ValueModel::of_int(status.room_height as int)),
        InstanceVariable::RoomSpeed => Some(ValueModel::of_int(status.room_speed as int)),
        InstanceVariable::BackgroundColor => Some(ValueModel::of_int(status.room_colour as int)),
        InstanceVariable::BackgroundShowcolor => Some(ValueModel::of_bool(status.show_room_colour)),
        InstanceVariable::ViewEnabled => Some(ValueModel::of_bool(status.views_enabled)),
        InstanceVariable::ViewCurrent => Some(ValueModel::of_int(status.view_current as int)),
        InstanceVariable::MouseX => Some(ValueModel::of_int(status.mouse_x as int)),
        InstanceVariable::MouseY => Some(ValueModel::of_int(status.mouse_y as int)),
        InstanceVariable::MouseButton => Some(ValueModel::of_int(status.mouse_button as int)),
        InstanceVariable::MouseLastbutton => Some(ValueModel::of_int(status.mouse_lastbutton as int)),
        InstanceVariable::KeyboardKey => Some(ValueModel::of_int(status.keyboard_key as int)),
        InstanceVariable::KeyboardLastkey => Some(ValueModel::of_int(status.keyboard_lastkey as int)),
        InstanceVariable::CursorSprite => Some(ValueModel::of_int(status.cursor_sprite as int)),
        InstanceVariable::ShowScore => Some(ValueModel::of_bool(status.show_score)),
        InstanceVariable::ShowLives => Some(ValueModel::of_bool(status.show_lives)),
        InstanceVariable::ShowHealth => Some(ValueModel::of_bool(status.show_health)),
        InstanceVariable::Fps => Some(ValueModel::of_int(status.fps as int)),
        InstanceVariable::ErrorOccurred => Some(ValueModel::of_bool(status.error_occurred)),
        InstanceVariable::SecureMode => Some(ValueModel::of_bool(false)),
        InstanceVariable::DebugMode => Some(ValueModel::of_bool(false)),
        InstanceVariable::GamemakerRegistered => Some(ValueModel::of_bool(true)),
        InstanceVariable::GamemakerPro => Some(ValueModel::of_bool(true)),
        InstanceVariable::GamemakerVersion => Some(ValueModel::Real(Real { bits: version_bits(status.version) })),
        InstanceVariable::OsType => Some(ValueModel::of_int(OS_WIN32 as int)),
        InstanceVariable::OsDevice => Some(ValueModel::of_int(DEVICE_IOS_IPHONE as int)),
        InstanceVariable::OsBrowser => Some(ValueModel::Real(Real { bits: MINUS_ONE_BITS })),
        InstanceVariable::OsVersion => Some(ValueModel::Real(Real { bits: MINUS_ONE_BITS })),
        InstanceVariable::BrowserWidth => Some(ValueModel::Real(Real { bits: MINUS_ONE_BITS })),
        InstanceVariable::BrowserHeight => Some(ValueModel::Real(Real { bits: MINUS_ONE_BITS })),
        InstanceVariable::AsyncLoad => Some(ValueModel::Real(Real { bits: MINUS_ONE_BITS })),
        InstanceVariable::DisplayAa => Some(ValueModel::Real(Real { bits: FOURTEEN_BITS })),
        _ => None,
    }
}

/// What a variable reads as that is one of the plain values of the call
/// frame.
pub open spec fn read_frame(ctx: ContextModel, var: InstanceVariable) -> Option<ValueModel> {
    match var {
        InstanceVariable::ArgumentRelative => Some(ValueModel::of_bool(ctx.relative)),
        InstanceVariable::ArgumentCount => Some(ValueModel::of_int(ctx.argument_count as int)),
        InstanceVariable::EventType => Some(ValueModel::of_int(ctx.event_type as int)),
        InstanceVariable::EventNumber => Some(ValueModel::of_int(ctx.event_number as int)),
        InstanceVariable::EventObject => Some(ValueModel::of_int(ctx.event_object as int)),
        InstanceVariable::EventAction => Some(ValueModel::of_int(ctx.event_action as int)),
        _ => None,
    }
}

/// What a variable reads as that is a value of a background layer.
pub open spec fn read_layer(layer: BackgroundLayer, var: InstanceVariable) -> Option<ValueModel> {
    match var {
        InstanceVariable::BackgroundVisible => Some(ValueModel::of_bool(layer.visible)),
        InstanceVariable::BackgroundForeground => Some(ValueModel::of_bool(layer.is_foreground)),
        InstanceVariable::BackgroundIndex => Some(ValueModel::of_int(layer.background_id as int)),
        InstanceVariable::BackgroundX => Some(ValueModel::Real(layer.x_offset)),
        InstanceVariable::BackgroundY => Some(ValueModel::Real(layer.y_offset)),
        InstanceVariable::BackgroundHtiled => Some(ValueModel::of_bool(layer.tile_horizontal)),
        InstanceVariable::BackgroundVtiled => Some(ValueModel::of_bool(layer.tile_vertical)),
        InstanceVariable::BackgroundXscale => Some(ValueModel::Real(layer.xscale)),
        InstanceVariable::BackgroundYscale => Some(ValueModel::Real(layer.yscale)),
        InstanceVariable::BackgroundHspeed => Some(ValueModel::Real(layer.hspeed)),
        InstanceVariable::BackgroundVspeed => Some(ValueModel::Real(layer.vspeed)),
        InstanceVariable::BackgroundBlend => Some(ValueModel::of_int(layer.blend as int)),
        InstanceVariable::BackgroundAlpha => Some(ValueModel::Real(layer.alpha)),
        _ => None,
    }
}

/// What a variable reads as that is a value of a view.
pub open spec fn read_view(view: RoomView, var: InstanceVariable) -> Option<ValueModel> {
    match var {
        InstanceVariable::ViewVisible => Some(ValueModel::of_bool(view.visible)),
        InstanceVariable::ViewXview => Some(ValueModel::of_int(view.source_x as int)),
        InstanceVariable::ViewYview => Some(ValueModel::of_int(view.source_y as int)),
        InstanceVariable::ViewWview => Some(ValueModel::of_int(view.source_w as int)),
        InstanceVariable::ViewHview => Some(ValueModel::of_int(view.source_h as int)),
        InstanceVariable::ViewXport => Some(ValueModel::of_int(view.port_x as int)),
        InstanceVariable::ViewYport => Some(ValueModel::of_int(view.port_y as int)),
        InstanceVariable::ViewWport => Some(ValueModel::of_int(view.port_w as int)),
        InstanceVariable::ViewHport => Some(ValueModel::of_int(view.port_h as int)),
        InstanceVariable::ViewAngle => Some(ValueModel::Real(view.angle)),
        InstanceVariable::ViewHborder => Some(ValueModel::of_int(view.follow_hborder as int)),
        InstanceVariable::ViewVborder => Some(ValueModel::of_int(view.follow_vborder as int)),
        InstanceVariable::ViewHspeed => Some(ValueModel::of_int(view.follow_hspeed as int)),
        InstanceVariable::ViewVspeed => Some(ValueModel::of_int(view.follow_vspeed as int)),
        InstanceVariable::ViewObject => Some(ValueModel::of_int(view.follow_target as int)),
        _ => None,
    }
}

/// What a variable reads as that is one of the texts of the game.
pub open spec fn read_text(texts: TextsModel, var: InstanceVariable) -> Option<ValueModel> {
    match var {
        InstanceVariable::TempDirectory => Some(ValueModel::Str(texts.temp_directory)),
        InstanceVariable::ProgramDirectory => Some(ValueModel::Str(texts.program_directory)),
        InstanceVariable::RoomCaption => Some(ValueModel::Str(texts.caption)),
        InstanceVariable::CaptionScore => Some(ValueModel::Str(texts.score_caption)),
        InstanceVariable::CaptionLives => Some(ValueModel::Str(texts.lives_caption)),
        InstanceVariable::CaptionHealth => Some(ValueModel::Str(texts.health_caption)),
        InstanceVariable::ErrorLast => Some(ValueModel::Str(texts.error_last)),
        _ => None,
    }
}

/// What a variable reads as that takes more than one plain value to say,
/// where the runtime alone decides it. A variable that the runtime does not
/// hold reads as never set.
pub open spec fn read_special(
    game: GameModel,
    ctx: ContextModel,
    inst: InstanceModel,
    var: InstanceVariable,
    index: u32,
) -> Option<Result<ValueModel, ErrorModel>> {
    let s = inst.state;
    match var {
        InstanceVariable::Alarm => Some(Ok(ValueModel::of_int(alarm_of(inst.alarms, index) as int))),
        InstanceVariable::BboxLeft => if s.bbox_is_stale { None } else { Some(Ok(ValueModel::of_int(s.bbox_left as int))) },
        InstanceVariable::BboxRight => if s.bbox_is_stale { None } else { Some(Ok(ValueModel::of_int(s.bbox_right as int))) },
        InstanceVariable::BboxTop => if s.bbox_is_stale { None } else { Some(Ok(ValueModel::of_int(s.bbox_top as int))) },
        InstanceVariable::BboxBottom => if s.bbox_is_stale { None } else { Some(Ok(ValueModel::of_int(s.bbox_bottom as int))) },
        InstanceVariable::ImageNumber => Some(Ok(match game.assets.sprite(s.sprite_index as int) { Some(sprite) => ValueModel::of_int(sprite.frame_count as int), None => ValueModel::of_int(0) })),
        InstanceVariable::SpriteWidth => Some(Ok(match game.assets.sprite(s.sprite_index as int) { Some(sprite) => ValueModel::Real(s.image_xscale.product(Real::of_int(sprite.width as int))), None => ValueModel::zero() })),
        InstanceVariable::SpriteHeight => Some(Ok(match game.assets.sprite(s.sprite_index as int) { Some(sprite) => ValueModel::Real(s.image_yscale.product(Real::of_int(sprite.height as int))), None => ValueModel::zero() })),
        InstanceVariable::SpriteXoffset => Some(Ok(match game.assets.sprite(s.sprite_index as int) { Some(sprite) => ValueModel::of_int(sprite.origin_x as int), None => ValueModel::zero() })),
        InstanceVariable::SpriteYoffset => Some(Ok(match game.assets.sprite(s.sprite_index as int) { Some(sprite) => ValueModel::of_int(sprite.origin_y as int), None => ValueModel::zero() })),
        InstanceVariable::Argument0 => Some(argument_of(game, ctx, 0)),
        InstanceVariable::Argument1 => Some(argument_of(game, ctx, 1)),
        InstanceVariable::Argument2 => Some(argument_of(game, ctx, 2)),
        InstanceVariable::Argument3 => Some(argument_of(game, ctx, 3)),
        InstanceVariable::Argument4 => Some(argument_of(game, ctx, 4)),
        InstanceVariable::Argument5 => Some(argument_of(game, ctx, 5)),
        InstanceVariable::Argument6 => Some(argument_of(game, ctx, 6)),
        InstanceVariable::Argument7 => Some(argument_of(game, ctx, 7)),
        InstanceVariable::Argument8 => Some(argument_of(game, ctx, 8)),
        InstanceVariable::Argument9 => Some(argument_of(game, ctx, 9)),
        InstanceVariable::Argument10 => Some(argument_of(game, ctx, 10)),
        InstanceVariable::Argument11 => Some(argument_of(game, ctx, 11)),
        InstanceVariable::Argument12 => Some(argument_of(game, ctx, 12)),
        InstanceVariable::Argument13 => Some(argument_of(game, ctx, 13)),
        InstanceVariable::Argument14 => Some(argument_of(game, ctx, 14)),
        InstanceVariable::Argument15 => Some(argument_of(game, ctx, 15)),
        InstanceVariable::Argument => Some(argument_of(game, ctx, index as usize)),
        InstanceVariable::RoomFirst => Some(if game.room_order@.len() > 0 { Ok(ValueModel::of_int(game.room_order@[0] as int)) } else { Err(ErrorModel::EndOfRoomOrder) }),
        InstanceVariable::RoomLast => Some(if game.room_order@.len() > 0 { Ok(ValueModel::of_int(game.room_order@[game.room_order@.len() - 1] as int)) } else { Err(ErrorModel::EndOfRoomOrder) }),
        InstanceVariable::WorkingDirectory => None,
        InstanceVariable::InstanceCount => Some(Ok(ValueModel::of_int(count_active(game.instances, game.instances.len() as int)))),
        InstanceVariable::InstanceId => Some(Ok(ValueModel::of_int(nth_active_id(game.instances, 0, index as int) as int))),
        InstanceVariable::BackgroundWidth => Some(Ok(match game.assets.background(layer_of(game.backgrounds, index).background_id as int) { Some(image) => ValueModel::of_int(image.width as int), None => ValueModel::of_int(0) })),
        InstanceVariable::BackgroundHeight => Some(Ok(match game.assets.background(layer_of(game.backgrounds, index).background_id as int) { Some(image) => ValueModel::of_int(image.height as int), None => ValueModel::of_int(0) })),
        InstanceVariable::CurrentTime => match game.status.spoofed_time_nanos { Some(nanos) => Some(Ok(ValueModel::of_int(spoofed_millis(nanos) as int))), None => None },
        InstanceVariable::CurrentYear => None,
        InstanceVariable::CurrentMonth => None,
        InstanceVariable::CurrentDay => None,
        InstanceVariable::CurrentWeekday => None,
        InstanceVariable::CurrentHour => None,
        InstanceVariable::CurrentMinute => None,
        InstanceVariable::CurrentSecond => None,
        _ => Some(Err(ErrorModel::UninitializedVariable(var.spec_name(), index))),
    }
}

/// What a built-in variable reads as, where the runtime alone decides it;
/// `None` where the host has a say: a bounding box that is stale, the
/// clock, the calendar and the working directory. A handle that the list
/// does not hold reads as a variable that was never set.
pub open spec fn read_variable(
    game: GameModel,
    ctx: ContextModel,
    handle: usize,
    var: InstanceVariable,
    index: u32,
) -> Option<Result<ValueModel, ErrorModel>> {
    match game.instance(handle) {
        None => Some(unset(game, var.spec_name(), index)),
        Some(inst) => if let Some(v) = read_state(inst.state, var) {
            Some(Ok(v))
        } else if let Some(v) = read_status(game.status, var) {
            Some(Ok(v))
        } else if let Some(v) = read_frame(ctx, var) {
            Some(Ok(v))
        } else if let Some(v) = read_layer(layer_of(game.backgrounds, index), var) {
            Some(Ok(v))
        } else if let Some(v) = read_view(view_of(game.views, index), var) {
            Some(Ok(v))
        } else if let Some(v) = read_text(game.texts, var) {
            Some(Ok(v))
        } else {
            read_special(game, ctx, inst, var, index)
        },
    }
}

impl InstanceState {
    /// Reads a built-in variable that this holds; `None` for any other.
    pub fn read(&self, var: InstanceVariable) -> (r: Option<Value>)
        ensures
            maybe(r) == read_state(*self, var),
    {
        let s = self;
        match var {
            InstanceVariable::X => Some(Value::Real(s.x)),
            InstanceVariable::Y => Some(Value::Real(s.y)),
            InstanceVariable::Xprevious => Some(Value::Real(s.xprevious)),
            InstanceVariable::Yprevious => Some(Value::Real(s.yprevious)),
            InstanceVariable::Xstart => Some(Value::Real(s.xstart)),
            InstanceVariable::Ystart => Some(Value::Real(s.ystart)),
            InstanceVariable::Hspeed => Some(Value::Real(s.hspeed)),
            InstanceVariable::Vspeed => Some(Value::Real(s.vspeed)),
            InstanceVariable::Direction => Some(Value::Real(s.direction)),
            InstanceVariable::Speed => Some(Value::Real(s.speed)),
            InstanceVariable::Friction => Some(Value::Real(s.friction)),
            InstanceVariable::Gravity => Some(Value::Real(s.gravity)),
            InstanceVariable::GravityDirection => Some(Value::Real(s.gravity_direction)),
            InstanceVariable::ObjectIndex => Some(Value::from_i32(s.object_index)),
            InstanceVariable::Id => Some(Value::from_i32(s.id)),
            InstanceVariable::Solid => Some(Value::from_bool(s.solid)),
            InstanceVariable::Visible => Some(Value::from_bool(s.visible)),
            InstanceVariable::Persistent => Some(Value::from_bool(s.persistent)),
            InstanceVariable::Depth => Some(Value::Real(s.depth)),
            InstanceVariable::SpriteIndex => Some(Value::from_i32(s.sprite_index)),
            InstanceVariable::ImageIndex => Some(Value::Real(s.image_index)),
            InstanceVariable::ImageXscale => Some(Value::Real(s.image_xscale)),
            InstanceVariable::ImageYscale => Some(Value::Real(s.image_yscale)),
            InstanceVariable::ImageAngle => Some(Value::Real(s.image_angle)),
            InstanceVariable::ImageAlpha => Some(Value::Real(s.image_alpha)),
            InstanceVariable::ImageBlend => Some(Value::from_i32(s.image_blend)),
            InstanceVariable::ImageSpeed => Some(Value::Real(s.image_speed)),
            InstanceVariable::MaskIndex => Some(Value::from_i32(s.mask_index)),
            InstanceVariable::PathIndex => Some(Value::from_i32(s.path_index)),
            InstanceVariable::PathPosition => Some(Value::Real(s.path_position)),
            InstanceVariable::PathPositionprevious => Some(Value::Real(s.path_positionprevious)),
            InstanceVariable::PathSpeed => Some(Value::Real(s.path_speed)),
            InstanceVariable::PathScale => Some(Value::Real(s.path_scale)),
            InstanceVariable::PathOrientation => Some(Value::Real(s.path_orientation)),
            InstanceVariable::PathEndAction => Some(Value::from_i32(s.path_endaction)),
            InstanceVariable::TimelineIndex => Some(Value::from_i32(s.timeline_index)),
            InstanceVariable::TimelinePosition => Some(Value::Real(s.timeline_position)),
            InstanceVariable::TimelineSpeed => Some(Value::Real(s.timeline_speed)),
            InstanceVariable::TimelineRunning => Some(Value::from_bool(s.timeline_running)),
            InstanceVariable::TimelineLoop => Some(Value::from_bool(s.timeline_loop)),
            InstanceVariable::ImageSingle => if s.image_speed.check_zero() { Some(Value::Real(s.image_index)) } else { Some(Value::from_i32(-1)) },
            _ => None,
        }
    }
}

impl Status {
    /// Reads a built-in variable that this holds; `None` for any other.
    pub fn read(&self, var: InstanceVariable) -> (r: Option<Value>)
        ensures
            maybe(r) == read_status(*self, var),
    {
        match var {
            InstanceVariable::Room => Some(Value::from_i32(self.room_id)),
            InstanceVariable::TransitionKind => Some(Value::from_i32(self.transition_kind)),
            InstanceVariable::TransitionSteps => Some(Value::from_i32(self.transition_steps)),
            InstanceVariable::Score => Some(Value::from_i32(self.score)),
            InstanceVariable::Lives => Some(Value::from_i32(self.lives)),
            InstanceVariable::Health => Some(Value::Real(self.health)),
            InstanceVariable::GameId => Some(Value::from_i32(self.game_id)),
            InstanceVariable::RoomWidth => Some(Value::from_i32(self.room_width)),
            InstanceVariable::RoomHeight => Some(Value::from_i32(self.room_height)),
            InstanceVariable::RoomSpeed => Some(Value::from_u32(self.room_speed)),
            InstanceVariable::BackgroundColor => Some(Value::from_u32(self.room_colour)),
            InstanceVariable::BackgroundShowcolor => Some(Value::from_bool(self.show_room_colour)),
            InstanceVariable::ViewEnabled => Some(Value::from_bool(self.views_enabled)),
            InstanceVariable::ViewCurrent => Some(Value::from_i32(self.view_current)),
            InstanceVariable::MouseX => Some(Value::from_i32(self.mouse_x)),
            InstanceVariable::MouseY => Some(Value::from_i32(self.mouse_y)),
            InstanceVariable::MouseButton => Some(Value::from_i32(self.mouse_button)),
            InstanceVariable::MouseLastbutton => Some(Value::from_i32(self.mouse_lastbutton)),
            InstanceVariable::KeyboardKey => Some(Value::from_i32(self.keyboard_key)),
            InstanceVariable::KeyboardLastkey => Some(Value::from_i32(self.keyboard_lastkey)),
            InstanceVariable::CursorSprite => Some(Value::from_i32(self.cursor_sprite)),
            InstanceVariable::ShowScore => Some(Value::from_bool(self.show_score)),
            InstanceVariable::ShowLives => Some(Value::from_bool(self.show_lives)),
            InstanceVariable::ShowHealth => Some(Value::from_bool(self.show_health)),
            InstanceVariable::Fps => Some(Value::from_u32(self.fps)),
            InstanceVariable::ErrorOccurred => Some(Value::from_bool(self.error_occurred)),
            InstanceVariable::SecureMode => Some(Value::from_bool(false)),
            InstanceVariable::DebugMode => Some(Value::from_bool(false)),
            InstanceVariable::GamemakerRegistered => Some(Value::from_bool(true)),
            InstanceVariable::GamemakerPro => Some(Value::from_bool(true)),
            InstanceVariable::GamemakerVersion => match self.version { Version::GameMaker8_0 => Some(Value::Real(Real { bits: VERSION_800_BITS })), Version::GameMaker8_1 => Some(Value::Real(Real { bits: VERSION_810_BITS })) },
            InstanceVariable::OsType => Some(Value::from_i32(OS_WIN32)),
            InstanceVariable::OsDevice => Some(Value::from_i32(DEVICE_IOS_IPHONE)),
            InstanceVariable::OsBrowser => Some(Value::Real(Real { bits: MINUS_ONE_BITS })),
            InstanceVariable::OsVersion => Some(Value::Real(Real { bits: MINUS_ONE_BITS })),
            InstanceVariable::BrowserWidth => Some(Value::Real(Real { bits: MINUS_ONE_BITS })),
            InstanceVariable::BrowserHeight => Some(Value::Real(Real { bits: MINUS_ONE_BITS })),
            InstanceVariable::AsyncLoad => Some(Value::Real(Real { bits: MINUS_ONE_BITS })),
            InstanceVariable::DisplayAa => Some(Value::Real(Real { bits: FOURTEEN_BITS })),
            _ => None,
        }
    }
}

impl Context {
    /// Reads a built-in variable that this holds; `None` for any other.
    pub fn read(&self, var: InstanceVariable) -> (r: Option<Value>)
        ensures
            maybe(r) == read_frame(self@, var),
    {
        match var {
            InstanceVariable::ArgumentRelative => Some(Value::from_bool(self.relative)),
            InstanceVariable::ArgumentCount => Some(Value::from_usize(self.argument_count)),
            InstanceVariable::EventType => Some(Value::from_usize(self.event_type)),
            InstanceVariable::EventNumber => Some(Value::from_usize(self.event_number)),
            InstanceVariable::EventObject => Some(Value::from_i32(self.event_object)),
            InstanceVariable::EventAction => Some(Value::from_usize(self.event_action)),
            _ => None,
        }
    }
}

impl BackgroundLayer {
    /// Reads a built-in variable that this holds; `None` for any other.
    pub fn read(&self, var: InstanceVariable) -> (r: Option<Value>)
        ensures
            maybe(r) == read_layer(*self, var),
    {
        match var {
            InstanceVariable::BackgroundVisible => Some(Value::from_bool(self.visible)),
            InstanceVariable::BackgroundForeground => Some(Value::from_bool(self.is_foreground)),
            InstanceVariable::BackgroundIndex => Some(Value::from_i32(self.background_id)),
            InstanceVariable::BackgroundX => Some(Value::Real(self.x_offset)),
            InstanceVariable::BackgroundY => Some(Value::Real(self.y_offset)),
            InstanceVariable::BackgroundHtiled => Some(Value::from_bool(self.tile_horizontal)),
            InstanceVariable::BackgroundVtiled => Some(Value::from_bool(self.tile_vertical)),
            InstanceVariable::BackgroundXscale => Some(Value::Real(self.xscale)),
            InstanceVariable::BackgroundYscale => Some(Value::Real(self.yscale)),
            InstanceVariable::BackgroundHspeed => Some(Value::Real(self.hspeed)),
            InstanceVariable::BackgroundVspeed => Some(Value::Real(self.vspeed)),
            InstanceVariable::BackgroundBlend => Some(Value::from_i32(self.blend)),
            InstanceVariable::BackgroundAlpha => Some(Value::Real(self.alpha)),
            _ => None,
        }
    }
}

impl RoomView {
    /// Reads a built-in variable that this holds; `None` for any other.
    pub fn read(&self, var: InstanceVariable) -> (r: Option<Value>)
        ensures
            maybe(r) == read_view(*self, var),
    {
        match var {
            InstanceVariable::ViewVisible => Some(Value::from_bool(self.visible)),
            InstanceVariable::ViewXview => Some(Value::from_i32(self.source_x)),
            InstanceVariable::ViewYview => Some(Value::from_i32(self.source_y)),
            InstanceVariable::ViewWview => Some(Value::from_i32(self.source_w)),
            InstanceVariable::ViewHview => Some(Value::from_i32(self.source_h)),
            InstanceVariable::ViewXport => Some(Value::from_i32(self.port_x)),
            InstanceVariable::ViewYport => Some(Value::from_i32(self.port_y)),
            InstanceVariable::ViewWport => Some(Value::from_i32(self.port_w)),
            InstanceVariable::ViewHport => Some(Value::from_i32(self.port_h)),
            InstanceVariable::ViewAngle => Some(Value::Real(self.angle)),
            InstanceVariable::ViewHborder => Some(Value::from_i32(self.follow_hborder)),
            InstanceVariable::ViewVborder => Some(Value::from_i32(self.follow_vborder)),
            InstanceVariable::ViewHspeed => Some(Value::from_i32(self.follow_hspeed)),
            InstanceVariable::ViewVspeed => Some(Value::from_i32(self.follow_vspeed)),
            InstanceVariable::ViewObject => Some(Value::from_i32(self.follow_target)),
            _ => None,
        }
    }
}

impl Texts {
    /// Reads a built-in variable that this holds; `None` for any other.
    pub fn read(&self, var: InstanceVariable) -> (r: Option<Value>)
        ensures
            maybe(r) == read_text(self@, var),
    {
        match var {
            InstanceVariable::TempDirectory => Some(Value::Str(copy_bytes(&self.temp_directory))),
            InstanceVariable::ProgramDirectory => Some(Value::Str(copy_bytes(&self.program_directory))),
            InstanceVariable::RoomCaption => Some(Value::Str(copy_bytes(&self.caption))),
            InstanceVariable::CaptionScore => Some(Value::Str(copy_bytes(&self.score_caption))),
            InstanceVariable::CaptionLives => Some(Value::Str(copy_bytes(&self.lives_caption))),
            InstanceVariable::CaptionHealth => Some(Value::Str(copy_bytes(&self.health_caption))),
            InstanceVariable::ErrorLast => Some(Value::Str(copy_bytes(&self.error_last))),
            _ => None,
        }
    }
}

impl Game {
    /// What stands for a variable that was never set.
    pub fn unset_value(&self, name: String, index: u32) -> (r: Result<Value, Error>)
        ensures
            value_result(r) == unset(self@, name@, index),
    {
        if self.status.uninit_fields_are_zero {
            Ok(Value::zero())
        } else {
            Err(Error::UninitializedVariable(name, index))
        }
    }

    /// Reads a user variable of an instance.
    pub fn get_instance_field(&self, instance: usize, field_id: usize, array_index: u32) -> (r:
        Result<Value, Error>)
        ensures
            value_result(r) == field_of(self@, instance, field_id, array_index),
    {
        if instance < self.instance_list.instances.len() {
            match self.instance_list.instances[instance].fields.get(field_id, array_index) {
                Some(v) => Ok(v),
                None => self.unset_value(self.field_name(field_id), array_index),
            }
        } else {
            self.unset_value(self.field_name(field_id), array_index)
        }
    }

    /// Reads an argument of the running call.
    pub fn get_argument(&self, context: &Context, arg: usize) -> (r: Result<Value, Error>)
        ensures
            value_result(r) == argument_of(self@, context@, arg),
    {
        if arg < context.arguments.len() {
            Ok(context.arguments[arg].duplicate())
        } else if self.status.uninit_args_are_zero {
            Ok(Value::zero())
        } else {
            Err(Error::UninitializedArgument(arg))
        }
    }

    /// The sprite that an instance shows.
    pub fn get_instance_sprite(&self, instance: usize) -> (r: Option<Sprite>)
        ensures
            r == sprite_of(self@, instance),
    {
        match self.instance_list.state(instance) {
            Some(s) => self.assets.get_sprite(s.sprite_index),
            None => None,
        }
    }

    /// The sprite that gives an instance its collision mask.
    pub fn get_instance_mask_sprite(&self, instance: usize) -> (r: Option<Sprite>)
        ensures
            r == mask_sprite_of(self@, instance),
    {
        match self.instance_list.state(instance) {
            Some(s) => {
                let index = if s.mask_index >= 0 { s.mask_index } else { s.sprite_index };
                self.assets.get_sprite(index)
            },
            None => None,
        }
    }

    fn alarm(&self, handle: usize, slot: u32) -> (r: i32)
        requires
            handle < self@.instances.len(),
        ensures
            r == alarm_of(self@.instances[handle as int].alarms, slot),
    {
        match self.instance_list.instances[handle].alarms.get(&slot) {
            Some(v) => *v,
            None => DEFAULT_ALARM,
        }
    }

    /// The milliseconds that scripts read off the host's clock.
    pub fn read_clock(millis: u64) -> (r: u32)
        ensures
            r == clock_reading(millis),
    {
        (millis as u32) & 0xFFFF_FFF0
    }

    /// The background layer that an index means.
    pub fn layer(&self, index: u32) -> (r: BackgroundLayer)
        ensures
            r == layer_of(self@.backgrounds, index),
    {
        if index < 8 {
            self.backgrounds[index as usize]
        } else {
            self.backgrounds[0]
        }
    }

    /// The view that an index means.
    pub fn view_at(&self, index: u32) -> (r: RoomView)
        ensures
            r == view_of(self@.views, index),
    {
        if index < 8 {
            self.views[index as usize]
        } else {
            self.views[0]
        }
    }

    /// Makes the bounding box of an instance fit the instance again, if it
    /// may not: the host computes the box from the mask, and the instance
    /// keeps it. Gives the state of the instance after that.
    fn refresh_bbox<H: Host>(&mut self, host: &mut H, handle: usize, s: InstanceState) -> (r:
        InstanceState)
        requires
            handle < old(self)@.instances.len(),
            s == old(self)@.instances[handle as int].state,
        ensures
            !s.bbox_is_stale ==> r == s && final(self)@ == old(self)@,
            !r.bbox_is_stale,
            final(self)@.instances.len() == old(self)@.instances.len(),
            final(self)@.instances[handle as int].state == r,
            r == s.with_bbox(
                BoundingBox {
                    left: r.bbox_left,
                    right: r.bbox_right,
                    top: r.bbox_top,
                    bottom: r.bbox_bottom,
                },
            ),
            final(self)@ == old(self)@.with_instance(
                handle,
                InstanceModel { state: r, ..old(self)@.instances[handle as int] },
            ),
    {
        if s.bbox_is_stale {
            let mask = self.assets.get_sprite(
                if s.mask_index >= 0 { s.mask_index } else { s.sprite_index },
            );
            let b = host.bounding_box(&s, mask);
            let fresh = s.take_bbox(b);
            self.instance_list.set_state(handle, fresh);
            assert(self@ == old(self)@.with_instance(
                handle,
                InstanceModel { state: s.with_bbox(b), ..old(self)@.instances[handle as int] },
            ));
            fresh
        } else {
            assert(old(self)@.instances =~= old(self)@.instances.update(
                handle as int,
                InstanceModel { state: s, ..old(self)@.instances[handle as int] },
            ));
            s
        }
    }

    /// Reads a variable whose value takes more than one plain value to say.
    fn get_special<H: Host>(
        &mut self,
        host: &mut H,
        instance_handle: usize,
        s: InstanceState,
        var: &InstanceVariable,
        array_index: u32,
        context: &Context,
    ) -> (r: Result<Value, Error>)
        requires
            instance_handle < old(self)@.instances.len(),
            s == old(self)@.instances[instance_handle as int].state,
        ensures
            read_special(
                old(self)@,
                context@,
                old(self)@.instances[instance_handle as int],
                *var,
                array_index,
            ) matches Some(res) ==> final(self)@ == old(self)@ && value_result(r) == res,
            !reads_bbox(*var) ==> final(self)@ == old(self)@,
            reads_bbox(*var) ==> bbox_read(
                old(self)@,
                final(self)@,
                instance_handle,
                *var,
                value_result(r),
            ),
    {
        match var {
            InstanceVariable::Alarm => Ok(Value::from_i32(self.alarm(instance_handle, array_index))),
            InstanceVariable::BboxLeft => { let fresh = self.refresh_bbox(host, instance_handle, s); Ok(Value::from_i32(fresh.bbox_left)) },
            InstanceVariable::BboxRight => { let fresh = self.refresh_bbox(host, instance_handle, s); Ok(Value::from_i32(fresh.bbox_right)) },
            InstanceVariable::BboxTop => { let fresh = self.refresh_bbox(host, instance_handle, s); Ok(Value::from_i32(fresh.bbox_top)) },
            InstanceVariable::BboxBottom => { let fresh = self.refresh_bbox(host, instance_handle, s); Ok(Value::from_i32(fresh.bbox_bottom)) },
            InstanceVariable::ImageNumber => match self.assets.get_sprite(s.sprite_index) { Some(sprite) => Ok(Value::from_usize(sprite.frame_count)), None => Ok(Value::from_i32(0)) },
            InstanceVariable::SpriteWidth => match self.assets.get_sprite(s.sprite_index) { Some(sprite) => Ok(Value::Real(s.image_xscale.times(Real::from_u32(sprite.width)))), None => Ok(Value::zero()) },
            InstanceVariable::SpriteHeight => match self.assets.get_sprite(s.sprite_index) { Some(sprite) => Ok(Value::Real(s.image_yscale.times(Real::from_u32(sprite.height)))), None => Ok(Value::zero()) },
            InstanceVariable::SpriteXoffset => match self.assets.get_sprite(s.sprite_index) { Some(sprite) => Ok(Value::from_i32(sprite.origin_x)), None => Ok(Value::zero()) },
            InstanceVariable::SpriteYoffset => match self.assets.get_sprite(s.sprite_index) { Some(sprite) => Ok(Value::from_i32(sprite.origin_y)), None => Ok(Value::zero()) },
            InstanceVariable::Argument0 => self.get_argument(context, 0),
            InstanceVariable::Argument1 => self.get_argument(context, 1),
            InstanceVariable::Argument2 => self.get_argument(context, 2),
            InstanceVariable::Argument3 => self.get_argument(context, 3),
            InstanceVariable::Argument4 => self.get_argument(context, 4),
            InstanceVariable::Argument5 => self.get_argument(context, 5),
            InstanceVariable::Argument6 => self.get_argument(context, 6),
            InstanceVariable::Argument7 => self.get_argument(context, 7),
            InstanceVariable::Argument8 => self.get_argument(context, 8),
            InstanceVariable::Argument9 => self.get_argument(context, 9),
            InstanceVariable::Argument10 => self.get_argument(context, 10),
            InstanceVariable::Argument11 => self.get_argument(context, 11),
            InstanceVariable::Argument12 => self.get_argument(context, 12),
            InstanceVariable::Argument13 => self.get_argument(context, 13),
            InstanceVariable::Argument14 => self.get_argument(context, 14),
            InstanceVariable::Argument15 => self.get_argument(context, 15),
            InstanceVariable::Argument => self.get_argument(context, array_index as usize),
            InstanceVariable::RoomFirst => if self.room_order.len() > 0 { Ok(Value::from_i32(self.room_order[0])) } else { Err(Error::EndOfRoomOrder) },
            InstanceVariable::RoomLast => if self.room_order.len() > 0 { Ok(Value::from_i32(self.room_order[self.room_order.len() - 1])) } else { Err(Error::EndOfRoomOrder) },
            InstanceVariable::WorkingDirectory => match host.working_directory() { Ok(bytes) => Ok(Value::Str(bytes)), Err(path) => Err(Error::BadDirectoryError(path)) },
            InstanceVariable::InstanceCount => Ok(Value::from_usize(self.instance_list.count_all())),
            InstanceVariable::InstanceId => Ok(Value::from_i32(self.instance_list.instance_at(array_index as usize))),
            InstanceVariable::BackgroundWidth => match self.assets.get_background(self.layer(array_index).background_id) { Some(image) => Ok(Value::from_u32(image.width)), None => Ok(Value::from_i32(0)) },
            InstanceVariable::BackgroundHeight => match self.assets.get_background(self.layer(array_index).background_id) { Some(image) => Ok(Value::from_u32(image.height)), None => Ok(Value::from_i32(0)) },
            InstanceVariable::CurrentTime => match self.status.spoofed_time_nanos { Some(nanos) => Ok(Value::from_u32((nanos / 1_000_000) as u32)), None => { let millis = host.clock_millis(); Ok(Value::from_u32(Game::read_clock(millis))) } },
            InstanceVariable::CurrentYear => { let now = host.calendar(self.status.spoofed_time_nanos); Ok(Value::from_i32(now.year)) },
            InstanceVariable::CurrentMonth => { let now = host.calendar(self.status.spoofed_time_nanos); Ok(Value::from_i32(now.month)) },
            InstanceVariable::CurrentDay => { let now = host.calendar(self.status.spoofed_time_nanos); Ok(Value::from_i32(now.day)) },
            InstanceVariable::CurrentWeekday => { let now = host.calendar(self.status.spoofed_time_nanos); Ok(Value::from_i32(now.weekday)) },
            InstanceVariable::CurrentHour => { let now = host.calendar(self.status.spoofed_time_nanos); Ok(Value::from_i32(now.hour)) },
            InstanceVariable::CurrentMinute => { let now = host.calendar(self.status.spoofed_time_nanos); Ok(Value::from_i32(now.minute)) },
            InstanceVariable::CurrentSecond => { let now = host.calendar(self.status.spoofed_time_nanos); Ok(Value::from_i32(now.second)) },
            _ => Err(Error::UninitializedVariable(String::from_str(var.name()), array_index)),
        }
    }

    /// Reads a built-in variable for an instance. Reading changes nothing,
    /// but that one of the four `bbox_*` variables leaves the bounding box
    /// of the instance fresh.
    pub fn get_instance_var<H: Host>(
        &mut self,
        host: &mut H,
        instance_handle: usize,
        var: &InstanceVariable,
        array_index: u32,
        context: &Context,
    ) -> (r: Result<Value, Error>)
        ensures
            read_variable(old(self)@, context@, instance_handle, *var, array_index) matches Some(
                res,
            ) ==> final(self)@ == old(self)@ && value_result(r) == res,
            !reads_bbox(*var) || instance_handle >= old(self)@.instances.len() ==> final(self)@
                == old(self)@,
            reads_bbox(*var) && instance_handle < old(self)@.instances.len() ==> bbox_read(
                old(self)@,
                final(self)@,
                instance_handle,
                *var,
                value_result(r),
            ),
    {
        let s = match self.instance_list.state(instance_handle) {
            Some(s) => s,
            None => {
                return self.unset_value(String::from_str(var.name()), array_index);
            },
        };
        if let Some(v) = s.read(*var) {
            return Ok(v);
        }
        if let Some(v) = self.status.read(*var) {
            return Ok(v);
        }
        if let Some(v) = context.read(*var) {
            return Ok(v);
        }
        if let Some(v) = self.layer(array_index).read(*var) {
            return Ok(v);
        }
        if let Some(v) = self.view_at(array_index).read(*var) {
            return Ok(v);
        }
        if let Some(v) = self.texts.read(*var) {
            return Ok(v);
        }
        self.get_special(host, instance_handle, s, var, array_index, context)
    }
}

} // verus!
