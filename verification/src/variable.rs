//! The built-in variables of the scripting language.

use vstd::prelude::*;

verus! {

/// A built-in variable, by name.
#[derive(Clone, Copy, Debug, PartialEq, Eq, Hash, Structural)]
pub enum InstanceVariable {
    X,
    Y,
    Xprevious,
    Yprevious,
    Xstart,
    Ystart,
    Hspeed,
    Vspeed,
    Direction,
    Speed,
    Friction,
    Gravity,
    GravityDirection,
    ObjectIndex,
    Id,
    Alarm,
    Solid,
    Visible,
    Persistent,
    Depth,
    BboxLeft,
    BboxRight,
    BboxTop,
    BboxBottom,
    SpriteIndex,
    ImageIndex,
    ImageSingle,
    ImageNumber,
    SpriteWidth,
    SpriteHeight,
    SpriteXoffset,
    SpriteYoffset,
    ImageXscale,
    ImageYscale,
    ImageAngle,
    ImageAlpha,
    ImageBlend,
    ImageSpeed,
    MaskIndex,
    PathIndex,
    PathPosition,
    PathPositionprevious,
    PathSpeed,
    PathScale,
    PathOrientation,
    PathEndAction,
    TimelineIndex,
    TimelinePosition,
    TimelineSpeed,
    TimelineRunning,
    TimelineLoop,
    ArgumentRelative,
    Argument0,
    Argument1,
    Argument2,
    Argument3,
    Argument4,
    Argument5,
    Argument6,
    Argument7,
    Argument8,
    Argument9,
    Argument10,
    Argument11,
    Argument12,
    Argument13,
    Argument14,
    Argument15,
    Argument,
    ArgumentCount,
    Room,
    RoomFirst,
    RoomLast,
    TransitionKind,
    TransitionSteps,
    Score,
    Lives,
    Health,
    GameId,
    WorkingDirectory,
    TempDirectory,
    ProgramDirectory,
    InstanceCount,
    InstanceId,
    RoomWidth,
    RoomHeight,
    RoomCaption,
    RoomSpeed,
    RoomPersistent,
    BackgroundColor,
    BackgroundShowcolor,
    BackgroundVisible,
    BackgroundForeground,
    BackgroundIndex,
    BackgroundX,
    BackgroundY,
    BackgroundWidth,
    BackgroundHeight,
    BackgroundHtiled,
    BackgroundVtiled,
    BackgroundXscale,
    BackgroundYscale,
    BackgroundHspeed,
    BackgroundVspeed,
    BackgroundBlend,
    BackgroundAlpha,
    ViewEnabled,
    ViewCurrent,
    ViewVisible,
    ViewXview,
    ViewYview,
    ViewWview,
    ViewHview,
    ViewXport,
    ViewYport,
    ViewWport,
    ViewHport,
    ViewAngle,
    ViewHborder,
    ViewVborder,
    ViewHspeed,
    ViewVspeed,
    ViewObject,
    MouseX,
    MouseY,
    MouseButton,
    MouseLastbutton,
    KeyboardKey,
    KeyboardLastkey,
    KeyboardLastchar,
    KeyboardString,
    CursorSprite,
    ShowScore,
    ShowLives,
    ShowHealth,
    CaptionScore,
    CaptionLives,
    CaptionHealth,
    Fps,
    CurrentTime,
    CurrentYear,
    CurrentMonth,
    CurrentDay,
    CurrentWeekday,
    CurrentHour,
    CurrentMinute,
    CurrentSecond,
    EventType,
    EventNumber,
    EventObject,
    EventAction,
    SecureMode,
    DebugMode,
    ErrorOccurred,
    ErrorLast,
    GamemakerRegistered,
    GamemakerPro,
    GamemakerVersion,
    OsType,
    OsDevice,
    OsBrowser,
    OsVersion,
    BrowserWidth,
    BrowserHeight,
    DisplayAa,
    AsyncLoad,
}

impl InstanceVariable {
    /// The number of the variable, by which maps of built-in variables are
    /// keyed. Different variables have different numbers.
    pub open spec fn spec_code(self) -> usize {
        match self {
            InstanceVariable::X => 0,
            InstanceVariable::Y => 1,
            InstanceVariable::Xprevious => 2,
            InstanceVariable::Yprevious => 3,
            InstanceVariable::Xstart => 4,
            InstanceVariable::Ystart => 5,
            InstanceVariable::Hspeed => 6,
            InstanceVariable::Vspeed => 7,
            InstanceVariable::Direction => 8,
            InstanceVariable::Speed => 9,
            InstanceVariable::Friction => 10,
            InstanceVariable::Gravity => 11,
            InstanceVariable::GravityDirection => 12,
            InstanceVariable::ObjectIndex => 13,
            InstanceVariable::Id => 14,
            InstanceVariable::Alarm => 15,
            InstanceVariable::Solid => 16,
            InstanceVariable::Visible => 17,
            InstanceVariable::Persistent => 18,
            InstanceVariable::Depth => 19,
            InstanceVariable::BboxLeft => 20,
            InstanceVariable::BboxRight => 21,
            InstanceVariable::BboxTop => 22,
            InstanceVariable::BboxBottom => 23,
            InstanceVariable::SpriteIndex => 24,
            InstanceVariable::ImageIndex => 25,
            InstanceVariable::ImageSingle => 26,
            InstanceVariable::ImageNumber => 27,
            InstanceVariable::SpriteWidth => 28,
            InstanceVariable::SpriteHeight => 29,
            InstanceVariable::SpriteXoffset => 30,
            InstanceVariable::SpriteYoffset => 31,
            InstanceVariable::ImageXscale => 32,
            InstanceVariable::ImageYscale => 33,
            InstanceVariable::ImageAngle => 34,
            InstanceVariable::ImageAlpha => 35,
            InstanceVariable::ImageBlend => 36,
            InstanceVariable::ImageSpeed => 37,
            InstanceVariable::MaskIndex => 38,
            InstanceVariable::PathIndex => 39,
            InstanceVariable::PathPosition => 40,
            InstanceVariable::PathPositionprevious => 41,
            InstanceVariable::PathSpeed => 42,
            InstanceVariable::PathScale => 43,
            InstanceVariable::PathOrientation => 44,
            InstanceVariable::PathEndAction => 45,
            InstanceVariable::TimelineIndex => 46,
            InstanceVariable::TimelinePosition => 47,
            InstanceVariable::TimelineSpeed => 48,
            InstanceVariable::TimelineRunning => 49,
            InstanceVariable::TimelineLoop => 50,
            InstanceVariable::ArgumentRelative => 51,
            InstanceVariable::Argument0 => 52,
            InstanceVariable::Argument1 => 53,
            InstanceVariable::Argument2 => 54,
            InstanceVariable::Argument3 => 55,
            InstanceVariable::Argument4 => 56,
            InstanceVariable::Argument5 => 57,
            InstanceVariable::Argument6 => 58,
            InstanceVariable::Argument7 => 59,
            InstanceVariable::Argument8 => 60,
            InstanceVariable::Argument9 => 61,
            InstanceVariable::Argument10 => 62,
            InstanceVariable::Argument11 => 63,
            InstanceVariable::Argument12 => 64,
            InstanceVariable::Argument13 => 65,
            InstanceVariable::Argument14 => 66,
            InstanceVariable::Argument15 => 67,
            InstanceVariable::Argument => 68,
            InstanceVariable::ArgumentCount => 69,
            InstanceVariable::Room => 70,
            InstanceVariable::RoomFirst => 71,
            InstanceVariable::RoomLast => 72,
            InstanceVariable::TransitionKind => 73,
            InstanceVariable::TransitionSteps => 74,
            InstanceVariable::Score => 75,
            InstanceVariable::Lives => 76,
            InstanceVariable::Health => 77,
            InstanceVariable::GameId => 78,
            InstanceVariable::WorkingDirectory => 79,
            InstanceVariable::TempDirectory => 80,
            InstanceVariable::ProgramDirectory => 81,
            InstanceVariable::InstanceCount => 82,
            InstanceVariable::InstanceId => 83,
            InstanceVariable::RoomWidth => 84,
            InstanceVariable::RoomHeight => 85,
            InstanceVariable::RoomCaption => 86,
            InstanceVariable::RoomSpeed => 87,
            InstanceVariable::RoomPersistent => 88,
            InstanceVariable::BackgroundColor => 89,
            InstanceVariable::BackgroundShowcolor => 90,
            InstanceVariable::BackgroundVisible => 91,
            InstanceVariable::BackgroundForeground => 92,
            InstanceVariable::BackgroundIndex => 93,
            InstanceVariable::BackgroundX => 94,
            InstanceVariable::BackgroundY => 95,
            InstanceVariable::BackgroundWidth => 96,
            InstanceVariable::BackgroundHeight => 97,
            InstanceVariable::BackgroundHtiled => 98,
            InstanceVariable::BackgroundVtiled => 99,
            InstanceVariable::BackgroundXscale => 100,
            InstanceVariable::BackgroundYscale => 101,
            InstanceVariable::BackgroundHspeed => 102,
            InstanceVariable::BackgroundVspeed => 103,
            InstanceVariable::BackgroundBlend => 104,
            InstanceVariable::BackgroundAlpha => 105,
            InstanceVariable::ViewEnabled => 106,
            InstanceVariable::ViewCurrent => 107,
            InstanceVariable::ViewVisible => 108,
            InstanceVariable::ViewXview => 109,
            InstanceVariable::ViewYview => 110,
            InstanceVariable::ViewWview => 111,
            InstanceVariable::ViewHview => 112,
            InstanceVariable::ViewXport => 113,
            InstanceVariable::ViewYport => 114,
            InstanceVariable::ViewWport => 115,
            InstanceVariable::ViewHport => 116,
            InstanceVariable::ViewAngle => 117,
            InstanceVariable::ViewHborder => 118,
            InstanceVariable::ViewVborder => 119,
            InstanceVariable::ViewHspeed => 120,
            InstanceVariable::ViewVspeed => 121,
            InstanceVariable::ViewObject => 122,
            InstanceVariable::MouseX => 123,
            InstanceVariable::MouseY => 124,
            InstanceVariable::MouseButton => 125,
            InstanceVariable::MouseLastbutton => 126,
            InstanceVariable::KeyboardKey => 127,
            InstanceVariable::KeyboardLastkey => 128,
            InstanceVariable::KeyboardLastchar => 129,
            InstanceVariable::KeyboardString => 130,
            InstanceVariable::CursorSprite => 131,
            InstanceVariable::ShowScore => 132,
            InstanceVariable::ShowLives => 133,
            InstanceVariable::ShowHealth => 134,
            InstanceVariable::CaptionScore => 135,
            InstanceVariable::CaptionLives => 136,
            InstanceVariable::CaptionHealth => 137,
            InstanceVariable::Fps => 138,
            InstanceVariable::CurrentTime => 139,
            InstanceVariable::CurrentYear => 140,
            InstanceVariable::CurrentMonth => 141,
            InstanceVariable::CurrentDay => 142,
            InstanceVariable::CurrentWeekday => 143,
            InstanceVariable::CurrentHour => 144,
            InstanceVariable::CurrentMinute => 145,
            InstanceVariable::CurrentSecond => 146,
            InstanceVariable::EventType => 147,
            InstanceVariable::EventNumber => 148,
            InstanceVariable::EventObject => 149,
            InstanceVariable::EventAction => 150,
            InstanceVariable::SecureMode => 151,
            InstanceVariable::DebugMode => 152,
            InstanceVariable::ErrorOccurred => 153,
            InstanceVariable::ErrorLast => 154,
            InstanceVariable::GamemakerRegistered => 155,
            InstanceVariable::GamemakerPro => 156,
            InstanceVariable::GamemakerVersion => 157,
            InstanceVariable::OsType => 158,
            InstanceVariable::OsDevice => 159,
            InstanceVariable::OsBrowser => 160,
            InstanceVariable::OsVersion => 161,
            InstanceVariable::BrowserWidth => 162,
            InstanceVariable::BrowserHeight => 163,
            InstanceVariable::DisplayAa => 164,
            InstanceVariable::AsyncLoad => 165,
        }
    }

    #[verifier::when_used_as_spec(spec_code)]
    pub fn code(self) -> (r: usize)
        ensures
            r == self.spec_code(),
            r < VARIABLE_COUNT,
    {
        match self {
            InstanceVariable::X => 0,
            InstanceVariable::Y => 1,
            InstanceVariable::Xprevious => 2,
            InstanceVariable::Yprevious => 3,
            InstanceVariable::Xstart => 4,
            InstanceVariable::Ystart => 5,
            InstanceVariable::Hspeed => 6,
            InstanceVariable::Vspeed => 7,
            InstanceVariable::Direction => 8,
            InstanceVariable::Speed => 9,
            InstanceVariable::Friction => 10,
            InstanceVariable::Gravity => 11,
            InstanceVariable::GravityDirection => 12,
            InstanceVariable::ObjectIndex => 13,
            InstanceVariable::Id => 14,
            InstanceVariable::Alarm => 15,
            InstanceVariable::Solid => 16,
            InstanceVariable::Visible => 17,
            InstanceVariable::Persistent => 18,
            InstanceVariable::Depth => 19,
            InstanceVariable::BboxLeft => 20,
            InstanceVariable::BboxRight => 21,
            InstanceVariable::BboxTop => 22,
            InstanceVariable::BboxBottom => 23,
            InstanceVariable::SpriteIndex => 24,
            InstanceVariable::ImageIndex => 25,
            InstanceVariable::ImageSingle => 26,
            InstanceVariable::ImageNumber => 27,
            InstanceVariable::SpriteWidth => 28,
            InstanceVariable::SpriteHeight => 29,
            InstanceVariable::SpriteXoffset => 30,
            InstanceVariable::SpriteYoffset => 31,
            InstanceVariable::ImageXscale => 32,
            InstanceVariable::ImageYscale => 33,
            InstanceVariable::ImageAngle => 34,
            InstanceVariable::ImageAlpha => 35,
            InstanceVariable::ImageBlend => 36,
            InstanceVariable::ImageSpeed => 37,
            InstanceVariable::MaskIndex => 38,
            InstanceVariable::PathIndex => 39,
            InstanceVariable::PathPosition => 40,
            InstanceVariable::PathPositionprevious => 41,
            InstanceVariable::PathSpeed => 42,
            InstanceVariable::PathScale => 43,
            InstanceVariable::PathOrientation => 44,
            InstanceVariable::PathEndAction => 45,
            InstanceVariable::TimelineIndex => 46,
            InstanceVariable::TimelinePosition => 47,
            InstanceVariable::TimelineSpeed => 48,
            InstanceVariable::TimelineRunning => 49,
            InstanceVariable::TimelineLoop => 50,
            InstanceVariable::ArgumentRelative => 51,
            InstanceVariable::Argument0 => 52,
            InstanceVariable::Argument1 => 53,
            InstanceVariable::Argument2 => 54,
            InstanceVariable::Argument3 => 55,
            InstanceVariable::Argument4 => 56,
            InstanceVariable::Argument5 => 57,
            InstanceVariable::Argument6 => 58,
            InstanceVariable::Argument7 => 59,
            InstanceVariable::Argument8 => 60,
            InstanceVariable::Argument9 => 61,
            InstanceVariable::Argument10 => 62,
            InstanceVariable::Argument11 => 63,
            InstanceVariable::Argument12 => 64,
            InstanceVariable::Argument13 => 65,
            InstanceVariable::Argument14 => 66,
            InstanceVariable::Argument15 => 67,
            InstanceVariable::Argument => 68,
            InstanceVariable::ArgumentCount => 69,
            InstanceVariable::Room => 70,
            InstanceVariable::RoomFirst => 71,
            InstanceVariable::RoomLast => 72,
            InstanceVariable::TransitionKind => 73,
            InstanceVariable::TransitionSteps => 74,
            InstanceVariable::Score => 75,
            InstanceVariable::Lives => 76,
            InstanceVariable::Health => 77,
            InstanceVariable::GameId => 78,
            InstanceVariable::WorkingDirectory => 79,
            InstanceVariable::TempDirectory => 80,
            InstanceVariable::ProgramDirectory => 81,
            InstanceVariable::InstanceCount => 82,
            InstanceVariable::InstanceId => 83,
            InstanceVariable::RoomWidth => 84,
            InstanceVariable::RoomHeight => 85,
            InstanceVariable::RoomCaption => 86,
            InstanceVariable::RoomSpeed => 87,
            InstanceVariable::RoomPersistent => 88,
            InstanceVariable::BackgroundColor => 89,
            InstanceVariable::BackgroundShowcolor => 90,
            InstanceVariable::BackgroundVisible => 91,
            InstanceVariable::BackgroundForeground => 92,
            InstanceVariable::BackgroundIndex => 93,
            InstanceVariable::BackgroundX => 94,
            InstanceVariable::BackgroundY => 95,
            InstanceVariable::BackgroundWidth => 96,
            InstanceVariable::BackgroundHeight => 97,
            InstanceVariable::BackgroundHtiled => 98,
            InstanceVariable::BackgroundVtiled => 99,
            InstanceVariable::BackgroundXscale => 100,
            InstanceVariable::BackgroundYscale => 101,
            InstanceVariable::BackgroundHspeed => 102,
            InstanceVariable::BackgroundVspeed => 103,
            InstanceVariable::BackgroundBlend => 104,
            InstanceVariable::BackgroundAlpha => 105,
            InstanceVariable::ViewEnabled => 106,
            InstanceVariable::ViewCurrent => 107,
            InstanceVariable::ViewVisible => 108,
            InstanceVariable::ViewXview => 109,
            InstanceVariable::ViewYview => 110,
            InstanceVariable::ViewWview => 111,
            InstanceVariable::ViewHview => 112,
            InstanceVariable::ViewXport => 113,
            InstanceVariable::ViewYport => 114,
            InstanceVariable::ViewWport => 115,
            InstanceVariable::ViewHport => 116,
            InstanceVariable::ViewAngle => 117,
            InstanceVariable::ViewHborder => 118,
            InstanceVariable::ViewVborder => 119,
            InstanceVariable::ViewHspeed => 120,
            InstanceVariable::ViewVspeed => 121,
            InstanceVariable::ViewObject => 122,
            InstanceVariable::MouseX => 123,
            InstanceVariable::MouseY => 124,
            InstanceVariable::MouseButton => 125,
            InstanceVariable::MouseLastbutton => 126,
            InstanceVariable::KeyboardKey => 127,
            InstanceVariable::KeyboardLastkey => 128,
            InstanceVariable::KeyboardLastchar => 129,
            InstanceVariable::KeyboardString => 130,
            InstanceVariable::CursorSprite => 131,
            InstanceVariable::ShowScore => 132,
            InstanceVariable::ShowLives => 133,
            InstanceVariable::ShowHealth => 134,
            InstanceVariable::CaptionScore => 135,
            InstanceVariable::CaptionLives => 136,
            InstanceVariable::CaptionHealth => 137,
            InstanceVariable::Fps => 138,
            InstanceVariable::CurrentTime => 139,
            InstanceVariable::CurrentYear => 140,
            InstanceVariable::CurrentMonth => 141,
            InstanceVariable::CurrentDay => 142,
            InstanceVariable::CurrentWeekday => 143,
            InstanceVariable::CurrentHour => 144,
            InstanceVariable::CurrentMinute => 145,
            InstanceVariable::CurrentSecond => 146,
            InstanceVariable::EventType => 147,
            InstanceVariable::EventNumber => 148,
            InstanceVariable::EventObject => 149,
            InstanceVariable::EventAction => 150,
            InstanceVariable::SecureMode => 151,
            InstanceVariable::DebugMode => 152,
            InstanceVariable::ErrorOccurred => 153,
            InstanceVariable::ErrorLast => 154,
            InstanceVariable::GamemakerRegistered => 155,
            InstanceVariable::GamemakerPro => 156,
            InstanceVariable::GamemakerVersion => 157,
            InstanceVariable::OsType => 158,
            InstanceVariable::OsDevice => 159,
            InstanceVariable::OsBrowser => 160,
            InstanceVariable::OsVersion => 161,
            InstanceVariable::BrowserWidth => 162,
            InstanceVariable::BrowserHeight => 163,
            InstanceVariable::DisplayAa => 164,
            InstanceVariable::AsyncLoad => 165,
        }
    }

    /// The name of the variable as scripts write it.
    pub open spec fn spec_name(self) -> Seq<char> {
        match self {
            InstanceVariable::X => "x"@,
            InstanceVariable::Y => "y"@,
            InstanceVariable::Xprevious => "xprevious"@,
            InstanceVariable::Yprevious => "yprevious"@,
            InstanceVariable::Xstart => "xstart"@,
            InstanceVariable::Ystart => "ystart"@,
            InstanceVariable::Hspeed => "hspeed"@,
            InstanceVariable::Vspeed => "vspeed"@,
            InstanceVariable::Direction => "direction"@,
            InstanceVariable::Speed => "speed"@,
            InstanceVariable::Friction => "friction"@,
            InstanceVariable::Gravity => "gravity"@,
            InstanceVariable::GravityDirection => "gravity_direction"@,
            InstanceVariable::ObjectIndex => "object_index"@,
            InstanceVariable::Id => "id"@,
            InstanceVariable::Alarm => "alarm"@,
            InstanceVariable::Solid => "solid"@,
            InstanceVariable::Visible => "visible"@,
            InstanceVariable::Persistent => "persistent"@,
            InstanceVariable::Depth => "depth"@,
            InstanceVariable::BboxLeft => "bbox_left"@,
            InstanceVariable::BboxRight => "bbox_right"@,
            InstanceVariable::BboxTop => "bbox_top"@,
            InstanceVariable::BboxBottom => "bbox_bottom"@,
            InstanceVariable::SpriteIndex => "sprite_index"@,
            InstanceVariable::ImageIndex => "image_index"@,
            InstanceVariable::ImageSingle => "image_single"@,
            InstanceVariable::ImageNumber => "image_number"@,
            InstanceVariable::SpriteWidth => "sprite_width"@,
            InstanceVariable::SpriteHeight => "sprite_height"@,
            InstanceVariable::SpriteXoffset => "sprite_xoffset"@,
            InstanceVariable::SpriteYoffset => "sprite_yoffset"@,
            InstanceVariable::ImageXscale => "image_xscale"@,
            InstanceVariable::ImageYscale => "image_yscale"@,
            InstanceVariable::ImageAngle => "image_angle"@,
            InstanceVariable::ImageAlpha => "image_alpha"@,
            InstanceVariable::ImageBlend => "image_blend"@,
            InstanceVariable::ImageSpeed => "image_speed"@,
            InstanceVariable::MaskIndex => "mask_index"@,
            InstanceVariable::PathIndex => "path_index"@,
            InstanceVariable::PathPosition => "path_position"@,
            InstanceVariable::PathPositionprevious => "path_positionprevious"@,
            InstanceVariable::PathSpeed => "path_speed"@,
            InstanceVariable::PathScale => "path_scale"@,
            InstanceVariable::PathOrientation => "path_orientation"@,
            InstanceVariable::PathEndAction => "path_endaction"@,
            InstanceVariable::TimelineIndex => "timeline_index"@,
            InstanceVariable::TimelinePosition => "timeline_position"@,
            InstanceVariable::TimelineSpeed => "timeline_speed"@,
            InstanceVariable::TimelineRunning => "timeline_running"@,
            InstanceVariable::TimelineLoop => "timeline_loop"@,
            InstanceVariable::ArgumentRelative => "argument_relative"@,
            InstanceVariable::Argument0 => "argument0"@,
            InstanceVariable::Argument1 => "argument1"@,
            InstanceVariable::Argument2 => "argument2"@,
            InstanceVariable::Argument3 => "argument3"@,
            InstanceVariable::Argument4 => "argument4"@,
            InstanceVariable::Argument5 => "argument5"@,
            InstanceVariable::Argument6 => "argument6"@,
            InstanceVariable::Argument7 => "argument7"@,
            InstanceVariable::Argument8 => "argument8"@,
            InstanceVariable::Argument9 => "argument9"@,
            InstanceVariable::Argument10 => "argument10"@,
            InstanceVariable::Argument11 => "argument11"@,
            InstanceVariable::Argument12 => "argument12"@,
            InstanceVariable::Argument13 => "argument13"@,
            InstanceVariable::Argument14 => "argument14"@,
            InstanceVariable::Argument15 => "argument15"@,
            InstanceVariable::Argument => "argument"@,
            InstanceVariable::ArgumentCount => "argument_count"@,
            InstanceVariable::Room => "room"@,
            InstanceVariable::RoomFirst => "room_first"@,
            InstanceVariable::RoomLast => "room_last"@,
            InstanceVariable::TransitionKind => "transition_kind"@,
            InstanceVariable::TransitionSteps => "transition_steps"@,
            InstanceVariable::Score => "score"@,
            InstanceVariable::Lives => "lives"@,
            InstanceVariable::Health => "health"@,
            InstanceVariable::GameId => "game_id"@,
            InstanceVariable::WorkingDirectory => "working_directory"@,
            InstanceVariable::TempDirectory => "temp_directory"@,
            InstanceVariable::ProgramDirectory => "program_directory"@,
            InstanceVariable::InstanceCount => "instance_count"@,
            InstanceVariable::InstanceId => "instance_id"@,
            InstanceVariable::RoomWidth => "room_width"@,
            InstanceVariable::RoomHeight => "room_height"@,
            InstanceVariable::RoomCaption => "room_caption"@,
            InstanceVariable::RoomSpeed => "room_speed"@,
            InstanceVariable::RoomPersistent => "room_persistent"@,
            InstanceVariable::BackgroundColor => "background_color"@,
            InstanceVariable::BackgroundShowcolor => "background_showcolor"@,
            InstanceVariable::BackgroundVisible => "background_visible"@,
            InstanceVariable::BackgroundForeground => "background_foreground"@,
            InstanceVariable::BackgroundIndex => "background_index"@,
            InstanceVariable::BackgroundX => "background_x"@,
            InstanceVariable::BackgroundY => "background_y"@,
            InstanceVariable::BackgroundWidth => "background_width"@,
            InstanceVariable::BackgroundHeight => "background_height"@,
            InstanceVariable::BackgroundHtiled => "background_htiled"@,
            InstanceVariable::BackgroundVtiled => "background_vtiled"@,
            InstanceVariable::BackgroundXscale => "background_xscale"@,
            InstanceVariable::BackgroundYscale => "background_yscale"@,
            InstanceVariable::BackgroundHspeed => "background_hspeed"@,
            InstanceVariable::BackgroundVspeed => "background_vspeed"@,
            InstanceVariable::BackgroundBlend => "background_blend"@,
            InstanceVariable::BackgroundAlpha => "background_alpha"@,
            InstanceVariable::ViewEnabled => "view_enabled"@,
            InstanceVariable::ViewCurrent => "view_current"@,
            InstanceVariable::ViewVisible => "view_visible"@,
            InstanceVariable::ViewXview => "view_xview"@,
            InstanceVariable::ViewYview => "view_yview"@,
            InstanceVariable::ViewWview => "view_wview"@,
            InstanceVariable::ViewHview => "view_hview"@,
            InstanceVariable::ViewXport => "view_xport"@,
            InstanceVariable::ViewYport => "view_yport"@,
            InstanceVariable::ViewWport => "view_wport"@,
            InstanceVariable::ViewHport => "view_hport"@,
            InstanceVariable::ViewAngle => "view_angle"@,
            InstanceVariable::ViewHborder => "view_hborder"@,
            InstanceVariable::ViewVborder => "view_vborder"@,
            InstanceVariable::ViewHspeed => "view_hspeed"@,
            InstanceVariable::ViewVspeed => "view_vspeed"@,
            InstanceVariable::ViewObject => "view_object"@,
            InstanceVariable::MouseX => "mouse_x"@,
            InstanceVariable::MouseY => "mouse_y"@,
            InstanceVariable::MouseButton => "mouse_button"@,
            InstanceVariable::MouseLastbutton => "mouse_lastbutton"@,
            InstanceVariable::KeyboardKey => "keyboard_key"@,
            InstanceVariable::KeyboardLastkey => "keyboard_lastkey"@,
            InstanceVariable::KeyboardLastchar => "keyboard_lastchar"@,
            InstanceVariable::KeyboardString => "keyboard_string"@,
            InstanceVariable::CursorSprite => "cursor_sprite"@,
            InstanceVariable::ShowScore => "show_score"@,
            InstanceVariable::ShowLives => "show_lives"@,
            InstanceVariable::ShowHealth => "show_health"@,
            InstanceVariable::CaptionScore => "caption_score"@,
            InstanceVariable::CaptionLives => "caption_lives"@,
            InstanceVariable::CaptionHealth => "caption_health"@,
            InstanceVariable::Fps => "fps"@,
            InstanceVariable::CurrentTime => "current_time"@,
            InstanceVariable::CurrentYear => "current_year"@,
            InstanceVariable::CurrentMonth => "current_month"@,
            InstanceVariable::CurrentDay => "current_day"@,
            InstanceVariable::CurrentWeekday => "current_weekday"@,
            InstanceVariable::CurrentHour => "current_hour"@,
            InstanceVariable::CurrentMinute => "current_minute"@,
            InstanceVariable::CurrentSecond => "current_second"@,
            InstanceVariable::EventType => "event_type"@,
            InstanceVariable::EventNumber => "event_number"@,
            InstanceVariable::EventObject => "event_object"@,
            InstanceVariable::EventAction => "event_action"@,
            InstanceVariable::SecureMode => "secure_mode"@,
            InstanceVariable::DebugMode => "debug_mode"@,
            InstanceVariable::ErrorOccurred => "error_occurred"@,
            InstanceVariable::ErrorLast => "error_last"@,
            InstanceVariable::GamemakerRegistered => "gamemaker_registered"@,
            InstanceVariable::GamemakerPro => "gamemaker_pro"@,
            InstanceVariable::GamemakerVersion => "gamemaker_version"@,
            InstanceVariable::OsType => "os_type"@,
            InstanceVariable::OsDevice => "os_device"@,
            InstanceVariable::OsBrowser => "os_browser"@,
            InstanceVariable::OsVersion => "os_version"@,
            InstanceVariable::BrowserWidth => "browser_width"@,
            InstanceVariable::BrowserHeight => "browser_height"@,
            InstanceVariable::DisplayAa => "display_aa"@,
            InstanceVariable::AsyncLoad => "async_load"@,
        }
    }

    pub fn name(self) -> (r: &'static str)
        ensures
            r@ == self.spec_name(),
    {
        match self {
            InstanceVariable::X => "x",
            InstanceVariable::Y => "y",
            InstanceVariable::Xprevious => "xprevious",
            InstanceVariable::Yprevious => "yprevious",
            InstanceVariable::Xstart => "xstart",
            InstanceVariable::Ystart => "ystart",
            InstanceVariable::Hspeed => "hspeed",
            InstanceVariable::Vspeed => "vspeed",
            InstanceVariable::Direction => "direction",
            InstanceVariable::Speed => "speed",
            InstanceVariable::Friction => "friction",
            InstanceVariable::Gravity => "gravity",
            InstanceVariable::GravityDirection => "gravity_direction",
            InstanceVariable::ObjectIndex => "object_index",
            InstanceVariable::Id => "id",
            InstanceVariable::Alarm => "alarm",
            InstanceVariable::Solid => "solid",
            InstanceVariable::Visible => "visible",
            InstanceVariable::Persistent => "persistent",
            InstanceVariable::Depth => "depth",
            InstanceVariable::BboxLeft => "bbox_left",
            InstanceVariable::BboxRight => "bbox_right",
            InstanceVariable::BboxTop => "bbox_top",
            InstanceVariable::BboxBottom => "bbox_bottom",
            InstanceVariable::SpriteIndex => "sprite_index",
            InstanceVariable::ImageIndex => "image_index",
            InstanceVariable::ImageSingle => "image_single",
            InstanceVariable::ImageNumber => "image_number",
            InstanceVariable::SpriteWidth => "sprite_width",
            InstanceVariable::SpriteHeight => "sprite_height",
            InstanceVariable::SpriteXoffset => "sprite_xoffset",
            InstanceVariable::SpriteYoffset => "sprite_yoffset",
            InstanceVariable::ImageXscale => "image_xscale",
            InstanceVariable::ImageYscale => "image_yscale",
            InstanceVariable::ImageAngle => "image_angle",
            InstanceVariable::ImageAlpha => "image_alpha",
            InstanceVariable::ImageBlend => "image_blend",
            InstanceVariable::ImageSpeed => "image_speed",
            InstanceVariable::MaskIndex => "mask_index",
            InstanceVariable::PathIndex => "path_index",
            InstanceVariable::PathPosition => "path_position",
            InstanceVariable::PathPositionprevious => "path_positionprevious",
            InstanceVariable::PathSpeed => "path_speed",
            InstanceVariable::PathScale => "path_scale",
            InstanceVariable::PathOrientation => "path_orientation",
            InstanceVariable::PathEndAction => "path_endaction",
            InstanceVariable::TimelineIndex => "timeline_index",
            InstanceVariable::TimelinePosition => "timeline_position",
            InstanceVariable::TimelineSpeed => "timeline_speed",
            InstanceVariable::TimelineRunning => "timeline_running",
            InstanceVariable::TimelineLoop => "timeline_loop",
            InstanceVariable::ArgumentRelative => "argument_relative",
            InstanceVariable::Argument0 => "argument0",
            InstanceVariable::Argument1 => "argument1",
            InstanceVariable::Argument2 => "argument2",
            InstanceVariable::Argument3 => "argument3",
            InstanceVariable::Argument4 => "argument4",
            InstanceVariable::Argument5 => "argument5",
            InstanceVariable::Argument6 => "argument6",
            InstanceVariable::Argument7 => "argument7",
            InstanceVariable::Argument8 => "argument8",
            InstanceVariable::Argument9 => "argument9",
            InstanceVariable::Argument10 => "argument10",
            InstanceVariable::Argument11 => "argument11",
            InstanceVariable::Argument12 => "argument12",
            InstanceVariable::Argument13 => "argument13",
            InstanceVariable::Argument14 => "argument14",
            InstanceVariable::Argument15 => "argument15",
            InstanceVariable::Argument => "argument",
            InstanceVariable::ArgumentCount => "argument_count",
            InstanceVariable::Room => "room",
            InstanceVariable::RoomFirst => "room_first",
            InstanceVariable::RoomLast => "room_last",
            InstanceVariable::TransitionKind => "transition_kind",
            InstanceVariable::TransitionSteps => "transition_steps",
            InstanceVariable::Score => "score",
            InstanceVariable::Lives => "lives",
            InstanceVariable::Health => "health",
            InstanceVariable::GameId => "game_id",
            InstanceVariable::WorkingDirectory => "working_directory",
            InstanceVariable::TempDirectory => "temp_directory",
            InstanceVariable::ProgramDirectory => "program_directory",
            InstanceVariable::InstanceCount => "instance_count",
            InstanceVariable::InstanceId => "instance_id",
            InstanceVariable::RoomWidth => "room_width",
            InstanceVariable::RoomHeight => "room_height",
            InstanceVariable::RoomCaption => "room_caption",
            InstanceVariable::RoomSpeed => "room_speed",
            InstanceVariable::RoomPersistent => "room_persistent",
            InstanceVariable::BackgroundColor => "background_color",
            InstanceVariable::BackgroundShowcolor => "background_showcolor",
            InstanceVariable::BackgroundVisible => "background_visible",
            InstanceVariable::BackgroundForeground => "background_foreground",
            InstanceVariable::BackgroundIndex => "background_index",
            InstanceVariable::BackgroundX => "background_x",
            InstanceVariable::BackgroundY => "background_y",
            InstanceVariable::BackgroundWidth => "background_width",
            InstanceVariable::BackgroundHeight => "background_height",
            InstanceVariable::BackgroundHtiled => "background_htiled",
            InstanceVariable::BackgroundVtiled => "background_vtiled",
            InstanceVariable::BackgroundXscale => "background_xscale",
            InstanceVariable::BackgroundYscale => "background_yscale",
            InstanceVariable::BackgroundHspeed => "background_hspeed",
            InstanceVariable::BackgroundVspeed => "background_vspeed",
            InstanceVariable::BackgroundBlend => "background_blend",
            InstanceVariable::BackgroundAlpha => "background_alpha",
            InstanceVariable::ViewEnabled => "view_enabled",
            InstanceVariable::ViewCurrent => "view_current",
            InstanceVariable::ViewVisible => "view_visible",
            InstanceVariable::ViewXview => "view_xview",
            InstanceVariable::ViewYview => "view_yview",
            InstanceVariable::ViewWview => "view_wview",
            InstanceVariable::ViewHview => "view_hview",
            InstanceVariable::ViewXport => "view_xport",
            InstanceVariable::ViewYport => "view_yport",
            InstanceVariable::ViewWport => "view_wport",
            InstanceVariable::ViewHport => "view_hport",
            InstanceVariable::ViewAngle => "view_angle",
            InstanceVariable::ViewHborder => "view_hborder",
            InstanceVariable::ViewVborder => "view_vborder",
            InstanceVariable::ViewHspeed => "view_hspeed",
            InstanceVariable::ViewVspeed => "view_vspeed",
            InstanceVariable::ViewObject => "view_object",
            InstanceVariable::MouseX => "mouse_x",
            InstanceVariable::MouseY => "mouse_y",
            InstanceVariable::MouseButton => "mouse_button",
            InstanceVariable::MouseLastbutton => "mouse_lastbutton",
            InstanceVariable::KeyboardKey => "keyboard_key",
            InstanceVariable::KeyboardLastkey => "keyboard_lastkey",
            InstanceVariable::KeyboardLastchar => "keyboard_lastchar",
            InstanceVariable::KeyboardString => "keyboard_string",
            InstanceVariable::CursorSprite => "cursor_sprite",
            InstanceVariable::ShowScore => "show_score",
            InstanceVariable::ShowLives => "show_lives",
            InstanceVariable::ShowHealth => "show_health",
            InstanceVariable::CaptionScore => "caption_score",
            InstanceVariable::CaptionLives => "caption_lives",
            InstanceVariable::CaptionHealth => "caption_health",
            InstanceVariable::Fps => "fps",
            InstanceVariable::CurrentTime => "current_time",
            InstanceVariable::CurrentYear => "current_year",
            InstanceVariable::CurrentMonth => "current_month",
            InstanceVariable::CurrentDay => "current_day",
            InstanceVariable::CurrentWeekday => "current_weekday",
            InstanceVariable::CurrentHour => "current_hour",
            InstanceVariable::CurrentMinute => "current_minute",
            InstanceVariable::CurrentSecond => "current_second",
            InstanceVariable::EventType => "event_type",
            InstanceVariable::EventNumber => "event_number",
            InstanceVariable::EventObject => "event_object",
            InstanceVariable::EventAction => "event_action",
            InstanceVariable::SecureMode => "secure_mode",
            InstanceVariable::DebugMode => "debug_mode",
            InstanceVariable::ErrorOccurred => "error_occurred",
            InstanceVariable::ErrorLast => "error_last",
            InstanceVariable::GamemakerRegistered => "gamemaker_registered",
            InstanceVariable::GamemakerPro => "gamemaker_pro",
            InstanceVariable::GamemakerVersion => "gamemaker_version",
            InstanceVariable::OsType => "os_type",
            InstanceVariable::OsDevice => "os_device",
            InstanceVariable::OsBrowser => "os_browser",
            InstanceVariable::OsVersion => "os_version",
            InstanceVariable::BrowserWidth => "browser_width",
            InstanceVariable::BrowserHeight => "browser_height",
            InstanceVariable::DisplayAa => "display_aa",
            InstanceVariable::AsyncLoad => "async_load",
        }
    }

    /// The variable with a number, if there is one.
    pub open spec fn spec_from_code(code: usize) -> Option<InstanceVariable> {
        match code {
            0usize => Some(InstanceVariable::X),
            1usize => Some(InstanceVariable::Y),
            2usize => Some(InstanceVariable::Xprevious),
            3usize => Some(InstanceVariable::Yprevious),
            4usize => Some(InstanceVariable::Xstart),
            5usize => Some(InstanceVariable::Ystart),
            6usize => Some(InstanceVariable::Hspeed),
            7usize => Some(InstanceVariable::Vspeed),
            8usize => Some(InstanceVariable::Direction),
            9usize => Some(InstanceVariable::Speed),
            10usize => Some(InstanceVariable::Friction),
            11usize => Some(InstanceVariable::Gravity),
            12usize => Some(InstanceVariable::GravityDirection),
            13usize => Some(InstanceVariable::ObjectIndex),
            14usize => Some(InstanceVariable::Id),
            15usize => Some(InstanceVariable::Alarm),
            16usize => Some(InstanceVariable::Solid),
            17usize => Some(InstanceVariable::Visible),
            18usize => Some(InstanceVariable::Persistent),
            19usize => Some(InstanceVariable::Depth),
            20usize => Some(InstanceVariable::BboxLeft),
            21usize => Some(InstanceVariable::BboxRight),
            22usize => Some(InstanceVariable::BboxTop),
            23usize => Some(InstanceVariable::BboxBottom),
            24usize => Some(InstanceVariable::SpriteIndex),
            25usize => Some(InstanceVariable::ImageIndex),
            26usize => Some(InstanceVariable::ImageSingle),
            27usize => Some(InstanceVariable::ImageNumber),
            28usize => Some(InstanceVariable::SpriteWidth),
            29usize => Some(InstanceVariable::SpriteHeight),
            30usize => Some(InstanceVariable::SpriteXoffset),
            31usize => Some(InstanceVariable::SpriteYoffset),
            32usize => Some(InstanceVariable::ImageXscale),
            33usize => Some(InstanceVariable::ImageYscale),
            34usize => Some(InstanceVariable::ImageAngle),
            35usize => Some(InstanceVariable::ImageAlpha),
            36usize => Some(InstanceVariable::ImageBlend),
            37usize => Some(InstanceVariable::ImageSpeed),
            38usize => Some(InstanceVariable::MaskIndex),
            39usize => Some(InstanceVariable::PathIndex),
            40usize => Some(InstanceVariable::PathPosition),
            41usize => Some(InstanceVariable::PathPositionprevious),
            42usize => Some(InstanceVariable::PathSpeed),
            43usize => Some(InstanceVariable::PathScale),
            44usize => Some(InstanceVariable::PathOrientation),
            45usize => Some(InstanceVariable::PathEndAction),
            46usize => Some(InstanceVariable::TimelineIndex),
            47usize => Some(InstanceVariable::TimelinePosition),
            48usize => Some(InstanceVariable::TimelineSpeed),
            49usize => Some(InstanceVariable::TimelineRunning),
            50usize => Some(InstanceVariable::TimelineLoop),
            51usize => Some(InstanceVariable::ArgumentRelative),
            52usize => Some(InstanceVariable::Argument0),
            53usize => Some(InstanceVariable::Argument1),
            54usize => Some(InstanceVariable::Argument2),
            55usize => Some(InstanceVariable::Argument3),
            56usize => Some(InstanceVariable::Argument4),
            57usize => Some(InstanceVariable::Argument5),
            58usize => Some(InstanceVariable::Argument6),
            59usize => Some(InstanceVariable::Argument7),
            60usize => Some(InstanceVariable::Argument8),
            61usize => Some(InstanceVariable::Argument9),
            62usize => Some(InstanceVariable::Argument10),
            63usize => Some(InstanceVariable::Argument11),
            64usize => Some(InstanceVariable::Argument12),
            65usize => Some(InstanceVariable::Argument13),
            66usize => Some(InstanceVariable::Argument14),
            67usize => Some(InstanceVariable::Argument15),
            68usize => Some(InstanceVariable::Argument),
            69usize => Some(InstanceVariable::ArgumentCount),
            70usize => Some(InstanceVariable::Room),
            71usize => Some(InstanceVariable::RoomFirst),
            72usize => Some(InstanceVariable::RoomLast),
            73usize => Some(InstanceVariable::TransitionKind),
            74usize => Some(InstanceVariable::TransitionSteps),
            75usize => Some(InstanceVariable::Score),
            76usize => Some(InstanceVariable::Lives),
            77usize => Some(InstanceVariable::Health),
            78usize => Some(InstanceVariable::GameId),
            79usize => Some(InstanceVariable::WorkingDirectory),
            80usize => Some(InstanceVariable::TempDirectory),
            81usize => Some(InstanceVariable::ProgramDirectory),
            82usize => Some(InstanceVariable::InstanceCount),
            83usize => Some(InstanceVariable::InstanceId),
            84usize => Some(InstanceVariable::RoomWidth),
            85usize => Some(InstanceVariable::RoomHeight),
            86usize => Some(InstanceVariable::RoomCaption),
            87usize => Some(InstanceVariable::RoomSpeed),
            88usize => Some(InstanceVariable::RoomPersistent),
            89usize => Some(InstanceVariable::BackgroundColor),
            90usize => Some(InstanceVariable::BackgroundShowcolor),
            91usize => Some(InstanceVariable::BackgroundVisible),
            92usize => Some(InstanceVariable::BackgroundForeground),
            93usize => Some(InstanceVariable::BackgroundIndex),
            94usize => Some(InstanceVariable::BackgroundX),
            95usize => Some(InstanceVariable::BackgroundY),
            96usize => Some(InstanceVariable::BackgroundWidth),
            97usize => Some(InstanceVariable::BackgroundHeight),
            98usize => Some(InstanceVariable::BackgroundHtiled),
            99usize => Some(InstanceVariable::BackgroundVtiled),
            100usize => Some(InstanceVariable::BackgroundXscale),
            101usize => Some(InstanceVariable::BackgroundYscale),
            102usize => Some(InstanceVariable::BackgroundHspeed),
            103usize => Some(InstanceVariable::BackgroundVspeed),
            104usize => Some(InstanceVariable::BackgroundBlend),
            105usize => Some(InstanceVariable::BackgroundAlpha),
            106usize => Some(InstanceVariable::ViewEnabled),
            107usize => Some(InstanceVariable::ViewCurrent),
            108usize => Some(InstanceVariable::ViewVisible),
            109usize => Some(InstanceVariable::ViewXview),
            110usize => Some(InstanceVariable::ViewYview),
            111usize => Some(InstanceVariable::ViewWview),
            112usize => Some(InstanceVariable::ViewHview),
            113usize => Some(InstanceVariable::ViewXport),
            114usize => Some(InstanceVariable::ViewYport),
            115usize => Some(InstanceVariable::ViewWport),
            116usize => Some(InstanceVariable::ViewHport),
            117usize => Some(InstanceVariable::ViewAngle),
            118usize => Some(InstanceVariable::ViewHborder),
            119usize => Some(InstanceVariable::ViewVborder),
            120usize => Some(InstanceVariable::ViewHspeed),
            121usize => Some(InstanceVariable::ViewVspeed),
            122usize => Some(InstanceVariable::ViewObject),
            123usize => Some(InstanceVariable::MouseX),
            124usize => Some(InstanceVariable::MouseY),
            125usize => Some(InstanceVariable::MouseButton),
            126usize => Some(InstanceVariable::MouseLastbutton),
            127usize => Some(InstanceVariable::KeyboardKey),
            128usize => Some(InstanceVariable::KeyboardLastkey),
            129usize => Some(InstanceVariable::KeyboardLastchar),
            130usize => Some(InstanceVariable::KeyboardString),
            131usize => Some(InstanceVariable::CursorSprite),
            132usize => Some(InstanceVariable::ShowScore),
            133usize => Some(InstanceVariable::ShowLives),
            134usize => Some(InstanceVariable::ShowHealth),
            135usize => Some(InstanceVariable::CaptionScore),
            136usize => Some(InstanceVariable::CaptionLives),
            137usize => Some(InstanceVariable::CaptionHealth),
            138usize => Some(InstanceVariable::Fps),
            139usize => Some(InstanceVariable::CurrentTime),
            140usize => Some(InstanceVariable::CurrentYear),
            141usize => Some(InstanceVariable::CurrentMonth),
            142usize => Some(InstanceVariable::CurrentDay),
            143usize => Some(InstanceVariable::CurrentWeekday),
            144usize => Some(InstanceVariable::CurrentHour),
            145usize => Some(InstanceVariable::CurrentMinute),
            146usize => Some(InstanceVariable::CurrentSecond),
            147usize => Some(InstanceVariable::EventType),
            148usize => Some(InstanceVariable::EventNumber),
            149usize => Some(InstanceVariable::EventObject),
            150usize => Some(InstanceVariable::EventAction),
            151usize => Some(InstanceVariable::SecureMode),
            152usize => Some(InstanceVariable::DebugMode),
            153usize => Some(InstanceVariable::ErrorOccurred),
            154usize => Some(InstanceVariable::ErrorLast),
            155usize => Some(InstanceVariable::GamemakerRegistered),
            156usize => Some(InstanceVariable::GamemakerPro),
            157usize => Some(InstanceVariable::GamemakerVersion),
            158usize => Some(InstanceVariable::OsType),
            159usize => Some(InstanceVariable::OsDevice),
            160usize => Some(InstanceVariable::OsBrowser),
            161usize => Some(InstanceVariable::OsVersion),
            162usize => Some(InstanceVariable::BrowserWidth),
            163usize => Some(InstanceVariable::BrowserHeight),
            164usize => Some(InstanceVariable::DisplayAa),
            165usize => Some(InstanceVariable::AsyncLoad),
            _ => None,
        }
    }

    #[verifier::when_used_as_spec(spec_from_code)]
    pub fn from_code(code: usize) -> (r: Option<InstanceVariable>)
        ensures
            r == InstanceVariable::spec_from_code(code),
            r matches Some(v) ==> v.spec_code() == code,
            r is Some <==> code < VARIABLE_COUNT,
    {
        match code {
            0usize => Some(InstanceVariable::X),
            1usize => Some(InstanceVariable::Y),
            2usize => Some(InstanceVariable::Xprevious),
            3usize => Some(InstanceVariable::Yprevious),
            4usize => Some(InstanceVariable::Xstart),
            5usize => Some(InstanceVariable::Ystart),
            6usize => Some(InstanceVariable::Hspeed),
            7usize => Some(InstanceVariable::Vspeed),
            8usize => Some(InstanceVariable::Direction),
            9usize => Some(InstanceVariable::Speed),
            10usize => Some(InstanceVariable::Friction),
            11usize => Some(InstanceVariable::Gravity),
            12usize => Some(InstanceVariable::GravityDirection),
            13usize => Some(InstanceVariable::ObjectIndex),
            14usize => Some(InstanceVariable::Id),
            15usize => Some(InstanceVariable::Alarm),
            16usize => Some(InstanceVariable::Solid),
            17usize => Some(InstanceVariable::Visible),
            18usize => Some(InstanceVariable::Persistent),
            19usize => Some(InstanceVariable::Depth),
            20usize => Some(InstanceVariable::BboxLeft),
            21usize => Some(InstanceVariable::BboxRight),
            22usize => Some(InstanceVariable::BboxTop),
            23usize => Some(InstanceVariable::BboxBottom),
            24usize => Some(InstanceVariable::SpriteIndex),
            25usize => Some(InstanceVariable::ImageIndex),
            26usize => Some(InstanceVariable::ImageSingle),
            27usize => Some(InstanceVariable::ImageNumber),
            28usize => Some(InstanceVariable::SpriteWidth),
            29usize => Some(InstanceVariable::SpriteHeight),
            30usize => Some(InstanceVariable::SpriteXoffset),
            31usize => Some(InstanceVariable::SpriteYoffset),
            32usize => Some(InstanceVariable::ImageXscale),
            33usize => Some(InstanceVariable::ImageYscale),
            34usize => Some(InstanceVariable::ImageAngle),
            35usize => Some(InstanceVariable::ImageAlpha),
            36usize => Some(InstanceVariable::ImageBlend),
            37usize => Some(InstanceVariable::ImageSpeed),
            38usize => Some(InstanceVariable::MaskIndex),
            39usize => Some(InstanceVariable::PathIndex),
            40usize => Some(InstanceVariable::PathPosition),
            41usize => Some(InstanceVariable::PathPositionprevious),
            42usize => Some(InstanceVariable::PathSpeed),
            43usize => Some(InstanceVariable::PathScale),
            44usize => Some(InstanceVariable::PathOrientation),
            45usize => Some(InstanceVariable::PathEndAction),
            46usize => Some(InstanceVariable::TimelineIndex),
            47usize => Some(InstanceVariable::TimelinePosition),
            48usize => Some(InstanceVariable::TimelineSpeed),
            49usize => Some(InstanceVariable::TimelineRunning),
            50usize => Some(InstanceVariable::TimelineLoop),
            51usize => Some(InstanceVariable::ArgumentRelative),
            52usize => Some(InstanceVariable::Argument0),
            53usize => Some(InstanceVariable::Argument1),
            54usize => Some(InstanceVariable::Argument2),
            55usize => Some(InstanceVariable::Argument3),
            56usize => Some(InstanceVariable::Argument4),
            57usize => Some(InstanceVariable::Argument5),
            58usize => Some(InstanceVariable::Argument6),
            59usize => Some(InstanceVariable::Argument7),
            60usize => Some(InstanceVariable::Argument8),
            61usize => Some(InstanceVariable::Argument9),
            62usize => Some(InstanceVariable::Argument10),
            63usize => Some(InstanceVariable::Argument11),
            64usize => Some(InstanceVariable::Argument12),
            65usize => Some(InstanceVariable::Argument13),
            66usize => Some(InstanceVariable::Argument14),
            67usize => Some(InstanceVariable::Argument15),
            68usize => Some(InstanceVariable::Argument),
            69usize => Some(InstanceVariable::ArgumentCount),
            70usize => Some(InstanceVariable::Room),
            71usize => Some(InstanceVariable::RoomFirst),
            72usize => Some(InstanceVariable::RoomLast),
            73usize => Some(InstanceVariable::TransitionKind),
            74usize => Some(InstanceVariable::TransitionSteps),
            75usize => Some(InstanceVariable::Score),
            76usize => Some(InstanceVariable::Lives),
            77usize => Some(InstanceVariable::Health),
            78usize => Some(InstanceVariable::GameId),
            79usize => Some(InstanceVariable::WorkingDirectory),
            80usize => Some(InstanceVariable::TempDirectory),
            81usize => Some(InstanceVariable::ProgramDirectory),
            82usize => Some(InstanceVariable::InstanceCount),
            83usize => Some(InstanceVariable::InstanceId),
            84usize => Some(InstanceVariable::RoomWidth),
            85usize => Some(InstanceVariable::RoomHeight),
            86usize => Some(InstanceVariable::RoomCaption),
            87usize => Some(InstanceVariable::RoomSpeed),
            88usize => Some(InstanceVariable::RoomPersistent),
            89usize => Some(InstanceVariable::BackgroundColor),
            90usize => Some(InstanceVariable::BackgroundShowcolor),
            91usize => Some(InstanceVariable::BackgroundVisible),
            92usize => Some(InstanceVariable::BackgroundForeground),
            93usize => Some(InstanceVariable::BackgroundIndex),
            94usize => Some(InstanceVariable::BackgroundX),
            95usize => Some(InstanceVariable::BackgroundY),
            96usize => Some(InstanceVariable::BackgroundWidth),
            97usize => Some(InstanceVariable::BackgroundHeight),
            98usize => Some(InstanceVariable::BackgroundHtiled),
            99usize => Some(InstanceVariable::BackgroundVtiled),
            100usize => Some(InstanceVariable::BackgroundXscale),
            101usize => Some(InstanceVariable::BackgroundYscale),
            102usize => Some(InstanceVariable::BackgroundHspeed),
            103usize => Some(InstanceVariable::BackgroundVspeed),
            104usize => Some(InstanceVariable::BackgroundBlend),
            105usize => Some(InstanceVariable::BackgroundAlpha),
            106usize => Some(InstanceVariable::ViewEnabled),
            107usize => Some(InstanceVariable::ViewCurrent),
            108usize => Some(InstanceVariable::ViewVisible),
            109usize => Some(InstanceVariable::ViewXview),
            110usize => Some(InstanceVariable::ViewYview),
            111usize => Some(InstanceVariable::ViewWview),
            112usize => Some(InstanceVariable::ViewHview),
            113usize => Some(InstanceVariable::ViewXport),
            114usize => Some(InstanceVariable::ViewYport),
            115usize => Some(InstanceVariable::ViewWport),
            116usize => Some(InstanceVariable::ViewHport),
            117usize => Some(InstanceVariable::ViewAngle),
            118usize => Some(InstanceVariable::ViewHborder),
            119usize => Some(InstanceVariable::ViewVborder),
            120usize => Some(InstanceVariable::ViewHspeed),
            121usize => Some(InstanceVariable::ViewVspeed),
            122usize => Some(InstanceVariable::ViewObject),
            123usize => Some(InstanceVariable::MouseX),
            124usize => Some(InstanceVariable::MouseY),
            125usize => Some(InstanceVariable::MouseButton),
            126usize => Some(InstanceVariable::MouseLastbutton),
            127usize => Some(InstanceVariable::KeyboardKey),
            128usize => Some(InstanceVariable::KeyboardLastkey),
            129usize => Some(InstanceVariable::KeyboardLastchar),
            130usize => Some(InstanceVariable::KeyboardString),
            131usize => Some(InstanceVariable::CursorSprite),
            132usize => Some(InstanceVariable::ShowScore),
            133usize => Some(InstanceVariable::ShowLives),
            134usize => Some(InstanceVariable::ShowHealth),
            135usize => Some(InstanceVariable::CaptionScore),
            136usize => Some(InstanceVariable::CaptionLives),
            137usize => Some(InstanceVariable::CaptionHealth),
            138usize => Some(InstanceVariable::Fps),
            139usize => Some(InstanceVariable::CurrentTime),
            140usize => Some(InstanceVariable::CurrentYear),
            141usize => Some(InstanceVariable::CurrentMonth),
            142usize => Some(InstanceVariable::CurrentDay),
            143usize => Some(InstanceVariable::CurrentWeekday),
            144usize => Some(InstanceVariable::CurrentHour),
            145usize => Some(InstanceVariable::CurrentMinute),
            146usize => Some(InstanceVariable::CurrentSecond),
            147usize => Some(InstanceVariable::EventType),
            148usize => Some(InstanceVariable::EventNumber),
            149usize => Some(InstanceVariable::EventObject),
            150usize => Some(InstanceVariable::EventAction),
            151usize => Some(InstanceVariable::SecureMode),
            152usize => Some(InstanceVariable::DebugMode),
            153usize => Some(InstanceVariable::ErrorOccurred),
            154usize => Some(InstanceVariable::ErrorLast),
            155usize => Some(InstanceVariable::GamemakerRegistered),
            156usize => Some(InstanceVariable::GamemakerPro),
            157usize => Some(InstanceVariable::GamemakerVersion),
            158usize => Some(InstanceVariable::OsType),
            159usize => Some(InstanceVariable::OsDevice),
            160usize => Some(InstanceVariable::OsBrowser),
            161usize => Some(InstanceVariable::OsVersion),
            162usize => Some(InstanceVariable::BrowserWidth),
            163usize => Some(InstanceVariable::BrowserHeight),
            164usize => Some(InstanceVariable::DisplayAa),
            165usize => Some(InstanceVariable::AsyncLoad),
            _ => None,
        }
    }

    /// For `argument0` to `argument15`, the slot that the name stands for.
    pub open spec fn spec_argument_slot(self) -> Option<usize> {
        match self {
            InstanceVariable::Argument0 => Some(0usize),
            InstanceVariable::Argument1 => Some(1usize),
            InstanceVariable::Argument2 => Some(2usize),
            InstanceVariable::Argument3 => Some(3usize),
            InstanceVariable::Argument4 => Some(4usize),
            InstanceVariable::Argument5 => Some(5usize),
            InstanceVariable::Argument6 => Some(6usize),
            InstanceVariable::Argument7 => Some(7usize),
            InstanceVariable::Argument8 => Some(8usize),
            InstanceVariable::Argument9 => Some(9usize),
            InstanceVariable::Argument10 => Some(10usize),
            InstanceVariable::Argument11 => Some(11usize),
            InstanceVariable::Argument12 => Some(12usize),
            InstanceVariable::Argument13 => Some(13usize),
            InstanceVariable::Argument14 => Some(14usize),
            InstanceVariable::Argument15 => Some(15usize),
            _ => None,
        }
    }

    #[verifier::when_used_as_spec(spec_argument_slot)]
    pub fn argument_slot(self) -> (r: Option<usize>)
        ensures
            r == self.spec_argument_slot(),
            r matches Some(n) ==> n < 16,
    {
        match self {
            InstanceVariable::Argument0 => Some(0usize),
            InstanceVariable::Argument1 => Some(1usize),
            InstanceVariable::Argument2 => Some(2usize),
            InstanceVariable::Argument3 => Some(3usize),
            InstanceVariable::Argument4 => Some(4usize),
            InstanceVariable::Argument5 => Some(5usize),
            InstanceVariable::Argument6 => Some(6usize),
            InstanceVariable::Argument7 => Some(7usize),
            InstanceVariable::Argument8 => Some(8usize),
            InstanceVariable::Argument9 => Some(9usize),
            InstanceVariable::Argument10 => Some(10usize),
            InstanceVariable::Argument11 => Some(11usize),
            InstanceVariable::Argument12 => Some(12usize),
            InstanceVariable::Argument13 => Some(13usize),
            InstanceVariable::Argument14 => Some(14usize),
            InstanceVariable::Argument15 => Some(15usize),
            _ => None,
        }
    }
}

/// How many built-in variables there are.
pub const VARIABLE_COUNT: usize = 166;

/// A variable is found again by its number.
pub proof fn lemma_code_round_trip(v: InstanceVariable)
    ensures
        InstanceVariable::spec_from_code(v.spec_code()) == Some(v),
{
}

/// Two variables with one number are one variable.
pub proof fn lemma_code_injective(a: InstanceVariable, b: InstanceVariable)
    requires
        a.spec_code() == b.spec_code(),
    ensures
        a == b,
{
}

} // verus!
