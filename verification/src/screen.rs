//! The brightness of the screen.

use vstd::prelude::*;
use crate::bus::{
    call, get_property, int32_of_reply, reply_int32, request_to, set_property, BusAction, BusArg,
    BusArgView, BusObject, BusReply, BusRequest, Scope,
};
use crate::error::SettingsError;

verus! {

/// The part of the settings daemon that looks after the screen.
pub open spec fn screen_object_spec() -> BusObject<'static> {
    BusObject {
        scope: Scope::Session,
        service: "org.gnome.SettingsDaemon.Power",
        path: "/org/gnome/SettingsDaemon/Power",
        interface: "org.gnome.SettingsDaemon.Power.Screen",
    }
}

/// The part of the settings daemon that looks after the screen.
#[verifier::when_used_as_spec(screen_object_spec)]
pub fn screen_object() -> (object: BusObject<'static>)
    ensures
        object == screen_object_spec(),
{
    BusObject {
        scope: Scope::Session,
        service: "org.gnome.SettingsDaemon.Power",
        path: "/org/gnome/SettingsDaemon/Power",
        interface: "org.gnome.SettingsDaemon.Power.Screen",
    }
}

/// The read of the screen's brightness.
#[derive(Debug, Clone, PartialEq, Eq)]
pub struct BrightnessQuery {
    pub request: BusRequest,
}

impl BrightnessQuery {
    /// Reads the reply to the request.
    pub fn decode(&self, reply: &BusReply) -> (level: Result<i32, SettingsError>)
        ensures
            level == int32_of_reply(*reply),
    {
        reply_int32(reply)
    }
}

/// The read of the screen's brightness.
pub fn brightness() -> (query: BrightnessQuery)
    ensures
        query.request@ == request_to(
            screen_object(),
            BusAction::GetProperty,
            "Brightness"@,
            Seq::empty(),
        ),
{
    BrightnessQuery { request: get_property(screen_object(), "Brightness") }
}

/// The request that sets the screen's brightness. The level is sent as it
/// is given: which levels are in range is for the daemon to say.
pub fn set_brightness(brightness: i32) -> (request: BusRequest)
    ensures
        request@ == request_to(
            screen_object(),
            BusAction::SetProperty,
            "Brightness"@,
            seq![BusArgView::Int32(brightness)],
        ),
{
    set_property(screen_object(), "Brightness", BusArg::Int32(brightness))
}

/// The request that makes the screen one step brighter.
pub fn step_up() -> (request: BusRequest)
    ensures
        request@ == request_to(screen_object(), BusAction::Call, "StepUp"@, Seq::empty()),
{
    call(screen_object(), "StepUp")
}

/// The request that makes the screen one step darker.
pub fn step_down() -> (request: BusRequest)
    ensures
        request@ == request_to(screen_object(), BusAction::Call, "StepDown"@, Seq::empty()),
{
    call(screen_object(), "StepDown")
}

} // verus!
