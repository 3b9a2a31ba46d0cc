//! Picking the colour of a pixel on the screen.

use vstd::prelude::*;
use crate::bus::{call, request_to, BusAction, BusObject, BusReply, BusRequest, Scope};
use crate::error::SettingsError;
use crate::value::{double_bits_of, entries_of, find, lookup, parts_of, DynValue};

verus! {

/// The shell's screenshot service.
pub open spec fn screenshot_object_spec() -> BusObject<'static> {
    BusObject {
        scope: Scope::Session,
        service: "org.gnome.Shell.Screenshot",
        path: "/org/gnome/Shell/Screenshot",
        interface: "org.gnome.Shell.Screenshot",
    }
}

/// The shell's screenshot service.
#[verifier::when_used_as_spec(screenshot_object_spec)]
pub fn screenshot_object() -> (object: BusObject<'static>)
    ensures
        object == screenshot_object_spec(),
{
    BusObject {
        scope: Scope::Session,
        service: "org.gnome.Shell.Screenshot",
        path: "/org/gnome/Shell/Screenshot",
        interface: "org.gnome.Shell.Screenshot",
    }
}

/// A colour: red, green and blue, each a double given by its bits.
#[derive(Debug, Clone, Copy, PartialEq, Eq, Structural)]
pub struct PickedColor {
    pub red: u64,
    pub green: u64,
    pub blue: u64,
}

/// The colour that a value gives, if it is a structure of three doubles.
pub open spec fn color_of_value(value: DynValue) -> Option<PickedColor> {
    match parts_of(value) {
        Some(parts) => {
            if parts.len() == 3 {
                match (double_bits_of(parts[0]), double_bits_of(parts[1]), double_bits_of(parts[2])) {
                    (Some(red), Some(green), Some(blue)) => Some(PickedColor { red, green, blue }),
                    _ => None,
                }
            } else {
                None
            }
        },
        None => None,
    }
}

/// The colour that a reply to the pick gives: a reply that is a failure
/// stays that failure; a value is a mapping that holds the colour under
/// `color`, and is a `DecodeFailure` if it is anything else.
pub open spec fn color_of_reply(reply: BusReply) -> Result<PickedColor, SettingsError> {
    match reply {
        Ok(value) => match entries_of(value) {
            Some(entries) => match lookup(entries, "color"@) {
                Some(found) => match color_of_value(found) {
                    Some(color) => Ok(color),
                    None => Err(SettingsError::DecodeFailure),
                },
                None => Err(SettingsError::DecodeFailure),
            },
            None => Err(SettingsError::DecodeFailure),
        },
        Err(e) => Err(e),
    }
}

/// Reads a colour from a structure of three doubles.
pub fn decode_color(value: &DynValue) -> (color: Result<PickedColor, SettingsError>)
    ensures
        match color {
            Ok(c) => color_of_value(*value) == Some(c),
            Err(e) => e == SettingsError::DecodeFailure && color_of_value(*value) is None,
        },
{
    let parts = value.try_as_tuple()?;
    if parts.len() != 3 {
        return Err(SettingsError::DecodeFailure);
    }
    let red = parts[0].try_as_double_bits()?;
    let green = parts[1].try_as_double_bits()?;
    let blue = parts[2].try_as_double_bits()?;
    Ok(PickedColor { red, green, blue })
}

/// The pick of a colour.
#[derive(Debug, Clone, PartialEq, Eq)]
pub struct ColorQuery {
    pub request: BusRequest,
}

impl ColorQuery {
    /// Reads the reply to the request.
    pub fn decode(&self, reply: &BusReply) -> (color: Result<PickedColor, SettingsError>)
        ensures
            color == color_of_reply(*reply),
    {
        match reply {
            Ok(value) => {
                let entries = value.try_as_dict()?;
                match find(entries, "color") {
                    Some(found) => decode_color(found),
                    None => Err(SettingsError::DecodeFailure),
                }
            },
            Err(e) => Err(*e),
        }
    }
}

/// The request that lets the user pick a pixel, and the reading of its
/// colour.
pub fn pick_color() -> (query: ColorQuery)
    ensures
        query.request@ == request_to(screenshot_object(), BusAction::Call, "PickColor"@, Seq::empty()),
{
    ColorQuery { request: call(screenshot_object(), "PickColor") }
}

} // verus!
