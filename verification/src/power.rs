//! Power actions and the active power profile.

use vstd::prelude::*;
use vstd::string::*;
use crate::bus::{
    call_with, get_property, reply_text, request_to, set_property, text_of_reply, BusAction, BusArg,
    BusArgView, BusObject, BusReply, BusRequest, BusRequestView, Scope,
};
use crate::error::SettingsError;
use crate::text::str_eq;

verus! {

/// The power profiles that the profile daemon knows.
#[derive(Debug, Clone, Copy, PartialEq, Eq, Structural)]
pub enum PowerProfile {
    PowerSaver,
    Balanced,
    Performance,
}

/// The name under which a profile travels on the bus.
pub open spec fn profile_name(profile: PowerProfile) -> Seq<char> {
    match profile {
        PowerProfile::PowerSaver => "power-saver"@,
        PowerProfile::Balanced => "balanced"@,
        PowerProfile::Performance => "performance"@,
    }
}

/// The profile that a name read from the bus stands for: a name that is none
/// of the three known ones stands for `Balanced`.
pub open spec fn profile_of_name(name: Seq<char>) -> PowerProfile {
    if name == "power-saver"@ {
        PowerProfile::PowerSaver
    } else if name == "performance"@ {
        PowerProfile::Performance
    } else {
        PowerProfile::Balanced
    }
}

impl PowerProfile {
    /// The profile's name on the bus.
    pub fn as_str(&self) -> (name: &'static str)
        ensures
            name@ == profile_name(*self),
    {
        match self {
            PowerProfile::PowerSaver => "power-saver",
            PowerProfile::Balanced => "balanced",
            PowerProfile::Performance => "performance",
        }
    }

    /// Reads a profile name leniently: every string gives a profile.
    pub fn from(profile: &str) -> (decoded: PowerProfile)
        ensures
            decoded == profile_of_name(profile@),
    {
        if str_eq(profile, "power-saver") {
            PowerProfile::PowerSaver
        } else if str_eq(profile, "performance") {
            PowerProfile::Performance
        } else {
            PowerProfile::Balanced
        }
    }
}

/// Writing a profile's name and reading it back gives the same profile.
pub proof fn lemma_profile_name_round_trip(profile: PowerProfile)
    ensures
        profile_of_name(profile_name(profile)) == profile,
{
    reveal_strlit("power-saver");
    reveal_strlit("balanced");
    reveal_strlit("performance");
    assert("power-saver"@.len() == 11);
    assert("balanced"@.len() == 8);
    assert("performance"@.len() == 11);
    assert("performance"@[1] == 'e');
    assert("power-saver"@[1] == 'o');
}

/// Reading is total, and every name other than the three known ones reads as
/// `Balanced`.
pub proof fn lemma_unknown_profile_name_is_balanced(name: Seq<char>)
    requires
        name != profile_name(PowerProfile::PowerSaver),
        name != profile_name(PowerProfile::Balanced),
        name != profile_name(PowerProfile::Performance),
    ensures
        profile_of_name(name) == PowerProfile::Balanced,
{
}

/// The login manager, which suspends, powers off and reboots the machine.
pub open spec fn login_manager_spec() -> BusObject<'static> {
    BusObject {
        scope: Scope::System,
        service: "org.freedesktop.login1",
        path: "/org/freedesktop/login1",
        interface: "org.freedesktop.login1.Manager",
    }
}

/// The daemon that keeps the active power profile.
pub open spec fn profiles_daemon_spec() -> BusObject<'static> {
    BusObject {
        scope: Scope::System,
        service: "net.hadess.PowerProfiles",
        path: "/net/hadess/PowerProfiles",
        interface: "net.hadess.PowerProfiles",
    }
}

/// The login manager.
#[verifier::when_used_as_spec(login_manager_spec)]
pub fn login_manager() -> (object: BusObject<'static>)
    ensures
        object == login_manager_spec(),
{
    BusObject {
        scope: Scope::System,
        service: "org.freedesktop.login1",
        path: "/org/freedesktop/login1",
        interface: "org.freedesktop.login1.Manager",
    }
}

/// The daemon that keeps the active power profile.
#[verifier::when_used_as_spec(profiles_daemon_spec)]
pub fn profiles_daemon() -> (object: BusObject<'static>)
    ensures
        object == profiles_daemon_spec(),
{
    BusObject {
        scope: Scope::System,
        service: "net.hadess.PowerProfiles",
        path: "/net/hadess/PowerProfiles",
        interface: "net.hadess.PowerProfiles",
    }
}

/// The call of a power action of the login manager. The action's one
/// argument says that the user may be asked to confirm, and is always true.
pub open spec fn power_action(method: Seq<char>) -> BusRequestView {
    request_to(login_manager(), BusAction::Call, method, seq![BusArgView::Bool(true)])
}

/// The request that powers the machine off.
pub fn power_off() -> (request: BusRequest)
    ensures
        request@ == power_action("PowerOff"@),
{
    call_with(login_manager(), "PowerOff", BusArg::Bool(true))
}

/// The request that suspends the machine.
pub fn suspend() -> (request: BusRequest)
    ensures
        request@ == power_action("Suspend"@),
{
    call_with(login_manager(), "Suspend", BusArg::Bool(true))
}

/// The request that reboots the machine.
pub fn reboot() -> (request: BusRequest)
    ensures
        request@ == power_action("Reboot"@),
{
    call_with(login_manager(), "Reboot", BusArg::Bool(true))
}

/// The read of the active power profile.
#[derive(Debug, Clone, PartialEq, Eq)]
pub struct ProfileQuery {
    pub request: BusRequest,
}

/// The profile that a reply to the read gives: a reply that is a failure
/// stays that failure, a value that is no string is a `DecodeFailure`, and
/// every string is a profile.
pub open spec fn profile_of_reply(reply: BusReply) -> Result<PowerProfile, SettingsError> {
    match text_of_reply(reply) {
        Ok(name) => Ok(profile_of_name(name)),
        Err(e) => Err(e),
    }
}

impl ProfileQuery {
    /// Reads the reply to the request.
    pub fn decode(&self, reply: &BusReply) -> (profile: Result<PowerProfile, SettingsError>)
        ensures
            profile == profile_of_reply(*reply),
    {
        match reply_text(reply) {
            Ok(name) => Ok(PowerProfile::from(name.as_str())),
            Err(e) => Err(e),
        }
    }
}

/// The read of the active power profile.
pub fn get_power_profile() -> (query: ProfileQuery)
    ensures
        query.request@ == request_to(
            profiles_daemon(),
            BusAction::GetProperty,
            "ActiveProfile"@,
            Seq::empty(),
        ),
{
    ProfileQuery { request: get_property(profiles_daemon(), "ActiveProfile") }
}

/// The request that makes a profile the active one: it writes the profile's
/// name.
pub fn set_power_profile(profile: PowerProfile) -> (request: BusRequest)
    ensures
        request@ == request_to(
            profiles_daemon(),
            BusAction::SetProperty,
            "ActiveProfile"@,
            seq![BusArgView::Text(profile_name(profile))],
        ),
{
    set_property(
        profiles_daemon(),
        "ActiveProfile",
        BusArg::Text(String::from_str(profile.as_str())),
    )
}

} // verus!
