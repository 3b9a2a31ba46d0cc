//! Shell extensions: the switch that disables them all, the directory of the
//! installed ones, and the actions on one extension.

use vstd::prelude::*;
use vstd::string::*;
use crate::bus::{
    call, call_with, request_to, BusAction, BusArg, BusArgView, BusObject, BusReply, BusRequest,
    BusRequestView, Scope,
};
use crate::directory::{
    directory_of_reply, list_extensions, views, ListExtension, ListExtensionView,
};
use crate::error::SettingsError;
use crate::store::{get_bool, place, reset, set_bool, BoolQuery, StoreRequest, StoreRequestView};
use crate::text::text_of_bool;

verus! {

/// The shell's extension service.
pub open spec fn extensions_object_spec() -> BusObject<'static> {
    BusObject {
        scope: Scope::Session,
        service: "org.gnome.Shell.Extensions",
        path: "/org/gnome/Shell/Extensions",
        interface: "org.gnome.Shell.Extensions",
    }
}

/// The shell's extension service.
#[verifier::when_used_as_spec(extensions_object_spec)]
pub fn extensions_object() -> (object: BusObject<'static>)
    ensures
        object == extensions_object_spec(),
{
    BusObject {
        scope: Scope::Session,
        service: "org.gnome.Shell.Extensions",
        path: "/org/gnome/Shell/Extensions",
        interface: "org.gnome.Shell.Extensions",
    }
}

/// The request that writes the switch `disable-user-extensions` of the
/// shell.
pub fn set_extensions_active(active: bool) -> (request: StoreRequest)
    ensures
        request@ == StoreRequestView::Write(
            place("org.gnome.shell"@, "disable-user-extensions"@),
            text_of_bool(active),
        ),
{
    set_bool("org.gnome.shell", "disable-user-extensions", active)
}

/// The read of the switch `disable-user-extensions` of the shell.
pub fn get_extensions_active() -> (query: BoolQuery)
    ensures
        query.at@ == place("org.gnome.shell"@, "disable-user-extensions"@),
{
    get_bool("org.gnome.shell", "disable-user-extensions")
}

/// The request that puts the default of the switch back.
pub fn reset_extensions_active() -> (request: StoreRequest)
    ensures
        request@ == StoreRequestView::Reset(place("org.gnome.shell"@, "disable-user-extensions"@)),
{
    reset("org.gnome.shell", "disable-user-extensions")
}

/// The listing of the installed extensions.
#[derive(Debug, Clone, PartialEq, Eq)]
pub struct ExtensionsQuery {
    pub request: BusRequest,
}

impl ExtensionsQuery {
    /// Reads the reply to the request: a reply that is a failure stays that
    /// failure, and a value is decoded as [`list_extensions`] says.
    pub fn decode(&self, reply: &BusReply) -> (directory: Result<Vec<ListExtension>, SettingsError>)
        ensures
            match directory {
                Ok(records) => directory_of_reply(*reply) == Ok::<
                    Seq<ListExtensionView>,
                    SettingsError,
                >(views(records@)),
                Err(e) => directory_of_reply(*reply) == Err::<Seq<ListExtensionView>, SettingsError>(e),
            },
    {
        match reply {
            Ok(raw) => list_extensions(raw),
            Err(e) => Err(*e),
        }
    }
}

/// The listing of the installed extensions.
pub fn get_extensions() -> (query: ExtensionsQuery)
    ensures
        query.request@ == request_to(
            extensions_object(),
            BusAction::Call,
            "ListExtensions"@,
            Seq::empty(),
        ),
{
    ExtensionsQuery { request: call(extensions_object(), "ListExtensions") }
}

/// The call of an action on the extension with the given identifier.
pub open spec fn extension_action(method: Seq<char>, uuid: Seq<char>) -> BusRequestView {
    request_to(extensions_object(), BusAction::Call, method, seq![BusArgView::Text(uuid)])
}

/// The request that disables an extension.
pub fn disable_extension(uuid: &str) -> (request: BusRequest)
    ensures
        request@ == extension_action("DisableExtension"@, uuid@),
{
    call_with(extensions_object(), "DisableExtension", BusArg::Text(String::from_str(uuid)))
}

/// The request that enables an extension.
pub fn enable_extension(uuid: &str) -> (request: BusRequest)
    ensures
        request@ == extension_action("EnableExtension"@, uuid@),
{
    call_with(extensions_object(), "EnableExtension", BusArg::Text(String::from_str(uuid)))
}

/// The request that uninstalls an extension.
pub fn uninstall_extension(uuid: &str) -> (request: BusRequest)
    ensures
        request@ == extension_action("UninstallExtension"@, uuid@),
{
    call_with(extensions_object(), "UninstallExtension", BusArg::Text(String::from_str(uuid)))
}

/// The request that opens the preferences of an extension.
pub fn open_extension_preferences(uuid: &str) -> (request: BusRequest)
    ensures
        request@ == extension_action("LaunchExtensionPrefs"@, uuid@),
{
    call_with(extensions_object(), "LaunchExtensionPrefs", BusArg::Text(String::from_str(uuid)))
}

} // verus!
