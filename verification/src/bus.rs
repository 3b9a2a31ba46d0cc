//! Requests to services on the message bus, and how their replies are read.
//!
//! A [`BusRequest`] names a method to call or a property to read or write.
//! The caller sends it and hands back a [`BusReply`]: the value that came
//! back, or the kind of failure.

use vstd::prelude::*;
use vstd::string::*;
use crate::error::SettingsError;
use crate::text::str_eq;
use crate::value::{DynValue, text_of};

verus! {

/// Which bus a service is on.
#[derive(Debug, Clone, Copy, PartialEq, Eq, Structural)]
pub enum Scope {
    /// The bus of the user's session.
    Session,
    /// The bus of the whole machine.
    System,
}

/// What a request does with the member it names.
#[derive(Debug, Clone, Copy, PartialEq, Eq, Structural)]
pub enum BusAction {
    /// Call the method.
    Call,
    /// Read the property.
    GetProperty,
    /// Write the property.
    SetProperty,
}

/// A value sent with a request.
#[derive(Debug, Clone, PartialEq, Eq)]
pub enum BusArg {
    Bool(bool),
    Int32(i32),
    Text(String),
}

/// What a [`BusArg`] holds, with a string as its characters.
pub enum BusArgView {
    Bool(bool),
    Int32(i32),
    Text(Seq<char>),
}

impl View for BusArg {
    type V = BusArgView;

    open spec fn view(&self) -> BusArgView {
        match self {
            BusArg::Bool(b) => BusArgView::Bool(*b),
            BusArg::Int32(i) => BusArgView::Int32(*i),
            BusArg::Text(s) => BusArgView::Text(s@),
        }
    }
}

/// One request to a service on the bus.
#[derive(Debug, Clone, PartialEq, Eq)]
pub struct BusRequest {
    pub scope: Scope,
    /// The name under which the service is on the bus.
    pub service: String,
    /// The path of the object in the service.
    pub path: String,
    pub interface: String,
    pub action: BusAction,
    /// The method or the property.
    pub member: String,
    /// What is sent: the arguments of a call, the new value of a property,
    /// nothing for a read.
    pub args: Vec<BusArg>,
}

/// What a [`BusRequest`] holds, with each string as its characters.
pub struct BusRequestView {
    pub scope: Scope,
    pub service: Seq<char>,
    pub path: Seq<char>,
    pub interface: Seq<char>,
    pub action: BusAction,
    pub member: Seq<char>,
    pub args: Seq<BusArgView>,
}

impl View for BusRequest {
    type V = BusRequestView;

    open spec fn view(&self) -> BusRequestView {
        BusRequestView {
            scope: self.scope,
            service: self.service@,
            path: self.path@,
            interface: self.interface@,
            action: self.action,
            member: self.member@,
            args: Seq::new(self.args@.len(), |i: int| self.args@[i]@),
        }
    }
}

/// An object of a service: where requests go.
#[derive(Debug, Clone, Copy, PartialEq, Eq)]
pub struct BusObject<'a> {
    pub scope: Scope,
    pub service: &'a str,
    pub path: &'a str,
    pub interface: &'a str,
}

/// The request that does `action` with `member` of an object and sends
/// `args`.
pub open spec fn request_to(
    object: BusObject,
    action: BusAction,
    member: Seq<char>,
    args: Seq<BusArgView>,
) -> BusRequestView {
    BusRequestView {
        scope: object.scope,
        service: object.service@,
        path: object.path@,
        interface: object.interface@,
        action,
        member,
        args,
    }
}

/// The reply to a request: the value that came back, or the kind of failure.
/// A reply without a value is an empty `Tuple`; one with several values is
/// the `Tuple` of them.
pub type BusReply = Result<DynValue, SettingsError>;

fn request(object: BusObject, action: BusAction, member: &str, args: Vec<BusArg>) -> (request:
    BusRequest)
    ensures
        request@ == request_to(object, action, member@, Seq::new(args@.len(), |i: int| args@[i]@)),
{
    BusRequest {
        scope: object.scope,
        service: String::from_str(object.service),
        path: String::from_str(object.path),
        interface: String::from_str(object.interface),
        action,
        member: String::from_str(member),
        args,
    }
}

/// The call of a method without arguments.
pub fn call(object: BusObject, method: &str) -> (request: BusRequest)
    ensures
        request@ == request_to(object, BusAction::Call, method@, Seq::empty()),
{
    let request = request(object, BusAction::Call, method, Vec::new());
    assert(request@.args =~= Seq::empty());
    request
}

/// The call of a method with one argument.
pub fn call_with(object: BusObject, method: &str, arg: BusArg) -> (request: BusRequest)
    ensures
        request@ == request_to(object, BusAction::Call, method@, seq![arg@]),
{
    let mut args: Vec<BusArg> = Vec::new();
    args.push(arg);
    let request = request(object, BusAction::Call, method, args);
    assert(request@.args =~= seq![arg@]);
    request
}

/// The read of a property.
pub fn get_property(object: BusObject, property: &str) -> (request: BusRequest)
    ensures
        request@ == request_to(object, BusAction::GetProperty, property@, Seq::empty()),
{
    let request = request(object, BusAction::GetProperty, property, Vec::new());
    assert(request@.args =~= Seq::empty());
    request
}

/// The write of a property. The value is sent as it is given.
pub fn set_property(object: BusObject, property: &str, value: BusArg) -> (request: BusRequest)
    ensures
        request@ == request_to(object, BusAction::SetProperty, property@, seq![value@]),
{
    let mut args: Vec<BusArg> = Vec::new();
    args.push(value);
    let request = request(object, BusAction::SetProperty, property, args);
    assert(request@.args =~= seq![value@]);
    request
}

/// What a call that is made for its effect comes to: it fails exactly where
/// the reply is a failure. A value in the reply is not looked at.
pub open spec fn outcome_of(reply: BusReply) -> Result<(), SettingsError> {
    match reply {
        Ok(_) => Ok(()),
        Err(e) => Err(e),
    }
}

/// The string that a reply gives: a reply that is a failure stays that
/// failure, and a value that is no string is a `DecodeFailure`.
pub open spec fn text_of_reply(reply: BusReply) -> Result<Seq<char>, SettingsError> {
    match reply {
        Ok(value) => match text_of(value) {
            Some(text) => Ok(text),
            None => Err(SettingsError::DecodeFailure),
        },
        Err(e) => Err(e),
    }
}

/// The 32-bit integer that a reply gives: a reply that is a failure stays
/// that failure, and a value that is no integer, or one that 32 bits cannot
/// hold, is a `DecodeFailure`.
pub open spec fn int32_of_reply(reply: BusReply) -> Result<i32, SettingsError> {
    match reply {
        Ok(DynValue::Int(i)) => if i32::MIN <= i <= i32::MAX {
            Ok(i as i32)
        } else {
            Err(SettingsError::DecodeFailure)
        },
        Ok(DynValue::UInt(u)) => if u <= i32::MAX {
            Ok(u as i32)
        } else {
            Err(SettingsError::DecodeFailure)
        },
        Ok(_) => Err(SettingsError::DecodeFailure),
        Err(e) => Err(e),
    }
}

/// Reads the reply to a call that is made for its effect. Such a call may
/// answer with a boolean that says whether it had its effect; this is not
/// looked at, and `false` is no failure.
pub fn method_outcome(reply: &BusReply) -> (outcome: Result<(), SettingsError>)
    ensures
        outcome == outcome_of(*reply),
        outcome is Err <==> *reply is Err,
{
    match reply {
        Ok(_) => Ok(()),
        Err(e) => Err(*e),
    }
}

/// Reads a reply that holds a string.
pub fn reply_text(reply: &BusReply) -> (text: Result<&String, SettingsError>)
    ensures
        match text {
            Ok(s) => text_of_reply(*reply) == Ok::<Seq<char>, SettingsError>(s@),
            Err(e) => text_of_reply(*reply) == Err::<Seq<char>, SettingsError>(e),
        },
{
    match reply {
        Ok(value) => value.try_as_str(),
        Err(e) => Err(*e),
    }
}

/// Reads a reply that holds a 32-bit integer.
pub fn reply_int32(reply: &BusReply) -> (value: Result<i32, SettingsError>)
    ensures
        value == int32_of_reply(*reply),
{
    match reply {
        Ok(DynValue::Int(i)) => {
            if -0x8000_0000i64 <= *i && *i <= 0x7FFF_FFFFi64 {
                Ok(*i as i32)
            } else {
                Err(SettingsError::DecodeFailure)
            }
        },
        Ok(DynValue::UInt(u)) => {
            if *u <= 0x7FFF_FFFFu64 {
                Ok(*u as i32)
            } else {
                Err(SettingsError::DecodeFailure)
            }
        },
        Ok(_) => Err(SettingsError::DecodeFailure),
        Err(e) => Err(*e),
    }
}

/// The kind of failure that the name of an error reply stands for. The
/// names with which the bus says that it knows no such method, object,
/// interface or property give `TargetNotFound`; those with which it says that
/// nobody owns the service's name give `TransportUnavailable`; every other
/// name gives `RemoteRejected`.
pub open spec fn kind_of_error_name(name: Seq<char>) -> SettingsError {
    if name == "org.freedesktop.DBus.Error.UnknownMethod"@
        || name == "org.freedesktop.DBus.Error.UnknownObject"@
        || name == "org.freedesktop.DBus.Error.UnknownInterface"@
        || name == "org.freedesktop.DBus.Error.UnknownProperty"@ {
        SettingsError::TargetNotFound
    } else if name == "org.freedesktop.DBus.Error.ServiceUnknown"@
        || name == "org.freedesktop.DBus.Error.NameHasNoOwner"@ {
        SettingsError::TransportUnavailable
    } else {
        SettingsError::RemoteRejected
    }
}

/// Sorts an error reply, by its name, into the kinds of failure.
pub fn error_of_name(name: &str) -> (kind: SettingsError)
    ensures
        kind == kind_of_error_name(name@),
{
    if str_eq(name, "org.freedesktop.DBus.Error.UnknownMethod")
        || str_eq(name, "org.freedesktop.DBus.Error.UnknownObject")
        || str_eq(name, "org.freedesktop.DBus.Error.UnknownInterface")
        || str_eq(name, "org.freedesktop.DBus.Error.UnknownProperty") {
        SettingsError::TargetNotFound
    } else if str_eq(name, "org.freedesktop.DBus.Error.ServiceUnknown")
        || str_eq(name, "org.freedesktop.DBus.Error.NameHasNoOwner") {
        SettingsError::TransportUnavailable
    } else {
        SettingsError::RemoteRejected
    }
}

/// How an exchange with a service went wrong, as the caller saw it.
#[derive(Debug, Clone, PartialEq, Eq)]
pub enum BusFault {
    /// There is no connection to the bus, or the exchange broke off.
    Unreachable,
    /// The service answered with an error of this name.
    ErrorReply(String),
    /// An answer arrived and could not be read.
    Malformed,
}

/// The kind of failure that a fault is.
pub open spec fn kind_of_fault(fault: BusFault) -> SettingsError {
    match fault {
        BusFault::Unreachable => SettingsError::TransportUnavailable,
        BusFault::ErrorReply(name) => kind_of_error_name(name@),
        BusFault::Malformed => SettingsError::DecodeFailure,
    }
}

/// Sorts a fault into the kinds of failure: a broken exchange is
/// `TransportUnavailable`, an answer that cannot be read is a
/// `DecodeFailure`, and an error reply goes by its name.
pub fn error_of_fault(fault: &BusFault) -> (kind: SettingsError)
    ensures
        kind == kind_of_fault(*fault),
{
    match fault {
        BusFault::Unreachable => SettingsError::TransportUnavailable,
        BusFault::ErrorReply(name) => error_of_name(name.as_str()),
        BusFault::Malformed => SettingsError::DecodeFailure,
    }
}

} // verus!
