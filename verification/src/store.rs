//! Typed access to the configuration store.
//!
//! The store keeps one string under each pair of a schema and a key. This
//! module says what to ask of it ([`StoreRequest`]) and reads its answers as
//! booleans and unsigned integers. Performing a request is the caller's
//! part; [`StoreModel`] states what the store is taken to do with it.

use vstd::prelude::*;
use vstd::string::*;
use crate::error::SettingsError;
use crate::text::{
    bool_of_text, format_bool, format_unsigned, lemma_bool_text_round_trip,
    lemma_unsigned_text_round_trip, parse_bool, parse_unsigned, text_of_bool, text_of_unsigned,
    unsigned_of_text,
};

verus! {

/// The place of one value in the store.
#[derive(Debug, Clone, PartialEq, Eq)]
pub struct SettingRef {
    pub schema: String,
    pub key: String,
}

/// What a [`SettingRef`] holds, with each string as its characters.
pub struct SettingRefView {
    pub schema: Seq<char>,
    pub key: Seq<char>,
}

impl View for SettingRef {
    type V = SettingRefView;

    open spec fn view(&self) -> SettingRefView {
        SettingRefView { schema: self.schema@, key: self.key@ }
    }
}

/// The place that a schema and a key name.
pub open spec fn place(schema: Seq<char>, key: Seq<char>) -> SettingRefView {
    SettingRefView { schema, key }
}

/// One operation on the store.
#[derive(Debug, Clone, PartialEq, Eq)]
pub enum StoreRequest {
    /// Read the value at a place.
    Read(SettingRef),
    /// Write a value at a place.
    Write(SettingRef, String),
    /// Put the store's own default back at a place.
    Reset(SettingRef),
}

/// What a [`StoreRequest`] holds, with each string as its characters.
pub enum StoreRequestView {
    Read(SettingRefView),
    Write(SettingRefView, Seq<char>),
    Reset(SettingRefView),
}

impl View for StoreRequest {
    type V = StoreRequestView;

    open spec fn view(&self) -> StoreRequestView {
        match self {
            StoreRequest::Read(at) => StoreRequestView::Read(at@),
            StoreRequest::Write(at, value) => StoreRequestView::Write(at@, value@),
            StoreRequest::Reset(at) => StoreRequestView::Reset(at@),
        }
    }
}

/// The store's answer to a `Read`: the string at the place, or why there is
/// none.
pub type StoreReply = Result<String, SettingsError>;

/// An answer of the store, with the string as its characters.
pub open spec fn reply_view(reply: StoreReply) -> Result<Seq<char>, SettingsError> {
    match reply {
        Ok(text) => Ok(text@),
        Err(e) => Err(e),
    }
}

/// The boolean that an answer of the store gives: an answer that is an error
/// stays that error, and a string that is no boolean is a `DecodeFailure`.
pub open spec fn bool_of_reply(reply: Result<Seq<char>, SettingsError>) -> Result<bool, SettingsError> {
    match reply {
        Ok(text) => match bool_of_text(text) {
            Some(value) => Ok(value),
            None => Err(SettingsError::DecodeFailure),
        },
        Err(e) => Err(e),
    }
}

/// The unsigned integer that an answer of the store gives: an answer that is
/// an error stays that error, and a string that is no unsigned integer is a
/// `DecodeFailure`.
pub open spec fn unsigned_of_reply(reply: Result<Seq<char>, SettingsError>) -> Result<
    u32,
    SettingsError,
> {
    match reply {
        Ok(text) => match unsigned_of_text(text) {
            Some(value) => Ok(value),
            None => Err(SettingsError::DecodeFailure),
        },
        Err(e) => Err(e),
    }
}

impl SettingRef {
    /// The place that a schema and a key name.
    pub fn new(schema: &str, key: &str) -> (at: SettingRef)
        ensures
            at@ == place(schema@, key@),
    {
        SettingRef { schema: String::from_str(schema), key: String::from_str(key) }
    }
}

/// A read of a boolean: where to read, and how to read the answer.
#[derive(Debug, Clone, PartialEq, Eq)]
pub struct BoolQuery {
    pub at: SettingRef,
}

/// A read of an unsigned integer: where to read, and how to read the answer.
#[derive(Debug, Clone, PartialEq, Eq)]
pub struct UnsignedQuery {
    pub at: SettingRef,
}

impl BoolQuery {
    /// What to ask of the store.
    pub fn request(&self) -> (request: StoreRequest)
        ensures
            request@ == StoreRequestView::Read(self.at@),
    {
        StoreRequest::Read(SettingRef { schema: self.at.schema.clone(), key: self.at.key.clone() })
    }

    /// Reads the store's answer.
    pub fn decode(&self, reply: &StoreReply) -> (value: Result<bool, SettingsError>)
        ensures
            value == bool_of_reply(reply_view(*reply)),
    {
        match reply {
            Ok(text) => match parse_bool(text.as_str()) {
                Some(value) => Ok(value),
                None => Err(SettingsError::DecodeFailure),
            },
            Err(e) => Err(*e),
        }
    }
}

impl UnsignedQuery {
    /// What to ask of the store.
    pub fn request(&self) -> (request: StoreRequest)
        ensures
            request@ == StoreRequestView::Read(self.at@),
    {
        StoreRequest::Read(SettingRef { schema: self.at.schema.clone(), key: self.at.key.clone() })
    }

    /// Reads the store's answer.
    pub fn decode(&self, reply: &StoreReply) -> (value: Result<u32, SettingsError>)
        ensures
            value == unsigned_of_reply(reply_view(*reply)),
    {
        match reply {
            Ok(text) => match parse_unsigned(text.as_str()) {
                Some(value) => Ok(value),
                None => Err(SettingsError::DecodeFailure),
            },
            Err(e) => Err(*e),
        }
    }
}

/// A read of the boolean at a place.
pub fn get_bool(schema: &str, key: &str) -> (query: BoolQuery)
    ensures
        query.at@ == place(schema@, key@),
{
    BoolQuery { at: SettingRef::new(schema, key) }
}

/// A read of the unsigned integer at a place.
pub fn get_unsigned(schema: &str, key: &str) -> (query: UnsignedQuery)
    ensures
        query.at@ == place(schema@, key@),
{
    UnsignedQuery { at: SettingRef::new(schema, key) }
}

/// The write of a boolean at a place, as `true` or `false`.
pub fn set_bool(schema: &str, key: &str, value: bool) -> (request: StoreRequest)
    ensures
        request@ == StoreRequestView::Write(place(schema@, key@), text_of_bool(value)),
{
    StoreRequest::Write(SettingRef::new(schema, key), format_bool(value))
}

/// The write of an unsigned integer at a place, in decimal.
pub fn set_unsigned(schema: &str, key: &str, value: u32) -> (request: StoreRequest)
    ensures
        request@ == StoreRequestView::Write(place(schema@, key@), text_of_unsigned(value)),
{
    StoreRequest::Write(SettingRef::new(schema, key), format_unsigned(value))
}

/// The request that puts the store's default back at a place.
pub fn reset(schema: &str, key: &str) -> (request: StoreRequest)
    ensures
        request@ == StoreRequestView::Reset(place(schema@, key@)),
{
    StoreRequest::Reset(SettingRef::new(schema, key))
}

/// What the store is taken to be: a default for each place that its schemas
/// define, and the values that were written over defaults.
pub struct StoreModel {
    pub defaults: Map<SettingRefView, Seq<char>>,
    pub written: Map<SettingRefView, Seq<char>>,
}

impl StoreModel {
    /// Whether the store's schemas define a place.
    pub open spec fn defines(self, at: SettingRefView) -> bool {
        self.defaults.dom().contains(at)
    }

    /// The string that the store holds at a place it defines.
    pub open spec fn value(self, at: SettingRefView) -> Seq<char> {
        if self.written.dom().contains(at) {
            self.written[at]
        } else {
            self.defaults[at]
        }
    }

    /// The store's answer to a request: to a read, the string at the place;
    /// to a write or a reset, an empty string; and to a request on a place
    /// that the store does not define, `TargetNotFound`.
    pub open spec fn answer(self, request: StoreRequestView) -> Result<Seq<char>, SettingsError> {
        match request {
            StoreRequestView::Read(at) => if self.defines(at) {
                Ok(self.value(at))
            } else {
                Err(SettingsError::TargetNotFound)
            },
            StoreRequestView::Write(at, value) => if self.defines(at) {
                Ok(Seq::empty())
            } else {
                Err(SettingsError::TargetNotFound)
            },
            StoreRequestView::Reset(at) => if self.defines(at) {
                Ok(Seq::empty())
            } else {
                Err(SettingsError::TargetNotFound)
            },
        }
    }

    /// The store after a request. A request on a place that the store does
    /// not define changes nothing.
    pub open spec fn after(self, request: StoreRequestView) -> StoreModel {
        match request {
            StoreRequestView::Read(at) => self,
            StoreRequestView::Write(at, value) => if self.defines(at) {
                StoreModel { defaults: self.defaults, written: self.written.insert(at, value) }
            } else {
                self
            },
            StoreRequestView::Reset(at) => StoreModel {
                defaults: self.defaults,
                written: self.written.remove(at),
            },
        }
    }
}

/// A boolean that is written at a place of the store and then read there is
/// read as it was written.
pub proof fn lemma_set_then_get_bool(store: StoreModel, at: SettingRefView, value: bool)
    requires
        store.defines(at),
    ensures
        bool_of_reply(
            store.after(StoreRequestView::Write(at, text_of_bool(value))).answer(
                StoreRequestView::Read(at),
            ),
        ) == Ok::<bool, SettingsError>(value),
{
    lemma_bool_text_round_trip(value);
}

/// An unsigned integer that is written at a place of the store and then read
/// there is read as it was written.
pub proof fn lemma_set_then_get_unsigned(store: StoreModel, at: SettingRefView, value: u32)
    requires
        store.defines(at),
    ensures
        unsigned_of_reply(
            store.after(StoreRequestView::Write(at, text_of_unsigned(value))).answer(
                StoreRequestView::Read(at),
            ),
        ) == Ok::<u32, SettingsError>(value),
{
    lemma_unsigned_text_round_trip(value);
}

/// After a reset of a place, a read there gives the store's default,
/// whatever was written there before.
pub proof fn lemma_reset_then_get(store: StoreModel, at: SettingRefView, earlier: Seq<char>)
    requires
        store.defines(at),
    ensures
        store.after(StoreRequestView::Write(at, earlier)).after(StoreRequestView::Reset(at)).answer(
            StoreRequestView::Read(at),
        ) == Ok::<Seq<char>, SettingsError>(store.defaults[at]),
        store.after(StoreRequestView::Reset(at)).answer(StoreRequestView::Read(at)) == Ok::<
            Seq<char>,
            SettingsError,
        >(store.defaults[at]),
{
}

/// A request on one place leaves what is read at every other place.
pub proof fn lemma_other_places_unchanged(
    store: StoreModel,
    request: StoreRequestView,
    other: SettingRefView,
)
    requires
        match request {
            StoreRequestView::Read(at) => true,
            StoreRequestView::Write(at, value) => at != other,
            StoreRequestView::Reset(at) => at != other,
        },
    ensures
        store.after(request).answer(StoreRequestView::Read(other)) == store.answer(
            StoreRequestView::Read(other),
        ),
{
}

} // verus!
