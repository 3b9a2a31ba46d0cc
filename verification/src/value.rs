//! Values whose type is known only when a reply arrives.

use vstd::prelude::*;
use crate::text::str_eq;
use crate::error::SettingsError;

verus! {

/// A value as the bus carries it in a variant: one of a few tagged shapes.
///
/// A double travels as the 64 bits of its IEEE 754 form, so that it can be
/// compared exactly; `f64::to_bits` and `f64::from_bits` convert.
#[derive(Debug, PartialEq, Eq)]
pub enum DynValue {
    Bool(bool),
    /// Any signed integer.
    Int(i64),
    /// Any unsigned integer.
    UInt(u64),
    /// The bits of a double.
    Double(u64),
    Str(String),
    /// A structure: its members in order.
    Tuple(Vec<DynValue>),
    /// A mapping with string keys: its entries in the order of the reply.
    Dict(Vec<(String, DynValue)>),
    /// A shape that no operation of this library reads.
    Other,
}

/// The characters of a value that is a string.
pub open spec fn text_of(value: DynValue) -> Option<Seq<char>> {
    match value {
        DynValue::Str(s) => Some(s@),
        _ => None,
    }
}

/// The bits of a value that is a double.
pub open spec fn double_bits_of(value: DynValue) -> Option<u64> {
    match value {
        DynValue::Double(bits) => Some(bits),
        _ => None,
    }
}

/// The members of a value that is a structure.
pub open spec fn parts_of(value: DynValue) -> Option<Seq<DynValue>> {
    match value {
        DynValue::Tuple(parts) => Some(parts@),
        _ => None,
    }
}

/// The entries of a value that is a mapping.
pub open spec fn entries_of(value: DynValue) -> Option<Seq<(String, DynValue)>> {
    match value {
        DynValue::Dict(entries) => Some(entries@),
        _ => None,
    }
}

/// The index of the first entry with the given key, counted from `from`.
pub open spec fn key_index(entries: Seq<(String, DynValue)>, key: Seq<char>, from: int) -> Option<int>
    decreases entries.len() - from,
{
    if from < 0 || from >= entries.len() {
        None
    } else if entries[from].0@ == key {
        Some(from)
    } else {
        key_index(entries, key, from + 1)
    }
}

/// The value of the first entry with the given key.
pub open spec fn lookup(entries: Seq<(String, DynValue)>, key: Seq<char>) -> Option<DynValue> {
    match key_index(entries, key, 0) {
        Some(i) => Some(entries[i].1),
        None => None,
    }
}

impl DynValue {
    /// The string in a `Str`, and `DecodeFailure` for every other shape.
    pub fn try_as_str(&self) -> (text: Result<&String, SettingsError>)
        ensures
            match text {
                Ok(s) => text_of(*self) == Some(s@),
                Err(e) => e == SettingsError::DecodeFailure && text_of(*self) is None,
            },
    {
        match self {
            DynValue::Str(s) => Ok(s),
            _ => Err(SettingsError::DecodeFailure),
        }
    }

    /// The members of a `Tuple`, and `DecodeFailure` for every other shape.
    pub fn try_as_tuple(&self) -> (parts: Result<&Vec<DynValue>, SettingsError>)
        ensures
            match parts {
                Ok(p) => parts_of(*self) == Some(p@),
                Err(e) => e == SettingsError::DecodeFailure && parts_of(*self) is None,
            },
    {
        match self {
            DynValue::Tuple(parts) => Ok(parts),
            _ => Err(SettingsError::DecodeFailure),
        }
    }

    /// The entries of a `Dict`, and `DecodeFailure` for every other shape.
    pub fn try_as_dict(&self) -> (entries: Result<&Vec<(String, DynValue)>, SettingsError>)
        ensures
            match entries {
                Ok(e) => entries_of(*self) == Some(e@),
                Err(e) => e == SettingsError::DecodeFailure && entries_of(*self) is None,
            },
    {
        match self {
            DynValue::Dict(entries) => Ok(entries),
            _ => Err(SettingsError::DecodeFailure),
        }
    }

    /// The bits in a `Double`, and `DecodeFailure` for every other shape.
    pub fn try_as_double_bits(&self) -> (bits: Result<u64, SettingsError>)
        ensures
            match bits {
                Ok(b) => double_bits_of(*self) == Some(b),
                Err(e) => e == SettingsError::DecodeFailure && double_bits_of(*self) is None,
            },
    {
        match self {
            DynValue::Double(bits) => Ok(*bits),
            _ => Err(SettingsError::DecodeFailure),
        }
    }
}

/// Finds the value stored under `key` in the entries of a mapping: that of
/// the first entry with this key.
pub fn find<'a>(entries: &'a Vec<(String, DynValue)>, key: &str) -> (found: Option<&'a DynValue>)
    ensures
        match found {
            Some(v) => lookup(entries@, key@) == Some(*v),
            None => lookup(entries@, key@) is None,
        },
{
    let mut i: usize = 0;
    while i < entries.len()
        invariant
            i <= entries.len(),
            key_index(entries@, key@, 0) == key_index(entries@, key@, i as int),
        decreases entries.len() - i,
    {
        if str_eq(entries[i].0.as_str(), key) {
            return Some(&entries[i].1);
        }
        i += 1;
    }
    None
}

} // verus!
