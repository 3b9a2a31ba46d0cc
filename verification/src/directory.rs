//! The directory of installed shell extensions, decoded from the reply of
//! the shell's listing call.

use vstd::prelude::*;
use crate::error::SettingsError;
use crate::value::{entries_of, find, lookup, text_of, DynValue};

verus! {

/// The states in which the shell reports an extension. On the wire a state
/// is a number: 1 to 6 in the order of the first six variants, and 99 for
/// `UNINSTALLED`.
#[allow(non_camel_case_types)]
#[derive(Debug, Clone, Copy, PartialEq, Eq, Structural)]
pub enum ListExtensionState {
    ENABLED,
    DISABLED,
    ERROR,
    OUT_OF_DATE,
    DOWNLOADING,
    INITIALIZED,
    UNINSTALLED,
}

/// One installed extension.
#[derive(Debug, Clone, PartialEq, Eq)]
pub struct ListExtension {
    pub uuid: String,
    pub name: String,
    pub description: String,
    pub state: ListExtensionState,
    pub version: String,
    pub url: String,
}

/// What a [`ListExtension`] holds, with each string as its characters.
pub struct ListExtensionView {
    pub uuid: Seq<char>,
    pub name: Seq<char>,
    pub description: Seq<char>,
    pub state: ListExtensionState,
    pub version: Seq<char>,
    pub url: Seq<char>,
}

impl View for ListExtension {
    type V = ListExtensionView;

    open spec fn view(&self) -> ListExtensionView {
        ListExtensionView {
            uuid: self.uuid@,
            name: self.name@,
            description: self.description@,
            state: self.state,
            version: self.version@,
            url: self.url@,
        }
    }
}

/// The number that stands for a state on the wire.
pub open spec fn code_of_state(state: ListExtensionState) -> int {
    match state {
        ListExtensionState::ENABLED => 1,
        ListExtensionState::DISABLED => 2,
        ListExtensionState::ERROR => 3,
        ListExtensionState::OUT_OF_DATE => 4,
        ListExtensionState::DOWNLOADING => 5,
        ListExtensionState::INITIALIZED => 6,
        ListExtensionState::UNINSTALLED => 99,
    }
}

/// The state that a number stands for: a number that is no state's code
/// stands for `UNINSTALLED`.
pub open spec fn state_of_code(code: int) -> ListExtensionState {
    if code == 1 {
        ListExtensionState::ENABLED
    } else if code == 2 {
        ListExtensionState::DISABLED
    } else if code == 3 {
        ListExtensionState::ERROR
    } else if code == 4 {
        ListExtensionState::OUT_OF_DATE
    } else if code == 5 {
        ListExtensionState::DOWNLOADING
    } else if code == 6 {
        ListExtensionState::INITIALIZED
    } else {
        ListExtensionState::UNINSTALLED
    }
}

/// The bits of the double 1.0.
pub const DOUBLE_1: u64 = 0x3FF0_0000_0000_0000;

/// The bits of the double 2.0.
pub const DOUBLE_2: u64 = 0x4000_0000_0000_0000;

/// The bits of the double 3.0.
pub const DOUBLE_3: u64 = 0x4008_0000_0000_0000;

/// The bits of the double 4.0.
pub const DOUBLE_4: u64 = 0x4010_0000_0000_0000;

/// The bits of the double 5.0.
pub const DOUBLE_5: u64 = 0x4014_0000_0000_0000;

/// The bits of the double 6.0.
pub const DOUBLE_6: u64 = 0x4018_0000_0000_0000;

/// The bits of the double 99.0.
pub const DOUBLE_99: u64 = 0x4058_C000_0000_0000;

/// The bits of the double that is equal to a state's code.
pub open spec fn double_bits_of_state(state: ListExtensionState) -> u64 {
    match state {
        ListExtensionState::ENABLED => DOUBLE_1,
        ListExtensionState::DISABLED => DOUBLE_2,
        ListExtensionState::ERROR => DOUBLE_3,
        ListExtensionState::OUT_OF_DATE => DOUBLE_4,
        ListExtensionState::DOWNLOADING => DOUBLE_5,
        ListExtensionState::INITIALIZED => DOUBLE_6,
        ListExtensionState::UNINSTALLED => DOUBLE_99,
    }
}

/// The exponent field of a double: bits 52 to 62.
pub open spec fn double_exponent(bits: u64) -> u64 {
    (bits >> 52) & 0x7FF
}

/// The significand of a normal double: bits 0 to 51, below a leading one.
pub open spec fn double_significand(bits: u64) -> u64 {
    (bits & 0x000F_FFFF_FFFF_FFFF) | 0x0010_0000_0000_0000
}

/// How far the significand of a double with the given exponent field
/// reaches below the binary point. A normal double is its significand
/// divided by two to this power.
pub open spec fn double_scale(bits: u64) -> u64 {
    (1075 - double_exponent(bits)) as u64
}

/// Whether a double is a whole number from 1 to below two to the 53rd
/// power: it is positive, its exponent field lies from 1023 to 1075, and its
/// significand has only zeros below the binary point.
pub open spec fn double_is_whole(bits: u64) -> bool {
    bits >> 63 == 0 && 1023 <= double_exponent(bits) && double_exponent(bits) <= 1075 && (
    double_significand(bits) >> double_scale(bits)) << double_scale(bits) == double_significand(
        bits,
    )
}

/// The whole number that such a double is.
pub open spec fn double_whole_part(bits: u64) -> u64 {
    double_significand(bits) >> double_scale(bits)
}

/// The state that a double stands for, the double given by its bits: the
/// state whose code the double is equal to, and `UNINSTALLED` where there is
/// none. No code is zero, negative or a fraction, so that only a double that
/// is a whole number from 1 on can be equal to one.
pub open spec fn state_of_double_bits(bits: u64) -> ListExtensionState {
    if double_is_whole(bits) {
        state_of_code(double_whole_part(bits) as int)
    } else {
        ListExtensionState::UNINSTALLED
    }
}

/// The doubles that are equal to the seven codes are the seven constants.
pub proof fn lemma_doubles_of_codes(bits: u64)
    by (bit_vector)
    ensures
        (double_is_whole(bits) && double_whole_part(bits) == 1) <==> bits == DOUBLE_1,
        (double_is_whole(bits) && double_whole_part(bits) == 2) <==> bits == DOUBLE_2,
        (double_is_whole(bits) && double_whole_part(bits) == 3) <==> bits == DOUBLE_3,
        (double_is_whole(bits) && double_whole_part(bits) == 4) <==> bits == DOUBLE_4,
        (double_is_whole(bits) && double_whole_part(bits) == 5) <==> bits == DOUBLE_5,
        (double_is_whole(bits) && double_whole_part(bits) == 6) <==> bits == DOUBLE_6,
        (double_is_whole(bits) && double_whole_part(bits) == 99) <==> bits == DOUBLE_99,
{
}

/// Whether a number is the code of a state.
pub open spec fn is_state_code(code: int) -> bool {
    1 <= code <= 6 || code == 99
}

/// Whether the bits are those of a double that is equal to a state's code.
pub open spec fn is_state_double(bits: u64) -> bool {
    double_is_whole(bits) && is_state_code(double_whole_part(bits) as int)
}

/// The codes and the states match one to one: the seven codes are the codes
/// of the seven states, a state is what its code stands for, and a code of
/// a state is the code of what it stands for.
pub proof fn lemma_codes_match_states(state: ListExtensionState, code: int)
    ensures
        is_state_code(code_of_state(state)),
        state_of_code(code_of_state(state)) == state,
        is_state_code(code) ==> code_of_state(state_of_code(code)) == code,
{
}

/// Every number that is no state's code stands for `UNINSTALLED`.
pub proof fn lemma_unknown_code_is_uninstalled(code: int)
    requires
        !is_state_code(code),
    ensures
        state_of_code(code) == ListExtensionState::UNINSTALLED,
{
}

/// Reading a double agrees with reading the code that the double is equal
/// to: the doubles of the seven codes match the seven states one to one.
pub proof fn lemma_doubles_match_states(state: ListExtensionState, bits: u64)
    ensures
        is_state_double(double_bits_of_state(state)),
        state_of_double_bits(double_bits_of_state(state)) == state,
        is_state_double(bits) ==> double_bits_of_state(state_of_double_bits(bits)) == bits,
{
    lemma_doubles_of_codes(double_bits_of_state(state));
    lemma_doubles_of_codes(bits);
}

/// Every double that is equal to no state's code stands for `UNINSTALLED`.
pub proof fn lemma_unknown_double_is_uninstalled(bits: u64)
    requires
        !is_state_double(bits),
    ensures
        state_of_double_bits(bits) == ListExtensionState::UNINSTALLED,
{
    lemma_doubles_of_codes(bits);
}

/// The state that the `state` field of a record stands for. A double or an
/// integer is read as a code; a field of another shape, or none, gives
/// `UNINSTALLED`.
pub open spec fn state_of_field(field: Option<DynValue>) -> ListExtensionState {
    match field {
        Some(DynValue::Double(bits)) => state_of_double_bits(bits),
        Some(DynValue::Int(code)) => state_of_code(code as int),
        Some(DynValue::UInt(code)) => state_of_code(code as int),
        _ => ListExtensionState::UNINSTALLED,
    }
}

/// The characters of a field that a record must have as a string.
pub open spec fn required_text(fields: Seq<(String, DynValue)>, key: Seq<char>) -> Option<Seq<char>> {
    match lookup(fields, key) {
        Some(value) => text_of(value),
        None => None,
    }
}

/// The characters of a field that a record may have as a string: none for a
/// field that is missing or of another shape.
pub open spec fn optional_text(fields: Seq<(String, DynValue)>, key: Seq<char>) -> Seq<char> {
    match required_text(fields, key) {
        Some(text) => text,
        None => Seq::empty(),
    }
}

/// The record that the fields listed under an identifier give, if they hold
/// a name, a description and a url as strings.
pub open spec fn record_of_fields(uuid: Seq<char>, fields: Seq<(String, DynValue)>) -> Option<
    ListExtensionView,
> {
    match (
        required_text(fields, "name"@),
        required_text(fields, "description"@),
        required_text(fields, "url"@),
    ) {
        (Some(name), Some(description), Some(url)) => Some(
            ListExtensionView {
                uuid,
                name,
                description,
                state: state_of_field(lookup(fields, "state"@)),
                version: optional_text(fields, "version"@),
                url,
            },
        ),
        _ => None,
    }
}

/// The record that one entry of the listing gives.
pub open spec fn record_of_entry(entry: (String, DynValue)) -> Option<ListExtensionView> {
    match entries_of(entry.1) {
        Some(fields) => record_of_fields(entry.0@, fields),
        None => None,
    }
}

/// The directory that a listing gives: one record for each entry, in the
/// order of the entries, if every entry gives a record; nothing otherwise.
pub open spec fn directory_of(raw: DynValue) -> Option<Seq<ListExtensionView>> {
    match entries_of(raw) {
        Some(entries) => {
            if forall|i: int| 0 <= i < entries.len() ==> (#[trigger] record_of_entry(entries[i])) is Some {
                Some(Seq::new(entries.len(), |i: int| record_of_entry(entries[i]).unwrap()))
            } else {
                None
            }
        },
        None => None,
    }
}

/// The records of a directory, each as its view.
pub open spec fn views(records: Seq<ListExtension>) -> Seq<ListExtensionView> {
    Seq::new(records.len(), |i: int| records[i]@)
}

/// The directory that a reply to the listing call gives: a reply that is a
/// failure stays that failure, and a value that gives no directory is a
/// `DecodeFailure`.
pub open spec fn directory_of_reply(reply: Result<DynValue, SettingsError>) -> Result<
    Seq<ListExtensionView>,
    SettingsError,
> {
    match reply {
        Ok(raw) => match directory_of(raw) {
            Some(records) => Ok(records),
            None => Err(SettingsError::DecodeFailure),
        },
        Err(e) => Err(e),
    }
}

impl ListExtensionState {
    /// The state that an integer code stands for.
    pub fn from_code(code: i64) -> (state: ListExtensionState)
        ensures
            state == state_of_code(code as int),
    {
        if code == 1 {
            ListExtensionState::ENABLED
        } else if code == 2 {
            ListExtensionState::DISABLED
        } else if code == 3 {
            ListExtensionState::ERROR
        } else if code == 4 {
            ListExtensionState::OUT_OF_DATE
        } else if code == 5 {
            ListExtensionState::DOWNLOADING
        } else if code == 6 {
            ListExtensionState::INITIALIZED
        } else {
            ListExtensionState::UNINSTALLED
        }
    }

    /// The state that a double stands for, the double given by its bits.
    pub fn from_double_bits(bits: u64) -> (state: ListExtensionState)
        ensures
            state == state_of_double_bits(bits),
    {
        proof {
            lemma_doubles_of_codes(bits);
        }
        if bits == DOUBLE_1 {
            ListExtensionState::ENABLED
        } else if bits == DOUBLE_2 {
            ListExtensionState::DISABLED
        } else if bits == DOUBLE_3 {
            ListExtensionState::ERROR
        } else if bits == DOUBLE_4 {
            ListExtensionState::OUT_OF_DATE
        } else if bits == DOUBLE_5 {
            ListExtensionState::DOWNLOADING
        } else if bits == DOUBLE_6 {
            ListExtensionState::INITIALIZED
        } else {
            ListExtensionState::UNINSTALLED
        }
    }

    /// The state's code.
    pub fn code(&self) -> (code: u8)
        ensures
            code == code_of_state(*self),
    {
        match self {
            ListExtensionState::ENABLED => 1,
            ListExtensionState::DISABLED => 2,
            ListExtensionState::ERROR => 3,
            ListExtensionState::OUT_OF_DATE => 4,
            ListExtensionState::DOWNLOADING => 5,
            ListExtensionState::INITIALIZED => 6,
            ListExtensionState::UNINSTALLED => 99,
        }
    }

    /// The state that the `state` field of a record stands for.
    pub fn from_field(field: Option<&DynValue>) -> (state: ListExtensionState)
        ensures
            state == state_of_field(
                match field {
                    Some(v) => Some(*v),
                    None => None,
                },
            ),
    {
        match field {
            Some(DynValue::Double(bits)) => ListExtensionState::from_double_bits(*bits),
            Some(DynValue::Int(code)) => ListExtensionState::from_code(*code),
            Some(DynValue::UInt(code)) => {
                if *code <= 99 {
                    ListExtensionState::from_code(*code as i64)
                } else {
                    ListExtensionState::UNINSTALLED
                }
            },
            _ => ListExtensionState::UNINSTALLED,
        }
    }
}

/// Reads a field that a record must have as a string.
fn required_field(fields: &Vec<(String, DynValue)>, key: &str) -> (text: Result<String, SettingsError>)
    ensures
        match text {
            Ok(s) => required_text(fields@, key@) == Some(s@),
            Err(e) => e == SettingsError::DecodeFailure && required_text(fields@, key@) is None,
        },
{
    match find(fields, key) {
        Some(value) => match value.try_as_str() {
            Ok(s) => Ok(s.clone()),
            Err(e) => Err(e),
        },
        None => Err(SettingsError::DecodeFailure),
    }
}

/// Decodes the fields listed under one identifier.
pub fn decode_record(uuid: &String, fields: &Vec<(String, DynValue)>) -> (record: Result<
    ListExtension,
    SettingsError,
>)
    ensures
        match record {
            Ok(r) => record_of_fields(uuid@, fields@) == Some(r@),
            Err(e) => e == SettingsError::DecodeFailure && record_of_fields(uuid@, fields@) is None,
        },
{
    let name = required_field(fields, "name")?;
    let description = required_field(fields, "description")?;
    let version = match required_field(fields, "version") {
        Ok(s) => s,
        Err(_) => String::new(),
    };
    let state = ListExtensionState::from_field(find(fields, "state"));
    let url = required_field(fields, "url")?;
    Ok(ListExtension { uuid: uuid.clone(), name, description, state, version, url })
}

/// Decodes the reply of the listing call into the directory of extensions.
///
/// The reply maps each identifier to the fields of its extension. Every
/// entry gives one record, in the order of the reply; if one entry gives
/// none, the whole listing fails.
pub fn list_extensions(raw: &DynValue) -> (directory: Result<Vec<ListExtension>, SettingsError>)
    ensures
        match directory {
            Ok(records) => directory_of(*raw) == Some(views(records@)),
            Err(e) => e == SettingsError::DecodeFailure && directory_of(*raw) is None,
        },
{
    let entries = raw.try_as_dict()?;
    let mut records: Vec<ListExtension> = Vec::new();
    let mut i: usize = 0;
    while i < entries.len()
        invariant
            entries_of(*raw) == Some(entries@),
            i <= entries.len(),
            records@.len() == i,
            forall|j: int| 0 <= j < i ==> (#[trigger] record_of_entry(entries@[j])) == Some(records@[j]@),
        decreases entries.len() - i,
    {
        let fields = match entries[i].1.try_as_dict() {
            Ok(fields) => fields,
            Err(e) => {
                assert(record_of_entry(entries@[i as int]) is None);
                return Err(e);
            },
        };
        match decode_record(&entries[i].0, fields) {
            Ok(record) => {
                records.push(record);
            },
            Err(e) => {
                assert(record_of_entry(entries@[i as int]) is None);
                return Err(e);
            },
        }
        i += 1;
    }
    assert(directory_of(*raw).unwrap() =~= views(records@));
    Ok(records)
}

} // verus!
