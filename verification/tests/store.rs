use easy_gnome::error::SettingsError;
use easy_gnome::store::{
    get_bool, get_unsigned, reset, set_bool, set_unsigned, SettingRef, StoreReply, StoreRequest,
};
use std::collections::HashMap;

/// A store in memory that does what the real one is taken to do.
struct MemoryStore {
    defaults: HashMap<(String, String), String>,
    written: HashMap<(String, String), String>,
}

impl MemoryStore {
    fn new(defaults: &[(&str, &str, &str)]) -> MemoryStore {
        MemoryStore {
            defaults: defaults
                .iter()
                .map(|(s, k, v)| ((s.to_string(), k.to_string()), v.to_string()))
                .collect(),
            written: HashMap::new(),
        }
    }

    fn perform(&mut self, request: StoreRequest) -> StoreReply {
        match request {
            StoreRequest::Read(at) => {
                let place = (at.schema, at.key);
                let default = self.defaults.get(&place).ok_or(SettingsError::TargetNotFound)?;
                Ok(self.written.get(&place).unwrap_or(default).clone())
            }
            StoreRequest::Write(at, value) => {
                let place = (at.schema, at.key);
                if !self.defaults.contains_key(&place) {
                    return Err(SettingsError::TargetNotFound);
                }
                self.written.insert(place, value);
                Ok(String::new())
            }
            StoreRequest::Reset(at) => {
                self.written.remove(&(at.schema, at.key));
                Ok(String::new())
            }
        }
    }
}

fn at(schema: &str, key: &str) -> SettingRef {
    SettingRef { schema: schema.to_string(), key: key.to_string() }
}

#[test]
fn setting_ref_holds_schema_and_key() {
    assert_eq!(SettingRef::new("org.example", "a-key"), at("org.example", "a-key"));
}

#[test]
fn reads_name_their_place() {
    assert_eq!(get_bool("org.example", "flag").request(), StoreRequest::Read(at("org.example", "flag")));
    assert_eq!(
        get_unsigned("org.example", "count").request(),
        StoreRequest::Read(at("org.example", "count"))
    );
}

#[test]
fn writes_hold_the_canonical_text() {
    assert_eq!(
        set_bool("org.example", "flag", true),
        StoreRequest::Write(at("org.example", "flag"), "true".to_string())
    );
    assert_eq!(
        set_bool("org.example", "flag", false),
        StoreRequest::Write(at("org.example", "flag"), "false".to_string())
    );
    assert_eq!(
        set_unsigned("org.example", "count", 250),
        StoreRequest::Write(at("org.example", "count"), "250".to_string())
    );
    assert_eq!(
        set_unsigned("org.example", "count", 0),
        StoreRequest::Write(at("org.example", "count"), "0".to_string())
    );
}

#[test]
fn reset_names_its_place_and_no_value() {
    assert_eq!(reset("org.example", "count"), StoreRequest::Reset(at("org.example", "count")));
}

#[test]
fn bool_answer_is_decoded() {
    let query = get_bool("org.example", "flag");
    assert_eq!(query.decode(&Ok("true".to_string())), Ok(true));
    assert_eq!(query.decode(&Ok("false".to_string())), Ok(false));
}

#[test]
fn malformed_bool_is_a_decode_failure() {
    let query = get_bool("org.example", "flag");
    assert_eq!(query.decode(&Ok("maybe".to_string())), Err(SettingsError::DecodeFailure));
    assert_eq!(query.decode(&Ok(String::new())), Err(SettingsError::DecodeFailure));
    assert_eq!(query.decode(&Ok("true\n".to_string())), Err(SettingsError::DecodeFailure));
}

#[test]
fn unsigned_answer_is_decoded() {
    let query = get_unsigned("org.example", "count");
    assert_eq!(query.decode(&Ok("4000".to_string())), Ok(4000));
    assert_eq!(query.decode(&Ok("0".to_string())), Ok(0));
}

#[test]
fn malformed_unsigned_is_a_decode_failure() {
    let query = get_unsigned("org.example", "count");
    assert_eq!(query.decode(&Ok("uint32 4000".to_string())), Err(SettingsError::DecodeFailure));
    assert_eq!(query.decode(&Ok("-3".to_string())), Err(SettingsError::DecodeFailure));
    assert_eq!(query.decode(&Ok("4294967296".to_string())), Err(SettingsError::DecodeFailure));
    assert_eq!(query.decode(&Ok("true".to_string())), Err(SettingsError::DecodeFailure));
}

#[test]
fn failed_answers_keep_their_kind() {
    let flag = get_bool("org.example", "flag");
    let count = get_unsigned("org.example", "count");
    for kind in [
        SettingsError::TransportUnavailable,
        SettingsError::TargetNotFound,
        SettingsError::DecodeFailure,
        SettingsError::RemoteRejected,
    ] {
        assert_eq!(flag.decode(&Err(kind)), Err(kind));
        assert_eq!(count.decode(&Err(kind)), Err(kind));
    }
}

#[test]
fn the_three_failures_of_a_read_are_told_apart() {
    let query = get_unsigned("org.example", "count");
    let unavailable = query.decode(&Err(SettingsError::TransportUnavailable));
    let unknown = query.decode(&Err(SettingsError::TargetNotFound));
    let malformed = query.decode(&Ok("x".to_string()));
    assert_ne!(unavailable, unknown);
    assert_ne!(unknown, malformed);
    assert_ne!(unavailable, malformed);
}

#[test]
fn set_then_get_bool_round_trip() {
    let mut store = MemoryStore::new(&[("org.example", "flag", "false")]);
    for value in [true, false, true] {
        store.perform(set_bool("org.example", "flag", value)).unwrap();
        let query = get_bool("org.example", "flag");
        let reply = store.perform(query.request());
        assert_eq!(query.decode(&reply), Ok(value));
    }
}

#[test]
fn set_then_get_unsigned_round_trip() {
    let mut store = MemoryStore::new(&[("org.example", "count", "24")]);
    for value in [0u32, 1, 10, 4000, 65535, u32::MAX] {
        store.perform(set_unsigned("org.example", "count", value)).unwrap();
        let query = get_unsigned("org.example", "count");
        let reply = store.perform(query.request());
        assert_eq!(query.decode(&reply), Ok(value));
    }
}

#[test]
fn reset_then_get_gives_the_default() {
    let mut store = MemoryStore::new(&[("org.example", "count", "24"), ("org.example", "flag", "true")]);
    let query = get_unsigned("org.example", "count");
    for earlier in [0u32, 7, 9000] {
        store.perform(set_unsigned("org.example", "count", earlier)).unwrap();
        store.perform(reset("org.example", "count")).unwrap();
        let reply = store.perform(query.request());
        assert_eq!(query.decode(&reply), Ok(24));
    }
    store.perform(reset("org.example", "count")).unwrap();
    let reply = store.perform(query.request());
    assert_eq!(query.decode(&reply), Ok(24));
}

#[test]
fn a_write_leaves_other_places() {
    let mut store = MemoryStore::new(&[("org.example", "count", "24"), ("org.example", "flag", "true")]);
    store.perform(set_unsigned("org.example", "count", 5)).unwrap();
    let query = get_bool("org.example", "flag");
    let reply = store.perform(query.request());
    assert_eq!(query.decode(&reply), Ok(true));
}

#[test]
fn unknown_place_is_target_not_found() {
    let mut store = MemoryStore::new(&[("org.example", "count", "24")]);
    let query = get_bool("org.example", "no-such-key");
    let reply = store.perform(query.request());
    assert_eq!(query.decode(&reply), Err(SettingsError::TargetNotFound));
}
