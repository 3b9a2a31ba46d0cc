use easy_gnome::bus::{method_outcome, BusAction, BusArg, BusRequest, Scope};
use easy_gnome::error::SettingsError;
use easy_gnome::power::{
    get_power_profile, power_off, reboot, set_power_profile, suspend, PowerProfile,
};
use easy_gnome::value::DynValue;

fn login_call(method: &str) -> BusRequest {
    BusRequest {
        scope: Scope::System,
        service: "org.freedesktop.login1".to_string(),
        path: "/org/freedesktop/login1".to_string(),
        interface: "org.freedesktop.login1.Manager".to_string(),
        action: BusAction::Call,
        member: method.to_string(),
        args: vec![BusArg::Bool(true)],
    }
}

#[test]
fn profile_names_are_the_canonical_ones() {
    assert_eq!(PowerProfile::PowerSaver.as_str(), "power-saver");
    assert_eq!(PowerProfile::Balanced.as_str(), "balanced");
    assert_eq!(PowerProfile::Performance.as_str(), "performance");
}

#[test]
fn canonical_names_read_as_their_profiles() {
    assert_eq!(PowerProfile::from("power-saver"), PowerProfile::PowerSaver);
    assert_eq!(PowerProfile::from("balanced"), PowerProfile::Balanced);
    assert_eq!(PowerProfile::from("performance"), PowerProfile::Performance);
}

#[test]
fn unknown_names_read_as_balanced() {
    for name in ["", "turbo", "Performance", "power_saver", "power-saver ", "POWER-SAVER", "balance"] {
        assert_eq!(PowerProfile::from(name), PowerProfile::Balanced, "{:?}", name);
    }
}

#[test]
fn profile_round_trip() {
    for profile in [PowerProfile::PowerSaver, PowerProfile::Balanced, PowerProfile::Performance] {
        assert_eq!(PowerProfile::from(profile.as_str()), profile);
    }
}

#[test]
fn power_actions_go_to_the_login_manager_and_allow_interaction() {
    assert_eq!(power_off(), login_call("PowerOff"));
    assert_eq!(suspend(), login_call("Suspend"));
    assert_eq!(reboot(), login_call("Reboot"));
}

#[test]
fn profile_is_read_from_the_profiles_daemon() {
    let query = get_power_profile();
    assert_eq!(
        query.request,
        BusRequest {
            scope: Scope::System,
            service: "net.hadess.PowerProfiles".to_string(),
            path: "/net/hadess/PowerProfiles".to_string(),
            interface: "net.hadess.PowerProfiles".to_string(),
            action: BusAction::GetProperty,
            member: "ActiveProfile".to_string(),
            args: vec![],
        }
    );
}

#[test]
fn profile_reply_is_read_leniently() {
    let query = get_power_profile();
    assert_eq!(
        query.decode(&Ok(DynValue::Str("performance".to_string()))),
        Ok(PowerProfile::Performance)
    );
    assert_eq!(
        query.decode(&Ok(DynValue::Str("power-saver".to_string()))),
        Ok(PowerProfile::PowerSaver)
    );
    assert_eq!(query.decode(&Ok(DynValue::Str("quiet".to_string()))), Ok(PowerProfile::Balanced));
}

#[test]
fn profile_reply_of_another_shape_is_a_decode_failure() {
    let query = get_power_profile();
    assert_eq!(query.decode(&Ok(DynValue::Int(1))), Err(SettingsError::DecodeFailure));
    assert_eq!(query.decode(&Ok(DynValue::Other)), Err(SettingsError::DecodeFailure));
}

#[test]
fn profile_reply_that_failed_keeps_its_kind() {
    let query = get_power_profile();
    assert_eq!(
        query.decode(&Err(SettingsError::TransportUnavailable)),
        Err(SettingsError::TransportUnavailable)
    );
    assert_eq!(query.decode(&Err(SettingsError::TargetNotFound)), Err(SettingsError::TargetNotFound));
}

#[test]
fn profile_is_written_by_its_name() {
    let request = set_power_profile(PowerProfile::PowerSaver);
    assert_eq!(request.scope, Scope::System);
    assert_eq!(request.service, "net.hadess.PowerProfiles");
    assert_eq!(request.path, "/net/hadess/PowerProfiles");
    assert_eq!(request.interface, "net.hadess.PowerProfiles");
    assert_eq!(request.action, BusAction::SetProperty);
    assert_eq!(request.member, "ActiveProfile");
    assert_eq!(request.args, vec![BusArg::Text("power-saver".to_string())]);
    assert_eq!(
        set_power_profile(PowerProfile::Balanced).args,
        vec![BusArg::Text("balanced".to_string())]
    );
    assert_eq!(
        set_power_profile(PowerProfile::Performance).args,
        vec![BusArg::Text("performance".to_string())]
    );
}

#[test]
fn power_action_fails_only_where_the_call_failed() {
    assert_eq!(method_outcome(&Ok(DynValue::Tuple(vec![]))), Ok(()));
    assert_eq!(method_outcome(&Err(SettingsError::TransportUnavailable)), Err(SettingsError::TransportUnavailable));
}

#[test]
fn the_crate_root_names_the_main_types() {
    assert_eq!(easy_gnome::PowerProfile::from("performance"), PowerProfile::Performance);
    assert_eq!(
        easy_gnome::ListExtensionState::from_code(1),
        easy_gnome::directory::ListExtensionState::ENABLED
    );
    assert_eq!(easy_gnome::SettingsError::DecodeFailure, SettingsError::DecodeFailure);
}
