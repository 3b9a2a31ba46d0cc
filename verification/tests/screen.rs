use easy_gnome::bus::{BusAction, BusArg, BusRequest, Scope};
use easy_gnome::error::SettingsError;
use easy_gnome::screen::{brightness, set_brightness, step_down, step_up};
use easy_gnome::screenshot::{decode_color, pick_color, PickedColor};
use easy_gnome::value::DynValue;

fn screen_request(action: BusAction, member: &str, args: Vec<BusArg>) -> BusRequest {
    BusRequest {
        scope: Scope::Session,
        service: "org.gnome.SettingsDaemon.Power".to_string(),
        path: "/org/gnome/SettingsDaemon/Power".to_string(),
        interface: "org.gnome.SettingsDaemon.Power.Screen".to_string(),
        action,
        member: member.to_string(),
        args,
    }
}

fn double(d: f64) -> DynValue {
    DynValue::Double(d.to_bits())
}

#[test]
fn brightness_is_read_from_the_screen() {
    assert_eq!(brightness().request, screen_request(BusAction::GetProperty, "Brightness", vec![]));
}

#[test]
fn brightness_reply_is_decoded() {
    let query = brightness();
    assert_eq!(query.decode(&Ok(DynValue::Int(65))), Ok(65));
    assert_eq!(query.decode(&Ok(DynValue::Int(-1))), Ok(-1));
    assert_eq!(query.decode(&Ok(DynValue::Str("65".to_string()))), Err(SettingsError::DecodeFailure));
    assert_eq!(query.decode(&Err(SettingsError::TargetNotFound)), Err(SettingsError::TargetNotFound));
}

#[test]
fn brightness_is_forwarded_without_clamping() {
    for level in [0, 50, 100, 101, -1, i32::MAX, i32::MIN] {
        assert_eq!(
            set_brightness(level),
            screen_request(BusAction::SetProperty, "Brightness", vec![BusArg::Int32(level)])
        );
    }
}

#[test]
fn steps_are_calls_without_arguments() {
    assert_eq!(step_up(), screen_request(BusAction::Call, "StepUp", vec![]));
    assert_eq!(step_down(), screen_request(BusAction::Call, "StepDown", vec![]));
}

#[test]
fn pick_color_calls_the_screenshot_service() {
    assert_eq!(
        pick_color().request,
        BusRequest {
            scope: Scope::Session,
            service: "org.gnome.Shell.Screenshot".to_string(),
            path: "/org/gnome/Shell/Screenshot".to_string(),
            interface: "org.gnome.Shell.Screenshot".to_string(),
            action: BusAction::Call,
            member: "PickColor".to_string(),
            args: vec![],
        }
    );
}

#[test]
fn picked_color_is_decoded() {
    let reply = Ok(DynValue::Dict(vec![(
        "color".to_string(),
        DynValue::Tuple(vec![double(0.25), double(0.5), double(1.0)]),
    )]));
    let color = pick_color().decode(&reply).unwrap();
    assert_eq!(
        (f64::from_bits(color.red), f64::from_bits(color.green), f64::from_bits(color.blue)),
        (0.25, 0.5, 1.0)
    );
}

#[test]
fn color_needs_three_doubles() {
    let failure = Err(SettingsError::DecodeFailure);
    assert_eq!(
        decode_color(&DynValue::Tuple(vec![double(0.0), double(0.0), double(0.0)])),
        Ok(PickedColor { red: 0, green: 0, blue: 0 })
    );
    assert_eq!(decode_color(&DynValue::Tuple(vec![double(0.0), double(0.0)])), failure);
    assert_eq!(
        decode_color(&DynValue::Tuple(vec![double(0.0), double(0.0), double(0.0), double(0.0)])),
        failure
    );
    assert_eq!(decode_color(&DynValue::Tuple(vec![double(0.0), DynValue::Int(0), double(0.0)])), failure);
    assert_eq!(decode_color(&double(0.0)), failure);
}

#[test]
fn color_reply_without_color_is_a_decode_failure() {
    let query = pick_color();
    assert_eq!(query.decode(&Ok(DynValue::Dict(vec![]))), Err(SettingsError::DecodeFailure));
    assert_eq!(
        query.decode(&Ok(DynValue::Dict(vec![("color".to_string(), DynValue::Str("red".to_string()))]))),
        Err(SettingsError::DecodeFailure)
    );
    assert_eq!(query.decode(&Ok(DynValue::Other)), Err(SettingsError::DecodeFailure));
    assert_eq!(
        query.decode(&Err(SettingsError::TransportUnavailable)),
        Err(SettingsError::TransportUnavailable)
    );
}
