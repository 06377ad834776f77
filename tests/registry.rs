use gopro_ble::{
    expand, is_wanted_peripheral, peripheral_name, AntiFlicker, GoProCommand,
    GoProControlAndQueryCharacteristics, GoProManagementCharacteristics, GoProServices,
    GoProSetting, GoProWifiApCharacteristics, Hero11HorizonLeveling, Hero11NightPhoto,
    Hero11Resolution, Hero11Speed, Hero11VideoDigitalLense, Hero11VideoMode, Sendable, ToUUID,
};

#[test]
fn gopro_spec_test_macro() {
    let uuid = expand("0072");
    assert_eq!(uuid, expand("0072"));
}

#[test]
fn services_test_macro() {
    let uuid = expand("0072");
    assert_eq!(uuid, expand("0072"));
}

#[test]
fn expand_substitutes_the_code_into_the_template() {
    assert_eq!(expand("0072"), 0xb5f90072_aa8d_11e3_9046_0002a5d5c51b);
    assert_eq!(expand("0000"), 0xb5f90000_aa8d_11e3_9046_0002a5d5c51b);
    assert_eq!(expand("FEA6"), 0xb5f9fea6_aa8d_11e3_9046_0002a5d5c51b);
    assert_eq!(expand("fea6"), expand("FEA6"));
    assert_eq!(
        expand("abcd") - expand("0000"),
        0xabcd_u128 << 96,
    );
}

#[test]
fn characteristic_identifiers() {
    type C = GoProControlAndQueryCharacteristics;
    assert_eq!(C::Command.to_uuid(), 0xb5f90072_aa8d_11e3_9046_0002a5d5c51b);
    assert_eq!(C::CommandResponse.to_uuid(), 0xb5f90073_aa8d_11e3_9046_0002a5d5c51b);
    assert_eq!(C::Settings.to_uuid(), 0xb5f90074_aa8d_11e3_9046_0002a5d5c51b);
    assert_eq!(C::SettingsResponse.to_uuid(), 0xb5f90075_aa8d_11e3_9046_0002a5d5c51b);
    assert_eq!(C::Query.to_uuid(), 0xb5f90076_aa8d_11e3_9046_0002a5d5c51b);
    assert_eq!(C::QueryResponse.to_uuid(), 0xb5f90077_aa8d_11e3_9046_0002a5d5c51b);
    assert_eq!(GoProServices::GoProWiFiAp.to_uuid(), 0xb5f90001_aa8d_11e3_9046_0002a5d5c51b);
    assert_eq!(
        GoProServices::GoProCamManagement.to_uuid(),
        0xb5f90090_aa8d_11e3_9046_0002a5d5c51b
    );
    assert_eq!(GoProServices::ControlAndQuery.to_uuid(), 0xb5f9fea6_aa8d_11e3_9046_0002a5d5c51b);
    assert_eq!(
        GoProWifiApCharacteristics::SSID.to_uuid(),
        0xb5f90002_aa8d_11e3_9046_0002a5d5c51b
    );
    assert_eq!(
        GoProWifiApCharacteristics::State.to_uuid(),
        0xb5f90005_aa8d_11e3_9046_0002a5d5c51b
    );
    assert_eq!(
        GoProManagementCharacteristics::NetworkManagementResponse.to_uuid(),
        0xb5f90092_aa8d_11e3_9046_0002a5d5c51b
    );
}

#[test]
fn command_frames_and_acks() {
    assert_eq!(GoProCommand::ShutterStart.as_bytes(), &[0x03, 0x01, 0x01, 0x01]);
    assert_eq!(GoProCommand::ShutterStart.response_value_bytes(), &[0x02, 0x01, 0x00]);
    assert_eq!(GoProCommand::ShutterStop.as_bytes(), &[0x03, 0x01, 0x01, 0x00]);
    assert_eq!(GoProCommand::Sleep.as_bytes(), &[0x01, 0x05]);
    assert_eq!(GoProCommand::Sleep.response_value_bytes(), &[0x02, 0x05, 0x00]);
    assert_eq!(GoProCommand::AddHilightDuringEncoding.as_bytes(), &[0x01, 0x18]);
    assert_eq!(GoProCommand::ApOn.as_bytes(), &[0x03, 0x17, 0x01, 0x01]);
    assert_eq!(GoProCommand::ApOff.response_value_bytes(), &[0x02, 0x17, 0x00]);
    assert_eq!(GoProCommand::PhotoMode.as_bytes(), &[0x04, 0x3E, 0x02, 0x03, 0xE9]);
    assert_eq!(GoProCommand::TimelapseMode.response_value_bytes(), &[0x02, 0x3E, 0x00]);
}

#[test]
fn setting_frames_and_acks() {
    let s = GoProSetting::Resolution(Hero11Resolution::Res5_3K);
    assert_eq!(s.as_bytes(), &[0x03, 0x02, 0x01, 0x64]);
    assert_eq!(s.response_value_bytes(), &[0x02, 0x02, 0x00]);
    let s = GoProSetting::VideoDigitalLense(Hero11VideoDigitalLense::LinearHorizonLock);
    assert_eq!(s.as_bytes(), &[0x03, 0x79, 0x01, 0x0A]);
    let s = GoProSetting::HorizonLeveling(Hero11HorizonLeveling::PhotoLocked);
    assert_eq!(s.as_bytes(), &[0x03, 0x97, 0x01, 0x02]);
    assert_eq!(s.response_value_bytes(), &[0x02, 0x97, 0x00]);
    let s = GoProSetting::HorizonLeveling(Hero11HorizonLeveling::VideoLocked);
    assert_eq!(s.response_value_bytes(), &[0x02, 0x02, 0x00]);
    let s = GoProSetting::Speed(Hero11Speed::SuperSlowMo4x2_7K50Hz);
    assert_eq!(s.as_bytes(), &[0x03, 0xB0, 0x01, 0x1B]);
    let s = GoProSetting::NightPhoto(Hero11NightPhoto::On);
    assert_eq!(s.as_bytes(), &[0x03, 0xB1, 0x01, 0x01]);
    assert_eq!(s.response_value_bytes(), &[0x02, 0xB1, 0x00]);
    let s = GoProSetting::VideoMode(Hero11VideoMode::LongestBatteryGreenIcon);
    assert_eq!(s.as_bytes(), &[0x03, 0xB4, 0x01, 0x66]);
    assert_eq!(s.response_value_bytes(), &[0x02, 0xB4, 0x00]);
    let s = GoProSetting::AntiFlicker(AntiFlicker::FiftyHertz);
    assert_eq!(s.as_bytes(), &[0x03, 0x86, 0x01, 0x03]);
}

#[test]
fn peripheral_names() {
    assert_eq!(peripheral_name(Some("GoPro 1234".to_string())), "GoPro 1234");
    assert_eq!(peripheral_name(None), "Unknown");
    assert!(is_wanted_peripheral(Some("GoPro 1234".to_string()), &"GoPro 1234".to_string()));
    assert!(!is_wanted_peripheral(Some("GoPro 1234".to_string()), &"GoPro 9".to_string()));
    assert!(is_wanted_peripheral(None, &"Unknown".to_string()));
}
