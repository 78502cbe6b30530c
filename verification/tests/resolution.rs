use apple_dev_tools_wrapper::target::{AppleDeviceTarget, AppleTarget};

const ACCEPTED: [&str; 7] = [
    "macosx",
    "iphoneos",
    "iphonesimulator",
    "appletvos",
    "appletvsimulator",
    "watchos",
    "watchsimulator",
];

#[test]
fn roundtrip_all_accepted_names() {
    for name in ACCEPTED {
        let target = AppleTarget::try_from(name).expect("accepted name must resolve");
        assert_eq!(target.to_string(), name);
        assert_eq!(AppleTarget::try_from(target.to_string().as_str()), Ok(target));
    }
}

#[test]
fn resolution_yields_expected_targets() {
    assert_eq!(
        AppleTarget::try_from("macosx"),
        Ok(AppleTarget::Device(AppleDeviceTarget::MacOS))
    );
    assert_eq!(
        AppleTarget::try_from("iphoneos"),
        Ok(AppleTarget::Device(AppleDeviceTarget::IPhoneOS))
    );
    assert_eq!(
        AppleTarget::try_from("iphonesimulator"),
        Ok(AppleTarget::Simulator(AppleDeviceTarget::IPhoneOS))
    );
    assert_eq!(
        AppleTarget::try_from("appletvos"),
        Ok(AppleTarget::Device(AppleDeviceTarget::TvOS))
    );
    assert_eq!(
        AppleTarget::try_from("appletvsimulator"),
        Ok(AppleTarget::Simulator(AppleDeviceTarget::TvOS))
    );
    assert_eq!(
        AppleTarget::try_from("watchos"),
        Ok(AppleTarget::Device(AppleDeviceTarget::WatchOS))
    );
    assert_eq!(
        AppleTarget::try_from("watchsimulator"),
        Ok(AppleTarget::Simulator(AppleDeviceTarget::WatchOS))
    );
}

#[test]
fn resolution_fails_outside_vocabulary() {
    for name in [
        "",
        "macos",
        "Macosx",
        "IPHONEOS",
        "iphoneos ",
        " iphoneos",
        "iphonesimulator2",
        "macosxsimulator",
        "watch",
        "--sdk",
    ] {
        assert_eq!(AppleTarget::try_from(name), Err(()));
    }
}

#[test]
fn device_family_resolution() {
    assert_eq!(
        AppleDeviceTarget::try_from("macosx"),
        Ok(AppleDeviceTarget::MacOS)
    );
    assert_eq!(
        AppleDeviceTarget::try_from("iphoneos"),
        Ok(AppleDeviceTarget::IPhoneOS)
    );
    assert_eq!(
        AppleDeviceTarget::try_from("appletvos"),
        Ok(AppleDeviceTarget::TvOS)
    );
    assert_eq!(
        AppleDeviceTarget::try_from("watchos"),
        Ok(AppleDeviceTarget::WatchOS)
    );
    assert_eq!(AppleDeviceTarget::try_from("iphonesimulator"), Err(()));
    for family in [
        AppleDeviceTarget::MacOS,
        AppleDeviceTarget::IPhoneOS,
        AppleDeviceTarget::TvOS,
        AppleDeviceTarget::WatchOS,
    ] {
        assert_eq!(
            AppleDeviceTarget::try_from(family.to_string().as_str()),
            Ok(family)
        );
    }
}

#[test]
fn macos_simulator_name_is_defined() {
    let target = AppleTarget::Simulator(AppleDeviceTarget::MacOS);
    assert_eq!(target.to_string(), "macosxsimulator");
    assert_eq!(AppleTarget::try_from("macosxsimulator"), Err(()));
}

#[test]
fn sdk_root_environment_keys() {
    assert_eq!(
        AppleTarget::Device(AppleDeviceTarget::MacOS).sdk_root_environment_key(),
        "MACOSX_SDKROOT"
    );
    assert_eq!(
        AppleTarget::Device(AppleDeviceTarget::IPhoneOS).sdk_root_environment_key(),
        "IPHONEOS_SDKROOT"
    );
    assert_eq!(
        AppleTarget::Simulator(AppleDeviceTarget::IPhoneOS).sdk_root_environment_key(),
        "IPHONESIMULATOR_SDKROOT"
    );
    assert_eq!(
        AppleTarget::Device(AppleDeviceTarget::TvOS).sdk_root_environment_key(),
        "APPLETVOS_SDKROOT"
    );
    assert_eq!(
        AppleTarget::Simulator(AppleDeviceTarget::TvOS).sdk_root_environment_key(),
        "APPLETVSIMULATOR_SDKROOT"
    );
    assert_eq!(
        AppleTarget::Device(AppleDeviceTarget::WatchOS).sdk_root_environment_key(),
        "WATCHOS_SDKROOT"
    );
    assert_eq!(
        AppleTarget::Simulator(AppleDeviceTarget::WatchOS).sdk_root_environment_key(),
        "WATCHSIMULATOR_SDKROOT"
    );
}
