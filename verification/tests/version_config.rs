//! Version packing, configuration and error messages.

use titan_engine::config::Config;
use titan_engine::error::Error;
use titan_engine::version::{from_vk_version, to_vk_version, Version};

#[test]
fn packs_version_exactly() {
    let v = Version::new(1, 2, 3);
    // major in bits 22..32, minor in bits 12..22, patch in bits 0..12
    assert_eq!(to_vk_version(&v), (1u32 << 22) | (2u32 << 12) | 3);
    assert_eq!(to_vk_version(&Version::new(0, 0, 0)), 0);
}

#[test]
fn unpacks_version_exactly() {
    let packed = (4u32 << 22) | (5u32 << 12) | 67;
    let v = from_vk_version(packed);
    assert_eq!(v, Version::new(4, 5, 67));
}

#[test]
fn version_round_trip() {
    let v = Version::new(1023, 1023, 4095);
    assert_eq!(from_vk_version(to_vk_version(&v)), v);
    let w = Version::new(1, 0, 0);
    assert_eq!(from_vk_version(to_vk_version(&w)), w);
}

#[test]
fn config_holds_application_identity() {
    let config = Config::new("demo", Version::new(0, 1, 0), true);
    assert_eq!(config.app_name(), "demo");
    assert_eq!(*config.app_version(), Version::new(0, 1, 0));
    assert_eq!(config.engine_name(), "titan");
    assert_eq!(*config.engine_version(), Version::default());
    assert!(config.enable_validation());
}

#[test]
fn config_without_validation() {
    let config = Config::new("demo", Version::new(2, 0, 0), false);
    assert!(!config.enable_validation());
}

#[test]
fn error_messages() {
    assert_eq!(
        Error::NoSuitableDevice.message(),
        "no suitable physical devices were found"
    );
    assert_eq!(
        Error::KeyNotFound.message(),
        "resource key not found in its registry"
    );
    assert_eq!(Error::CreationFailed.message(), "native object creation failed");
    assert_eq!(
        Error::RenderFailed.message(),
        "frame submission or presentation failed"
    );
}
