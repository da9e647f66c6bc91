use alxr_common::headset::{
    device_name, headset_info, host_address, init_connections, preferred_refresh_rate,
    ALXRSystemProperties, DEFAULT_CURRENT_REFRESH_RATE, FALLBACK_REFRESH_RATE,
};
use alxr_common::options::{ALXRGraphicsApi, Options};

fn bits(rates: &[f32]) -> Vec<u32> {
    rates.iter().map(|r| r.to_bits()).collect()
}

fn named(name: &[u8]) -> Vec<u8> {
    let mut buf = vec![0u8; 256];
    buf[..name.len()].copy_from_slice(name);
    buf
}

#[test]
fn preferred_rate_is_last_reported() {
    assert_eq!(preferred_refresh_rate(&bits(&[60.0, 72.0, 90.0])), 90f32.to_bits());
}

#[test]
fn preferred_rate_falls_back_to_sixty() {
    assert_eq!(preferred_refresh_rate(&[]), 60f32.to_bits());
    assert_eq!(FALLBACK_REFRESH_RATE, 60f32.to_bits());
}

#[test]
fn new_properties_are_empty() {
    let p = ALXRSystemProperties::new();
    assert_eq!(p.system_name, vec![0u8; 256]);
    assert_eq!(p.current_refresh_rate, 90f32.to_bits());
    assert_eq!(DEFAULT_CURRENT_REFRESH_RATE, 90f32.to_bits());
    assert!(p.refresh_rates.is_empty());
    assert_eq!(p.recommended_eye_width, 0);
    assert_eq!(p.recommended_eye_height, 0);
}

#[test]
fn device_name_stops_at_nul() {
    assert_eq!(device_name(&named(b"Quest 2")), "Quest 2");
    assert_eq!(device_name(b"NoTerminator"), "NoTerminator");
    assert_eq!(device_name(&[]), "");
}

#[test]
fn device_name_that_is_not_text_gets_placeholder() {
    assert_eq!(device_name(&named(&[0xff, 0xfe, 0x41])), "UnknownHMD");
}

#[test]
fn host_address_choice() {
    assert_eq!(host_address(true, Some("10.0.0.5".to_string())), "127.0.0.1");
    assert_eq!(host_address(false, Some("10.0.0.5".to_string())), "10.0.0.5");
    assert_eq!(host_address(false, None), "0.0.0.0");
}

#[test]
fn headset_info_from_properties() {
    let mut p = ALXRSystemProperties::new();
    p.refresh_rates = bits(&[72.0, 90.0, 120.0]);
    p.recommended_eye_width = 1832;
    p.recommended_eye_height = 1920;
    let info = headset_info(&p, "18.2.3");
    assert_eq!(info.recommended_eye_width, 1832);
    assert_eq!(info.recommended_eye_height, 1920);
    assert_eq!(info.available_refresh_rates, p.refresh_rates);
    assert_eq!(info.preferred_refresh_rate, 120f32.to_bits());
    assert_eq!(info.reserved, "18.2.3");
}

#[test]
fn session_setup_collects_name_descriptor_and_address() {
    let mut p = ALXRSystemProperties::new();
    p.system_name = named(b"Pico Neo 3");
    let options = Options { localhost: false, graphics_api: Some(ALXRGraphicsApi::Auto), verbose: false };
    let setup = init_connections(&p, &options, None, "1.0.0");
    assert_eq!(setup.device_name, "Pico Neo 3");
    assert_eq!(setup.headset_info.preferred_refresh_rate, 60f32.to_bits());
    assert_eq!(setup.host_address, "0.0.0.0");
    let local = Options { localhost: true, ..options };
    let setup = init_connections(&p, &local, Some("192.168.1.9".to_string()), "1.0.0");
    assert_eq!(setup.host_address, "127.0.0.1");
}
