//! The headset descriptor and the host address that a session starts with.
use crate::options::Options;
use crate::text::{text_or, text_until_nul, until_nul};
use vstd::prelude::*;

verus! {

/// Bit pattern of the refresh rate `60.0` Hz, used when the runtime reports
/// no rate.
pub const FALLBACK_REFRESH_RATE: u32 = 0x4270_0000;

/// Bit pattern of `90.0` Hz, the current refresh rate before the runtime
/// reports one.
pub const DEFAULT_CURRENT_REFRESH_RATE: u32 = 0x42b4_0000;

/// Length of the native buffer that holds the system name.
pub const SYSTEM_NAME_LEN: usize = 256;

/// System properties reported by the native runtime once per session.
/// Refresh rates are single-precision bit patterns, in the runtime's order.
#[derive(Clone, Debug, PartialEq, Eq)]
pub struct ALXRSystemProperties {
    /// NUL-terminated system name.
    pub system_name: Vec<u8>,
    pub current_refresh_rate: u32,
    pub refresh_rates: Vec<u32>,
    pub recommended_eye_width: u32,
    pub recommended_eye_height: u32,
}

impl ALXRSystemProperties {
    /// Properties before the runtime fills them in: an empty name, no
    /// refresh rates and no eye size.
    pub fn new() -> (r: ALXRSystemProperties)
        ensures
            r.system_name@ == Seq::new(SYSTEM_NAME_LEN as nat, |i: int| 0u8),
            r.current_refresh_rate == DEFAULT_CURRENT_REFRESH_RATE,
            r.refresh_rates@.len() == 0,
            r.recommended_eye_width == 0,
            r.recommended_eye_height == 0,
    {
        let system_name = vec![0u8; SYSTEM_NAME_LEN];
        assert(system_name@ =~= Seq::new(SYSTEM_NAME_LEN as nat, |i: int| 0u8));
        ALXRSystemProperties {
            system_name,
            current_refresh_rate: DEFAULT_CURRENT_REFRESH_RATE,
            refresh_rates: Vec::new(),
            recommended_eye_width: 0,
            recommended_eye_height: 0,
        }
    }
}

/// What the headset tells the host in the handshake.
#[derive(Clone, Debug, PartialEq, Eq)]
pub struct HeadsetInfo {
    pub recommended_eye_width: u32,
    pub recommended_eye_height: u32,
    pub available_refresh_rates: Vec<u32>,
    pub preferred_refresh_rate: u32,
    /// The protocol version tag.
    pub reserved: String,
}

/// The preferred refresh rate: the last one reported (the highest, as
/// rates are reported in ascending order), or 60 Hz when none is.
pub open spec fn preferred_rate(rates: Seq<u32>) -> u32 {
    if rates.len() > 0 {
        rates.last()
    } else {
        FALLBACK_REFRESH_RATE
    }
}

/// The display name of the device: the system name, or `UnknownHMD` when
/// it is not UTF-8.
pub open spec fn spec_device_name(system_name: Seq<u8>) -> Seq<char> {
    text_or(until_nul(system_name), "UnknownHMD"@)
}

/// The address that identifies this client to the host: loopback when asked
/// for, else the discovered local address, else the unspecified address.
pub open spec fn spec_host_address(localhost: bool, discovered: Option<Seq<char>>) -> Seq<char> {
    if localhost {
        "127.0.0.1"@
    } else {
        match discovered {
            Some(a) => a,
            None => "0.0.0.0"@,
        }
    }
}

pub fn preferred_refresh_rate(rates: &[u32]) -> (r: u32)
    ensures
        r == preferred_rate(rates@),
        rates@.len() > 0 ==> rates@.contains(r),
{
    proof {
        if rates@.len() > 0 {
            assert(rates@[rates@.len() - 1] == rates@.last());
        }
    }
    if rates.len() > 0 {
        rates[rates.len() - 1]
    } else {
        FALLBACK_REFRESH_RATE
    }
}

pub fn device_name(system_name: &[u8]) -> (r: String)
    ensures
        r@ == spec_device_name(system_name@),
{
    text_until_nul(system_name, "UnknownHMD")
}

pub fn host_address(localhost: bool, discovered: Option<String>) -> (r: String)
    ensures
        r@ == spec_host_address(
            localhost,
            match discovered {
                Some(a) => Some(a@),
                None => None,
            },
        ),
{
    if localhost {
        "127.0.0.1".to_owned()
    } else {
        match discovered {
            Some(a) => a,
            None => "0.0.0.0".to_owned(),
        }
    }
}

/// The descriptor of the headset, from the runtime's properties and the
/// protocol version tag.
pub fn headset_info(props: &ALXRSystemProperties, version: &str) -> (r: HeadsetInfo)
    ensures
        r.recommended_eye_width == props.recommended_eye_width,
        r.recommended_eye_height == props.recommended_eye_height,
        r.available_refresh_rates@ == props.refresh_rates@,
        r.preferred_refresh_rate == preferred_rate(props.refresh_rates@),
        r.reserved@ == version@,
{
    let available_refresh_rates = vstd::slice::slice_to_vec(props.refresh_rates.as_slice());
    let preferred_refresh_rate = preferred_refresh_rate(props.refresh_rates.as_slice());
    HeadsetInfo {
        recommended_eye_width: props.recommended_eye_width,
        recommended_eye_height: props.recommended_eye_height,
        available_refresh_rates,
        preferred_refresh_rate,
        reserved: version.to_owned(),
    }
}

/// Everything a session start needs besides its identity.
#[derive(Clone, Debug, PartialEq, Eq)]
pub struct SessionSetup {
    pub device_name: String,
    pub headset_info: HeadsetInfo,
    /// The address that the session identity is made for.
    pub host_address: String,
}

/// Prepares a session start: the device name, the headset descriptor and
/// the host address. `discovered` is the local address found on the
/// network, if any; it is not used when `options` ask for loopback.
pub fn init_connections(
    props: &ALXRSystemProperties,
    options: &Options,
    discovered: Option<String>,
    version: &str,
) -> (r: SessionSetup)
    ensures
        r.device_name@ == spec_device_name(props.system_name@),
        r.headset_info.recommended_eye_width == props.recommended_eye_width,
        r.headset_info.recommended_eye_height == props.recommended_eye_height,
        r.headset_info.available_refresh_rates@ == props.refresh_rates@,
        r.headset_info.preferred_refresh_rate == preferred_rate(props.refresh_rates@),
        r.headset_info.reserved@ == version@,
        r.host_address@ == spec_host_address(
            options.localhost,
            match discovered {
                Some(a) => Some(a@),
                None => None,
            },
        ),
{
    SessionSetup {
        device_name: device_name(props.system_name.as_slice()),
        headset_info: headset_info(props, version),
        host_address: host_address(options.localhost, discovered),
    }
}

} // verus!
