//! USB-PD port state and charge-port selection.
//!
//! Fields the EC header declares as a `__packed` enum are carried as a raw `u8`
//! and decoded with a checked `from_raw`, so an EC reporting a value this build
//! does not know about is a printable unknown rather than an invalid enum.
use vstd::prelude::*;

use crate::command::{CrosEcCommandV2, EcCommand, EcReply, answered, call};
use crate::ec_cmd::EcCmd;
use crate::error::EcError;
use crate::wire::{i16_le, le_u16, le_u32, push_i16, read_u16, read_u32};

verus! {

/// Most ports the protocol can describe (`EC_USB_PD_MAX_PORTS`).
pub const EC_USB_PD_MAX_PORTS: u8 = 8;

/// `struct ec_response_charge_port_count`.
#[derive(Clone, Copy, Debug, PartialEq, Eq, Structural)]
pub struct EcResponseChargePortCount {
    /// Number of charge ports + number of dedicated ports present.
    pub port_count: u8,
}

/// Number of USB-PD charge ports plus the number of dedicated ports present.
pub struct ChargePortCount;

impl EcCommand for ChargePortCount {
    type Request = ();

    type Response = EcResponseChargePortCount;

    open spec fn spec_cmd() -> EcCmd {
        EcCmd::ChargePortCount
    }

    open spec fn spec_version() -> u32 {
        0
    }

    open spec fn request_len() -> nat {
        0
    }

    open spec fn response_len() -> nat {
        1
    }

    open spec fn spec_encode(req: ()) -> Seq<u8> {
        Seq::empty()
    }

    open spec fn spec_decode(bytes: Seq<u8>) -> EcResponseChargePortCount {
        EcResponseChargePortCount { port_count: bytes[0] }
    }

    fn cmd() -> (c: EcCmd) {
        EcCmd::ChargePortCount
    }

    fn version() -> (v: u32) {
        0
    }

    fn request_size() -> (n: usize) {
        0
    }

    fn response_size() -> (n: usize) {
        1
    }

    fn encode(req: &()) -> (b: Vec<u8>) {
        Vec::new()
    }

    fn decode(bytes: &[u8]) -> (r: EcResponseChargePortCount) {
        EcResponseChargePortCount { port_count: bytes[0] }
    }
}

/// The reported port count, capped at [`EC_USB_PD_MAX_PORTS`].
pub open spec fn capped_port_count(
    r: Result<EcResponseChargePortCount, EcError>,
) -> Result<u8, EcError> {
    match r {
        Ok(resp) => Ok(
            if resp.port_count < EC_USB_PD_MAX_PORTS {
                resp.port_count
            } else {
                EC_USB_PD_MAX_PORTS
            },
        ),
        Err(e) => Err(e),
    }
}

/// How many ports the EC will answer questions about.
///
/// `EC_CMD_USB_PD_PORTS` is the more obvious command for this, but it is not
/// implemented on the FW16 — it reports 0 — so this uses the charge-port count,
/// which is, capped at [`EC_USB_PD_MAX_PORTS`].
///
/// # Errors
///
/// Fails if the EC is unreachable or refuses the command.
pub fn charge_port_count<F: Fn(&CrosEcCommandV2) -> Result<EcReply, EcError>>(xfer: &F) -> (r:
    Result<u8, EcError>)
    requires
        forall|f: &CrosEcCommandV2| xfer.requires((f,)),
    ensures
        exists|o: Result<EcResponseChargePortCount, EcError>|
            answered::<ChargePortCount, F>(*xfer, (), o) && r == capped_port_count(o),
{
    let o = call::<ChargePortCount, F>(xfer, ());
    let ghost seen = o;
    let r = match o {
        Ok(resp) => Ok(
            if resp.port_count < EC_USB_PD_MAX_PORTS {
                resp.port_count
            } else {
                EC_USB_PD_MAX_PORTS
            },
        ),
        Err(e) => Err(e),
    };
    assert(answered::<ChargePortCount, F>(*xfer, (), seen) && r == capped_port_count(seen));
    r
}

/// Which way power is flowing on a port (`enum usb_power_roles`).
#[derive(Clone, Copy, Debug, PartialEq, Eq, Structural)]
pub enum PowerRole {
    /// Nothing attached.
    Disconnected,
    /// The port is supplying power.
    Source,
    /// The port is drawing power, and charging the system.
    Sink,
    /// The port is drawing power but not charging.
    SinkNotCharging,
}

/// The role a raw `enum usb_power_roles` byte stands for.
pub open spec fn spec_power_role(raw: u8) -> Option<PowerRole> {
    if raw == 0 {
        Some(PowerRole::Disconnected)
    } else if raw == 1 {
        Some(PowerRole::Source)
    } else if raw == 2 {
        Some(PowerRole::Sink)
    } else if raw == 3 {
        Some(PowerRole::SinkNotCharging)
    } else {
        None
    }
}

pub open spec fn power_role_name(r: PowerRole) -> Seq<char> {
    match r {
        PowerRole::Disconnected => "Disconnected"@,
        PowerRole::Source => "Source"@,
        PowerRole::Sink => "Sink"@,
        PowerRole::SinkNotCharging => "SinkNotCharging"@,
    }
}

impl PowerRole {
    /// The role for a raw `enum usb_power_roles` byte, if it is one we know.
    pub fn from_raw(raw: u8) -> (r: Option<PowerRole>)
        ensures
            r == spec_power_role(raw),
            r == Some(PowerRole::Disconnected) <==> raw == 0,
            r == Some(PowerRole::Source) <==> raw == 1,
            r == Some(PowerRole::Sink) <==> raw == 2,
            r == Some(PowerRole::SinkNotCharging) <==> raw == 3,
            r is None <==> raw > 3,
    {
        match raw {
            0 => Some(PowerRole::Disconnected),
            1 => Some(PowerRole::Source),
            2 => Some(PowerRole::Sink),
            3 => Some(PowerRole::SinkNotCharging),
            _ => None,
        }
    }

    /// Whether power is coming into the system through this port.
    ///
    /// Both sink roles count: `SinkNotCharging` still means the port is the
    /// one holding the machine up.
    pub fn is_drawing_power(self) -> (r: bool)
        ensures
            r == (self == PowerRole::Sink || self == PowerRole::SinkNotCharging),
    {
        match self {
            PowerRole::Sink | PowerRole::SinkNotCharging => true,
            _ => false,
        }
    }

    /// The role's display name.
    pub fn name(self) -> (r: &'static str)
        ensures
            r@ == power_role_name(self),
    {
        proof {
            reveal_strlit("Disconnected");
            reveal_strlit("Source");
            reveal_strlit("Sink");
            reveal_strlit("SinkNotCharging");
        }
        match self {
            PowerRole::Disconnected => "Disconnected",
            PowerRole::Source => "Source",
            PowerRole::Sink => "Sink",
            PowerRole::SinkNotCharging => "SinkNotCharging",
        }
    }
}

/// What kind of charger is attached (`enum usb_chg_type`).
#[derive(Clone, Copy, Debug, PartialEq, Eq, Structural)]
pub enum ChargeType {
    /// No charger (`USB_CHG_TYPE_NONE`).
    NoCharger,
    Pd,
    TypeC,
    Proprietary,
    Bc12Dcp,
    Bc12Cdp,
    Bc12Sdp,
    Other,
    Vbus,
    Unknown,
    Dedicated,
}

/// The charger type a raw `enum usb_chg_type` byte stands for.
pub open spec fn spec_charge_type(raw: u8) -> Option<ChargeType> {
    if raw == 0 {
        Some(ChargeType::NoCharger)
    } else if raw == 1 {
        Some(ChargeType::Pd)
    } else if raw == 2 {
        Some(ChargeType::TypeC)
    } else if raw == 3 {
        Some(ChargeType::Proprietary)
    } else if raw == 4 {
        Some(ChargeType::Bc12Dcp)
    } else if raw == 5 {
        Some(ChargeType::Bc12Cdp)
    } else if raw == 6 {
        Some(ChargeType::Bc12Sdp)
    } else if raw == 7 {
        Some(ChargeType::Other)
    } else if raw == 8 {
        Some(ChargeType::Vbus)
    } else if raw == 9 {
        Some(ChargeType::Unknown)
    } else if raw == 10 {
        Some(ChargeType::Dedicated)
    } else {
        None
    }
}

pub open spec fn charge_type_name(t: ChargeType) -> Seq<char> {
    match t {
        ChargeType::NoCharger => "None"@,
        ChargeType::Pd => "PD"@,
        ChargeType::TypeC => "Type-C"@,
        ChargeType::Proprietary => "Proprietary"@,
        ChargeType::Bc12Dcp => "BC 1.2 DCP"@,
        ChargeType::Bc12Cdp => "BC 1.2 CDP"@,
        ChargeType::Bc12Sdp => "BC 1.2 SDP"@,
        ChargeType::Other => "Other"@,
        ChargeType::Vbus => "VBUS"@,
        ChargeType::Unknown => "Unknown"@,
        ChargeType::Dedicated => "Dedicated"@,
    }
}

impl ChargeType {
    /// The type for a raw `enum usb_chg_type` byte, if it is one we know.
    pub fn from_raw(raw: u8) -> (r: Option<ChargeType>)
        ensures
            r == spec_charge_type(raw),
            r == Some(ChargeType::NoCharger) <==> raw == 0,
            r == Some(ChargeType::Pd) <==> raw == 1,
            r == Some(ChargeType::TypeC) <==> raw == 2,
            r == Some(ChargeType::Proprietary) <==> raw == 3,
            r == Some(ChargeType::Bc12Dcp) <==> raw == 4,
            r == Some(ChargeType::Bc12Cdp) <==> raw == 5,
            r == Some(ChargeType::Bc12Sdp) <==> raw == 6,
            r == Some(ChargeType::Other) <==> raw == 7,
            r == Some(ChargeType::Vbus) <==> raw == 8,
            r == Some(ChargeType::Unknown) <==> raw == 9,
            r == Some(ChargeType::Dedicated) <==> raw == 10,
            r is None <==> raw > 10,
    {
        match raw {
            0 => Some(ChargeType::NoCharger),
            1 => Some(ChargeType::Pd),
            2 => Some(ChargeType::TypeC),
            3 => Some(ChargeType::Proprietary),
            4 => Some(ChargeType::Bc12Dcp),
            5 => Some(ChargeType::Bc12Cdp),
            6 => Some(ChargeType::Bc12Sdp),
            7 => Some(ChargeType::Other),
            8 => Some(ChargeType::Vbus),
            9 => Some(ChargeType::Unknown),
            10 => Some(ChargeType::Dedicated),
            _ => None,
        }
    }

    /// The charger type's display name.
    pub fn name(self) -> (r: &'static str)
        ensures
            r@ == charge_type_name(self),
    {
        proof {
            reveal_strlit("None");
            reveal_strlit("PD");
            reveal_strlit("Type-C");
            reveal_strlit("Proprietary");
            reveal_strlit("BC 1.2 DCP");
            reveal_strlit("BC 1.2 CDP");
            reveal_strlit("BC 1.2 SDP");
            reveal_strlit("Other");
            reveal_strlit("VBUS");
            reveal_strlit("Unknown");
            reveal_strlit("Dedicated");
        }
        match self {
            ChargeType::NoCharger => "None",
            ChargeType::Pd => "PD",
            ChargeType::TypeC => "Type-C",
            ChargeType::Proprietary => "Proprietary",
            ChargeType::Bc12Dcp => "BC 1.2 DCP",
            ChargeType::Bc12Cdp => "BC 1.2 CDP",
            ChargeType::Bc12Sdp => "BC 1.2 SDP",
            ChargeType::Other => "Other",
            ChargeType::Vbus => "VBUS",
            ChargeType::Unknown => "Unknown",
            ChargeType::Dedicated => "Dedicated",
        }
    }
}

/// `struct ec_params_usb_pd_power_info`.
#[derive(Clone, Copy, Debug, PartialEq, Eq, Structural)]
pub struct EcParamsUsbPdPowerInfo {
    /// USB-C port number.
    pub port: u8,
}

/// `struct ec_response_usb_pd_power_info`, with the nested `usb_chg_measures`
/// flattened into it. 16 bytes on the wire.
#[derive(Clone, Copy, Debug, PartialEq, Eq, Structural)]
pub struct EcResponseUsbPdPowerInfo {
    /// `enum usb_power_roles`; decode with [`PowerRole::from_raw`].
    pub role: u8,
    /// `enum usb_chg_type`; decode with [`ChargeType::from_raw`].
    pub charge_type: u8,
    /// Non-zero if the attached partner is dual-role capable.
    pub dualrole: u8,
    pub reserved1: u8,
    /// Maximum voltage advertised (mV).
    pub voltage_max: u16,
    /// Present voltage (mV).
    pub voltage_now: u16,
    /// Maximum current advertised (mA).
    pub current_max: u16,
    /// Negotiated current limit (mA) — the lesser of the sink's request and
    /// the source's maximum; not an instantaneous draw.
    pub current_lim: u16,
    /// Maximum power (microwatts).
    pub max_power: u32,
}

/// The power-info response laid out in 16 little-endian bytes.
pub open spec fn spec_decode_power_info(b: Seq<u8>) -> EcResponseUsbPdPowerInfo {
    EcResponseUsbPdPowerInfo {
        role: b[0],
        charge_type: b[1],
        dualrole: b[2],
        reserved1: b[3],
        voltage_max: le_u16(b, 4),
        voltage_now: le_u16(b, 6),
        current_max: le_u16(b, 8),
        current_lim: le_u16(b, 10),
        max_power: le_u32(b, 12),
    }
}

impl EcResponseUsbPdPowerInfo {
    /// The decoded power role, if the EC reported one we know.
    pub fn power_role(&self) -> (r: Option<PowerRole>)
        ensures
            r == spec_power_role(self.role),
    {
        PowerRole::from_raw(self.role)
    }

    /// The decoded charger type, if the EC reported one we know.
    pub fn charger_type(&self) -> (r: Option<ChargeType>)
        ensures
            r == spec_charge_type(self.charge_type),
    {
        ChargeType::from_raw(self.charge_type)
    }

    /// Whether this port is the one the EC selected to charge the system.
    ///
    /// Deliberately narrower than [`PowerRole::is_drawing_power`]: exactly one
    /// port reports [`Sink`](PowerRole::Sink) once the EC has chosen where to
    /// draw from, and any other port with a charger attached reports
    /// [`SinkNotCharging`](PowerRole::SinkNotCharging).
    pub fn is_active_charger(&self) -> (r: bool)
        ensures
            r == (spec_power_role(self.role) == Some(PowerRole::Sink)),
            r == (self.role == 2),
    {
        match self.power_role() {
            Some(PowerRole::Sink) => true,
            _ => false,
        }
    }
}

/// Get power information about a USB-PD port.
pub struct UsbPdPowerInfo;

impl EcCommand for UsbPdPowerInfo {
    type Request = EcParamsUsbPdPowerInfo;

    type Response = EcResponseUsbPdPowerInfo;

    open spec fn spec_cmd() -> EcCmd {
        EcCmd::UsbPdPowerInfo
    }

    open spec fn spec_version() -> u32 {
        0
    }

    open spec fn request_len() -> nat {
        1
    }

    open spec fn response_len() -> nat {
        16
    }

    open spec fn spec_encode(req: EcParamsUsbPdPowerInfo) -> Seq<u8> {
        seq![req.port]
    }

    open spec fn spec_decode(bytes: Seq<u8>) -> EcResponseUsbPdPowerInfo {
        spec_decode_power_info(bytes)
    }

    fn cmd() -> (c: EcCmd) {
        EcCmd::UsbPdPowerInfo
    }

    fn version() -> (v: u32) {
        0
    }

    fn request_size() -> (n: usize) {
        1
    }

    fn response_size() -> (n: usize) {
        16
    }

    fn encode(req: &EcParamsUsbPdPowerInfo) -> (b: Vec<u8>) {
        let mut b = Vec::new();
        b.push(req.port);
        assert(b@ =~= seq![req.port]);
        b
    }

    fn decode(bytes: &[u8]) -> (r: EcResponseUsbPdPowerInfo) {
        EcResponseUsbPdPowerInfo {
            role: bytes[0],
            charge_type: bytes[1],
            dualrole: bytes[2],
            reserved1: bytes[3],
            voltage_max: read_u16(bytes, 4),
            voltage_now: read_u16(bytes, 6),
            current_max: read_u16(bytes, 8),
            current_lim: read_u16(bytes, 10),
            max_power: read_u32(bytes, 12),
        }
    }
}

/// Read one port's negotiated power state.
///
/// # Errors
///
/// Fails if the EC is unreachable or refuses the command.
pub fn power_info<F: Fn(&CrosEcCommandV2) -> Result<EcReply, EcError>>(xfer: &F, port: u8) -> (r:
    Result<EcResponseUsbPdPowerInfo, EcError>)
    requires
        forall|f: &CrosEcCommandV2| xfer.requires((f,)),
    ensures
        answered::<UsbPdPowerInfo, F>(*xfer, EcParamsUsbPdPowerInfo { port }, r),
{
    call::<UsbPdPowerInfo, F>(xfer, EcParamsUsbPdPowerInfo { port })
}

/// `enum usb_pd_override_ports`: refuse to charge from any port.
pub const OVERRIDE_DONT_CHARGE: i16 = -2;

/// `enum usb_pd_override_ports`: hand port selection back to the EC.
pub const OVERRIDE_OFF: i16 = -1;

/// `struct ec_params_charge_port_override`.
#[derive(Clone, Copy, Debug, PartialEq, Eq, Structural)]
pub struct EcParamsChargePortOverride {
    /// A port index, [`OVERRIDE_OFF`], or [`OVERRIDE_DONT_CHARGE`].
    pub override_port: i16,
}

/// Override the EC's default charge-port selection.
pub struct PdChargePortOverride;

impl EcCommand for PdChargePortOverride {
    type Request = EcParamsChargePortOverride;

    type Response = ();

    open spec fn spec_cmd() -> EcCmd {
        EcCmd::PdChargePortOverride
    }

    open spec fn spec_version() -> u32 {
        0
    }

    open spec fn request_len() -> nat {
        2
    }

    open spec fn response_len() -> nat {
        0
    }

    open spec fn spec_encode(req: EcParamsChargePortOverride) -> Seq<u8> {
        i16_le(req.override_port)
    }

    open spec fn spec_decode(bytes: Seq<u8>) -> () {
        ()
    }

    fn cmd() -> (c: EcCmd) {
        EcCmd::PdChargePortOverride
    }

    fn version() -> (v: u32) {
        0
    }

    fn request_size() -> (n: usize) {
        2
    }

    fn response_size() -> (n: usize) {
        0
    }

    fn encode(req: &EcParamsChargePortOverride) -> (b: Vec<u8>) {
        let mut b = Vec::new();
        push_i16(&mut b, req.override_port);
        assert(b@ =~= i16_le(req.override_port));
        b
    }

    fn decode(bytes: &[u8]) -> (r: ()) {
        ()
    }
}

/// Force the system to charge from `override_port`, or pass one of the
/// sentinels [`OVERRIDE_OFF`] / [`OVERRIDE_DONT_CHARGE`].
///
/// # Errors
///
/// Fails if the EC is unreachable or refuses the command.
pub fn set_charge_override<F: Fn(&CrosEcCommandV2) -> Result<EcReply, EcError>>(
    xfer: &F,
    override_port: i16,
) -> (r: Result<(), EcError>)
    requires
        forall|f: &CrosEcCommandV2| xfer.requires((f,)),
    ensures
        answered::<PdChargePortOverride, F>(
            *xfer,
            EcParamsChargePortOverride { override_port },
            r,
        ),
{
    call::<PdChargePortOverride, F>(xfer, EcParamsChargePortOverride { override_port })
}

/// The port the EC selected to charge from is drawing power; the converse
/// fails for a port that draws power without charging.
pub proof fn lemma_active_charger_draws_power(info: EcResponseUsbPdPowerInfo)
    ensures
        spec_power_role(info.role) == Some(PowerRole::Sink) ==> (spec_power_role(info.role) matches Some(r)
            && (r == PowerRole::Sink || r == PowerRole::SinkNotCharging)),
        info.role == 3 ==> spec_power_role(info.role) != Some(PowerRole::Sink),
{
}

} // verus!
