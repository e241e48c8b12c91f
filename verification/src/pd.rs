//! The PD role-control commands.
//!
//! Port state, the port count and charge-port selection live in
//! [`crate::usbpd`]. What is here is the role-control side of the protocol,
//! which the FW16's EC does not implement; the declarations are kept because
//! they are what the protocol specifies and another board or a later firmware
//! may back them.
use vstd::prelude::*;

use crate::command::{CrosEcCommandV2, EcCommand, EcReply, answered, call};
use crate::ec_cmd::EcCmd;
use crate::error::EcError;

verus! {

/// The role to put a port into (`enum usb_pd_control_role`).
#[derive(Clone, Copy, Debug, PartialEq, Eq, Structural)]
pub enum RoleRequest {
    /// Leave the role alone. Used to probe whether the command exists at all.
    NoChange,
    /// Resume normal dual-role toggling. This is the resting state.
    Auto,
    /// Stop dual-role toggling, staying in whatever role the port holds.
    ToggleOff,
    /// Pin the port as a sink: it draws power, never supplies it.
    ForceSink,
    /// Pin the port as a source: it supplies power from the battery.
    ForceSource,
    /// Freeze the port's state machine where it is.
    Freeze,
}

/// The wire value of a role request.
pub open spec fn role_raw(r: RoleRequest) -> u8 {
    match r {
        RoleRequest::NoChange => 0,
        RoleRequest::Auto => 1,
        RoleRequest::ToggleOff => 2,
        RoleRequest::ForceSink => 3,
        RoleRequest::ForceSource => 4,
        RoleRequest::Freeze => 5,
    }
}

pub open spec fn role_name(r: RoleRequest) -> Seq<char> {
    match r {
        RoleRequest::NoChange => "no-change"@,
        RoleRequest::Auto => "auto"@,
        RoleRequest::ToggleOff => "toggle-off"@,
        RoleRequest::ForceSink => "sink"@,
        RoleRequest::ForceSource => "source"@,
        RoleRequest::Freeze => "freeze"@,
    }
}

impl RoleRequest {
    /// The wire value for this role.
    pub fn as_raw(self) -> (r: u8)
        ensures
            r == role_raw(self),
            self is NoChange ==> r == 0,
            self is Auto ==> r == 1,
            self is ToggleOff ==> r == 2,
            self is ForceSink ==> r == 3,
            self is ForceSource ==> r == 4,
            self is Freeze ==> r == 5,
    {
        match self {
            RoleRequest::NoChange => 0,
            RoleRequest::Auto => 1,
            RoleRequest::ToggleOff => 2,
            RoleRequest::ForceSink => 3,
            RoleRequest::ForceSource => 4,
            RoleRequest::Freeze => 5,
        }
    }

    /// Whether applying this role can take away power the system is drawing.
    ///
    /// Forcing sink, or leaving the role alone, never does.
    pub fn can_drop_input(self) -> (r: bool)
        ensures
            r == !(self == RoleRequest::NoChange || self == RoleRequest::ForceSink),
    {
        match self {
            RoleRequest::NoChange | RoleRequest::ForceSink => false,
            _ => true,
        }
    }

    /// The role's display name.
    pub fn name(self) -> (r: &'static str)
        ensures
            r@ == role_name(self),
    {
        proof {
            reveal_strlit("no-change");
            reveal_strlit("auto");
            reveal_strlit("toggle-off");
            reveal_strlit("sink");
            reveal_strlit("source");
            reveal_strlit("freeze");
        }
        match self {
            RoleRequest::NoChange => "no-change",
            RoleRequest::Auto => "auto",
            RoleRequest::ToggleOff => "toggle-off",
            RoleRequest::ForceSink => "sink",
            RoleRequest::ForceSource => "source",
            RoleRequest::Freeze => "freeze",
        }
    }
}

/// `USB_PD_CTRL_MUX_NO_CHANGE` — the mux is never touched.
pub const MUX_NO_CHANGE: u8 = 0;

/// `USB_PD_CTRL_SWAP_NONE` — no swap is ever requested.
pub const SWAP_NONE: u8 = 0;

/// `struct ec_params_usb_pd_control`.
#[derive(Clone, Copy, Debug, PartialEq, Eq, Structural)]
pub struct EcParamsUsbPdControl {
    pub port: u8,
    pub role: u8,
    pub mux: u8,
    pub swap: u8,
}

/// Version 0 of `struct ec_response_usb_pd_control`.
#[derive(Clone, Copy, Debug, PartialEq, Eq, Structural)]
pub struct EcResponseUsbPdControl {
    /// Non-zero if PD is enabled on the port.
    pub enabled: u8,
    /// `enum pd_power_role` as the port now holds it.
    pub role: u8,
    /// CC polarity.
    pub polarity: u8,
    /// PD state-machine index.
    pub state: u8,
}

/// Set USB type-C port role and muxes (`EC_CMD_USB_PD_CONTROL`, v0).
pub struct UsbPdControl;

impl EcCommand for UsbPdControl {
    type Request = EcParamsUsbPdControl;

    type Response = EcResponseUsbPdControl;

    open spec fn spec_cmd() -> EcCmd {
        EcCmd::UsbPdControl
    }

    open spec fn spec_version() -> u32 {
        0
    }

    open spec fn request_len() -> nat {
        4
    }

    open spec fn response_len() -> nat {
        4
    }

    open spec fn spec_encode(req: EcParamsUsbPdControl) -> Seq<u8> {
        seq![req.port, req.role, req.mux, req.swap]
    }

    open spec fn spec_decode(bytes: Seq<u8>) -> EcResponseUsbPdControl {
        EcResponseUsbPdControl { enabled: bytes[0], role: bytes[1], polarity: bytes[2], state: bytes[3] }
    }

    fn cmd() -> (c: EcCmd) {
        EcCmd::UsbPdControl
    }

    fn version() -> (v: u32) {
        0
    }

    fn request_size() -> (n: usize) {
        4
    }

    fn response_size() -> (n: usize) {
        4
    }

    fn encode(req: &EcParamsUsbPdControl) -> (b: Vec<u8>) {
        let mut b = Vec::new();
        b.push(req.port);
        b.push(req.role);
        b.push(req.mux);
        b.push(req.swap);
        assert(b@ =~= seq![req.port, req.role, req.mux, req.swap]);
        b
    }

    fn decode(bytes: &[u8]) -> (r: EcResponseUsbPdControl) {
        EcResponseUsbPdControl { enabled: bytes[0], role: bytes[1], polarity: bytes[2], state: bytes[3] }
    }
}

/// The request `set_role` sends: the port, the role's wire value, mux and
/// swap left alone.
pub open spec fn set_role_params(port: u8, role: RoleRequest) -> EcParamsUsbPdControl {
    EcParamsUsbPdControl { port, role: role_raw(role), mux: MUX_NO_CHANGE, swap: SWAP_NONE }
}

/// The role byte of a role-control request is the protocol's
/// `enum usb_pd_control_role` value for the role asked for: no change 0,
/// auto 1, toggle off 2, force sink 3, force source 4, freeze 5; the port is
/// the one asked for and the mux and swap are left alone.
pub proof fn lemma_role_control_wire_values(port: u8, role: RoleRequest)
    ensures
        set_role_params(port, role).port == port,
        set_role_params(port, role).mux == MUX_NO_CHANGE,
        set_role_params(port, role).swap == SWAP_NONE,
        role is NoChange ==> set_role_params(port, role).role == 0,
        role is Auto ==> set_role_params(port, role).role == 1,
        role is ToggleOff ==> set_role_params(port, role).role == 2,
        role is ForceSink ==> set_role_params(port, role).role == 3,
        role is ForceSource ==> set_role_params(port, role).role == 4,
        role is Freeze ==> set_role_params(port, role).role == 5,
{
}

/// Ask the EC to put `port` into `role`, leaving the mux alone.
///
/// # Errors
///
/// Fails if the EC is unreachable or refuses the command. On hardware that
/// does not implement role control — the FW16 included — this is a `Rejected`
/// carrying `EC_RES_INVALID_COMMAND`.
pub fn set_role<F: Fn(&CrosEcCommandV2) -> Result<EcReply, EcError>>(
    xfer: &F,
    port: u8,
    role: RoleRequest,
) -> (r: Result<EcResponseUsbPdControl, EcError>)
    requires
        forall|f: &CrosEcCommandV2| xfer.requires((f,)),
    ensures
        answered::<UsbPdControl, F>(*xfer, set_role_params(port, role), r),
{
    call::<UsbPdControl, F>(
        xfer,
        EcParamsUsbPdControl { port, role: role.as_raw(), mux: MUX_NO_CHANGE, swap: SWAP_NONE },
    )
}

/// `struct ec_params_get_pd_port_caps`.
#[derive(Clone, Copy, Debug, PartialEq, Eq, Structural)]
pub struct EcParamsGetPdPortCaps {
    pub port: u8,
}

/// `struct ec_response_get_pd_port_caps`.
#[derive(Clone, Copy, Debug, PartialEq, Eq, Structural)]
pub struct EcResponseGetPdPortCaps {
    /// `enum ec_pd_power_role_caps`: 0 source, 1 sink, 2 dual.
    pub power_role_cap: u8,
    /// `enum ec_pd_try_power_role_caps`: 0 none, 1 sink, 2 source.
    pub try_power_role_cap: u8,
    /// `enum ec_pd_data_role_caps`: 0 DFP, 1 UFP, 2 dual.
    pub data_role_cap: u8,
    /// `enum ec_pd_port_location`.
    pub port_location: u8,
}

/// Static capabilities of a port (`EC_CMD_GET_PD_PORT_CAPS`).
pub struct GetPdPortCaps;

impl EcCommand for GetPdPortCaps {
    type Request = EcParamsGetPdPortCaps;

    type Response = EcResponseGetPdPortCaps;

    open spec fn spec_cmd() -> EcCmd {
        EcCmd::GetPdPortCaps
    }

    open spec fn spec_version() -> u32 {
        0
    }

    open spec fn request_len() -> nat {
        1
    }

    open spec fn response_len() -> nat {
        4
    }

    open spec fn spec_encode(req: EcParamsGetPdPortCaps) -> Seq<u8> {
        seq![req.port]
    }

    open spec fn spec_decode(bytes: Seq<u8>) -> EcResponseGetPdPortCaps {
        EcResponseGetPdPortCaps {
            power_role_cap: bytes[0],
            try_power_role_cap: bytes[1],
            data_role_cap: bytes[2],
            port_location: bytes[3],
        }
    }

    fn cmd() -> (c: EcCmd) {
        EcCmd::GetPdPortCaps
    }

    fn version() -> (v: u32) {
        0
    }

    fn request_size() -> (n: usize) {
        1
    }

    fn response_size() -> (n: usize) {
        4
    }

    fn encode(req: &EcParamsGetPdPortCaps) -> (b: Vec<u8>) {
        let mut b = Vec::new();
        b.push(req.port);
        assert(b@ =~= seq![req.port]);
        b
    }

    fn decode(bytes: &[u8]) -> (r: EcResponseGetPdPortCaps) {
        EcResponseGetPdPortCaps {
            power_role_cap: bytes[0],
            try_power_role_cap: bytes[1],
            data_role_cap: bytes[2],
            port_location: bytes[3],
        }
    }
}

/// Read one port's static role capabilities.
///
/// # Errors
///
/// Fails if the EC is unreachable or refuses the command. Not implemented on
/// the FW16.
pub fn port_caps<F: Fn(&CrosEcCommandV2) -> Result<EcReply, EcError>>(xfer: &F, port: u8) -> (r:
    Result<EcResponseGetPdPortCaps, EcError>)
    requires
        forall|f: &CrosEcCommandV2| xfer.requires((f,)),
    ensures
        answered::<GetPdPortCaps, F>(*xfer, EcParamsGetPdPortCaps { port }, r),
{
    call::<GetPdPortCaps, F>(xfer, EcParamsGetPdPortCaps { port })
}

/// Name of a raw `enum ec_pd_power_role_caps` byte.
pub open spec fn spec_power_role_cap_name(raw: u8) -> Option<Seq<char>> {
    if raw == 0 {
        Some("source-only"@)
    } else if raw == 1 {
        Some("sink-only"@)
    } else if raw == 2 {
        Some("dual-role"@)
    } else {
        None
    }
}

/// Name of a raw `enum ec_pd_try_power_role_caps` byte.
pub open spec fn spec_try_power_role_cap_name(raw: u8) -> Option<Seq<char>> {
    if raw == 0 {
        Some("none"@)
    } else if raw == 1 {
        Some("try-sink"@)
    } else if raw == 2 {
        Some("try-source"@)
    } else {
        None
    }
}

/// Name of a raw `enum ec_pd_data_role_caps` byte.
pub open spec fn spec_data_role_cap_name(raw: u8) -> Option<Seq<char>> {
    if raw == 0 {
        Some("DFP"@)
    } else if raw == 1 {
        Some("UFP"@)
    } else if raw == 2 {
        Some("dual-role"@)
    } else {
        None
    }
}

/// Name for a raw `enum ec_pd_power_role_caps` byte.
pub fn power_role_cap_name(raw: u8) -> (r: Option<&'static str>)
    ensures
        r is Some <==> spec_power_role_cap_name(raw) is Some,
        r matches Some(s) ==> s@ == spec_power_role_cap_name(raw)->0,
{
    proof {
        reveal_strlit("source-only");
        reveal_strlit("sink-only");
        reveal_strlit("dual-role");
    }
    match raw {
        0 => Some("source-only"),
        1 => Some("sink-only"),
        2 => Some("dual-role"),
        _ => None,
    }
}

/// Name for a raw `enum ec_pd_try_power_role_caps` byte.
pub fn try_power_role_cap_name(raw: u8) -> (r: Option<&'static str>)
    ensures
        r is Some <==> spec_try_power_role_cap_name(raw) is Some,
        r matches Some(s) ==> s@ == spec_try_power_role_cap_name(raw)->0,
{
    proof {
        reveal_strlit("none");
        reveal_strlit("try-sink");
        reveal_strlit("try-source");
    }
    match raw {
        0 => Some("none"),
        1 => Some("try-sink"),
        2 => Some("try-source"),
        _ => None,
    }
}

/// Name for a raw `enum ec_pd_data_role_caps` byte.
pub fn data_role_cap_name(raw: u8) -> (r: Option<&'static str>)
    ensures
        r is Some <==> spec_data_role_cap_name(raw) is Some,
        r matches Some(s) ==> s@ == spec_data_role_cap_name(raw)->0,
{
    proof {
        reveal_strlit("DFP");
        reveal_strlit("UFP");
        reveal_strlit("dual-role");
    }
    match raw {
        0 => Some("DFP"),
        1 => Some("UFP"),
        2 => Some("dual-role"),
        _ => None,
    }
}

/// The PD-related commands `fw-pdctl supported` asks the EC about, in numeric
/// order, each with what it is for.
pub open spec fn spec_pd_commands() -> Seq<(EcCmd, Seq<char>)> {
    seq![
        (EcCmd::UsbChargeSetMode, "set USB port charging mode"@),
        (EcCmd::PdExchangeStatus, "EC/PD MCU status exchange"@),
        (EcCmd::UsbPdControl, "set port power role (source/sink)"@),
        (EcCmd::UsbPdPorts, "number of PD ports"@),
        (EcCmd::UsbPdPowerInfo, "per-port negotiated power"@),
        (EcCmd::ChargePortCount, "number of charge ports"@),
        (EcCmd::PdChargePortOverride, "choose the charging port"@),
        (EcCmd::PdControl, "control the PD chip"@),
        (EcCmd::UsbPdMuxInfo, "USB-C SS mux state"@),
        (EcCmd::PdChipInfo, "PD chip identification"@),
        (EcCmd::GetPdPortCaps, "static per-port role capabilities"@),
        (EcCmd::TypecControl, "AP-controlled type-C device policy"@),
        (EcCmd::TypecStatus, "per-port type-C status"@)
    ]
}

/// The PD-related commands `fw-pdctl supported` asks the EC about, in numeric
/// order, each with what it is for.
pub fn pd_commands() -> (v: Vec<(EcCmd, &'static str)>)
    ensures
        v.len() == spec_pd_commands().len(),
        forall|i: int|
            0 <= i < v.len() ==> (#[trigger] v@[i]).0 == spec_pd_commands()[i].0 && v@[i].1@
                == spec_pd_commands()[i].1,
{
    proof {
        reveal_strlit("set USB port charging mode");
        reveal_strlit("EC/PD MCU status exchange");
        reveal_strlit("set port power role (source/sink)");
        reveal_strlit("number of PD ports");
        reveal_strlit("per-port negotiated power");
        reveal_strlit("number of charge ports");
        reveal_strlit("choose the charging port");
        reveal_strlit("control the PD chip");
        reveal_strlit("USB-C SS mux state");
        reveal_strlit("PD chip identification");
        reveal_strlit("static per-port role capabilities");
        reveal_strlit("AP-controlled type-C device policy");
        reveal_strlit("per-port type-C status");
    }
    let mut v: Vec<(EcCmd, &'static str)> = Vec::new();
    v.push((EcCmd::UsbChargeSetMode, "set USB port charging mode"));
    v.push((EcCmd::PdExchangeStatus, "EC/PD MCU status exchange"));
    v.push((EcCmd::UsbPdControl, "set port power role (source/sink)"));
    v.push((EcCmd::UsbPdPorts, "number of PD ports"));
    v.push((EcCmd::UsbPdPowerInfo, "per-port negotiated power"));
    v.push((EcCmd::ChargePortCount, "number of charge ports"));
    v.push((EcCmd::PdChargePortOverride, "choose the charging port"));
    v.push((EcCmd::PdControl, "control the PD chip"));
    v.push((EcCmd::UsbPdMuxInfo, "USB-C SS mux state"));
    v.push((EcCmd::PdChipInfo, "PD chip identification"));
    v.push((EcCmd::GetPdPortCaps, "static per-port role capabilities"));
    v.push((EcCmd::TypecControl, "AP-controlled type-C device policy"));
    v.push((EcCmd::TypecStatus, "per-port type-C status"));
    v
}

} // verus!
