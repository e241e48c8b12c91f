//! USB-PD state for the charge monitor: port validation, per-port power
//! info, the PD-port and PD-chip commands, and the mux flags.
//!
//! Only the power info and the charge-port count are live on the FW16; the
//! PD-port, mux and chip-info commands are not implemented by its EC.
use vstd::prelude::*;

use crate::command::{CrosEcCommandV2, EcCommand, EcReply, answered, call};
use crate::ec_cmd::EcCmd;
use crate::error::{EcError, ToolError};
use crate::text::{decimal, hex, hex_char, pad_front, push_decimal, push_prefixed_hex, push_str};
use crate::usbpd::{
    ChargePortCount,
    EcParamsUsbPdPowerInfo,
    EcResponseChargePortCount,
    EcResponseUsbPdPowerInfo,
    UsbPdPowerInfo,
    capped_port_count,
    charge_port_count,
    power_info,
};
use crate::wire::{le_u16, le_u64, read_u16, read_u64};
use vstd::string::StringExecFns;

verus! {

/// Number of PD ports present, not counting dedicated ports
/// (`struct ec_response_usb_pd_ports`).
#[derive(Clone, Copy, Debug, PartialEq, Eq, Structural)]
pub struct EcResponseUsbPdPorts {
    pub num_ports: u8,
}

/// Number of PD ports present (`EC_CMD_USB_PD_PORTS`).
///
/// Not implemented on the FW16's EC: it answers 0.
pub struct UsbPdPorts;

impl EcCommand for UsbPdPorts {
    type Request = ();

    type Response = EcResponseUsbPdPorts;

    open spec fn spec_cmd() -> EcCmd {
        EcCmd::UsbPdPorts
    }

    open spec fn spec_version() -> u32 {
        0
    }

    open spec fn request_len() -> nat {
        0
    }

    open spec fn response_len() -> nat {
        1
    }

    open spec fn spec_encode(req: ()) -> Seq<u8> {
        Seq::empty()
    }

    open spec fn spec_decode(bytes: Seq<u8>) -> EcResponseUsbPdPorts {
        EcResponseUsbPdPorts { num_ports: bytes[0] }
    }

    fn cmd() -> (c: EcCmd) {
        EcCmd::UsbPdPorts
    }

    fn version() -> (v: u32) {
        0
    }

    fn request_size() -> (n: usize) {
        0
    }

    fn response_size() -> (n: usize) {
        1
    }

    fn encode(req: &()) -> (b: Vec<u8>) {
        Vec::new()
    }

    fn decode(bytes: &[u8]) -> (r: EcResponseUsbPdPorts) {
        EcResponseUsbPdPorts { num_ports: bytes[0] }
    }
}

/// The port count out of a `USB_PD_PORTS` outcome.
pub open spec fn pd_ports_from(o: Result<EcResponseUsbPdPorts, EcError>) -> Result<u8, EcError> {
    match o {
        Ok(resp) => Ok(resp.num_ports),
        Err(e) => Err(e),
    }
}

/// Get the number of USB-PD ports.
///
/// Not implemented on the FW16's EC, which answers 0; use
/// [`get_charge_port_count`] there.
///
/// # Errors
///
/// Fails if the EC is unreachable or refuses the command.
pub fn get_usb_pd_ports<F: Fn(&CrosEcCommandV2) -> Result<EcReply, EcError>>(xfer: &F) -> (r:
    Result<u8, EcError>)
    requires
        forall|f: &CrosEcCommandV2| xfer.requires((f,)),
    ensures
        exists|o: Result<EcResponseUsbPdPorts, EcError>|
            answered::<UsbPdPorts, F>(*xfer, (), o) && r == pd_ports_from(o),
{
    let o = call::<UsbPdPorts, F>(xfer, ());
    let ghost seen = o;
    let r = match o {
        Ok(resp) => Ok(resp.num_ports),
        Err(e) => Err(e),
    };
    assert(answered::<UsbPdPorts, F>(*xfer, (), seen) && r == pd_ports_from(seen));
    r
}

/// Get the number of charging ports plus dedicated ports present, capped
/// at the protocol's maximum.
///
/// # Errors
///
/// Fails if the EC is unreachable or refuses the command.
pub fn get_charge_port_count<F: Fn(&CrosEcCommandV2) -> Result<EcReply, EcError>>(xfer: &F) -> (r:
    Result<u8, EcError>)
    requires
        forall|f: &CrosEcCommandV2| xfer.requires((f,)),
    ensures
        exists|o: Result<EcResponseChargePortCount, EcError>|
            answered::<ChargePortCount, F>(*xfer, (), o) && r == capped_port_count(o),
{
    charge_port_count(xfer)
}

/// The message for a port index outside `0..num_ports`.
pub open spec fn port_number_message(idx: u8, num_ports: u8) -> Seq<char> {
    "Port number "@ + decimal(idx as nat) + " not within range 0.."@ + decimal(num_ports as nat)
}

/// Check `idx` against the port count the EC reports, so a bad index fails
/// here rather than as an opaque EC rejection.
///
/// # Errors
///
/// A message naming the index and the range when `idx >= num_ports`.
pub fn validate_port(idx: u8, num_ports: u8) -> (r: Result<(), ToolError>)
    ensures
        idx < num_ports <==> r is Ok,
        idx >= num_ports ==> (r matches Err(ToolError::Message(m)) && m@ == port_number_message(
            idx,
            num_ports,
        )),
{
    if idx >= num_ports {
        proof {
            reveal_strlit("Port number ");
            reveal_strlit(" not within range 0..");
        }
        let mut m = String::new();
        push_str(&mut m, "Port number ");
        push_decimal(&mut m, idx as u64);
        push_str(&mut m, " not within range 0..");
        push_decimal(&mut m, num_ports as u64);
        assert(m@ =~= port_number_message(idx, num_ports));
        return Err(ToolError::Message(m));
    }
    Ok(())
}

/// An EC outcome as a tool outcome.
pub open spec fn as_tool<T>(o: Result<T, EcError>) -> Result<T, ToolError> {
    match o {
        Ok(v) => Ok(v),
        Err(e) => Err(ToolError::Ec(e)),
    }
}

/// Read one port's power info, after checking the index against
/// `num_ports`.
///
/// # Errors
///
/// The range message of [`validate_port`] for a bad index, without asking
/// the EC; otherwise the EC's failure.
pub fn get_port_pd_info<F: Fn(&CrosEcCommandV2) -> Result<EcReply, EcError>>(
    xfer: &F,
    num_ports: u8,
    idx: u8,
) -> (r: Result<EcResponseUsbPdPowerInfo, ToolError>)
    requires
        forall|f: &CrosEcCommandV2| xfer.requires((f,)),
    ensures
        idx >= num_ports ==> (r matches Err(ToolError::Message(m)) && m@ == port_number_message(
            idx,
            num_ports,
        )),
        idx < num_ports ==> exists|o: Result<EcResponseUsbPdPowerInfo, EcError>|
            answered::<UsbPdPowerInfo, F>(*xfer, EcParamsUsbPdPowerInfo { port: idx }, o) && r
                == as_tool(o),
{
    match validate_port(idx, num_ports) {
        Err(e) => Err(e),
        Ok(()) => {
            let o = power_info(xfer, idx);
            let ghost seen = o;
            let r = match o {
                Ok(v) => Ok(v),
                Err(e) => Err(ToolError::Ec(e)),
            };
            assert(answered::<UsbPdPowerInfo, F>(*xfer, EcParamsUsbPdPowerInfo { port: idx }, seen)
                && r == as_tool(seen));
            r
        },
    }
}

/// Mux flags of a USB-C port (`USB_PD_MUX_*` bits).
#[derive(Clone, Copy, Debug, PartialEq, Eq, Structural)]
pub struct UsbPdMuxFlags(pub u8);

/// The name of mux flag bit `i`.
pub open spec fn mux_flag_name(i: int) -> Seq<char> {
    if i == 0 {
        "USB_PD_MUX_USB_ENABLED"@
    } else if i == 1 {
        "USB_PD_MUX_DP_ENABLED"@
    } else if i == 2 {
        "USB_PD_MUX_POLARITY_INVERTED"@
    } else if i == 3 {
        "USB_PD_MUX_HPD_IRQ"@
    } else if i == 4 {
        "USB_PD_MUX_HPD_LVL"@
    } else if i == 5 {
        "USB_PD_MUX_SAFE_MODE"@
    } else if i == 6 {
        "USB_PD_MUX_TBT_COMPAT_ENABLED"@
    } else {
        "USB_PD_MUX_USB4_ENABLED"@
    }
}

/// The names of the mux flags set among bits `0..upto`, lowest first; each
/// name but that of bit 0 is preceded by `", "`.
pub open spec fn mux_flags_items(flags: u8, upto: nat) -> Seq<char>
    decreases upto,
{
    if upto == 0 {
        Seq::empty()
    } else {
        let rest = mux_flags_items(flags, (upto - 1) as nat);
        let i = (upto - 1) as nat;
        if (flags >> i) & 1u8 == 1u8 {
            rest + (if i > 0 {
                ", "@
            } else {
                ""@
            }) + mux_flag_name(i as int)
        } else {
            rest
        }
    }
}

/// The mux flags as text: `USB_PD_MUX_NONE` when none is set; otherwise the
/// set flags' names, followed by `, USB_PD_MUX_DOCK` when USB or DP is
/// enabled.
pub open spec fn mux_flags_text(flags: u8) -> Seq<char> {
    if flags == 0 {
        "USB_PD_MUX_NONE"@
    } else if flags & 3u8 != 0 {
        mux_flags_items(flags, 8) + ", USB_PD_MUX_DOCK"@
    } else {
        mux_flags_items(flags, 8)
    }
}

fn mux_flag_str(i: u8) -> (r: &'static str)
    requires
        i < 8,
    ensures
        r@ == mux_flag_name(i as int),
{
    proof {
        reveal_strlit("USB_PD_MUX_USB_ENABLED");
        reveal_strlit("USB_PD_MUX_DP_ENABLED");
        reveal_strlit("USB_PD_MUX_POLARITY_INVERTED");
        reveal_strlit("USB_PD_MUX_HPD_IRQ");
        reveal_strlit("USB_PD_MUX_HPD_LVL");
        reveal_strlit("USB_PD_MUX_SAFE_MODE");
        reveal_strlit("USB_PD_MUX_TBT_COMPAT_ENABLED");
        reveal_strlit("USB_PD_MUX_USB4_ENABLED");
    }
    match i {
        0 => "USB_PD_MUX_USB_ENABLED",
        1 => "USB_PD_MUX_DP_ENABLED",
        2 => "USB_PD_MUX_POLARITY_INVERTED",
        3 => "USB_PD_MUX_HPD_IRQ",
        4 => "USB_PD_MUX_HPD_LVL",
        5 => "USB_PD_MUX_SAFE_MODE",
        6 => "USB_PD_MUX_TBT_COMPAT_ENABLED",
        _ => "USB_PD_MUX_USB4_ENABLED",
    }
}

impl UsbPdMuxFlags {
    /// The flags as text, see [`mux_flags_text`].
    pub fn describe(&self) -> (r: String)
        ensures
            r@ == mux_flags_text(self.0),
    {
        proof {
            reveal_strlit("USB_PD_MUX_NONE");
            reveal_strlit(", ");
            reveal_strlit("");
            reveal_strlit(", USB_PD_MUX_DOCK");
        }
        if self.0 == 0 {
            return String::from_str("USB_PD_MUX_NONE");
        }
        let mut s = String::new();
        let mut i: u8 = 0;
        while i < 8
            invariant
                i <= 8,
                s@ == mux_flags_items(self.0, i as nat),
            decreases 8 - i,
        {
            if (self.0 >> i) & 1u8 == 1u8 {
                if i > 0 {
                    push_str(&mut s, ", ");
                } else {
                    push_str(&mut s, "");
                }
                push_str(&mut s, mux_flag_str(i));
            }
            i = i + 1;
        }
        if self.0 & 3u8 != 0 {
            push_str(&mut s, ", USB_PD_MUX_DOCK");
        }
        s
    }
}

/// Whether a chip-info request asks for live values or the hard-coded
/// and cached ones.
#[derive(Clone, Copy, Debug, PartialEq, Eq, Structural)]
pub enum EcPdChipInfoLive {
    /// Hard-coded VID/PID, cached firmware version.
    Hardcoded,
    /// Live chip values for VID/PID and firmware version.
    Live,
}

/// The wire byte of an [`EcPdChipInfoLive`].
pub open spec fn live_raw(l: EcPdChipInfoLive) -> u8 {
    match l {
        EcPdChipInfoLive::Hardcoded => 0,
        EcPdChipInfoLive::Live => 1,
    }
}

/// `struct ec_params_pd_chip_info`.
#[derive(Clone, Copy, Debug, PartialEq, Eq, Structural)]
pub struct EcParamsPdChipInfo {
    /// USB-C port number.
    pub port: u8,
    /// Live or hard-coded values.
    pub live: EcPdChipInfoLive,
}

fn encode_chip_params(req: &EcParamsPdChipInfo) -> (b: Vec<u8>)
    ensures
        b@ == seq![req.port, live_raw(req.live)],
{
    let mut b = Vec::new();
    b.push(req.port);
    b.push(
        match req.live {
            EcPdChipInfoLive::Hardcoded => 0u8,
            EcPdChipInfoLive::Live => 1u8,
        },
    );
    assert(b@ =~= seq![req.port, live_raw(req.live)]);
    b
}

/// `struct ec_response_pd_chip_info`.
#[derive(Clone, Copy, Debug, PartialEq, Eq, Structural)]
pub struct EcResponsePdChipInfo {
    pub vendor_id: u16,
    pub product_id: u16,
    pub device_id: u16,
    /// Firmware version, as a number.
    pub fw_version_number: u64,
}

/// `struct ec_response_pd_chip_info_v1`; each firmware version is read as
/// its eight bytes, which are a string or a number depending on the chip.
#[derive(Clone, Copy, Debug, PartialEq, Eq, Structural)]
pub struct EcResponsePdChipInfoV1 {
    pub vendor_id: u16,
    pub product_id: u16,
    pub device_id: u16,
    /// Firmware version, as a number.
    pub fw_version_number: u64,
    /// Minimum required firmware version, as a number.
    pub min_req_fw_version_number: u64,
}

/// Information about the PD chip on a port (`EC_CMD_PD_CHIP_INFO`).
///
/// Not implemented on the FW16's EC.
pub struct PdChipInfo;

impl EcCommand for PdChipInfo {
    type Request = EcParamsPdChipInfo;

    type Response = EcResponsePdChipInfo;

    open spec fn spec_cmd() -> EcCmd {
        EcCmd::PdChipInfo
    }

    open spec fn spec_version() -> u32 {
        0
    }

    open spec fn request_len() -> nat {
        2
    }

    open spec fn response_len() -> nat {
        14
    }

    open spec fn spec_encode(req: EcParamsPdChipInfo) -> Seq<u8> {
        seq![req.port, live_raw(req.live)]
    }

    open spec fn spec_decode(b: Seq<u8>) -> EcResponsePdChipInfo {
        EcResponsePdChipInfo {
            vendor_id: le_u16(b, 0),
            product_id: le_u16(b, 2),
            device_id: le_u16(b, 4),
            fw_version_number: le_u64(b, 6),
        }
    }

    fn cmd() -> (c: EcCmd) {
        EcCmd::PdChipInfo
    }

    fn version() -> (v: u32) {
        0
    }

    fn request_size() -> (n: usize) {
        2
    }

    fn response_size() -> (n: usize) {
        14
    }

    fn encode(req: &EcParamsPdChipInfo) -> (b: Vec<u8>) {
        encode_chip_params(req)
    }

    fn decode(b: &[u8]) -> (r: EcResponsePdChipInfo) {
        EcResponsePdChipInfo {
            vendor_id: read_u16(b, 0),
            product_id: read_u16(b, 2),
            device_id: read_u16(b, 4),
            fw_version_number: read_u64(b, 6),
        }
    }
}

/// Version 1 of [`PdChipInfo`], which also reports the minimum required
/// firmware version.
pub struct PdChipInfoV1;

impl EcCommand for PdChipInfoV1 {
    type Request = EcParamsPdChipInfo;

    type Response = EcResponsePdChipInfoV1;

    open spec fn spec_cmd() -> EcCmd {
        EcCmd::PdChipInfo
    }

    open spec fn spec_version() -> u32 {
        1
    }

    open spec fn request_len() -> nat {
        2
    }

    open spec fn response_len() -> nat {
        22
    }

    open spec fn spec_encode(req: EcParamsPdChipInfo) -> Seq<u8> {
        seq![req.port, live_raw(req.live)]
    }

    open spec fn spec_decode(b: Seq<u8>) -> EcResponsePdChipInfoV1 {
        EcResponsePdChipInfoV1 {
            vendor_id: le_u16(b, 0),
            product_id: le_u16(b, 2),
            device_id: le_u16(b, 4),
            fw_version_number: le_u64(b, 6),
            min_req_fw_version_number: le_u64(b, 14),
        }
    }

    fn cmd() -> (c: EcCmd) {
        EcCmd::PdChipInfo
    }

    fn version() -> (v: u32) {
        1
    }

    fn request_size() -> (n: usize) {
        2
    }

    fn response_size() -> (n: usize) {
        22
    }

    fn encode(req: &EcParamsPdChipInfo) -> (b: Vec<u8>) {
        encode_chip_params(req)
    }

    fn decode(b: &[u8]) -> (r: EcResponsePdChipInfoV1) {
        EcResponsePdChipInfoV1 {
            vendor_id: read_u16(b, 0),
            product_id: read_u16(b, 2),
            device_id: read_u16(b, 4),
            fw_version_number: read_u64(b, 6),
            min_req_fw_version_number: read_u64(b, 14),
        }
    }
}

/// Read the live chip information of port `idx`, after checking the index
/// against `num_ports`.
///
/// # Errors
///
/// The range message of [`validate_port`] for a bad index, without asking
/// the EC; otherwise the EC's failure.
pub fn get_pd_chip_info<F: Fn(&CrosEcCommandV2) -> Result<EcReply, EcError>>(
    xfer: &F,
    num_ports: u8,
    idx: u8,
) -> (r: Result<EcResponsePdChipInfo, ToolError>)
    requires
        forall|f: &CrosEcCommandV2| xfer.requires((f,)),
    ensures
        idx >= num_ports ==> (r matches Err(ToolError::Message(m)) && m@ == port_number_message(
            idx,
            num_ports,
        )),
        idx < num_ports ==> exists|o: Result<EcResponsePdChipInfo, EcError>|
            answered::<PdChipInfo, F>(
                *xfer,
                EcParamsPdChipInfo { port: idx, live: EcPdChipInfoLive::Live },
                o,
            ) && r == as_tool(o),
{
    match validate_port(idx, num_ports) {
        Err(e) => Err(e),
        Ok(()) => {
            let req = EcParamsPdChipInfo { port: idx, live: EcPdChipInfoLive::Live };
            let o = call::<PdChipInfo, F>(xfer, req);
            let ghost seen = o;
            let r = match o {
                Ok(v) => Ok(v),
                Err(e) => Err(ToolError::Ec(e)),
            };
            assert(answered::<PdChipInfo, F>(*xfer, req, seen) && r == as_tool(seen));
            r
        },
    }
}

/// Read the hard-coded chip information of port `idx`, with the minimum
/// required firmware version, after checking the index against
/// `num_ports`.
///
/// # Errors
///
/// The range message of [`validate_port`] for a bad index, without asking
/// the EC; otherwise the EC's failure.
pub fn get_pd_chip_info_v1<F: Fn(&CrosEcCommandV2) -> Result<EcReply, EcError>>(
    xfer: &F,
    num_ports: u8,
    idx: u8,
) -> (r: Result<EcResponsePdChipInfoV1, ToolError>)
    requires
        forall|f: &CrosEcCommandV2| xfer.requires((f,)),
    ensures
        idx >= num_ports ==> (r matches Err(ToolError::Message(m)) && m@ == port_number_message(
            idx,
            num_ports,
        )),
        idx < num_ports ==> exists|o: Result<EcResponsePdChipInfoV1, EcError>|
            answered::<PdChipInfoV1, F>(
                *xfer,
                EcParamsPdChipInfo { port: idx, live: EcPdChipInfoLive::Hardcoded },
                o,
            ) && r == as_tool(o),
{
    match validate_port(idx, num_ports) {
        Err(e) => Err(e),
        Ok(()) => {
            let req = EcParamsPdChipInfo { port: idx, live: EcPdChipInfoLive::Hardcoded };
            let o = call::<PdChipInfoV1, F>(xfer, req);
            let ghost seen = o;
            let r = match o {
                Ok(v) => Ok(v),
                Err(e) => Err(ToolError::Ec(e)),
            };
            assert(answered::<PdChipInfoV1, F>(*xfer, req, seen) && r == as_tool(seen));
            r
        },
    }
}

/// The eight bytes of a firmware version, in memory order.
pub open spec fn version_bytes(v: u64) -> Seq<u8> {
    Seq::new(8, |i: int| ((v >> ((8 * i) as u64)) & 0xffu64) as u8)
}

/// Index of the first NUL at or after `k`, or the length if there is none.
pub open spec fn first_nul(b: Seq<u8>, k: int) -> int
    decreases b.len() - k,
{
    if k >= b.len() || k < 0 {
        b.len() as int
    } else if b[k] == 0 {
        k
    } else {
        first_nul(b, k + 1)
    }
}

/// The bytes before the first NUL, all of them when there is none.
pub open spec fn before_nul(b: Seq<u8>) -> Seq<u8> {
    b.subrange(0, first_nul(b, 0))
}

/// How one byte shows inside a quoted byte string: `\t`, `\r`, `\n`,
/// `\\`, `\'` and `\"` escaped, other printable ASCII as it is, anything
/// else as `\x` and two lowercase hex digits.
pub open spec fn escaped_byte(b: u8) -> Seq<char> {
    if b == 9 {
        seq!['\\', 't']
    } else if b == 13 {
        seq!['\\', 'r']
    } else if b == 10 {
        seq!['\\', 'n']
    } else if b == 92 {
        seq!['\\', '\\']
    } else if b == 39 {
        seq!['\\', '\'']
    } else if b == 34 {
        seq!['\\', '"']
    } else if 0x20 <= b < 0x7f {
        seq![b as char]
    } else {
        seq!['\\', 'x', hex_char((b / 16) as int), hex_char((b % 16) as int)]
    }
}

/// Bytes escaped one by one.
pub open spec fn escaped(b: Seq<u8>) -> Seq<char>
    decreases b.len(),
{
    if b.len() == 0 {
        Seq::empty()
    } else {
        escaped(b.drop_last()) + escaped_byte(b.last())
    }
}

/// A firmware version as text: its bytes up to the first NUL as a quoted,
/// escaped string, then the number.
pub open spec fn fw_version_text(v: u64) -> Seq<char> {
    "String: \""@ + escaped(before_nul(version_bytes(v))) + "\", Number: "@ + decimal(v as nat)
}

/// The one-character string of a printable ASCII byte.
fn printable_str(b: u8) -> (r: &'static str)
    requires
        0x20 <= b < 0x7f,
    ensures
        r@ == seq![b as char],
{
    match b {
        32 => {
            proof {
                reveal_strlit(" ");
            }
            " "
        },
        33 => {
            proof {
                reveal_strlit("!");
            }
            "!"
        },
        34 => {
            proof {
                reveal_strlit("\"");
            }
            "\""
        },
        35 => {
            proof {
                reveal_strlit("#");
            }
            "#"
        },
        36 => {
            proof {
                reveal_strlit("$");
            }
            "$"
        },
        37 => {
            proof {
                reveal_strlit("%");
            }
            "%"
        },
        38 => {
            proof {
                reveal_strlit("&");
            }
            "&"
        },
        39 => {
            proof {
                reveal_strlit("'");
            }
            "'"
        },
        40 => {
            proof {
                reveal_strlit("(");
            }
            "("
        },
        41 => {
            proof {
                reveal_strlit(")");
            }
            ")"
        },
        42 => {
            proof {
                reveal_strlit("*");
            }
            "*"
        },
        43 => {
            proof {
                reveal_strlit("+");
            }
            "+"
        },
        44 => {
            proof {
                reveal_strlit(",");
            }
            ","
        },
        45 => {
            proof {
                reveal_strlit("-");
            }
            "-"
        },
        46 => {
            proof {
                reveal_strlit(".");
            }
            "."
        },
        47 => {
            proof {
                reveal_strlit("/");
            }
            "/"
        },
        48 => {
            proof {
                reveal_strlit("0");
            }
            "0"
        },
        49 => {
            proof {
                reveal_strlit("1");
            }
            "1"
        },
        50 => {
            proof {
                reveal_strlit("2");
            }
            "2"
        },
        51 => {
            proof {
                reveal_strlit("3");
            }
            "3"
        },
        52 => {
            proof {
                reveal_strlit("4");
            }
            "4"
        },
        53 => {
            proof {
                reveal_strlit("5");
            }
            "5"
        },
        54 => {
            proof {
                reveal_strlit("6");
            }
            "6"
        },
        55 => {
            proof {
                reveal_strlit("7");
            }
            "7"
        },
        56 => {
            proof {
                reveal_strlit("8");
            }
            "8"
        },
        57 => {
            proof {
                reveal_strlit("9");
            }
            "9"
        },
        58 => {
            proof {
                reveal_strlit(":");
            }
            ":"
        },
        59 => {
            proof {
                reveal_strlit(";");
            }
            ";"
        },
        60 => {
            proof {
                reveal_strlit("<");
            }
            "<"
        },
        61 => {
            proof {
                reveal_strlit("=");
            }
            "="
        },
        62 => {
            proof {
                reveal_strlit(">");
            }
            ">"
        },
        63 => {
            proof {
                reveal_strlit("?");
            }
            "?"
        },
        64 => {
            proof {
                reveal_strlit("@");
            }
            "@"
        },
        65 => {
            proof {
                reveal_strlit("A");
            }
            "A"
        },
        66 => {
            proof {
                reveal_strlit("B");
            }
            "B"
        },
        67 => {
            proof {
                reveal_strlit("C");
            }
            "C"
        },
        68 => {
            proof {
                reveal_strlit("D");
            }
            "D"
        },
        69 => {
            proof {
                reveal_strlit("E");
            }
            "E"
        },
        70 => {
            proof {
                reveal_strlit("F");
            }
            "F"
        },
        71 => {
            proof {
                reveal_strlit("G");
            }
            "G"
        },
        72 => {
            proof {
                reveal_strlit("H");
            }
            "H"
        },
        73 => {
            proof {
                reveal_strlit("I");
            }
            "I"
        },
        74 => {
            proof {
                reveal_strlit("J");
            }
            "J"
        },
        75 => {
            proof {
                reveal_strlit("K");
            }
            "K"
        },
        76 => {
            proof {
                reveal_strlit("L");
            }
            "L"
        },
        77 => {
            proof {
                reveal_strlit("M");
            }
            "M"
        },
        78 => {
            proof {
                reveal_strlit("N");
            }
            "N"
        },
        79 => {
            proof {
                reveal_strlit("O");
            }
            "O"
        },
        80 => {
            proof {
                reveal_strlit("P");
            }
            "P"
        },
        81 => {
            proof {
                reveal_strlit("Q");
            }
            "Q"
        },
        82 => {
            proof {
                reveal_strlit("R");
            }
            "R"
        },
        83 => {
            proof {
                reveal_strlit("S");
            }
            "S"
        },
        84 => {
            proof {
                reveal_strlit("T");
            }
            "T"
        },
        85 => {
            proof {
                reveal_strlit("U");
            }
            "U"
        },
        86 => {
            proof {
                reveal_strlit("V");
            }
            "V"
        },
        87 => {
            proof {
                reveal_strlit("W");
            }
            "W"
        },
        88 => {
            proof {
                reveal_strlit("X");
            }
            "X"
        },
        89 => {
            proof {
                reveal_strlit("Y");
            }
            "Y"
        },
        90 => {
            proof {
                reveal_strlit("Z");
            }
            "Z"
        },
        91 => {
            proof {
                reveal_strlit("[");
            }
            "["
        },
        92 => {
            proof {
                reveal_strlit("\\");
            }
            "\\"
        },
        93 => {
            proof {
                reveal_strlit("]");
            }
            "]"
        },
        94 => {
            proof {
                reveal_strlit("^");
            }
            "^"
        },
        95 => {
            proof {
                reveal_strlit("_");
            }
            "_"
        },
        96 => {
            proof {
                reveal_strlit("`");
            }
            "`"
        },
        97 => {
            proof {
                reveal_strlit("a");
            }
            "a"
        },
        98 => {
            proof {
                reveal_strlit("b");
            }
            "b"
        },
        99 => {
            proof {
                reveal_strlit("c");
            }
            "c"
        },
        100 => {
            proof {
                reveal_strlit("d");
            }
            "d"
        },
        101 => {
            proof {
                reveal_strlit("e");
            }
            "e"
        },
        102 => {
            proof {
                reveal_strlit("f");
            }
            "f"
        },
        103 => {
            proof {
                reveal_strlit("g");
            }
            "g"
        },
        104 => {
            proof {
                reveal_strlit("h");
            }
            "h"
        },
        105 => {
            proof {
                reveal_strlit("i");
            }
            "i"
        },
        106 => {
            proof {
                reveal_strlit("j");
            }
            "j"
        },
        107 => {
            proof {
                reveal_strlit("k");
            }
            "k"
        },
        108 => {
            proof {
                reveal_strlit("l");
            }
            "l"
        },
        109 => {
            proof {
                reveal_strlit("m");
            }
            "m"
        },
        110 => {
            proof {
                reveal_strlit("n");
            }
            "n"
        },
        111 => {
            proof {
                reveal_strlit("o");
            }
            "o"
        },
        112 => {
            proof {
                reveal_strlit("p");
            }
            "p"
        },
        113 => {
            proof {
                reveal_strlit("q");
            }
            "q"
        },
        114 => {
            proof {
                reveal_strlit("r");
            }
            "r"
        },
        115 => {
            proof {
                reveal_strlit("s");
            }
            "s"
        },
        116 => {
            proof {
                reveal_strlit("t");
            }
            "t"
        },
        117 => {
            proof {
                reveal_strlit("u");
            }
            "u"
        },
        118 => {
            proof {
                reveal_strlit("v");
            }
            "v"
        },
        119 => {
            proof {
                reveal_strlit("w");
            }
            "w"
        },
        120 => {
            proof {
                reveal_strlit("x");
            }
            "x"
        },
        121 => {
            proof {
                reveal_strlit("y");
            }
            "y"
        },
        122 => {
            proof {
                reveal_strlit("z");
            }
            "z"
        },
        123 => {
            proof {
                reveal_strlit("{");
            }
            "{"
        },
        124 => {
            proof {
                reveal_strlit("|");
            }
            "|"
        },
        125 => {
            proof {
                reveal_strlit("}");
            }
            "}"
        },
        126 => {
            proof {
                reveal_strlit("~");
            }
            "~"
        },
        _ => {
            proof {
                reveal_strlit("~");
            }
            "~"
        },
    }
}

/// Appends one byte as it shows inside a quoted byte string.
fn push_escaped_byte(s: &mut String, b: u8)
    ensures
        final(s)@ == old(s)@ + escaped_byte(b),
{
    proof {
        reveal_strlit("\\t");
        reveal_strlit("\\r");
        reveal_strlit("\\n");
        reveal_strlit("\\\\");
        reveal_strlit("\\'");
        reveal_strlit("\\\"");
        reveal_strlit("\\x");
    }
    if b == 9 {
        push_str(s, "\\t");
    } else if b == 13 {
        push_str(s, "\\r");
    } else if b == 10 {
        push_str(s, "\\n");
    } else if b == 92 {
        push_str(s, "\\\\");
    } else if b == 39 {
        push_str(s, "\\'");
    } else if b == 34 {
        push_str(s, "\\\"");
    } else if 0x20 <= b && b < 0x7f {
        push_str(s, printable_str(b));
    } else {
        push_str(s, "\\x");
        let mut hi = String::new();
        crate::text::push_hex(&mut hi, (b / 16) as u64);
        let mut lo = String::new();
        crate::text::push_hex(&mut lo, (b % 16) as u64);
        push_str(s, hi.as_str());
        push_str(s, lo.as_str());
    }
    assert(s@ =~= old(s)@ + escaped_byte(b));
}

proof fn lemma_first_nul(b: Seq<u8>, k: int)
    requires
        0 <= k <= b.len(),
        forall|j: int| 0 <= j < k ==> b[j] != 0,
    ensures
        k <= first_nul(b, k) <= b.len(),
        first_nul(b, k) == first_nul(b, 0),
        forall|j: int| 0 <= j < first_nul(b, 0) ==> b[j] != 0,
        first_nul(b, 0) < b.len() ==> b[first_nul(b, 0)] == 0,
    decreases k,
{
    lemma_first_nul_from(b, k);
    if k > 0 {
        lemma_first_nul(b, k - 1);
    }
}

proof fn lemma_first_nul_from(b: Seq<u8>, k: int)
    requires
        0 <= k <= b.len(),
    ensures
        k <= first_nul(b, k) <= b.len(),
        forall|j: int| k <= j < first_nul(b, k) ==> b[j] != 0,
        first_nul(b, k) < b.len() ==> b[first_nul(b, k)] == 0,
    decreases b.len() - k,
{
    if k < b.len() && b[k] != 0 {
        lemma_first_nul_from(b, k + 1);
    }
}

/// A firmware version as text, see [`fw_version_text`].
pub fn fw_version_string(v: u64) -> (r: String)
    ensures
        r@ == fw_version_text(v),
{
    proof {
        reveal_strlit("String: \"");
        reveal_strlit("\", Number: ");
    }
    let ghost bytes = version_bytes(v);
    let mut s = String::new();
    push_str(&mut s, "String: \"");
    let ghost start = s@;
    let mut i: u64 = 0;
    proof {
        lemma_first_nul(bytes, 0);
        assert(bytes.subrange(0, 0) =~= Seq::<u8>::empty());
    }
    while i < 8
        invariant_except_break
            i <= 8,
            forall|j: int| 0 <= j < i ==> bytes[j] != 0,
        invariant
            bytes == version_bytes(v),
            i <= first_nul(bytes, 0) <= 8,
            s@ == start + escaped(bytes.subrange(0, i as int)),
        ensures
            i == first_nul(bytes, 0),
        decreases 8 - i,
    {
        let b = ((v >> (8 * i)) & 0xffu64) as u8;
        assert(b == bytes[i as int]);
        if b == 0 {
            proof {
                lemma_first_nul(bytes, i as int);
            }
            break;
        }
        push_escaped_byte(&mut s, b);
        proof {
            assert(bytes.subrange(0, i + 1).drop_last() =~= bytes.subrange(0, i as int));
            assert(bytes.subrange(0, i + 1).last() == b);
        }
        i = i + 1;
        proof {
            lemma_first_nul(bytes, i as int);
        }
    }
    push_str(&mut s, "\", Number: ");
    push_decimal(&mut s, v);
    assert(s@ =~= fw_version_text(v));
    s
}

/// The chip information as text: the three ids as `0x` and four hex
/// digits, then both firmware versions.
pub open spec fn chip_info_text(c: EcResponsePdChipInfoV1) -> Seq<char> {
    "Vendor ID: "@ + "0x"@ + pad_front(hex(c.vendor_id as nat), 4, '0') + ", Product ID: "@ + "0x"@
        + pad_front(hex(c.product_id as nat), 4, '0') + ", Device ID: "@ + "0x"@ + pad_front(
        hex(c.device_id as nat),
        4,
        '0',
    ) + ", FW Version: "@ + fw_version_text(c.fw_version_number) + ", Min Req FW Version: "@
        + fw_version_text(c.min_req_fw_version_number)
}

impl EcResponsePdChipInfoV1 {
    /// The chip information as text, see [`chip_info_text`].
    pub fn describe(&self) -> (r: String)
        ensures
            r@ == chip_info_text(*self),
    {
        proof {
            reveal_strlit("Vendor ID: ");
            reveal_strlit(", Product ID: ");
            reveal_strlit(", Device ID: ");
            reveal_strlit(", FW Version: ");
            reveal_strlit(", Min Req FW Version: ");
        }
        let mut s = String::new();
        push_str(&mut s, "Vendor ID: ");
        push_prefixed_hex(&mut s, self.vendor_id as u64, 6);
        push_str(&mut s, ", Product ID: ");
        push_prefixed_hex(&mut s, self.product_id as u64, 6);
        push_str(&mut s, ", Device ID: ");
        push_prefixed_hex(&mut s, self.device_id as u64, 6);
        push_str(&mut s, ", FW Version: ");
        let fw = fw_version_string(self.fw_version_number);
        push_str(&mut s, fw.as_str());
        push_str(&mut s, ", Min Req FW Version: ");
        let min = fw_version_string(self.min_req_fw_version_number);
        push_str(&mut s, min.as_str());
        assert(s@ =~= chip_info_text(*self));
        s
    }
}

} // verus!
