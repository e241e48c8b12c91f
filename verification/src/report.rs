//! What `fw-pdctl` prints: the port status table, the capabilities table,
//! the role-control probe and the supported-command list, each as the lines
//! it prints, built from the EC's answers.
use vstd::prelude::*;
use vstd::string::StringExecFns;

use crate::command::{CrosEcCommandV2, EcReply, answered};
use crate::ec_cmd::{EcCmd, ec_cmd_code, ec_cmd_name};
use crate::introspect::{
    EcParamsGetCmdVersionsV1, EcResponseGetCmdVersions, GetCmdVersions, command_versions,
    versions_from,
};
use crate::pd::{pd_commands, spec_pd_commands};
use crate::pdctl::{
    version_list, version_list_text, count_answered, check_port, port_range_message,
    refusal_text, role_change_refusal, refuses_role_change,
};
use crate::pd::role_name;
use crate::usbpd::charge_port_count;
use crate::text::{hex, push_prefixed_hex};
use crate::error::{EcError, ToolError, error_text};
use crate::pd::{
    EcParamsGetPdPortCaps, EcResponseGetPdPortCaps, GetPdPortCaps, port_caps,
    EcResponseUsbPdControl, RoleRequest, UsbPdControl, set_role, set_role_params,
    data_role_cap_name, power_role_cap_name, try_power_role_cap_name,
    spec_data_role_cap_name, spec_power_role_cap_name, spec_try_power_role_cap_name,
};
use crate::pdctl::{info_answered, microwatts_text, format_microwatts, ports, ports_answered};
use crate::text::{
    decimal, pad_back, pad_front, push_decimal, push_padded_back, push_padded_front, push_str,
    decimal_string,
};
use crate::usbpd::{
    ChargeType, EcResponseUsbPdPowerInfo, PowerRole, charge_type_name, power_info,
    power_role_name, spec_charge_type, spec_power_role,
};

verus! {

/// A raw value nothing is known about: `unknown (<value>)`.
pub open spec fn unknown_text(raw: u8) -> Seq<char> {
    "unknown ("@ + decimal(raw as nat) + ")"@
}

/// `unknown (<value>)`.
fn unknown_string(raw: u8) -> (r: String)
    ensures
        r@ == unknown_text(raw),
{
    proof {
        reveal_strlit("unknown (");
        reveal_strlit(")");
    }
    let mut s = String::new();
    push_str(&mut s, "unknown (");
    push_decimal(&mut s, raw as u64);
    push_str(&mut s, ")");
    assert(s@ =~= unknown_text(raw));
    s
}

/// A raw power role as text: its name, or that it is unknown.
pub open spec fn role_text(raw: u8) -> Seq<char> {
    match spec_power_role(raw) {
        Some(r) => power_role_name(r),
        None => unknown_text(raw),
    }
}

/// A raw charger type as text: its name, or that it is unknown.
pub open spec fn charger_text(raw: u8) -> Seq<char> {
    match spec_charge_type(raw) {
        Some(t) => charge_type_name(t),
        None => unknown_text(raw),
    }
}

/// A raw power role as text, see [`role_text`].
pub fn role_string(raw: u8) -> (r: String)
    ensures
        r@ == role_text(raw),
{
    match PowerRole::from_raw(raw) {
        Some(role) => String::from_str(role.name()),
        None => unknown_string(raw),
    }
}

/// A raw charger type as text, see [`charger_text`].
pub fn charger_string(raw: u8) -> (r: String)
    ensures
        r@ == charger_text(raw),
{
    match ChargeType::from_raw(raw) {
        Some(t) => String::from_str(t.name()),
        None => unknown_string(raw),
    }
}

/// The title line of the status table.
pub open spec fn status_title() -> Seq<char> {
    "--- USB-PD Ports ---"@
}

/// The column header line of the status table.
pub open spec fn status_header() -> Seq<char> {
    "Port  Role             Charger         Volt now/max   Curr lim/max   Max power  Partner"@
}

/// Whether anything is attached to the port: its role is anything but
/// disconnected, an unknown role included.
pub open spec fn connected(info: EcResponseUsbPdPowerInfo) -> bool {
    spec_power_role(info.role) != Some(PowerRole::Disconnected)
}

/// The present and maximum voltage, `<now>/<max>mV`.
pub open spec fn voltage_text(info: EcResponseUsbPdPowerInfo) -> Seq<char> {
    decimal(info.voltage_now as nat) + "/"@ + decimal(info.voltage_max as nat) + "mV"@
}

/// The current limit and maximum, `<limit>/<max>mA`.
pub open spec fn current_text(info: EcResponseUsbPdPowerInfo) -> Seq<char> {
    decimal(info.current_lim as nat) + "/"@ + decimal(info.current_max as nat) + "mA"@
}

/// The columns of a port's row: port, role and charger left-aligned, then
/// the given voltage, current and power right-aligned, then `dual-role` if
/// the partner is.
pub open spec fn status_row_columns(
    port: u8,
    info: EcResponseUsbPdPowerInfo,
    voltage: Seq<char>,
    current: Seq<char>,
    power: Seq<char>,
) -> Seq<char> {
    pad_back(decimal(port as nat), 5) + " "@ + pad_back(role_text(info.role), 16) + " "@ + pad_back(
        charger_text(info.charge_type),
        12,
    ) + " "@ + pad_front(voltage, 15, ' ') + " "@ + pad_front(current, 14, ' ') + " "@ + pad_front(
        power,
        11,
        ' ',
    ) + "  "@ + (if info.dualrole == 0 {
        ""@
    } else {
        "dual-role"@
    })
}

/// One port's row of the status table: port, role, charger, voltage,
/// current and power in aligned columns (the electrical columns `-` when
/// nothing is attached), then `dual-role` if the partner is.
pub open spec fn status_row_text(port: u8, info: EcResponseUsbPdPowerInfo) -> Seq<char> {
    let voltage = if connected(info) {
        voltage_text(info)
    } else {
        "-"@
    };
    let current = if connected(info) {
        current_text(info)
    } else {
        "-"@
    };
    let power = if connected(info) {
        microwatts_text(info.max_power)
    } else {
        "-"@
    };
    status_row_columns(port, info, voltage, current, power)
}

/// A port's row shows its present and maximum voltage, its current limit
/// and maximum, and its maximum power whenever its raw role is anything but
/// 0 (disconnected), unknown roles included; only a disconnected port shows
/// `-` in those three columns.
pub proof fn lemma_status_row_readings_unless_disconnected(port: u8, info: EcResponseUsbPdPowerInfo)
    ensures
        info.role != 0 ==> status_row_text(port, info) == status_row_columns(
            port,
            info,
            decimal(info.voltage_now as nat) + "/"@ + decimal(info.voltage_max as nat) + "mV"@,
            decimal(info.current_lim as nat) + "/"@ + decimal(info.current_max as nat) + "mA"@,
            microwatts_text(info.max_power),
        ),
        info.role == 0 ==> status_row_text(port, info) == status_row_columns(
            port,
            info,
            "-"@,
            "-"@,
            "-"@,
        ),
{
}

/// A port's row when asking about it failed: the port, then the failure.
pub open spec fn port_error_text(port: u8, e: EcError) -> Seq<char> {
    pad_back(decimal(port as nat), 5) + " "@ + error_text(e)
}

/// Appends the port number left-aligned in five columns and a space.
fn push_port_column(s: &mut String, port: u8)
    ensures
        final(s)@ == old(s)@ + pad_back(decimal(port as nat), 5) + " "@,
{
    proof {
        reveal_strlit(" ");
    }
    let p = decimal_string(port as u64);
    push_padded_back(s, p.as_str(), 5);
    push_str(s, " ");
}

/// A port's row when asking about it failed, see [`port_error_text`].
pub fn port_error_line(port: u8, e: &EcError) -> (r: String)
    ensures
        r@ == port_error_text(port, *e),
{
    let mut s = String::new();
    push_port_column(&mut s, port);
    let d = e.describe();
    push_str(&mut s, d.as_str());
    assert(s@ =~= port_error_text(port, *e));
    s
}

/// One port's row of the status table, see [`status_row_text`].
pub fn status_row(port: u8, info: &EcResponseUsbPdPowerInfo) -> (r: String)
    ensures
        r@ == status_row_text(port, *info),
{
    proof {
        reveal_strlit("-");
        reveal_strlit("/");
        reveal_strlit("mV");
        reveal_strlit("mA");
        reveal_strlit(" ");
        reveal_strlit("  ");
        reveal_strlit("");
        reveal_strlit("dual-role");
    }
    let role = role_string(info.role);
    let charger = charger_string(info.charge_type);
    let is_connected = match info.power_role() {
        Some(PowerRole::Disconnected) => false,
        _ => true,
    };
    let (voltage, current, power) = if is_connected {
        let mut v = String::new();
        push_decimal(&mut v, info.voltage_now as u64);
        push_str(&mut v, "/");
        push_decimal(&mut v, info.voltage_max as u64);
        push_str(&mut v, "mV");
        let mut c = String::new();
        push_decimal(&mut c, info.current_lim as u64);
        push_str(&mut c, "/");
        push_decimal(&mut c, info.current_max as u64);
        push_str(&mut c, "mA");
        assert(v@ =~= voltage_text(*info));
        assert(c@ =~= current_text(*info));
        (v, c, format_microwatts(info.max_power))
    } else {
        (String::from_str("-"), String::from_str("-"), String::from_str("-"))
    };
    let mut s = String::new();
    push_port_column(&mut s, port);
    push_padded_back(&mut s, role.as_str(), 16);
    push_str(&mut s, " ");
    push_padded_back(&mut s, charger.as_str(), 12);
    push_str(&mut s, " ");
    push_padded_front(&mut s, voltage.as_str(), 15);
    push_str(&mut s, " ");
    push_padded_front(&mut s, current.as_str(), 14);
    push_str(&mut s, " ");
    push_padded_front(&mut s, power.as_str(), 11);
    push_str(&mut s, "  ");
    if info.dualrole == 0 {
        push_str(&mut s, "");
    } else {
        push_str(&mut s, "dual-role");
    }
    assert(s@ =~= status_row_text(port, *info));
    s
}

/// `line` is a row the status table can show for `port`: for some answer
/// `xfer` may give about the port, its row, or its failure.
pub open spec fn status_line_answered<F: Fn(&CrosEcCommandV2) -> Result<EcReply, EcError>>(
    xfer: F,
    port: u8,
    line: Seq<char>,
) -> bool {
    exists|o: Result<EcResponseUsbPdPowerInfo, EcError>|
        #[trigger] info_answered(xfer, port, o) && line == status_line_text(port, o)
}

/// A port's row of the status table given the answer about it: its row,
/// or its failure.
pub open spec fn status_line_text(port: u8, o: Result<EcResponseUsbPdPowerInfo, EcError>) -> Seq<
    char,
> {
    match o {
        Ok(info) => status_row_text(port, info),
        Err(e) => port_error_text(port, e),
    }
}

/// The status table: each port's power role and negotiated power, one row
/// per port chosen (the one given, or every port). A port the EC fails to
/// answer about shows the failure in its row; only failing to choose the
/// ports fails the whole table.
///
/// # Errors
///
/// As choosing the ports does.
pub fn print_status<F: Fn(&CrosEcCommandV2) -> Result<EcReply, EcError>>(
    xfer: &F,
    only: Option<u8>,
) -> (r: Result<Vec<String>, ToolError>)
    requires
        forall|f: &CrosEcCommandV2| xfer.requires((f,)),
    ensures
        exists|pr: Result<Vec<u8>, ToolError>|
            ports_answered(*xfer, only, pr) && match pr {
                Err(e) => r == Err::<Vec<String>, ToolError>(e),
                Ok(ps) => r matches Ok(lines) && lines.len() == ps.len() + 2 && lines@[0]@
                    == status_title() && lines@[1]@ == status_header() && forall|k: int|
                    0 <= k < ps.len() ==> #[trigger] status_line_answered(
                        *xfer,
                        ps@[k],
                        lines@[k + 2]@,
                    ),
            },
{
    proof {
        reveal_strlit("--- USB-PD Ports ---");
        reveal_strlit(
            "Port  Role             Charger         Volt now/max   Curr lim/max   Max power  Partner",
        );
    }
    let pr = ports(xfer, only);
    let ghost seen = pr;
    let ps = match pr {
        Err(e) => {
            return Err(e);
        },
        Ok(ps) => ps,
    };
    let mut lines: Vec<String> = Vec::new();
    lines.push(String::from_str("--- USB-PD Ports ---"));
    lines.push(
        String::from_str(
            "Port  Role             Charger         Volt now/max   Curr lim/max   Max power  Partner",
        ),
    );
    let mut k: usize = 0;
    while k < ps.len()
        invariant
            k <= ps.len(),
            lines.len() == k + 2,
            forall|f: &CrosEcCommandV2| xfer.requires((f,)),
            lines@[0]@ == status_title(),
            lines@[1]@ == status_header(),
            forall|j: int|
                0 <= j < k ==> #[trigger] status_line_answered(*xfer, ps@[j], lines@[j + 2]@),
        decreases ps.len() - k,
    {
        let port = ps[k];
        let o = power_info(xfer, port);
        let ghost go = o;
        let line = match &o {
            Ok(info) => status_row(port, info),
            Err(e) => port_error_line(port, e),
        };
        proof {
            assert(info_answered(*xfer, port, go));
            assert(line@ == status_line_text(port, go));
            assert(status_line_answered(*xfer, port, line@));
        }
        lines.push(line);
        k = k + 1;
    }
    assert(ports_answered(*xfer, only, seen));
    Ok(lines)
}

/// A capability byte as text: its name, or that it is unknown.
pub open spec fn cap_text(name: Option<Seq<char>>, raw: u8) -> Seq<char> {
    match name {
        Some(n) => n,
        None => unknown_text(raw),
    }
}

/// A capability name, or `unknown (<raw>)` when there is none.
fn cap_string(name: Option<&'static str>, raw: u8) -> (r: String)
    ensures
        r@ == cap_text(
            match name {
                Some(n) => Some(n@),
                None => None,
            },
            raw,
        ),
{
    match name {
        Some(n) => String::from_str(n),
        None => unknown_string(raw),
    }
}

/// The title line of the capabilities table.
pub open spec fn caps_title() -> Seq<char> {
    "--- USB-PD Port Capabilities ---"@
}

/// The column header line of the capabilities table.
pub open spec fn caps_header() -> Seq<char> {
    "Port  Power role   Try role     Data role    Location"@
}

/// One port's row of the capabilities table: port, power role, try role and
/// data role capabilities in aligned columns, then the port location.
pub open spec fn caps_row_text(port: u8, caps: EcResponseGetPdPortCaps) -> Seq<char> {
    pad_back(decimal(port as nat), 5) + " "@ + pad_back(
        cap_text(spec_power_role_cap_name(caps.power_role_cap), caps.power_role_cap),
        12,
    ) + " "@ + pad_back(
        cap_text(spec_try_power_role_cap_name(caps.try_power_role_cap), caps.try_power_role_cap),
        12,
    ) + " "@ + pad_back(
        cap_text(spec_data_role_cap_name(caps.data_role_cap), caps.data_role_cap),
        12,
    ) + " "@ + decimal(caps.port_location as nat)
}

/// One port's row of the capabilities table, see [`caps_row_text`].
pub fn caps_row(port: u8, caps: &EcResponseGetPdPortCaps) -> (r: String)
    ensures
        r@ == caps_row_text(port, *caps),
{
    proof {
        reveal_strlit(" ");
    }
    let power = cap_string(power_role_cap_name(caps.power_role_cap), caps.power_role_cap);
    let try_role = cap_string(try_power_role_cap_name(caps.try_power_role_cap), caps.try_power_role_cap);
    let data = cap_string(data_role_cap_name(caps.data_role_cap), caps.data_role_cap);
    let mut s = String::new();
    push_port_column(&mut s, port);
    push_padded_back(&mut s, power.as_str(), 12);
    push_str(&mut s, " ");
    push_padded_back(&mut s, try_role.as_str(), 12);
    push_str(&mut s, " ");
    push_padded_back(&mut s, data.as_str(), 12);
    push_str(&mut s, " ");
    push_decimal(&mut s, caps.port_location as u64);
    assert(s@ =~= caps_row_text(port, *caps));
    s
}

/// A port's row of the capabilities table given the answer about it.
pub open spec fn caps_line_text(port: u8, o: Result<EcResponseGetPdPortCaps, EcError>) -> Seq<
    char,
> {
    match o {
        Ok(caps) => caps_row_text(port, caps),
        Err(e) => port_error_text(port, e),
    }
}

/// `line` is a row the capabilities table can show for `port`.
pub open spec fn caps_line_answered<F: Fn(&CrosEcCommandV2) -> Result<EcReply, EcError>>(
    xfer: F,
    port: u8,
    line: Seq<char>,
) -> bool {
    exists|o: Result<EcResponseGetPdPortCaps, EcError>|
        #[trigger] answered::<GetPdPortCaps, F>(xfer, EcParamsGetPdPortCaps { port }, o) && line
            == caps_line_text(port, o)
}

/// The capabilities table: each chosen port's static role capabilities, as
/// the EC declares them, one row per port; a port the EC fails to answer
/// about shows the failure in its row.
///
/// # Errors
///
/// As choosing the ports does.
pub fn print_caps<F: Fn(&CrosEcCommandV2) -> Result<EcReply, EcError>>(
    xfer: &F,
    only: Option<u8>,
) -> (r: Result<Vec<String>, ToolError>)
    requires
        forall|f: &CrosEcCommandV2| xfer.requires((f,)),
    ensures
        exists|pr: Result<Vec<u8>, ToolError>|
            ports_answered(*xfer, only, pr) && match pr {
                Err(e) => r == Err::<Vec<String>, ToolError>(e),
                Ok(ps) => r matches Ok(lines) && lines.len() == ps.len() + 2 && lines@[0]@
                    == caps_title() && lines@[1]@ == caps_header() && forall|k: int|
                    0 <= k < ps.len() ==> #[trigger] caps_line_answered(
                        *xfer,
                        ps@[k],
                        lines@[k + 2]@,
                    ),
            },
{
    proof {
        reveal_strlit("--- USB-PD Port Capabilities ---");
        reveal_strlit("Port  Power role   Try role     Data role    Location");
    }
    let pr = ports(xfer, only);
    let ghost seen = pr;
    let ps = match pr {
        Err(e) => {
            return Err(e);
        },
        Ok(ps) => ps,
    };
    let mut lines: Vec<String> = Vec::new();
    lines.push(String::from_str("--- USB-PD Port Capabilities ---"));
    lines.push(String::from_str("Port  Power role   Try role     Data role    Location"));
    let mut k: usize = 0;
    while k < ps.len()
        invariant
            k <= ps.len(),
            lines.len() == k + 2,
            forall|f: &CrosEcCommandV2| xfer.requires((f,)),
            lines@[0]@ == caps_title(),
            lines@[1]@ == caps_header(),
            forall|j: int|
                0 <= j < k ==> #[trigger] caps_line_answered(*xfer, ps@[j], lines@[j + 2]@),
        decreases ps.len() - k,
    {
        let port = ps[k];
        let o = port_caps(xfer, port);
        let ghost go = o;
        let line = match &o {
            Ok(caps) => caps_row(port, caps),
            Err(e) => port_error_line(port, e),
        };
        proof {
            assert(line@ == caps_line_text(port, go));
            assert(caps_line_answered(*xfer, port, line@));
        }
        lines.push(line);
        k = k + 1;
    }
    assert(ports_answered(*xfer, only, seen));
    Ok(lines)
}

/// The title line of the probe.
pub open spec fn probe_title() -> Seq<char> {
    "--- USB_PD_CONTROL probe (no-op, changes nothing) ---"@
}

/// One port's line of the probe given the EC's answer to the no-op role
/// command: what the port reported, or the failure.
pub open spec fn probe_line_text(port: u8, o: Result<EcResponseUsbPdControl, EcError>) -> Seq<
    char,
> {
    match o {
        Ok(resp) => "Port "@ + decimal(port as nat) + ": accepted (pd_enabled="@ + decimal(
            resp.enabled as nat,
        ) + ", role="@ + decimal(resp.role as nat) + ", polarity="@ + decimal(
            resp.polarity as nat,
        ) + ", state="@ + decimal(resp.state as nat) + ")"@,
        Err(e) => "Port "@ + decimal(port as nat) + ": "@ + error_text(e),
    }
}

/// The closing lines of the probe: whether role control is available.
pub open spec fn probe_footer(any_ok: bool) -> Seq<Seq<char>> {
    if any_ok {
        seq!["[INFO]: This EC implements role control; `set` should work."@]
    } else {
        seq![
            "[WARN]: No port accepted the command. Role control is unavailable here."@,
            "[WARN]: `charge-override` is the only power-direction control this EC offers."@
        ]
    }
}

/// The probe's lines for ports `ps` given the EC's answers `os`: the title,
/// a line per port, and the closing lines, which depend on whether any port
/// accepted.
pub open spec fn probe_report(ps: Seq<u8>, os: Seq<Result<EcResponseUsbPdControl, EcError>>) -> Seq<
    Seq<char>,
> {
    seq![probe_title()] + Seq::new(ps.len(), |k: int| probe_line_text(ps[k], os[k]))
        + probe_footer(exists|k: int| 0 <= k < os.len() && os[k] is Ok)
}

/// `os` are answers `xfer` can give to the no-op role command, one for each
/// port of `ps`.
pub open spec fn probes_answered<F: Fn(&CrosEcCommandV2) -> Result<EcReply, EcError>>(
    xfer: F,
    ps: Seq<u8>,
    os: Seq<Result<EcResponseUsbPdControl, EcError>>,
) -> bool {
    &&& os.len() == ps.len()
    &&& forall|k: int|
        0 <= k < ps.len() ==> answered::<UsbPdControl, F>(
            xfer,
            set_role_params(ps[k], RoleRequest::NoChange),
            #[trigger] os[k],
        )
}

/// The text of each line.
pub open spec fn texts(lines: Seq<String>) -> Seq<Seq<char>> {
    lines.map_values(|l: String| l@)
}

/// One port's line of the probe, see [`probe_line_text`].
fn probe_line(port: u8, o: &Result<EcResponseUsbPdControl, EcError>) -> (r: String)
    ensures
        r@ == probe_line_text(port, *o),
{
    proof {
        reveal_strlit("Port ");
        reveal_strlit(": accepted (pd_enabled=");
        reveal_strlit(", role=");
        reveal_strlit(", polarity=");
        reveal_strlit(", state=");
        reveal_strlit(")");
        reveal_strlit(": ");
    }
    let mut s = String::new();
    push_str(&mut s, "Port ");
    push_decimal(&mut s, port as u64);
    match o {
        Ok(resp) => {
            push_str(&mut s, ": accepted (pd_enabled=");
            push_decimal(&mut s, resp.enabled as u64);
            push_str(&mut s, ", role=");
            push_decimal(&mut s, resp.role as u64);
            push_str(&mut s, ", polarity=");
            push_decimal(&mut s, resp.polarity as u64);
            push_str(&mut s, ", state=");
            push_decimal(&mut s, resp.state as u64);
            push_str(&mut s, ")");
            assert(s@ =~= probe_line_text(port, *o));
        },
        Err(e) => {
            push_str(&mut s, ": ");
            let d = e.describe();
            push_str(&mut s, d.as_str());
            assert(s@ =~= probe_line_text(port, *o));
        },
    }
    s
}

/// Send the role command with every field set to no-change to each chosen
/// port: nothing on a port moves; the point is whether the EC answers at
/// all. One line per port, then whether role control is available here.
///
/// # Errors
///
/// As choosing the ports does.
pub fn probe<F: Fn(&CrosEcCommandV2) -> Result<EcReply, EcError>>(xfer: &F, only: Option<u8>) -> (r:
    Result<Vec<String>, ToolError>)
    requires
        forall|f: &CrosEcCommandV2| xfer.requires((f,)),
    ensures
        exists|pr: Result<Vec<u8>, ToolError>|
            ports_answered(*xfer, only, pr) && match pr {
                Err(e) => r == Err::<Vec<String>, ToolError>(e),
                Ok(ps) => r matches Ok(lines) && exists|
                    os: Seq<Result<EcResponseUsbPdControl, EcError>>,
                | #![trigger probe_report(ps@, os)]
                    probes_answered(*xfer, ps@, os) && texts(lines@) == probe_report(ps@, os),
            },
{
    proof {
        reveal_strlit("--- USB_PD_CONTROL probe (no-op, changes nothing) ---");
        reveal_strlit("[INFO]: This EC implements role control; `set` should work.");
        reveal_strlit("[WARN]: No port accepted the command. Role control is unavailable here.");
        reveal_strlit(
            "[WARN]: `charge-override` is the only power-direction control this EC offers.",
        );
    }
    let pr = ports(xfer, only);
    let ghost seen = pr;
    let ps = match pr {
        Err(e) => {
            return Err(e);
        },
        Ok(ps) => ps,
    };
    let mut lines: Vec<String> = Vec::new();
    lines.push(String::from_str("--- USB_PD_CONTROL probe (no-op, changes nothing) ---"));
    let mut any_ok = false;
    let ghost mut os: Seq<Result<EcResponseUsbPdControl, EcError>> = Seq::empty();
    let mut k: usize = 0;
    while k < ps.len()
        invariant
            k <= ps.len(),
            forall|f: &CrosEcCommandV2| xfer.requires((f,)),
            os.len() == k,
            probes_answered(*xfer, ps@.subrange(0, k as int), os),
            any_ok == exists|j: int| 0 <= j < os.len() && os[j] is Ok,
            texts(lines@) == seq![probe_title()] + Seq::new(
                k as nat,
                |j: int| probe_line_text(ps@[j], os[j]),
            ),
        decreases ps.len() - k,
    {
        let port = ps[k];
        let o = set_role(xfer, port, RoleRequest::NoChange);
        let ghost go = o;
        let line = probe_line(port, &o);
        if o.is_ok() {
            any_ok = true;
        }
        proof {
            let old_os = os;
            os = os.push(go);
            assert(probes_answered(*xfer, ps@.subrange(0, k + 1), os)) by {
                assert forall|j: int| 0 <= j < k + 1 implies answered::<UsbPdControl, F>(
                    *xfer,
                    set_role_params(ps@.subrange(0, k + 1)[j], RoleRequest::NoChange),
                    #[trigger] os[j],
                ) by {
                    if j < k {
                        assert(os[j] == old_os[j]);
                        assert(ps@.subrange(0, k as int)[j] == ps@.subrange(0, k + 1)[j]);
                    }
                }
            }
            if go is Ok {
                assert(os[k as int] is Ok);
            } else {
                assert forall|j: int| 0 <= j < os.len() && os[j] is Ok implies j < old_os.len()
                    && old_os[j] is Ok by {}
            }
        }
        let ghost before = lines@;
        lines.push(line);
        proof {
            assert(texts(lines@) =~= texts(before).push(line@));
            assert(texts(lines@) =~= seq![probe_title()] + Seq::new(
                (k + 1) as nat,
                |j: int| probe_line_text(ps@[j], os[j]),
            ));
        }
        k = k + 1;
    }
    let ghost body = texts(lines@);
    if any_ok {
        lines.push(String::from_str("[INFO]: This EC implements role control; `set` should work."));
    } else {
        lines.push(
            String::from_str("[WARN]: No port accepted the command. Role control is unavailable here."),
        );
        lines.push(
            String::from_str(
                "[WARN]: `charge-override` is the only power-direction control this EC offers.",
            ),
        );
    }
    proof {
        assert(ps@.subrange(0, ps.len() as int) =~= ps@);
        assert(texts(lines@) =~= probe_report(ps@, os));
        assert(ports_answered(*xfer, only, seen));
    }
    Ok(lines)
}

/// The title line of the supported-command list.
pub open spec fn supported_title() -> Seq<char> {
    "--- PD host commands this EC implements ---"@
}

/// The column header line of the supported-command list.
pub open spec fn supported_header() -> Seq<char> {
    "Cmd      Name                     Versions   Purpose"@
}

/// The closing line of the supported-command list.
pub open spec fn supported_footer() -> Seq<char> {
    "(`-` means the EC has no such command.)"@
}

/// One command's row: its number as `0x` and four hex digits, its name, the
/// versions the EC implements (`-` when it has no such command) in aligned
/// columns, then what the command is for.
pub open spec fn supported_row_text(cmd: EcCmd, purpose: Seq<char>, versions: Option<u32>) -> Seq<
    char,
> {
    pad_back("0x"@ + pad_front(hex(ec_cmd_code(cmd) as nat), 4, '0'), 8) + " "@ + pad_back(
        ec_cmd_name(cmd),
        24,
    ) + " "@ + pad_back(
        match versions {
            Some(mask) => version_list_text(mask),
            None => "-"@,
        },
        10,
    ) + " "@ + purpose
}

/// One command's row, see [`supported_row_text`].
pub fn supported_row(cmd: EcCmd, purpose: &str, versions: Option<u32>) -> (r: String)
    ensures
        r@ == supported_row_text(cmd, purpose@, versions),
{
    proof {
        reveal_strlit("-");
        reveal_strlit(" ");
        reveal_strlit("0x");
    }
    let mut code = String::new();
    push_prefixed_hex(&mut code, cmd.code() as u64, 6);
    let v = match versions {
        Some(mask) => version_list(mask),
        None => String::from_str("-"),
    };
    let mut s = String::new();
    push_padded_back(&mut s, code.as_str(), 8);
    push_str(&mut s, " ");
    push_padded_back(&mut s, cmd.name(), 24);
    push_str(&mut s, " ");
    push_padded_back(&mut s, v.as_str(), 10);
    push_str(&mut s, " ");
    push_str(&mut s, purpose);
    assert(code@ =~= "0x"@ + pad_front(hex(ec_cmd_code(cmd) as nat), 4, '0'));
    assert(s@ =~= supported_row_text(cmd, purpose@, versions));
    s
}

/// `r` is what asking `xfer` which versions of `cmd` it implements can give.
pub open spec fn versions_answered<F: Fn(&CrosEcCommandV2) -> Result<EcReply, EcError>>(
    xfer: F,
    cmd: EcCmd,
    r: Result<Option<u32>, EcError>,
) -> bool {
    exists|o: Result<EcResponseGetCmdVersions, EcError>|
        answered::<GetCmdVersions, F>(xfer, EcParamsGetCmdVersionsV1 { cmd: ec_cmd_code(cmd) }, o)
            && r == versions_from(o)
}

/// The list's lines once `vs` are the versions of the first `vs.len()`
/// commands: title, header, a row for each.
pub open spec fn supported_rows(vs: Seq<Option<u32>>) -> Seq<Seq<char>> {
    seq![supported_title(), supported_header()] + Seq::new(
        vs.len(),
        |k: int| supported_row_text(spec_pd_commands()[k].0, spec_pd_commands()[k].1, vs[k]),
    )
}

/// The commands' versions `vs`, one for each of the first `vs.len()`
/// commands of the list, are answers `xfer` can give.
pub open spec fn all_versions_answered<F: Fn(&CrosEcCommandV2) -> Result<EcReply, EcError>>(
    xfer: F,
    vs: Seq<Option<u32>>,
) -> bool {
    &&& vs.len() <= spec_pd_commands().len()
    &&& forall|k: int|
        0 <= k < vs.len() ==> versions_answered(xfer, spec_pd_commands()[k].0, Ok(#[trigger] vs[k]))
}

/// Ask the EC, command by command, which of the PD host commands it
/// implements, and in which versions.
///
/// Returns the lines printed and how it went. A failure is systemic (the
/// device is unreachable, or the EC cannot say which commands it has) so the
/// list stops at the first one, with the lines so far.
pub fn print_supported<F: Fn(&CrosEcCommandV2) -> Result<EcReply, EcError>>(xfer: &F) -> (r: (
    Vec<String>,
    Result<(), ToolError>,
))
    requires
        forall|f: &CrosEcCommandV2| xfer.requires((f,)),
    ensures
        exists|vs: Seq<Option<u32>>|
            #![trigger supported_rows(vs)]
            all_versions_answered(*xfer, vs) && if vs.len() == spec_pd_commands().len() {
                texts(r.0@) == supported_rows(vs).push(supported_footer()) && r.1 is Ok
            } else {
                texts(r.0@) == supported_rows(vs) && exists|e: EcError|
                    versions_answered(*xfer, spec_pd_commands()[vs.len() as int].0, Err(e)) && r.1
                        == Err::<(), ToolError>(ToolError::Ec(e))
            },
{
    proof {
        reveal_strlit("--- PD host commands this EC implements ---");
        reveal_strlit("Cmd      Name                     Versions   Purpose");
        reveal_strlit("(`-` means the EC has no such command.)");
    }
    let cmds = pd_commands();
    let mut lines: Vec<String> = Vec::new();
    lines.push(String::from_str("--- PD host commands this EC implements ---"));
    lines.push(String::from_str("Cmd      Name                     Versions   Purpose"));
    let ghost mut vs: Seq<Option<u32>> = Seq::empty();
    assert(texts(lines@) =~= supported_rows(vs));
    let mut k: usize = 0;
    while k < cmds.len()
        invariant
            k <= cmds.len(),
            cmds.len() == spec_pd_commands().len(),
            forall|i: int|
                0 <= i < cmds.len() ==> (#[trigger] cmds@[i]).0 == spec_pd_commands()[i].0
                    && cmds@[i].1@ == spec_pd_commands()[i].1,
            forall|f: &CrosEcCommandV2| xfer.requires((f,)),
            vs.len() == k,
            all_versions_answered(*xfer, vs),
            texts(lines@) == supported_rows(vs),
        decreases cmds.len() - k,
    {
        let (cmd, purpose) = cmds[k];
        let v = command_versions(xfer, cmd);
        let ghost gv = v;
        match v {
            Err(e) => {
                proof {
                    assert(versions_answered(*xfer, spec_pd_commands()[k as int].0, gv));
                }
                return (lines, Err(ToolError::Ec(e)));
            },
            Ok(mask) => {
                let row = supported_row(cmd, purpose, mask);
                let ghost before = lines@;
                lines.push(row);
                proof {
                    let old_vs = vs;
                    vs = vs.push(mask);
                    assert(versions_answered(*xfer, spec_pd_commands()[k as int].0, Ok(mask)));
                    assert forall|i: int| 0 <= i < vs.len() implies versions_answered(
                        *xfer,
                        spec_pd_commands()[i].0,
                        Ok(#[trigger] vs[i]),
                    ) by {
                        if i < k {
                            assert(vs[i] == old_vs[i]);
                        }
                    }
                    assert(texts(lines@) =~= texts(before).push(row@));
                    assert(texts(lines@) =~= supported_rows(vs));
                }
            },
        }
        k = k + 1;
    }
    let ghost body = lines@;
    lines.push(String::from_str("(`-` means the EC has no such command.)"));
    assert(texts(lines@) =~= texts(body).push(supported_footer()));
    (lines, Ok(()))
}

/// A line of output, and whether it goes to standard error.
pub struct Line {
    /// Whether the line is a warning for standard error.
    pub to_stderr: bool,
    /// The line, without its newline.
    pub text: String,
}

/// How a run ended: it went through, the EC failed, or it stopped with a
/// message.
pub enum RunEnd {
    Done,
    Ec(EcError),
    Says,
}

/// How a tool outcome ended, and its message when it stopped with one.
pub open spec fn end_of(r: Result<(), ToolError>) -> (RunEnd, Seq<char>) {
    match r {
        Ok(()) => (RunEnd::Done, Seq::empty()),
        Err(ToolError::Ec(e)) => (RunEnd::Ec(e), Seq::empty()),
        Err(ToolError::Message(m)) => (RunEnd::Says, m@),
    }
}

/// Each line as whether it goes to standard error and its text.
pub open spec fn line_views(lines: Seq<Line>) -> Seq<(bool, Seq<char>)> {
    lines.map_values(|l: Line| (l.to_stderr, l.text@))
}

/// The warning when the port could not be read before setting it.
pub open spec fn guard_warning(port: u8, e: EcError) -> Seq<char> {
    "[WARN]: could not read port "@ + decimal(port as nat) + " state before setting it: "@
        + error_text(e)
}

/// The note that the role was set, with the state the PD state machine is
/// now at.
pub open spec fn set_done_text(port: u8, role: RoleRequest, state: u8) -> Seq<char> {
    "[INFO]: Set port "@ + decimal(port as nat) + " to `"@ + role_name(role)
        + "` (PD state machine now at "@ + decimal(state as nat) + ")."@
}

/// The line after reading the port back: the role it now reports, or a
/// warning that it could not be read.
pub open spec fn readback_line(port: u8, o: Result<EcResponseUsbPdPowerInfo, EcError>) -> (
    bool,
    Seq<char>,
) {
    match o {
        Ok(info) => (
            false,
            "[INFO]: Port "@ + decimal(port as nat) + " now reports role "@ + role_text(info.role)
                + "."@,
        ),
        Err(e) => (
            true,
            "[WARN]: could not read back port "@ + decimal(port as nat) + ": "@ + error_text(e),
        ),
    }
}

/// How to undo a role other than `auto`.
pub open spec fn restore_lines(port: u8, role: RoleRequest) -> Seq<(bool, Seq<char>)> {
    if role != RoleRequest::Auto {
        seq![
            (
                false,
                "[INFO]: Restore normal behaviour with `fw-pdctl set "@ + decimal(port as nat)
                    + " auto`."@,
            ),
        ]
    } else {
        Seq::empty()
    }
}

/// The port's current role, when the guard read it and knows the role.
pub open spec fn guarded_role(g: Option<Result<EcResponseUsbPdPowerInfo, EcError>>) -> Option<PowerRole> {
    match g {
        Some(Ok(info)) => spec_power_role(info.role),
        _ => None,
    }
}

/// What setting `port` to `role` prints and how it ends, given the port
/// count `c`, the guard's reading `g` (present exactly when the role can cut
/// the port's input and `force` is not given), the EC's answer `so` to the
/// role command, and the reading `b` after it. `None` when the answers given
/// do not fit the run.
///
/// The run: the port is checked against the count; the guard refuses when
/// the port is drawing power, and only warns when it cannot be read; then
/// the role is set, the port read back, and, unless the role was `auto`,
/// how to restore it is said.
pub open spec fn set_role_run(
    port: u8,
    role: RoleRequest,
    force: bool,
    c: Result<u8, EcError>,
    g: Option<Result<EcResponseUsbPdPowerInfo, EcError>>,
    so: Option<Result<EcResponseUsbPdControl, EcError>>,
    b: Option<Result<EcResponseUsbPdPowerInfo, EcError>>,
) -> Option<(Seq<(bool, Seq<char>)>, (RunEnd, Seq<char>))> {
    let nothing_after = g is None && so is None && b is None;
    match c {
        Err(e) => if nothing_after {
            Some((Seq::empty(), (RunEnd::Ec(e), Seq::empty())))
        } else {
            None
        },
        Ok(count) => if port >= count {
            if nothing_after {
                Some((Seq::empty(), (RunEnd::Says, port_range_message(port, count))))
            } else {
                None
            }
        } else if (g is Some) != !(role == RoleRequest::NoChange || role == RoleRequest::ForceSink
            || force) {
            None
        } else if refuses_role_change(role, force, guarded_role(g)) {
            if so is None && b is None {
                Some((Seq::empty(), (RunEnd::Says, refusal_text(port, guarded_role(g)->0, role))))
            } else {
                None
            }
        } else {
            let warn = match g {
                Some(Err(e)) => seq![(true, guard_warning(port, e))],
                _ => Seq::empty(),
            };
            match so {
                None => None,
                Some(Err(e)) => if b is None {
                    Some((warn, (RunEnd::Ec(e), Seq::empty())))
                } else {
                    None
                },
                Some(Ok(resp)) => match b {
                    None => None,
                    Some(bo) => Some(
                        (
                            warn + seq![(false, set_done_text(port, role, resp.state))] + seq![
                                readback_line(port, bo),
                            ] + restore_lines(port, role),
                            (RunEnd::Done, Seq::empty()),
                        ),
                    ),
                },
            }
        }
    }
}

/// A line for standard output.
fn out_line(text: String) -> (l: Line)
    ensures
        l.to_stderr == false,
        l.text@ == text@,
{
    Line { to_stderr: false, text }
}

/// A line for standard error.
fn err_line(text: String) -> (l: Line)
    ensures
        l.to_stderr == true,
        l.text@ == text@,
{
    Line { to_stderr: true, text }
}

/// Pin `port` to `role`, see [`set_role_run`].
///
/// Pinning a port that is currently feeding the machine takes its own power
/// away, and there is no getting the command back once it lands, so that is
/// refused unless `force` is given. Returns the lines printed, in order, and
/// how it went.
pub fn set_role_report<F: Fn(&CrosEcCommandV2) -> Result<EcReply, EcError>>(
    xfer: &F,
    port: u8,
    role: RoleRequest,
    force: bool,
) -> (r: (Vec<Line>, Result<(), ToolError>))
    requires
        forall|f: &CrosEcCommandV2| xfer.requires((f,)),
    ensures
        exists|
            c: Result<u8, EcError>,
            g: Option<Result<EcResponseUsbPdPowerInfo, EcError>>,
            so: Option<Result<EcResponseUsbPdControl, EcError>>,
            b: Option<Result<EcResponseUsbPdPowerInfo, EcError>>,
        |
            #![trigger set_role_run(port, role, force, c, g, so, b)]
            count_answered(*xfer, c) && (g matches Some(o) ==> info_answered(*xfer, port, o)) && (
            so matches Some(o) ==> answered::<UsbPdControl, F>(
                *xfer,
                set_role_params(port, role),
                o,
            )) && (b matches Some(o) ==> info_answered(*xfer, port, o)) && set_role_run(
                port,
                role,
                force,
                c,
                g,
                so,
                b,
            ) == Some((line_views(r.0@), end_of(r.1))),
{
    proof {
        reveal_strlit("[WARN]: could not read port ");
        reveal_strlit(" state before setting it: ");
        reveal_strlit("[INFO]: Set port ");
        reveal_strlit(" to `");
        reveal_strlit("` (PD state machine now at ");
        reveal_strlit(").");
        reveal_strlit("[INFO]: Port ");
        reveal_strlit(" now reports role ");
        reveal_strlit(".");
        reveal_strlit("[WARN]: could not read back port ");
        reveal_strlit(": ");
        reveal_strlit("[INFO]: Restore normal behaviour with `fw-pdctl set ");
        reveal_strlit(" auto`.");
    }
    let mut lines: Vec<Line> = Vec::new();
    let ghost mut g: Option<Result<EcResponseUsbPdPowerInfo, EcError>> = None;
    let c = charge_port_count(xfer);
    let ghost gc = c;
    assert(count_answered(*xfer, gc));
    let count = match c {
        Err(e) => {
            assert(set_role_run(port, role, force, gc, g, None, None) == Some((line_views(lines@), end_of(Err(ToolError::Ec(e))))));
            return (lines, Err(ToolError::Ec(e)));
        },
        Ok(count) => count,
    };
    match check_port(port, count) {
        Err(e) => {
            assert(set_role_run(port, role, force, gc, g, None, None) == Some((line_views(lines@), end_of(Err(e)))));
            return (lines, Err(e));
        },
        Ok(()) => {},
    }
    if role.can_drop_input() && !force {
        let o = power_info(xfer, port);
        proof {
            g = Some(o);
        }
        match o {
            Ok(info) => {
                let current = info.power_role();
                match role_change_refusal(port, role, force, current) {
                    Some(m) => {
                        let ghost end = end_of(Err(ToolError::Message(m)));
                        assert(set_role_run(port, role, force, gc, g, None, None) == Some((line_views(lines@), end)));
                        return (lines, Err(ToolError::Message(m)));
                    },
                    None => {},
                }
            },
            Err(e) => {
                let mut w = String::new();
                push_str(&mut w, "[WARN]: could not read port ");
                push_decimal(&mut w, port as u64);
                push_str(&mut w, " state before setting it: ");
                let d = e.describe();
                push_str(&mut w, d.as_str());
                assert(w@ =~= guard_warning(port, e));
                lines.push(err_line(w));
            },
        }
    }
    let ghost warn = line_views(lines@);
    let so = set_role(xfer, port, role);
    let ghost gso = so;
    let resp = match so {
        Err(e) => {
            assert(set_role_run(port, role, force, gc, g, Some(gso), None) == Some((line_views(lines@), end_of(Err(ToolError::Ec(e))))));
            return (lines, Err(ToolError::Ec(e)));
        },
        Ok(resp) => resp,
    };
    let mut done = String::new();
    push_str(&mut done, "[INFO]: Set port ");
    push_decimal(&mut done, port as u64);
    push_str(&mut done, " to `");
    push_str(&mut done, role.name());
    push_str(&mut done, "` (PD state machine now at ");
    push_decimal(&mut done, resp.state as u64);
    push_str(&mut done, ").");
    assert(done@ =~= set_done_text(port, role, resp.state));
    lines.push(out_line(done));
    let b = power_info(xfer, port);
    let ghost gb = b;
    match b {
        Ok(info) => {
            let mut m = String::new();
            push_str(&mut m, "[INFO]: Port ");
            push_decimal(&mut m, port as u64);
            push_str(&mut m, " now reports role ");
            let now = role_string(info.role);
            push_str(&mut m, now.as_str());
            push_str(&mut m, ".");
            assert(m@ =~= readback_line(port, gb).1);
            lines.push(out_line(m));
        },
        Err(e) => {
            let mut m = String::new();
            push_str(&mut m, "[WARN]: could not read back port ");
            push_decimal(&mut m, port as u64);
            push_str(&mut m, ": ");
            let d = e.describe();
            push_str(&mut m, d.as_str());
            assert(m@ =~= readback_line(port, gb).1);
            lines.push(err_line(m));
        },
    }
    if role != RoleRequest::Auto {
        let mut m = String::new();
        push_str(&mut m, "[INFO]: Restore normal behaviour with `fw-pdctl set ");
        push_decimal(&mut m, port as u64);
        push_str(&mut m, " auto`.");
        lines.push(out_line(m));
    }
    proof {
        assert(line_views(lines@) =~= warn + seq![(false, set_done_text(port, role, resp.state))]
            + seq![readback_line(port, gb)] + restore_lines(port, role));
        assert(set_role_run(port, role, force, gc, g, Some(gso), Some(gb)) == Some((line_views(lines@), end_of(Ok(())))));
    }
    (lines, Ok(()))
}

} // verus!
