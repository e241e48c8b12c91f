use fw_ec::command::{CrosEcCommandV2, EcReply};
use fw_ec::ec_cmd::EcCmd;
use fw_ec::error::{EcError, ToolError};
use fw_ec::pd::{
    RoleRequest, data_role_cap_name, pd_commands, power_role_cap_name, try_power_role_cap_name,
};
use fw_ec::pdctl::{
    active_charge_port, active_warning, charge_override, check_port, format_microwatts, hint_for,
    override_messages, ports, role_change_refusal, version_list,
};
use fw_ec::report::{print_caps, print_status, print_supported, probe, set_role_report, Line};
use fw_ec::status::EcStatus;
use fw_ec::usbpd::{OVERRIDE_DONT_CHARGE, OVERRIDE_OFF, PowerRole};

/// A fake EC with two ports: port 0 charging the system, port 1 empty.
/// `role_control` decides whether it implements `USB_PD_CONTROL`.
fn fake_ec(role_control: bool) -> impl Fn(&CrosEcCommandV2) -> Result<EcReply, EcError> {
    move |f: &CrosEcCommandV2| {
        let code = f.command as u16;
        if code == EcCmd::ChargePortCount.code() {
            Ok(EcReply { result: 0, data: vec![2] })
        } else if code == EcCmd::UsbPdPowerInfo.code() {
            let data = if f.data[0] == 0 {
                let mut b = vec![2, 1, 1, 0];
                b.extend_from_slice(&20000u16.to_le_bytes());
                b.extend_from_slice(&19800u16.to_le_bytes());
                b.extend_from_slice(&5000u16.to_le_bytes());
                b.extend_from_slice(&3250u16.to_le_bytes());
                b.extend_from_slice(&65_000_000u32.to_le_bytes());
                b
            } else {
                vec![0; 16]
            };
            Ok(EcReply { result: 0, data })
        } else if code == EcCmd::UsbPdControl.code() && role_control {
            Ok(EcReply { result: 0, data: vec![1, f.data[1], 0, 7] })
        } else if code == EcCmd::PdChargePortOverride.code() {
            Ok(EcReply { result: 0, data: Vec::new() })
        } else if code == EcCmd::GetCmdVersions.code() {
            let cmd = u16::from_le_bytes([f.data[0], f.data[1]]);
            if cmd == EcCmd::UsbPdPowerInfo.code() {
                Ok(EcReply { result: 0, data: vec![1, 0, 0, 0] })
            } else {
                Ok(EcReply { result: 3, data: Vec::new() })
            }
        } else {
            Ok(EcReply { result: 1, data: Vec::new() })
        }
    }
}

fn texts(lines: &[Line]) -> Vec<(bool, String)> {
    lines.iter().map(|l| (l.to_stderr, l.text.clone())).collect()
}

#[test]
fn microwatts_and_versions() {
    assert_eq!(format_microwatts(65_000_000), "65.00 W");
    assert_eq!(format_microwatts(7_590_000), "7.59 W");
    assert_eq!(format_microwatts(0), "0.00 W");
    assert_eq!(version_list(0), "none");
    assert_eq!(version_list(0b1011), "v0,v1,v3");
    assert_eq!(version_list(1 << 31), "v31");
}

#[test]
fn ports_and_their_range() {
    let ec = fake_ec(false);
    assert_eq!(ports(&ec, None).unwrap(), vec![0, 1]);
    assert_eq!(ports(&ec, Some(1)).unwrap(), vec![1]);
    match ports(&ec, Some(2)) {
        Err(ToolError::Message(m)) => {
            assert_eq!(m, "port 2 is out of range; the EC reports 2 ports")
        },
        _ => panic!("expected a range message"),
    }
    assert!(check_port(0, 1).is_ok());
}

#[test]
fn hints_for_common_failures() {
    let unavailable = ToolError::Ec(EcError::Unavailable("denied".to_string()));
    assert_eq!(
        hint_for(&unavailable),
        Some("/dev/cros_ec is root-only; try running this under sudo.")
    );
    let not_implemented = ToolError::Ec(EcError::Rejected {
        command: EcCmd::UsbPdControl,
        version: 0,
        status: EcStatus(1),
    });
    assert_eq!(
        hint_for(&not_implemented),
        Some("This EC does not implement that command. Run `fw-pdctl supported` to see what it does.")
    );
    let bad = ToolError::Ec(EcError::Rejected { command: EcCmd::UsbPdControl, version: 0, status: EcStatus(3) });
    assert_eq!(hint_for(&bad), Some("The EC rejected the parameters; check the port index."));
    assert_eq!(hint_for(&ToolError::Message("x".to_string())), None);
}

#[test]
fn status_table() {
    let lines = print_status(&fake_ec(false), None).unwrap();
    assert_eq!(lines.len(), 4);
    assert_eq!(lines[0], "--- USB-PD Ports ---");
    assert_eq!(
        lines[1],
        format!(
            "{:<5} {:<16} {:<12} {:>15} {:>14} {:>11}  Partner",
            "Port", "Role", "Charger", "Volt now/max", "Curr lim/max", "Max power"
        )
    );
    assert_eq!(
        lines[2],
        format!(
            "{:<5} {:<16} {:<12} {:>15} {:>14} {:>11}  {}",
            0, "Sink", "PD", "19800/20000mV", "3250/5000mA", "65.00 W", "dual-role"
        )
    );
    assert_eq!(
        lines[3],
        format!("{:<5} {:<16} {:<12} {:>15} {:>14} {:>11}  {}", 1, "Disconnected", "None", "-", "-", "-", "")
    );
}

#[test]
fn caps_table_shows_the_failure_per_port() {
    let lines = print_caps(&fake_ec(false), Some(1)).unwrap();
    assert_eq!(lines.len(), 3);
    assert_eq!(lines[1], "Port  Power role   Try role     Data role    Location");
    assert_eq!(
        lines[2],
        "1     EC rejected GetPdPortCaps (v0): EC_RES_INVALID_COMMAND (1)"
    );
    assert_eq!(power_role_cap_name(2), Some("dual-role"));
    assert_eq!(try_power_role_cap_name(1), Some("try-sink"));
    assert_eq!(data_role_cap_name(0), Some("DFP"));
    assert_eq!(data_role_cap_name(9), None);
}

#[test]
fn probe_reports_whether_role_control_exists() {
    let lines = probe(&fake_ec(true), None).unwrap();
    assert_eq!(
        lines,
        vec![
            "--- USB_PD_CONTROL probe (no-op, changes nothing) ---",
            "Port 0: accepted (pd_enabled=1, role=0, polarity=0, state=7)",
            "Port 1: accepted (pd_enabled=1, role=0, polarity=0, state=7)",
            "[INFO]: This EC implements role control; `set` should work.",
        ]
    );
    let lines = probe(&fake_ec(false), Some(0)).unwrap();
    assert_eq!(lines.len(), 4);
    assert_eq!(lines[1], "Port 0: EC rejected UsbPdControl (v0): EC_RES_INVALID_COMMAND (1)");
    assert_eq!(lines[2], "[WARN]: No port accepted the command. Role control is unavailable here.");
}

#[test]
fn supported_list() {
    let (lines, r) = print_supported(&fake_ec(false));
    assert!(r.is_ok());
    assert_eq!(lines.len(), pd_commands().len() + 3);
    assert_eq!(lines[1], format!("{:<8} {:<24} {:<10} Purpose", "Cmd", "Name", "Versions"));
    let info_row = lines.iter().find(|l| l.contains("UsbPdPowerInfo")).unwrap();
    assert_eq!(
        *info_row,
        format!("{:<8} {:<24} {:<10} {}", "0x0103", "UsbPdPowerInfo", "v0", "per-port negotiated power")
    );
    assert!(lines[2].starts_with("0x0030   UsbChargeSetMode         -          "));
    assert_eq!(lines.last().unwrap(), "(`-` means the EC has no such command.)");
}

#[test]
fn supported_list_stops_at_a_systemic_failure() {
    let ec = |_: &CrosEcCommandV2| -> Result<EcReply, EcError> { Ok(EcReply { result: 1, data: Vec::new() }) };
    let (lines, r) = print_supported(&ec);
    assert_eq!(lines.len(), 2);
    assert!(matches!(r, Err(ToolError::Ec(EcError::Rejected { command: EcCmd::GetCmdVersions, .. }))));
}

#[test]
fn setting_a_charging_port_is_refused_without_force() {
    let (lines, r) = set_role_report(&fake_ec(true), 0, RoleRequest::ForceSource, false);
    assert!(lines.is_empty());
    match r {
        Err(ToolError::Message(m)) => assert_eq!(
            m,
            "port 0 is currently Sink — it is powering this system, and setting it to `source` would cut that input. Pass --force if that is what you want."
        ),
        _ => panic!("expected a refusal"),
    }
}

#[test]
fn setting_a_role_reports_and_reads_back() {
    let (lines, r) = set_role_report(&fake_ec(true), 0, RoleRequest::ForceSource, true);
    assert!(r.is_ok());
    assert_eq!(
        texts(&lines),
        vec![
            (false, "[INFO]: Set port 0 to `source` (PD state machine now at 7).".to_string()),
            (false, "[INFO]: Port 0 now reports role Sink.".to_string()),
            (false, "[INFO]: Restore normal behaviour with `fw-pdctl set 0 auto`.".to_string()),
        ]
    );
    let (lines, r) = set_role_report(&fake_ec(true), 1, RoleRequest::Auto, false);
    assert!(r.is_ok());
    assert_eq!(lines.len(), 2);
    let (lines, r) = set_role_report(&fake_ec(false), 1, RoleRequest::ForceSink, false);
    assert!(lines.is_empty());
    assert!(matches!(r, Err(ToolError::Ec(EcError::Rejected { .. }))));
    let (_, r) = set_role_report(&fake_ec(true), 5, RoleRequest::Auto, false);
    assert!(matches!(r, Err(ToolError::Message(m)) if m == "port 5 is out of range; the EC reports 2 ports"));
}

#[test]
fn role_change_refusal_only_for_input_dropping_roles() {
    assert!(role_change_refusal(0, RoleRequest::ForceSink, false, Some(PowerRole::Sink)).is_none());
    assert!(role_change_refusal(0, RoleRequest::Auto, true, Some(PowerRole::Sink)).is_none());
    assert!(role_change_refusal(0, RoleRequest::Auto, false, Some(PowerRole::Source)).is_none());
    assert!(role_change_refusal(0, RoleRequest::Freeze, false, Some(PowerRole::SinkNotCharging)).is_some());
}

#[test]
fn charge_override_targets() {
    let ec = fake_ec(false);
    let (warn, r) = charge_override(&ec, "none");
    assert_eq!(warn, Some(0));
    assert_eq!(r.unwrap(), OVERRIDE_DONT_CHARGE);
    let (warn, r) = charge_override(&ec, "off");
    assert_eq!(warn, None);
    assert_eq!(r.unwrap(), OVERRIDE_OFF);
    let (_, r) = charge_override(&ec, "1");
    assert_eq!(r.unwrap(), 1);
    let (_, r) = charge_override(&ec, "+1");
    assert_eq!(r.unwrap(), 1);
    match charge_override(&ec, "usb").1 {
        Err(ToolError::Message(m)) => assert_eq!(m, "expected a port index, `off`, or `none`, got `usb`"),
        _ => panic!("expected a message"),
    }
    assert!(matches!(charge_override(&ec, "3").1, Err(ToolError::Message(_))));
    assert!(matches!(charge_override(&ec, "256").1, Err(ToolError::Message(_))));
    assert_eq!(active_charge_port(&ec).unwrap(), Some(0));
    assert_eq!(active_warning(0), "[WARN]: Port 0 is charging this system right now.");
    assert_eq!(override_messages(OVERRIDE_OFF), vec!["[INFO]: Charge port selection handed back to the EC."]);
    assert_eq!(
        override_messages(1),
        vec!["[INFO]: Charging forced to port 1.", "[INFO]: Restore with `fw-pdctl charge-override off`."]
    );
    assert_eq!(override_messages(OVERRIDE_DONT_CHARGE)[0], "[INFO]: Charging disabled on all ports.");
}

#[test]
fn charge_override_reads_ports_as_str_parse_does() {
    let ec = fake_ec(false);
    assert_eq!(charge_override(&ec, "01").1.unwrap(), 1);
    assert_eq!(charge_override(&ec, "+0").1.unwrap(), 0);
    for bad in ["", "+", "-1", "++1", " 1", "1 ", "1a", "0256"] {
        match charge_override(&ec, bad).1 {
            Err(ToolError::Message(m)) => {
                assert_eq!(m, format!("expected a port index, `off`, or `none`, got `{}`", bad))
            }
            _ => panic!("`{}` should be refused", bad),
        }
    }
    for out_of_range in ["2", "255", "0255"] {
        assert!(matches!(charge_override(&ec, out_of_range).1, Err(ToolError::Message(_))));
    }
}
