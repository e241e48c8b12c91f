use fw_ec::battery::get_battery_dynamic_info;
use fw_ec::command::{CrosEcCommandV2, EcReply, call};
use fw_ec::ec_cmd::EcCmd;
use fw_ec::error::EcError;
use fw_ec::fans::{set_auto, set_duty};
use fw_ec::introspect::{command_versions, command_versions_raw, is_supported};
use fw_ec::status::EcStatus;
use fw_ec::usbpd::{
    ChargePortCount, ChargeType, OVERRIDE_DONT_CHARGE, PowerRole, UsbPdPowerInfo,
    charge_port_count, power_info, set_charge_override,
};
use fw_ec::usbpd::EcParamsUsbPdPowerInfo;

fn reply(result: u32, data: Vec<u8>) -> Result<EcReply, EcError> {
    Ok(EcReply { result, data })
}

fn power_bytes(role: u8, charge_type: u8, vmax: u16, vnow: u16, cmax: u16, clim: u16, mw: u32) -> Vec<u8> {
    let mut b = vec![role, charge_type, 1, 0];
    b.extend_from_slice(&vmax.to_le_bytes());
    b.extend_from_slice(&vnow.to_le_bytes());
    b.extend_from_slice(&cmax.to_le_bytes());
    b.extend_from_slice(&clim.to_le_bytes());
    b.extend_from_slice(&mw.to_le_bytes());
    b
}

#[test]
fn call_frames_the_request_and_decodes_the_reply() {
    let xfer = |f: &CrosEcCommandV2| {
        assert_eq!(f.command, u32::from(EcCmd::UsbPdPowerInfo.code()));
        assert_eq!(f.version, 0);
        assert_eq!(f.outsize, 1);
        assert_eq!(f.insize, 16);
        assert_eq!(f.result, 0);
        assert_eq!(f.data.len(), 16);
        assert_eq!(f.data[0], 3);
        assert!(f.data[1..].iter().all(|&b| b == 0), "the gap after the request is zeroed");
        reply(0, power_bytes(2, 1, 20000, 19800, 5000, 3000, 60_000_000))
    };
    let info = call::<UsbPdPowerInfo, _>(&xfer, EcParamsUsbPdPowerInfo { port: 3 }).unwrap();
    assert_eq!(info.role, 2);
    assert_eq!(info.voltage_max, 20000);
    assert_eq!(info.voltage_now, 19800);
    assert_eq!(info.current_max, 5000);
    assert_eq!(info.current_lim, 3000);
    assert_eq!(info.max_power, 60_000_000);
    assert_eq!(info.power_role(), Some(PowerRole::Sink));
    assert_eq!(info.charger_type(), Some(ChargeType::Pd));
    assert!(info.is_active_charger());
}

#[test]
fn a_refused_command_is_an_error_with_its_status() {
    let xfer = |_: &CrosEcCommandV2| reply(1, vec![0; 16]);
    match power_info(&xfer, 0) {
        Err(EcError::Rejected { command, version, status }) => {
            assert_eq!(command, EcCmd::UsbPdPowerInfo);
            assert_eq!(version, 0);
            assert_eq!(status, EcStatus(1));
        },
        other => panic!("expected a refusal, got {other:?}"),
    }
}

#[test]
fn a_short_reply_is_an_error() {
    let xfer = |_: &CrosEcCommandV2| reply(0, vec![2, 1, 0]);
    match power_info(&xfer, 0) {
        Err(EcError::ShortResponse { command, expected, got }) => {
            assert_eq!(command, EcCmd::UsbPdPowerInfo);
            assert_eq!(expected, 16);
            assert_eq!(got, 3);
        },
        other => panic!("expected a short response, got {other:?}"),
    }
}

#[test]
fn transport_errors_pass_through() {
    let xfer = |_: &CrosEcCommandV2| -> Result<EcReply, EcError> {
        Err(EcError::Unavailable("no device".to_string()))
    };
    assert!(matches!(charge_port_count(&xfer), Err(EcError::Unavailable(ref s)) if s == "no device"));
}

#[test]
fn port_count_is_capped_at_the_protocol_maximum() {
    let xfer = |f: &CrosEcCommandV2| {
        assert_eq!(f.command, u32::from(EcCmd::ChargePortCount.code()));
        reply(0, vec![12])
    };
    assert_eq!(charge_port_count(&xfer).unwrap(), 8);
    let xfer = |_: &CrosEcCommandV2| reply(0, vec![4, 99]);
    assert_eq!(charge_port_count(&xfer).unwrap(), 4);
    let r = call::<ChargePortCount, _>(&xfer, ()).unwrap();
    assert_eq!(r.port_count, 4);
}

#[test]
fn charge_override_sends_the_port_little_endian() {
    let xfer = |f: &CrosEcCommandV2| {
        assert_eq!(f.command, u32::from(EcCmd::PdChargePortOverride.code()));
        assert_eq!(f.outsize, 2);
        assert_eq!(f.insize, 0);
        assert_eq!(f.data, vec![0xFE, 0xFF]);
        reply(0, Vec::new())
    };
    assert!(set_charge_override(&xfer, OVERRIDE_DONT_CHARGE).is_ok());
}

#[test]
fn fan_duty_and_auto() {
    let xfer = |f: &CrosEcCommandV2| {
        if f.command == u32::from(EcCmd::PwmSetFanDuty.code()) {
            assert_eq!(f.outsize, 4);
            assert_eq!(f.data, vec![42, 0, 0, 0]);
        } else {
            assert_eq!(f.command, u32::from(EcCmd::ThermalAutoFanCtrl.code()));
            assert_eq!(f.outsize, 0);
            assert!(f.data.is_empty());
        }
        reply(0, Vec::new())
    };
    assert!(set_duty(&xfer, 42).is_ok());
    assert!(set_auto(&xfer).is_ok());
}

#[test]
fn command_versions_reads_the_mask_and_no_such_command() {
    let xfer = |f: &CrosEcCommandV2| {
        assert_eq!(f.command, u32::from(EcCmd::GetCmdVersions.code()));
        assert_eq!(f.version, 1);
        let cmd = u16::from_le_bytes([f.data[0], f.data[1]]);
        if cmd == EcCmd::UsbPdPowerInfo.code() {
            reply(0, vec![0b101, 0, 0, 0])
        } else if cmd == 0x7777 {
            reply(2, Vec::new())
        } else {
            reply(3, Vec::new())
        }
    };
    assert_eq!(command_versions(&xfer, EcCmd::UsbPdPowerInfo).unwrap(), Some(0b101));
    assert_eq!(command_versions(&xfer, EcCmd::TypecStatus).unwrap(), None);
    assert!(is_supported(&xfer, EcCmd::UsbPdPowerInfo).unwrap());
    assert!(!is_supported(&xfer, EcCmd::TypecStatus).unwrap());
    assert!(matches!(
        command_versions_raw(&xfer, 0x7777),
        Err(EcError::Rejected { status: EcStatus(2), .. })
    ));
}

#[test]
fn battery_dynamic_info_decodes_signed_values() {
    let xfer = |f: &CrosEcCommandV2| {
        assert_eq!(f.command, u32::from(EcCmd::BatteryGetDynamic.code()));
        assert_eq!(f.data[0], 0);
        let mut b = Vec::new();
        for v in [15400i16, -1200, 3000, 4000, 0x0C, 17600, 0] {
            b.extend_from_slice(&v.to_le_bytes());
        }
        reply(0, b)
    };
    let info = get_battery_dynamic_info(&xfer).unwrap();
    assert_eq!(info.actual_voltage, 15400);
    assert_eq!(info.actual_current, -1200);
    assert_eq!(info.remaining_capacity, 3000);
    assert_eq!(info.full_capacity, 4000);
    assert_eq!(info.flags, 0x0C);
    assert_eq!(info.desired_voltage, 17600);
    assert_eq!(info.desired_current, 0);
}

#[test]
fn only_the_selected_sink_is_the_active_charger() {
    let xfer = |_: &CrosEcCommandV2| reply(0, power_bytes(3, 1, 5000, 5000, 3000, 3000, 15_000_000));
    let info = power_info(&xfer, 0).unwrap();
    assert_eq!(info.power_role(), Some(PowerRole::SinkNotCharging));
    assert!(info.power_role().unwrap().is_drawing_power());
    assert!(!info.is_active_charger());
    assert!(PowerRole::Sink.is_drawing_power());
    assert!(!PowerRole::Source.is_drawing_power());
}
