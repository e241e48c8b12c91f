use fw_ec::battery::{
    BATT_BLOCK_LEN, BATT_BLOCK_OFFSET, EcBattFlags, battery_info_lines, decode_battery_block,
    get_memmapped_battery_info,
};
use fw_ec::charging::{EcResponsePowerInfoV1, IntelBattDbpt, SystemPowerSource};
use fw_ec::command::{CrosEcCommandV2, EcReply};
use fw_ec::dto::{get_dynamic_info, get_mem_mapped_info, get_port_pd_info_dto, port_dto};
use fw_ec::ec_cmd::EcCmd;
use fw_ec::error::{EcError, ToolError};
use fw_ec::memmap::{CrosEcReadmemV2, EC_MEMMAP_SIZE, read_bytes};
use fw_ec::usb::{
    EcResponsePdChipInfoV1, fw_version_string, UsbPdMuxFlags, get_pd_chip_info, get_pd_chip_info_v1, get_port_pd_info, get_usb_pd_ports,
    validate_port,
};

fn battery_block() -> Vec<u8> {
    let mut b = vec![0u8; 64];
    b[0..4].copy_from_slice(&15432u32.to_le_bytes());
    b[4..8].copy_from_slice(&1250u32.to_le_bytes());
    b[8..12].copy_from_slice(&3100u32.to_le_bytes());
    b[12] = 0b0000_1011;
    b[13] = 1;
    b[14] = 0;
    b[16..20].copy_from_slice(&3915u32.to_le_bytes());
    b[20..24].copy_from_slice(&15480u32.to_le_bytes());
    b[24..28].copy_from_slice(&3800u32.to_le_bytes());
    b[28..32].copy_from_slice(&87u32.to_le_bytes());
    b[32..36].copy_from_slice(b"FRMW");
    b[40..48].copy_from_slice(b"FRANGWAT");
    b[48..51].copy_from_slice(b"042");
    b[56..60].copy_from_slice(b"LION");
    b
}

#[test]
fn read_bytes_refuses_spans_past_the_map() {
    let readmem = |_: &CrosEcReadmemV2| -> Result<Vec<u8>, EcError> { panic!("must not be asked") };
    let mut buf = [7u8; 10];
    match read_bytes(&readmem, 250, &mut buf) {
        Err(EcError::MemMapRange { offset, len }) => {
            assert_eq!(offset, 250);
            assert_eq!(len, 10);
        },
        other => panic!("expected a range error, got {other:?}"),
    }
    assert_eq!(buf, [7u8; 10]);
    assert_eq!(EC_MEMMAP_SIZE, 255);
}

#[test]
fn read_bytes_fills_the_buffer_or_reports_a_short_read() {
    let readmem = |q: &CrosEcReadmemV2| -> Result<Vec<u8>, EcError> {
        Ok((0..q.bytes as u8).map(|i| q.offset as u8 + i).collect())
    };
    let mut buf = [0u8; 4];
    read_bytes(&readmem, 0x40, &mut buf).unwrap();
    assert_eq!(buf, [0x40, 0x41, 0x42, 0x43]);
    let short = |_: &CrosEcReadmemV2| -> Result<Vec<u8>, EcError> { Ok(vec![1, 2]) };
    let mut buf = [9u8; 4];
    match read_bytes(&short, 0x10, &mut buf) {
        Err(EcError::ShortRead { offset, expected, got }) => {
            assert_eq!((offset, expected, got), (0x10, 4, 2));
        },
        other => panic!("expected a short read, got {other:?}"),
    }
    assert_eq!(buf, [9u8; 4]);
}

#[test]
fn battery_block_is_decoded_and_reported() {
    let readmem = |q: &CrosEcReadmemV2| -> Result<Vec<u8>, EcError> {
        assert_eq!(q.offset, BATT_BLOCK_OFFSET);
        assert_eq!(q.bytes as usize, BATT_BLOCK_LEN);
        Ok(battery_block())
    };
    let info = get_memmapped_battery_info(&readmem).unwrap();
    assert_eq!(info.volt, 15432);
    assert_eq!(info.rate, 1250);
    assert_eq!(info.cap, 3100);
    assert_eq!(info.state, EcBattFlags(0b0000_1011));
    assert_eq!(info.count, 1);
    assert_eq!(info.dcap, 3915);
    assert_eq!(info.dvlt, 15480);
    assert_eq!(info.lfcc, 3800);
    assert_eq!(info.ccnt, 87);
    let expected = "---- Stats for battery at index 0 ----\n\
Manufacturer:  FRMW\n\
Model:         FRANGWAT\n\
Serial:        042\n\
Type:          LION\n\
State:         AC_PRESENT, BATT_PRESENT, CHARGING\n\
Count:         1\n\
Cycle Count:   87\n\
Design Volt:   15.480 V\n\
Present Volt:  15.432 V\n\
Present Curr:  1.250 A\n\
Remain. mAh:   3100\n\
Design mAh:    3915\n\
Last Full mAh: 3800\n";
    assert_eq!(info.describe(), expected);
    assert_eq!(battery_info_lines(&info, "FRMW", "FRANGWAT", "042", "LION"), expected);
}

#[test]
fn a_short_battery_read_reads_as_zeros() {
    let readmem = |_: &CrosEcReadmemV2| -> Result<Vec<u8>, EcError> { Ok(vec![1, 0, 0, 0]) };
    let info = get_memmapped_battery_info(&readmem).unwrap();
    assert_eq!(info.volt, 1);
    assert_eq!(info.cap, 0);
    assert_eq!(info.mfgr, [0u8; 8]);
    let direct = decode_battery_block(&battery_block());
    assert_eq!(direct.serial, *b"042\0\0\0\0\0");
}

#[test]
fn battery_flag_names_keep_their_separator_quirk() {
    assert_eq!(EcBattFlags(0).describe(), "");
    assert_eq!(EcBattFlags(0b11).describe(), "AC_PRESENT, BATT_PRESENT");
    assert_eq!(EcBattFlags(0b100).describe(), ", DISCHARGING");
    assert_eq!(EcBattFlags(0xC0).describe(), ", UNKNOWN_6, UNKNOWN_7");
}

#[test]
fn the_battery_dto_carries_text_fields_as_text() {
    let readmem = |_: &CrosEcReadmemV2| -> Result<Vec<u8>, EcError> { Ok(battery_block()) };
    let dto = get_mem_mapped_info(&readmem).unwrap();
    assert_eq!(dto.volt, 15432);
    assert_eq!(dto.state, 0b0000_1011);
    assert_eq!(dto.mfgr, "FRMW");
    assert_eq!(dto.model, "FRANGWAT");
    assert_eq!(dto.serial, "042");
    assert_eq!(dto.battery_type, "LION");
    let failing = |_: &CrosEcReadmemV2| -> Result<Vec<u8>, EcError> {
        Err(EcError::Unavailable("x".to_string()))
    };
    assert!(get_mem_mapped_info(&failing).is_err());
}

fn pd_ec(f: &CrosEcCommandV2) -> Result<EcReply, EcError> {
    let code = f.command as u16;
    if code == EcCmd::UsbPdPowerInfo.code() {
        let mut b = vec![f.data[0] % 4, 1, 0, 0];
        b.extend_from_slice(&[0x20, 0x4E, 0x10, 0x4E, 0x88, 0x13, 0xB8, 0x0B]);
        b.extend_from_slice(&60_000_000u32.to_le_bytes());
        Ok(EcReply { result: 0, data: b })
    } else if code == EcCmd::UsbPdPorts.code() {
        Ok(EcReply { result: 0, data: vec![0] })
    } else if code == EcCmd::PdChipInfo.code() {
        assert_eq!(f.data[1], if f.version == 1 { 0 } else { 1 });
        let mut b = vec![0x2E, 0x8A, 0x01, 0x00, 0x02, 0x00];
        b.extend_from_slice(&7u64.to_le_bytes());
        if f.version == 1 {
            b.extend_from_slice(&3u64.to_le_bytes());
        }
        Ok(EcReply { result: 0, data: b })
    } else if code == EcCmd::BatteryGetDynamic.code() {
        Ok(EcReply { result: 0, data: vec![1, 0, 2, 0, 3, 0, 4, 0, 5, 0, 6, 0, 7, 0] })
    } else {
        Ok(EcReply { result: 1, data: Vec::new() })
    }
}

#[test]
fn port_validation_names_the_range() {
    assert!(validate_port(3, 4).is_ok());
    match validate_port(4, 4) {
        Err(ToolError::Message(m)) => assert_eq!(m, "Port number 4 not within range 0..4"),
        _ => panic!("expected a range message"),
    }
}

#[test]
fn port_info_is_checked_then_read() {
    let info = get_port_pd_info(&pd_ec, 4, 2).unwrap();
    assert_eq!(info.role, 2);
    assert_eq!(info.voltage_max, 20000);
    assert_eq!(info.voltage_now, 19984);
    assert!(matches!(get_port_pd_info(&pd_ec, 4, 9), Err(ToolError::Message(_))));
    let dto = get_port_pd_info_dto(&pd_ec, 4, 1).unwrap();
    assert_eq!(dto, port_dto(&get_port_pd_info(&pd_ec, 4, 1).unwrap()));
    assert_eq!(dto.role, 1);
    assert_eq!(dto.current_max, 5000);
    assert_eq!(dto.current_lim, 3000);
    assert_eq!(dto.max_power, 60_000_000);
    let dynamic = get_dynamic_info(&pd_ec).unwrap();
    assert_eq!(dynamic.actual_voltage, 1);
    assert_eq!(dynamic.desired_current, 7);
}

#[test]
fn pd_ports_and_chip_info() {
    assert_eq!(get_usb_pd_ports(&pd_ec).unwrap(), 0);
    let chip = get_pd_chip_info(&pd_ec, 2, 0).unwrap();
    assert_eq!(chip.vendor_id, 0x8A2E);
    assert_eq!(chip.product_id, 1);
    assert_eq!(chip.device_id, 2);
    assert_eq!(chip.fw_version_number, 7);
    let v1 = get_pd_chip_info_v1(&pd_ec, 2, 1).unwrap();
    assert_eq!(v1.min_req_fw_version_number, 3);
    assert!(get_pd_chip_info(&pd_ec, 2, 2).is_err());
}

#[test]
fn mux_flags_read_as_names() {
    assert_eq!(UsbPdMuxFlags(0).describe(), "USB_PD_MUX_NONE");
    assert_eq!(
        UsbPdMuxFlags(0b11).describe(),
        "USB_PD_MUX_USB_ENABLED, USB_PD_MUX_DP_ENABLED, USB_PD_MUX_DOCK"
    );
    assert_eq!(UsbPdMuxFlags(0b1000_0100).describe(), ", USB_PD_MUX_POLARITY_INVERTED, USB_PD_MUX_USB4_ENABLED");
}

#[test]
fn power_source_report() {
    let mut p = EcResponsePowerInfoV1::default();
    assert_eq!(p.system_power_source, SystemPowerSource::Unknown);
    assert_eq!(IntelBattDbpt::default().describe(), "Unsupported");
    p.system_power_source = SystemPowerSource::ACBattery;
    p.battery_soc = 80;
    p.ac_adapter_100pct = 65;
    p.intel = IntelBattDbpt { support_level: 2, max_peak_power: 90, sus_peak_power: 45 };
    let text = p.describe();
    assert!(text.starts_with("---- System Power Source Information ----\nPower Source:         ACBattery\nBattery SoC:          80%\nAC Adapter (100%):    65 W\n"));
    assert!(text.ends_with("Intel DBPT:           Level 2; 10ms Peak @ 90 W, 45 W Sus\n"));
    assert_eq!(text.lines().count(), 14);
}

#[test]
fn chip_info_reads_versions_as_c_strings() {
    let plain = u64::from_le_bytes(*b"v1.2\0\0\0\0");
    assert_eq!(fw_version_string(plain), format!("String: \"v1.2\", Number: {plain}"));
    let odd = u64::from_le_bytes([b'a', 0x01, b'"', b'\\', b'\n', 0xC3, 0, 0]);
    assert_eq!(
        fw_version_string(odd),
        format!(r#"String: "a\x01\"\\\n\xc3", Number: {odd}"#)
    );
    let chip = EcResponsePdChipInfoV1 {
        vendor_id: 0x8A2E,
        product_id: 1,
        device_id: 0x22,
        fw_version_number: plain,
        min_req_fw_version_number: 0,
    };
    assert_eq!(
        chip.describe(),
        format!(
            "Vendor ID: 0x8a2e, Product ID: 0x0001, Device ID: 0x0022, FW Version: String: \"v1.2\", Number: {plain}, Min Req FW Version: String: \"\", Number: 0"
        )
    );
}

#[test]
fn invalid_text_bytes_read_as_replacement_characters() {
    let mut block = battery_block();
    block[32..40].copy_from_slice(&[0xFF, b'A', 0, 0, 0, 0, 0, 0]);
    let info = decode_battery_block(&block);
    let dto = fw_ec::dto::mem_mapped_dto(&info);
    assert_eq!(dto.mfgr, "\u{FFFD}A");
    let given = fw_ec::dto::mem_mapped_dto_with_text(
        &info,
        "m".to_string(),
        "n".to_string(),
        "s".to_string(),
        "t".to_string(),
    );
    assert_eq!((given.mfgr.as_str(), given.battery_type.as_str(), given.ccnt), ("m", "t", 87));
}
