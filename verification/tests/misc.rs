use fw_ec::dto::PortPdInfoDto;
use fw_ec::ec_cmd::EcCmd;
use fw_ec::error::{EcError, ToolError};
use fw_ec::external_curves::{ParsedCurve, cache_file_name, compile_curve, profile_from_cached};
use fw_ec::plugins::{PluginGetStatus, PluginStore, plugin_get, plugin_set};
use fw_ec::query::{rank, select_step, summary};
use fw_ec::spline::CurveError;
use fw_ec::status::EcStatus;

fn port(role: u8, vmax: u16, cmax: u16, power: u32) -> PortPdInfoDto {
    PortPdInfoDto {
        role,
        charge_type: 1,
        dualrole: 0,
        reserved1: 0,
        voltage_max: vmax,
        voltage_now: vmax,
        current_max: cmax,
        current_lim: cmax,
        max_power: power,
    }
}

fn run(ports: &[PortPdInfoDto]) -> (Option<(u8, PortPdInfoDto)>, usize) {
    let mut best = None;
    let mut asked = 0;
    for (i, info) in ports.iter().enumerate() {
        asked += 1;
        let (next, stop) = select_step(best, i as u8, *info);
        best = next;
        if stop {
            break;
        }
    }
    (best, asked)
}

#[test]
fn ranks() {
    assert_eq!(rank(2), 2);
    assert_eq!(rank(3), 1);
    assert_eq!(rank(0), 0);
    assert_eq!(rank(1), 0);
}

#[test]
fn the_selected_sink_beats_an_earlier_unselected_one() {
    let ports = [port(3, 5000, 3000, 15_000_000), port(0, 0, 0, 0), port(2, 20000, 5000, 100_000_000), port(2, 9000, 3000, 27_000_000)];
    let (best, asked) = run(&ports);
    assert_eq!(best.map(|(i, _)| i), Some(2));
    assert_eq!(asked, 3);
    assert_eq!(
        summary(best, 11),
        "ok=1\nport=3\nvoltage_max=20000\ncurrent_max=5000\nmax_power=100000000\nbatt_state=11"
    );
}

#[test]
fn an_unselected_sink_is_the_fallback() {
    let ports = [port(1, 5000, 900, 4_500_000), port(3, 5000, 3000, 15_000_000), port(3, 9000, 3000, 27_000_000)];
    let (best, asked) = run(&ports);
    assert_eq!(best.map(|(i, _)| i), Some(1));
    assert_eq!(asked, 3);
}

#[test]
fn no_charger_means_a_question_mark() {
    let (best, _) = run(&[port(0, 0, 0, 0), port(1, 5000, 900, 4_500_000)]);
    assert!(best.is_none());
    assert_eq!(
        summary(best, 4),
        "ok=1\nport=?\nvoltage_max=0\ncurrent_max=0\nmax_power=0\nbatt_state=4"
    );
}

#[test]
fn plugin_store_reads_back_what_was_set() {
    let mut store = PluginStore::new();
    assert!(!plugin_set(&mut store, None, Some(&[1u8, 2][..]), 2));
    assert!(!plugin_set(&mut store, Some(&b"k"[..]), None, 3));
    assert!(plugin_set(&mut store, Some(&b"k"[..]), Some(&[1u8, 2, 3, 4][..]), 3));
    let r = plugin_get(&store, Some(&b"k"[..]), true, Some(8));
    assert_eq!(r.status, PluginGetStatus::Success);
    assert_eq!(r.written_len, Some(3));
    assert_eq!(r.data, Some(vec![1, 2, 3]));
    let r = plugin_get(&store, Some(&b"k"[..]), true, Some(2));
    assert_eq!(r.status, PluginGetStatus::BufferTooSmall);
    assert_eq!(r.written_len, Some(3));
    assert_eq!(r.data, None);
    let r = plugin_get(&store, Some(&b"k"[..]), false, Some(8));
    assert_eq!(r.status, PluginGetStatus::BufferTooSmall);
    let r = plugin_get(&store, Some(&b"other"[..]), true, Some(8));
    assert_eq!(r.status, PluginGetStatus::NotFound);
    assert_eq!(r.written_len, None);
    assert_eq!(plugin_get(&store, Some(&b"k"[..]), true, None).status, PluginGetStatus::NotFound);
    assert_eq!(plugin_get(&store, None, true, Some(8)).status, PluginGetStatus::NotFound);
    assert!(plugin_set(&mut store, Some(&b"k"[..]), None, 0));
    let r = plugin_get(&store, Some(&b"k"[..]), true, Some(0));
    assert_eq!(r.status, PluginGetStatus::Success);
    assert_eq!(r.data, Some(Vec::new()));
    assert!(plugin_set(&mut store, Some(&b"j"[..]), Some(&[9u8][..]), 1));
    assert_eq!(plugin_get(&store, Some(&b"j"[..]), true, Some(1)).data, Some(vec![9]));
    assert_eq!(plugin_get(&store, Some(&b"k"[..]), true, Some(1)).written_len, Some(0));
}

#[test]
fn status_and_error_text() {
    assert_eq!(EcStatus(0).describe(), "EC_RES_SUCCESS (0)");
    assert_eq!(EcStatus(9).describe(), "EC_RES_UNAVAILABLE (9)");
    assert_eq!(EcStatus(77).describe(), "unknown EC result 77");
    assert_eq!(EcStatus(3).debug_text(), "EcStatus(EC_RES_INVALID_PARAM (3))");
    assert!(EcStatus::success().is_success());
    assert_eq!(EcStatus(20).name(), Some("EC_RES_DUP_UNAVAILABLE"));
    assert_eq!(EcStatus(21).name(), None);
    assert_eq!(
        EcError::Unavailable("Permission denied".to_string()).describe(),
        "cannot open /dev/cros_ec: Permission denied"
    );
    assert_eq!(
        EcError::Rejected { command: EcCmd::UsbPdControl, version: 0, status: EcStatus(1) }.describe(),
        "EC rejected UsbPdControl (v0): EC_RES_INVALID_COMMAND (1)"
    );
    assert_eq!(
        EcError::ShortResponse { command: EcCmd::ChargePortCount, expected: 1, got: 0 }.describe(),
        "EC returned 0 bytes for ChargePortCount, expected 1"
    );
    assert_eq!(
        EcError::MemMapRange { offset: 250, len: 10 }.describe(),
        "memory-map read of 10 bytes at 0xfa runs past the end of the 255 byte EC memory map"
    );
    assert_eq!(
        EcError::ShortRead { offset: 4, expected: 8, got: 2 }.describe(),
        "memory-map read at 0x04 returned 2 bytes, expected 8"
    );
    let ioctl = EcError::Ioctl(nix::errno::Errno::EACCES).describe();
    assert_eq!(ioctl, format!("EC ioctl failed: {}", nix::errno::Errno::EACCES));
    assert_eq!(ToolError::Message("plain".to_string()).describe(), "plain");
    assert_eq!(EcCmd::GetCmdVersions.name(), "GetCmdVersions");
    assert_eq!(EcCmd::GetCmdVersions.code(), 8);
}

#[test]
fn external_curves_compile_and_cache_by_signature() {
    assert_eq!(cache_file_name(0xabc), "0000000000000abc.lut");
    assert_eq!(cache_file_name(u64::MAX), "ffffffffffffffff.lut");
    let parsed = ParsedCurve { name: "mine".to_string(), points: vec![(20, 10), (30, 60)], signature: 7 };
    let p = compile_curve(parsed).unwrap();
    assert_eq!(p.name, "mine");
    assert_eq!(p.start, 93);
    assert_eq!(p.end, 103);
    assert_eq!(p.get_fan_speed(fw_ec::temp::EcTemp(98)), 35);
    assert_eq!(p.signature, 7);
    assert_eq!(p.lut, vec![10, 15, 20, 25, 30, 35, 40, 45, 50, 55, 60]);
    let bad = ParsedCurve { name: "bad".to_string(), points: vec![(20, 10)], signature: 1 };
    assert_eq!(compile_curve(bad).err(), Some(CurveError::TooFewPoints));
    let cached = profile_from_cached(
        ParsedCurve { name: "c".to_string(), points: vec![(1, 0), (5, 9)], signature: 3 },
        vec![1, 2, 3],
    );
    assert_eq!((cached.start, cached.end, cached.lut.clone()), (74, 78, vec![1, 2, 3]));
}
