use fw_ec::command::{CrosEcCommandV2, EcReply};
use fw_ec::error::{EcError, ToolError};
use fw_ec::memmap::CrosEcReadmemV2;
use fw_ec::temp::{
    CelsiusTemp, EC_TEMP_SENSOR_OFFSET, EcTemp, EcTempSensorError, KelvinTemp, ec_temp_to_celsius,
    get_max_temp, get_temperatures, max_temp, maxima_native, maxima_vl, num_temp_sensors,
    probe_sensor,
};

#[test]
fn test_ec_temp_to_kelvin() {
    let valid_cases = [0, 50, 100, 0xFB];
    for case in valid_cases {
        let res: Result<KelvinTemp, EcTempSensorError> = EcTemp(case).into();
        assert!(res.is_ok());
        assert_eq!(
            res.unwrap_or_else(|_| unreachable!()).0,
            u16::from(case) + EC_TEMP_SENSOR_OFFSET
        );
    }
    assert!(matches!(
        Result::<KelvinTemp, EcTempSensorError>::from(EcTemp(0xFF)),
        Err(EcTempSensorError::NotPresent)
    ));
    assert!(matches!(
        Result::<KelvinTemp, EcTempSensorError>::from(EcTemp(0xFE)),
        Err(EcTempSensorError::Error)
    ));
    assert!(matches!(
        Result::<KelvinTemp, EcTempSensorError>::from(EcTemp(0xFD)),
        Err(EcTempSensorError::NotPowered)
    ));
    assert!(matches!(
        Result::<KelvinTemp, EcTempSensorError>::from(EcTemp(0xFC)),
        Err(EcTempSensorError::NotCalibrated)
    ));
}

#[test]
fn test_kelvin_to_celsius() {
    let test_cases = [(273, 0), (300, 27), (200, -73), (0, -273)];
    for (kelvin, expected_celsius) in test_cases {
        let celsius: CelsiusTemp = KelvinTemp(kelvin).into();
        assert_eq!(celsius.0, expected_celsius);
    }
}

#[test]
fn test_maxima_consistency() {
    struct Lcg {
        state: u32,
    }

    impl Lcg {
        fn new(seed: u32) -> Self {
            Self { state: seed }
        }

        fn next_u8(&mut self) -> u8 {
            self.state = self.state.wrapping_mul(1_664_525).wrapping_add(1_013_904_223);
            (self.state >> 24) as u8
        }
    }

    let mut rng = Lcg::new(42);
    for _ in 0..2usize.pow(22) {
        let mut input = [0u8; 8];
        for byte in &mut input {
            *byte = rng.next_u8();
        }
        let expected = maxima_native(&input);
        let actual = maxima_vl(&input);
        assert_eq!(expected, actual, "Mismatch on input {input:?}: native={expected}, vl={actual}");
    }
}

#[test]
fn celsius_from_an_ec_reading() {
    assert_eq!(ec_temp_to_celsius(EcTemp(0)).unwrap().0, -73);
    assert_eq!(ec_temp_to_celsius(EcTemp(100)).unwrap().0, 27);
    assert_eq!(ec_temp_to_celsius(EcTemp(0xFB)).unwrap().0, 178);
    assert!(matches!(ec_temp_to_celsius(EcTemp(0xFD)), Err(EcTempSensorError::NotPowered)));
    let via: Result<CelsiusTemp, EcTempSensorError> = EcTemp(42).into();
    assert_eq!(via.unwrap().0, -31);
}

#[test]
fn sensor_error_names() {
    assert_eq!(EcTempSensorError::NotPresent.name(), "Not present");
    assert_eq!(EcTempSensorError::Error.name(), "Error");
    assert_eq!(EcTempSensorError::NotPowered.name(), "Not powered");
    assert_eq!(EcTempSensorError::NotCalibrated.name(), "Not calibrated");
}

#[test]
fn hottest_reading_wins() {
    let temps = [EcTemp(10), EcTemp(90), EcTemp(40)];
    assert_eq!(max_temp(&temps).0, 90);
    let eight = [1, 2, 3, 200, 5, 6, 7, 8].map(EcTemp);
    assert_eq!(max_temp(&eight).0, 200);
    assert_eq!(maxima_native(&[7]), 7);
}

fn sensor_transport(
    present: u8,
) -> impl Fn(&CrosEcCommandV2) -> Result<EcReply, EcError> {
    move |f: &CrosEcCommandV2| {
        assert_eq!(f.command, 0x0070);
        assert_eq!(f.outsize, 1);
        assert_eq!(f.insize, 33);
        let id = f.data[0];
        if id < present {
            let mut data = vec![0u8; 33];
            data[0] = b'T';
            data[1] = b'0' + id;
            data[32] = 1;
            Ok(EcReply { result: 0, data })
        } else {
            Ok(EcReply { result: 3, data: Vec::new() })
        }
    }
}

#[test]
fn probing_counts_leading_sensors() {
    let xfer = sensor_transport(4);
    let info = probe_sensor(&xfer, 2).unwrap();
    assert_eq!(&info.sensor_name[..2], b"T2");
    assert_eq!(info.sensor_type, 1);
    match probe_sensor(&xfer, 4) {
        Err(ToolError::Message(m)) => {
            assert_eq!(m, "Got invalid response from temperature probe.")
        },
        _ => panic!("an empty probe must fail"),
    }
    assert_eq!(num_temp_sensors(&xfer), 4);
    assert_eq!(num_temp_sensors(&sensor_transport(0)), 0);
}

#[test]
fn probe_passes_transport_errors_through() {
    let xfer = |_: &CrosEcCommandV2| -> Result<EcReply, EcError> {
        Err(EcError::Unavailable("gone".to_string()))
    };
    assert!(matches!(probe_sensor(&xfer, 0), Err(ToolError::Ec(EcError::Unavailable(_)))));
    assert_eq!(num_temp_sensors(&xfer), 0);
}

#[test]
fn temperatures_come_from_the_start_of_the_map() {
    let readmem = |q: &CrosEcReadmemV2| -> Result<Vec<u8>, EcError> {
        assert_eq!(q.offset, 0);
        Ok(vec![50, 60, 55][..q.bytes.min(3) as usize].to_vec())
    };
    let temps = get_temperatures(&readmem, 4).unwrap();
    assert_eq!(temps, vec![EcTemp(50), EcTemp(60), EcTemp(55), EcTemp(0)]);
    assert_eq!(get_max_temp(&readmem, 3).unwrap(), EcTemp(60));
}

#[test]
fn sensor_conditions_round_trip_through_their_codes() {
    for e in [
        EcTempSensorError::NotPresent,
        EcTempSensorError::Error,
        EcTempSensorError::NotPowered,
        EcTempSensorError::NotCalibrated,
    ] {
        assert_eq!(EcTemp(e.code()).get(), Err(e));
    }
    assert_eq!(EcTemp(0xFB).get(), Ok(0xFB));
    let k: Result<KelvinTemp, EcTempSensorError> = EcTemp(120).into();
    let via: CelsiusTemp = k.unwrap().into();
    assert_eq!(via, ec_temp_to_celsius(EcTemp(120)).unwrap());
}
