//! EC temperature readings and their conversions, and finding and reading
//! the temperature sensors.
use vstd::prelude::*;

use crate::command::{CrosEcCommandV2, EcCommand, EcReply, build_frame, frame_for};
use crate::ec_cmd::EcCmd;
use crate::error::{EcError, ToolError};
use crate::memmap::CrosEcReadmemV2;
use vstd::string::StringExecFns;


verus! {

/// The offset of temperature values stored in the EC memory map. This allows
/// reporting a temperature range of 200K to 454K = -73C to 181C.
pub const EC_TEMP_SENSOR_OFFSET: u16 = 200;

/// Kelvin value of 0 °C, rounded down.
pub const KELVIN_CELCIUS_OFFSET: u16 = 273;

/// Celsius value of an EC reading of 0.
pub const EC_TEMP_SENSOR_OFFSET_CELSIUS: u16 = KELVIN_CELCIUS_OFFSET - EC_TEMP_SENSOR_OFFSET;

/// Why a sensor slot holds no temperature.
#[derive(Clone, Copy, Debug, PartialEq, Eq, Structural)]
pub enum EcTempSensorError {
    /// `0xFF`: no sensor in this slot.
    NotPresent,
    /// `0xFE`: the sensor reported an error.
    Error,
    /// `0xFD`: the sensor is not powered.
    NotPowered,
    /// `0xFC`: the sensor is not calibrated.
    NotCalibrated,
}

impl EcTempSensorError {
    /// The reserved reading the EC uses for this condition.
    pub fn code(self) -> (r: u8)
        ensures
            r == sensor_error_code(self),
    {
        match self {
            EcTempSensorError::NotPresent => 0xFF,
            EcTempSensorError::Error => 0xFE,
            EcTempSensorError::NotPowered => 0xFD,
            EcTempSensorError::NotCalibrated => 0xFC,
        }
    }
}

pub open spec fn sensor_error_code(e: EcTempSensorError) -> u8 {
    match e {
        EcTempSensorError::NotPresent => 0xFF,
        EcTempSensorError::Error => 0xFE,
        EcTempSensorError::NotPowered => 0xFD,
        EcTempSensorError::NotCalibrated => 0xFC,
    }
}

/// What a raw sensor byte means: a temperature below `0xFC`, a sensor
/// condition at `0xFC..=0xFF`.
pub open spec fn spec_ec_temp_get(raw: u8) -> Result<u8, EcTempSensorError> {
    if raw == 0xFF {
        Err(EcTempSensorError::NotPresent)
    } else if raw == 0xFE {
        Err(EcTempSensorError::Error)
    } else if raw == 0xFD {
        Err(EcTempSensorError::NotPowered)
    } else if raw == 0xFC {
        Err(EcTempSensorError::NotCalibrated)
    } else {
        Ok(raw)
    }
}

/// A raw temperature byte as the EC stores it: Kelvin minus 200.
#[derive(Clone, Copy, Debug, PartialEq, Eq, Structural)]
pub struct EcTemp(pub u8);

impl EcTemp {
    /// The reading, or the sensor condition it encodes.
    pub fn get(self) -> (r: Result<u8, EcTempSensorError>)
        ensures
            r == spec_ec_temp_get(self.0),
    {
        match self.0 {
            0xFF => Err(EcTempSensorError::NotPresent),
            0xFE => Err(EcTempSensorError::Error),
            0xFD => Err(EcTempSensorError::NotPowered),
            0xFC => Err(EcTempSensorError::NotCalibrated),
            _ => Ok(self.0),
        }
    }
}

impl Default for EcTemp {
    fn default() -> (r: Self)
        ensures
            r.0 == 0,
    {
        EcTemp(0x00)
    }
}

/// A temperature in Kelvin.
#[derive(Clone, Copy, Debug, PartialEq, Eq, Structural)]
pub struct KelvinTemp(pub u16);

impl Default for KelvinTemp {
    fn default() -> (r: Self)
        ensures
            r.0 == EC_TEMP_SENSOR_OFFSET,
    {
        KelvinTemp(EC_TEMP_SENSOR_OFFSET)
    }
}

/// A temperature in degrees Celsius.
#[derive(Clone, Copy, Debug, PartialEq, Eq, Structural)]
pub struct CelsiusTemp(pub i16);

/// Celsius from Kelvin: the Kelvin value reinterpreted as signed, minus 273,
/// wrapping on the 16-bit range.
pub open spec fn spec_kelvin_to_celsius(k: u16) -> i16 {
    ((k as i16) as int - 273) as i16
}

impl Default for CelsiusTemp {
    fn default() -> (r: Self)
        ensures
            r.0 == -73,
    {
        kelvin_to_celsius(KelvinTemp::default())
    }
}

/// Converts a Kelvin temperature to Celsius.
pub fn kelvin_to_celsius(kelvin: KelvinTemp) -> (r: CelsiusTemp)
    ensures
        r.0 == spec_kelvin_to_celsius(kelvin.0),
{
    let signed = kelvin.0 as i16;
    let c = signed as i32 - KELVIN_CELCIUS_OFFSET as i32;
    CelsiusTemp(c as i16)
}

/// Kelvin reading for an EC byte, or the sensor condition it encodes.
pub open spec fn spec_ec_to_kelvin(t: EcTemp) -> Result<KelvinTemp, EcTempSensorError> {
    match spec_ec_temp_get(t.0) {
        Ok(v) => Ok(KelvinTemp((v as int + 200) as u16)),
        Err(e) => Err(e),
    }
}

/// Celsius reading for an EC byte, or the sensor condition it encodes.
pub open spec fn spec_ec_to_celsius(t: EcTemp) -> Result<CelsiusTemp, EcTempSensorError> {
    match spec_ec_temp_get(t.0) {
        Ok(v) => Ok(CelsiusTemp((v as int - 73) as i16)),
        Err(e) => Err(e),
    }
}

/// Converts an EC reading to Kelvin.
pub fn ec_temp_to_kelvin(ec_temp: EcTemp) -> (r: Result<KelvinTemp, EcTempSensorError>)
    ensures
        r == spec_ec_to_kelvin(ec_temp),
{
    match ec_temp.get() {
        Ok(temp) => Ok(KelvinTemp(temp as u16 + EC_TEMP_SENSOR_OFFSET)),
        Err(e) => Err(e),
    }
}

/// Converts an EC reading to Celsius.
pub fn ec_temp_to_celsius(ec_temp: EcTemp) -> (r: Result<CelsiusTemp, EcTempSensorError>)
    ensures
        r == spec_ec_to_celsius(ec_temp),
{
    match ec_temp.get() {
        Ok(temp) => Ok(CelsiusTemp(temp as i16 - EC_TEMP_SENSOR_OFFSET_CELSIUS as i16)),
        Err(e) => Err(e),
    }
}

impl From<EcTemp> for Result<KelvinTemp, EcTempSensorError> {
    fn from(ec_temp: EcTemp) -> (r: Self) {
        ec_temp_to_kelvin(ec_temp)
    }
}

impl vstd::std_specs::convert::FromSpecImpl<EcTemp> for Result<KelvinTemp, EcTempSensorError> {
    open spec fn obeys_from_spec() -> bool {
        true
    }

    open spec fn from_spec(v: EcTemp) -> Self {
        spec_ec_to_kelvin(v)
    }
}

impl From<KelvinTemp> for CelsiusTemp {
    fn from(kelvin: KelvinTemp) -> (r: Self) {
        kelvin_to_celsius(kelvin)
    }
}

impl vstd::std_specs::convert::FromSpecImpl<KelvinTemp> for CelsiusTemp {
    open spec fn obeys_from_spec() -> bool {
        true
    }

    open spec fn from_spec(v: KelvinTemp) -> Self {
        CelsiusTemp(spec_kelvin_to_celsius(v.0))
    }
}

impl From<EcTemp> for Result<CelsiusTemp, EcTempSensorError> {
    fn from(ec_temp: EcTemp) -> (r: Self) {
        ec_temp_to_celsius(ec_temp)
    }
}

impl vstd::std_specs::convert::FromSpecImpl<EcTemp> for Result<CelsiusTemp, EcTempSensorError> {
    open spec fn obeys_from_spec() -> bool {
        true
    }

    open spec fn from_spec(v: EcTemp) -> Self {
        spec_ec_to_celsius(v)
    }
}

/// Largest byte of a non-empty sequence.
pub open spec fn seq_max(s: Seq<u8>) -> u8
    decreases s.len(),
{
    if s.len() <= 1 {
        s[0]
    } else {
        let m = seq_max(s.drop_last());
        if s.last() > m {
            s.last()
        } else {
            m
        }
    }
}

pub proof fn lemma_seq_max_is_max(s: Seq<u8>)
    requires
        s.len() >= 1,
    ensures
        forall|i: int| 0 <= i < s.len() ==> s[i] <= seq_max(s),
        exists|i: int| 0 <= i < s.len() && s[i] == seq_max(s),
    decreases s.len(),
{
    if s.len() == 1 {
        assert(s[0] == seq_max(s));
    } else {
        lemma_seq_max_is_max(s.drop_last());
        let m = seq_max(s.drop_last());
        let i = choose|i: int| 0 <= i < s.len() - 1 && s.drop_last()[i] == m;
        assert(s[i] == s.drop_last()[i]);
        if s.last() > m {
            assert(s[s.len() - 1] == seq_max(s));
        } else {
            assert(s[i] == seq_max(s));
        }
        assert forall|j: int| 0 <= j < s.len() implies s[j] <= seq_max(s) by {
            if j < s.len() - 1 {
                assert(s[j] == s.drop_last()[j]);
            }
        }
    }
}

/// The hottest reading: the largest of a non-empty list of bytes.
pub fn maxima_native(input: &[u8]) -> (r: u8)
    requires
        input.len() >= 1,
    ensures
        r == seq_max(input@),
{
    let mut m = input[0];
    let mut i: usize = 1;
    while i < input.len()
        invariant
            1 <= i <= input.len(),
            m == seq_max(input@.subrange(0, i as int)),
        decreases input.len() - i,
    {
        assert(input@.subrange(0, i + 1).drop_last() =~= input@.subrange(0, i as int));
        if input[i] > m {
            m = input[i];
        }
        i = i + 1;
    }
    assert(input@.subrange(0, input.len() as int) =~= input@);
    m
}

/// The largest of the first eight bytes, found as the complement of the
/// smallest complement: every byte is inverted, the minimum of the inverted
/// values is taken over 16-bit lanes, and the result is inverted back.
pub fn maxima_vl(input: &[u8]) -> (r: u8)
    requires
        input.len() >= 8,
    ensures
        r == seq_max(input@.subrange(0, 8)),
{
    let first = input[0];
    assert(!first == 255 - first) by (bit_vector);
    let mut min_inv: u16 = (!first) as u16;
    let mut i: usize = 1;
    while i < 8
        invariant
            1 <= i <= 8,
            input.len() >= 8,
            min_inv <= 255,
            (255 - min_inv) as u8 == seq_max(input@.subrange(0, i as int)),
        decreases 8 - i,
    {
        assert(input@.subrange(0, i + 1).drop_last() =~= input@.subrange(0, i as int));
        let byte = input[i];
        assert(!byte == 255 - byte) by (bit_vector);
        let lane: u16 = (!byte) as u16;
        if lane < min_inv {
            min_inv = lane;
        }
        i = i + 1;
    }
    assert(input@.subrange(0, 1) =~= seq![first]);
    let low = min_inv as u8;
    assert(!low == 255 - low) by (bit_vector);
    !low
}

/// The hottest of a non-empty list of readings.
pub fn max_temp(input: &[EcTemp]) -> (r: EcTemp)
    requires
        input.len() >= 1,
    ensures
        r.0 == seq_max(input@.map_values(|t: EcTemp| t.0)),
{
    let mut temps: Vec<u8> = Vec::new();
    for i in 0..input.len()
        invariant
            temps@ == input@.subrange(0, i as int).map_values(|t: EcTemp| t.0),
    {
        temps.push(input[i].0);
        assert(input@.subrange(0, i + 1).map_values(|t: EcTemp| t.0) =~= input@.subrange(
            0,
            i as int,
        ).map_values(|t: EcTemp| t.0).push(input@[i as int].0));
    }
    assert(input@.subrange(0, input.len() as int) =~= input@);
    let max = if temps.len() == 8 {
        assert(temps@.subrange(0, 8) =~= temps@);
        maxima_vl(temps.as_slice())
    } else {
        maxima_native(temps.as_slice())
    };
    EcTemp(max)
}

/// The display name of a sensor error.
pub open spec fn sensor_error_name(e: EcTempSensorError) -> Seq<char> {
    match e {
        EcTempSensorError::NotPresent => "Not present"@,
        EcTempSensorError::Error => "Error"@,
        EcTempSensorError::NotPowered => "Not powered"@,
        EcTempSensorError::NotCalibrated => "Not calibrated"@,
    }
}

impl EcTempSensorError {
    /// The error's display name.
    pub fn name(&self) -> (r: &'static str)
        ensures
            r@ == sensor_error_name(*self),
    {
        proof {
            reveal_strlit("Not present");
            reveal_strlit("Error");
            reveal_strlit("Not powered");
            reveal_strlit("Not calibrated");
        }
        match self {
            EcTempSensorError::NotPresent => "Not present",
            EcTempSensorError::Error => "Error",
            EcTempSensorError::NotPowered => "Not powered",
            EcTempSensorError::NotCalibrated => "Not calibrated",
        }
    }
}

/// Parameters of `TEMP_SENSOR_GET_INFO`.
#[derive(Clone, Copy, Debug, PartialEq, Eq, Structural)]
pub struct EcParamsTempSensorGetInfo {
    /// Sensor index.
    pub id: u8,
}

/// Response of `TEMP_SENSOR_GET_INFO`.
#[derive(Clone, Copy, Debug)]
pub struct EcResponseTempSensorGetInfo {
    /// The sensor's name, NUL-padded.
    pub sensor_name: [u8; 32],
    /// The sensor's type.
    pub sensor_type: u8,
}

/// The sensor-info response laid out in `b`.
pub open spec fn spec_decode_sensor_info(b: Seq<u8>, r: EcResponseTempSensorGetInfo) -> bool {
    r.sensor_name@ == b.subrange(0, 32) && r.sensor_type == b[32]
}

/// Information about one temperature sensor.
pub struct TempSensorGetInfo;

impl EcCommand for TempSensorGetInfo {
    type Request = EcParamsTempSensorGetInfo;

    type Response = EcResponseTempSensorGetInfo;

    open spec fn spec_cmd() -> EcCmd {
        EcCmd::TempSensorGetInfo
    }

    open spec fn spec_version() -> u32 {
        0
    }

    open spec fn request_len() -> nat {
        1
    }

    open spec fn response_len() -> nat {
        33
    }

    open spec fn spec_encode(req: EcParamsTempSensorGetInfo) -> Seq<u8> {
        seq![req.id]
    }

    open spec fn spec_decode(bytes: Seq<u8>) -> EcResponseTempSensorGetInfo {
        EcResponseTempSensorGetInfo {
            sensor_name: choose|n: [u8; 32]| n@ == bytes.subrange(0, 32),
            sensor_type: bytes[32],
        }
    }

    fn cmd() -> (c: EcCmd) {
        EcCmd::TempSensorGetInfo
    }

    fn version() -> (v: u32) {
        0
    }

    fn request_size() -> (n: usize) {
        1
    }

    fn response_size() -> (n: usize) {
        33
    }

    fn encode(req: &EcParamsTempSensorGetInfo) -> (b: Vec<u8>) {
        let mut b = Vec::new();
        b.push(req.id);
        assert(b@ =~= seq![req.id]);
        b
    }

    fn decode(bytes: &[u8]) -> (r: EcResponseTempSensorGetInfo) {
        let r = decode_sensor_info(bytes);
        proof {
            broadcast use vstd::array::group_array_axioms;

            assert(r.sensor_name@ == bytes@.subrange(0, 32));
            let n = choose|n: [u8; 32]| n@ == bytes@.subrange(0, 32);
            assert(n@ == r.sensor_name@);
            assert forall|i: int| 0 <= i < 32 implies n[i] == r.sensor_name[i] by {
                assert(n@[i] == r.sensor_name@[i]);
            }
            assert(n =~= r.sensor_name);
        }
        r
    }
}

/// Decodes a sensor-info response from its 33 bytes.
fn decode_sensor_info(b: &[u8]) -> (r: EcResponseTempSensorGetInfo)
    requires
        b.len() == 33,
    ensures
        spec_decode_sensor_info(b@, r),
{
    let mut name = [0u8; 32];
    let mut i: usize = 0;
    while i < 32
        invariant
            i <= 32,
            b.len() == 33,
            forall|j: int| 0 <= j < i ==> name@[j] == b@[j],
        decreases 32 - i,
    {
        name[i] = b[i];
        i = i + 1;
    }
    assert(name@ =~= b@.subrange(0, 32));
    EcResponseTempSensorGetInfo { sensor_name: name, sensor_type: b[32] }
}

/// The message for a probe that came back empty.
pub open spec fn empty_probe_message() -> Seq<char> {
    "Got invalid response from temperature probe."@
}

/// The 33 response bytes out of what came back: the leading bytes, zero
/// where fewer came back.
pub open spec fn sensor_info_bytes(data: Seq<u8>) -> Seq<u8> {
    Seq::new(33, |i: int| if i < data.len() { data[i] } else { 0u8 })
}

/// What a probe makes of the transport's answer: the transport's error; a
/// message when no payload byte came back; otherwise the sensor info decoded
/// from the bytes that did. The EC's result code is not consulted: the
/// probe counts as answered whenever payload bytes come back.
pub open spec fn probe_outcome(
    reply: Result<EcReply, EcError>,
    r: Result<EcResponseTempSensorGetInfo, ToolError>,
) -> bool {
    match reply {
        Err(e) => r == Err::<EcResponseTempSensorGetInfo, ToolError>(ToolError::Ec(e)),
        Ok(rep) => if rep.data@.len() == 0 {
            r matches Err(ToolError::Message(m)) && m@ == empty_probe_message()
        } else {
            r matches Ok(info) && spec_decode_sensor_info(sensor_info_bytes(rep.data@), info)
        },
    }
}

/// `r` is what probing sensor `id` through `xfer` can give.
pub open spec fn probe_answered<F: Fn(&CrosEcCommandV2) -> Result<EcReply, EcError>>(
    xfer: F,
    id: u8,
    r: Result<EcResponseTempSensorGetInfo, ToolError>,
) -> bool {
    exists|f: CrosEcCommandV2, reply: Result<EcReply, EcError>|
        frame_for::<TempSensorGetInfo>(f, EcParamsTempSensorGetInfo { id }) && xfer.ensures(
            (&f,),
            reply,
        ) && probe_outcome(reply, r)
}

/// Ask the EC about temperature sensor `id`.
///
/// # Errors
///
/// The transport's failure, or a message when the EC returned no payload.
pub fn probe_sensor<F: Fn(&CrosEcCommandV2) -> Result<EcReply, EcError>>(xfer: &F, id: u8) -> (r:
    Result<EcResponseTempSensorGetInfo, ToolError>)
    requires
        forall|f: &CrosEcCommandV2| xfer.requires((f,)),
    ensures
        probe_answered::<F>(*xfer, id, r),
{
    let req = EcParamsTempSensorGetInfo { id };
    let frame = build_frame::<TempSensorGetInfo>(&req);
    let reply = xfer(&frame);
    let ghost seen = reply;
    let r = match reply {
        Err(e) => Err(ToolError::Ec(e)),
        Ok(rep) => {
            if rep.data.len() == 0 {
                proof {
                    reveal_strlit("Got invalid response from temperature probe.");
                }
                Err(ToolError::Message(String::from_str("Got invalid response from temperature probe.")))
            } else {
                let mut bytes: Vec<u8> = Vec::new();
                let mut i: usize = 0;
                while i < 33
                    invariant
                        i <= 33,
                        bytes@.len() == i,
                        forall|j: int| 0 <= j < i ==> bytes@[j] == sensor_info_bytes(rep.data@)[j],
                    decreases 33 - i,
                {
                    if i < rep.data.len() {
                        bytes.push(rep.data[i]);
                    } else {
                        bytes.push(0);
                    }
                    i = i + 1;
                }
                assert(bytes@ =~= sensor_info_bytes(rep.data@));
                Ok(decode_sensor_info(bytes.as_slice()))
            }
        },
    };
    assert(frame_for::<TempSensorGetInfo>(frame, req) && xfer.ensures((&frame,), seen)
        && probe_outcome(seen, r));
    r
}

/// Probing sensor `id` through `xfer` can succeed.
pub open spec fn probe_can_succeed<F: Fn(&CrosEcCommandV2) -> Result<EcReply, EcError>>(
    xfer: F,
    id: u8,
) -> bool {
    exists|r: Result<EcResponseTempSensorGetInfo, ToolError>| probe_answered(xfer, id, r) && r is Ok
}

/// Probing sensor `id` through `xfer` can fail.
pub open spec fn probe_can_fail<F: Fn(&CrosEcCommandV2) -> Result<EcReply, EcError>>(
    xfer: F,
    id: u8,
) -> bool {
    exists|r: Result<EcResponseTempSensorGetInfo, ToolError>| probe_answered(xfer, id, r) && r is Err
}

/// Sensors `0..k` can answer a probe, and, unless every id did, sensor `k`
/// can fail to.
pub open spec fn leading_sensors<F: Fn(&CrosEcCommandV2) -> Result<EcReply, EcError>>(
    xfer: F,
    k: nat,
) -> bool {
    &&& k <= 256
    &&& forall|id: u8| id < k ==> #[trigger] probe_can_succeed(xfer, id)
    &&& k < 256 ==> probe_can_fail(xfer, k as u8)
}

/// Count the temperature sensors: probe ids 0, 1, 2, ... up to 255 and
/// count how many answer before the first that does not.
///
/// The count is kept in a byte, so when all 256 ids answer it wraps to 0.
pub fn num_temp_sensors<F: Fn(&CrosEcCommandV2) -> Result<EcReply, EcError>>(xfer: &F) -> (r: u8)
    requires
        forall|f: &CrosEcCommandV2| xfer.requires((f,)),
    ensures
        exists|k: nat| #[trigger] leading_sensors(*xfer, k) && r == (k % 256) as u8,
{
    let mut count: u16 = 0;
    while count < 256
        invariant_except_break
            count <= 256,
            forall|id: u8| id < count ==> #[trigger] probe_can_succeed(*xfer, id),
        invariant
            forall|f: &CrosEcCommandV2| xfer.requires((f,)),
        ensures
            count <= 256,
            forall|id: u8| id < count ==> #[trigger] probe_can_succeed(*xfer, id),
            count < 256 ==> probe_can_fail(*xfer, count as u8),
        decreases 256 - count,
    {
        let id = count as u8;
        let r = probe_sensor(xfer, id);
        if r.is_err() {
            break;
        }
        count = count + 1;
    }
    assert(leading_sensors(*xfer, count as nat));
    (count % 256) as u8
}

/// Offset of the temperature readings in the EC memory map
/// (`EC_MEMMAP_TEMP_SENSOR`).
pub const EC_MEMMAP_TEMP_SENSOR: u32 = 0x00;

/// The first `count` bytes of `data`, zero where it is shorter.
pub open spec fn padded_prefix(data: Seq<u8>, count: nat) -> Seq<u8> {
    Seq::new(count, |i: int| if i < data.len() { data[i] } else { 0u8 })
}

/// `r` is what reading `count` temperatures through `readmem` can give:
/// for some answer to a request of `count` bytes at
/// [`EC_MEMMAP_TEMP_SENSOR`], the transport's error or one reading per byte
/// that came back, zero where fewer came back.
pub open spec fn temps_answered<R: Fn(&CrosEcReadmemV2) -> Result<Vec<u8>, EcError>>(
    readmem: R,
    count: u8,
    r: Result<Vec<EcTemp>, EcError>,
) -> bool {
    exists|reply: Result<Vec<u8>, EcError>|
        #[trigger] readmem.ensures(
            (&CrosEcReadmemV2 { offset: EC_MEMMAP_TEMP_SENSOR, bytes: count as u32 },),
            reply,
        ) && match reply {
            Err(e) => r == Err::<Vec<EcTemp>, EcError>(e),
            Ok(data) => r matches Ok(v) && v@ == padded_prefix(data@, count as nat).map_values(
                |b: u8| EcTemp(b),
            ),
        }
}

/// Read the first `count` temperature readings from the EC memory map.
///
/// # Errors
///
/// Fails if the memory-map read itself fails.
pub fn get_temperatures<R: Fn(&CrosEcReadmemV2) -> Result<Vec<u8>, EcError>>(
    readmem: &R,
    count: u8,
) -> (r: Result<Vec<EcTemp>, EcError>)
    requires
        forall|q: &CrosEcReadmemV2| readmem.requires((q,)),
    ensures
        temps_answered::<R>(*readmem, count, r),
{
    let request = CrosEcReadmemV2 { offset: EC_MEMMAP_TEMP_SENSOR, bytes: count as u32 };
    let reply = readmem(&request);
    let ghost seen = reply;
    match reply {
        Err(e) => {
            assert(readmem.ensures((&request,), seen));
            Err(e)
        },
        Ok(data) => {
            let mut temps: Vec<EcTemp> = Vec::new();
            let mut i: usize = 0;
            while i < count as usize
                invariant
                    i <= count,
                    temps@.len() == i,
                    forall|j: int|
                        0 <= j < i ==> temps@[j] == EcTemp(padded_prefix(data@, count as nat)[j]),
                decreases count - i,
            {
                if i < data.len() {
                    temps.push(EcTemp(data[i]));
                } else {
                    temps.push(EcTemp(0));
                }
                i = i + 1;
            }
            assert(temps@ =~= padded_prefix(data@, count as nat).map_values(|b: u8| EcTemp(b)));
            assert(readmem.ensures((&request,), seen));
            Ok(temps)
        },
    }
}

/// The hottest of the first `count` readings.
///
/// # Errors
///
/// Fails if the memory-map read itself fails.
pub fn get_max_temp<R: Fn(&CrosEcReadmemV2) -> Result<Vec<u8>, EcError>>(
    readmem: &R,
    count: u8,
) -> (r: Result<EcTemp, EcError>)
    requires
        forall|q: &CrosEcReadmemV2| readmem.requires((q,)),
        count >= 1,
    ensures
        exists|o: Result<Vec<EcTemp>, EcError>|
            temps_answered::<R>(*readmem, count, o) && match o {
                Ok(v) => r matches Ok(t) && t.0 == seq_max(v@.map_values(|t: EcTemp| t.0)),
                Err(e) => r == Err::<EcTemp, EcError>(e),
            },
{
    let o = get_temperatures(readmem, count);
    let ghost seen = o;
    let r = match o {
        Ok(temps) => Ok(max_temp(temps.as_slice())),
        Err(e) => Err(e),
    };
    assert(temps_answered::<R>(*readmem, count, seen));
    r
}

/// Going through Kelvin gives the same Celsius reading as converting
/// directly, for every byte that holds a temperature.
pub proof fn lemma_celsius_via_kelvin(t: EcTemp)
    requires
        t.0 < 0xFC,
    ensures
        spec_ec_to_kelvin(t) matches Ok(k) && spec_ec_to_celsius(t) == Ok::<CelsiusTemp, EcTempSensorError>(
            CelsiusTemp(spec_kelvin_to_celsius(k.0)),
        ),
{
    let k = (t.0 as int + 200) as u16;
    assert(k as int == t.0 as int + 200);
    assert((k as i16) as int == k as int) by (bit_vector)
        requires
            k < 0x8000,
    ;
}

/// The complement-minimum maximum of eight readings is the plain maximum of
/// those eight.
pub proof fn lemma_maxima_agree(input: Seq<u8>)
    requires
        input.len() == 8,
    ensures
        seq_max(input.subrange(0, 8)) == seq_max(input),
{
    assert(input.subrange(0, 8) =~= input);
}

/// Every sensor condition has its own reserved reading, and that reading
/// reads back as the condition; every other reading is a temperature.
pub proof fn lemma_error_codes_round_trip(e: EcTempSensorError, raw: u8)
    ensures
        spec_ec_temp_get(sensor_error_code(e)) == Err::<u8, EcTempSensorError>(e),
        raw < 0xFC <==> spec_ec_temp_get(raw) is Ok,
{
}

} // verus!
