//! Battery state: the dynamic-info host command, and the battery block of
//! the EC memory map.
use vstd::prelude::*;

use crate::command::{CrosEcCommandV2, EcCommand, EcReply, answered, call};
use crate::ec_cmd::EcCmd;
use crate::error::EcError;
use crate::memmap::CrosEcReadmemV2;
use crate::pdctl::{all_digits, digits_value};
use crate::text::{
    decimal,
    decimal_padded,
    lemma_decimal_padded_reads_back,
    lemma_decimal_padded_short,
    lemma_decimal_reads_back,
    lemma_prefix_extend,
    lemma_prefix_first,
    push_decimal,
    push_decimal_padded,
    push_str,
};
use crate::wire::{le_i16, le_u32, read_i16, read_u32};
use vstd::string::StringExecFns;

verus! {

/// Length of the EC's fixed battery text fields (`EC_COMM_TEXT_MAX`).
pub const EC_COMM_TEXT_MAX: usize = 8;

/// Battery dynamic info parameters (`struct ec_params_battery_dynamic_info`).
#[derive(Clone, Copy, Debug, PartialEq, Eq, Structural)]
pub struct EcParamsBatteryDynamicInfo {
    /// Battery index.
    pub index: u8,
}

/// Battery dynamic info response (`struct ec_response_battery_dynamic_info`).
#[derive(Clone, Copy, Debug, PartialEq, Eq, Structural)]
pub struct EcResponseBatteryDynamicInfo {
    /// Battery voltage (mV).
    pub actual_voltage: i16,
    /// Battery current (mA); negative means discharging.
    pub actual_current: i16,
    /// Remaining capacity (mAh).
    pub remaining_capacity: i16,
    /// Full capacity (mAh, might change occasionally).
    pub full_capacity: i16,
    /// Flags, see [`EcBattFlags`].
    pub flags: i16,
    /// Charging voltage desired by the battery (mV).
    pub desired_voltage: i16,
    /// Charging current desired by the battery (mA).
    pub desired_current: i16,
}

/// The dynamic-info response laid out in `b`.
pub open spec fn spec_decode_dynamic_info(b: Seq<u8>) -> EcResponseBatteryDynamicInfo {
    EcResponseBatteryDynamicInfo {
        actual_voltage: le_i16(b, 0),
        actual_current: le_i16(b, 2),
        remaining_capacity: le_i16(b, 4),
        full_capacity: le_i16(b, 6),
        flags: le_i16(b, 8),
        desired_voltage: le_i16(b, 10),
        desired_current: le_i16(b, 12),
    }
}

/// Battery dynamic information: what is likely to change every time it is
/// read.
pub struct BatteryDynamicInfo;

impl EcCommand for BatteryDynamicInfo {
    type Request = EcParamsBatteryDynamicInfo;

    type Response = EcResponseBatteryDynamicInfo;

    open spec fn spec_cmd() -> EcCmd {
        EcCmd::BatteryGetDynamic
    }

    open spec fn spec_version() -> u32 {
        0
    }

    open spec fn request_len() -> nat {
        1
    }

    open spec fn response_len() -> nat {
        14
    }

    open spec fn spec_encode(req: EcParamsBatteryDynamicInfo) -> Seq<u8> {
        seq![req.index]
    }

    open spec fn spec_decode(bytes: Seq<u8>) -> EcResponseBatteryDynamicInfo {
        spec_decode_dynamic_info(bytes)
    }

    fn cmd() -> (c: EcCmd) {
        EcCmd::BatteryGetDynamic
    }

    fn version() -> (v: u32) {
        0
    }

    fn request_size() -> (n: usize) {
        1
    }

    fn response_size() -> (n: usize) {
        14
    }

    fn encode(req: &EcParamsBatteryDynamicInfo) -> (b: Vec<u8>) {
        let mut b = Vec::new();
        b.push(req.index);
        assert(b@ =~= seq![req.index]);
        b
    }

    fn decode(bytes: &[u8]) -> (r: EcResponseBatteryDynamicInfo) {
        EcResponseBatteryDynamicInfo {
            actual_voltage: read_i16(bytes, 0),
            actual_current: read_i16(bytes, 2),
            remaining_capacity: read_i16(bytes, 4),
            full_capacity: read_i16(bytes, 6),
            flags: read_i16(bytes, 8),
            desired_voltage: read_i16(bytes, 10),
            desired_current: read_i16(bytes, 12),
        }
    }
}

/// Read the dynamic information of the first battery (index 0).
///
/// # Errors
///
/// Fails if the EC is unreachable, refuses the command, or answers short.
pub fn get_battery_dynamic_info<F: Fn(&CrosEcCommandV2) -> Result<EcReply, EcError>>(
    xfer: &F,
) -> (r: Result<EcResponseBatteryDynamicInfo, EcError>)
    requires
        forall|f: &CrosEcCommandV2| xfer.requires((f,)),
    ensures
        answered::<BatteryDynamicInfo, F>(*xfer, EcParamsBatteryDynamicInfo { index: 0 }, r),
{
    call::<BatteryDynamicInfo, F>(xfer, EcParamsBatteryDynamicInfo { index: 0 })
}

/// Battery bit flags at `EC_MEMMAP_BATT_FLAG`.
#[derive(Clone, Copy, Debug, PartialEq, Eq, Structural)]
pub struct EcBattFlags(pub u8);

/// The name of battery flag bit `i`.
pub open spec fn batt_flag_name(i: int) -> Seq<char> {
    if i == 0 {
        "AC_PRESENT"@
    } else if i == 1 {
        "BATT_PRESENT"@
    } else if i == 2 {
        "DISCHARGING"@
    } else if i == 3 {
        "CHARGING"@
    } else if i == 4 {
        "LEVEL_CRITICAL"@
    } else if i == 5 {
        "INVALID_DATA"@
    } else if i == 6 {
        "UNKNOWN_6"@
    } else {
        "UNKNOWN_7"@
    }
}

/// Whether bit `i` of `flags` is set.
pub open spec fn flag_set(flags: u8, i: nat) -> bool {
    (flags >> i) & 1u8 == 1u8
}

/// The names of the flags set among bits `0..upto`, lowest first; each name
/// but that of bit 0 is preceded by `", "`.
pub open spec fn batt_flags_text(flags: u8, upto: nat) -> Seq<char>
    decreases upto,
{
    if upto == 0 {
        Seq::empty()
    } else {
        let rest = batt_flags_text(flags, (upto - 1) as nat);
        let i = (upto - 1) as nat;
        if flag_set(flags, i) {
            rest + (if i > 0 {
                ", "@
            } else {
                ""@
            }) + batt_flag_name(i as int)
        } else {
            rest
        }
    }
}

fn batt_flag_str(i: u8) -> (r: &'static str)
    requires
        i < 8,
    ensures
        r@ == batt_flag_name(i as int),
{
    proof {
        reveal_strlit("AC_PRESENT");
        reveal_strlit("BATT_PRESENT");
        reveal_strlit("DISCHARGING");
        reveal_strlit("CHARGING");
        reveal_strlit("LEVEL_CRITICAL");
        reveal_strlit("INVALID_DATA");
        reveal_strlit("UNKNOWN_6");
        reveal_strlit("UNKNOWN_7");
    }
    match i {
        0 => "AC_PRESENT",
        1 => "BATT_PRESENT",
        2 => "DISCHARGING",
        3 => "CHARGING",
        4 => "LEVEL_CRITICAL",
        5 => "INVALID_DATA",
        6 => "UNKNOWN_6",
        _ => "UNKNOWN_7",
    }
}

impl EcBattFlags {
    /// The names of the set flags, lowest bit first. Every name but that of
    /// bit 0 is preceded by `", "`, so the text starts with `", "` when
    /// bit 0 is clear and another bit is set.
    pub fn describe(&self) -> (r: String)
        ensures
            r@ == batt_flags_text(self.0, 8),
    {
        proof {
            reveal_strlit(", ");
            reveal_strlit("");
        }
        let mut s = String::new();
        let mut i: u8 = 0;
        while i < 8
            invariant
                i <= 8,
                s@ == batt_flags_text(self.0, i as nat),
            decreases 8 - i,
        {
            if (self.0 >> i) & 1u8 == 1u8 {
                if i > 0 {
                    push_str(&mut s, ", ");
                } else {
                    push_str(&mut s, "");
                }
                push_str(&mut s, batt_flag_str(i));
            }
            i = i + 1;
        }
        s
    }
}

/// Offset of the battery block in the EC memory map (`EC_MEMMAP_BATT_VOLT`).
pub const BATT_BLOCK_OFFSET: u32 = 0x40;

/// Bytes in the battery block of the EC memory map.
pub const BATT_BLOCK_LEN: usize = 64;

/// The battery block of the EC memory map, 64 bytes from
/// [`BATT_BLOCK_OFFSET`].
#[derive(Clone, Copy, Debug)]
pub struct MemMappedBatteryInfo {
    /// Battery present voltage (mV).
    pub volt: u32,
    /// Battery present rate (mA).
    pub rate: u32,
    /// Battery remaining capacity (mAh).
    pub cap: u32,
    /// Battery state.
    pub state: EcBattFlags,
    /// Battery count.
    pub count: u8,
    /// Current battery data index.
    pub index: u8,
    /// Battery design capacity (mAh).
    pub dcap: u32,
    /// Battery design voltage (mV).
    pub dvlt: u32,
    /// Battery last full charge capacity (mAh).
    pub lfcc: u32,
    /// Battery cycle count.
    pub ccnt: u32,
    /// Battery manufacturer string.
    pub mfgr: [u8; 8],
    /// Battery model number string.
    pub model: [u8; 8],
    /// Battery serial number string.
    pub serial: [u8; 8],
    /// Battery type string.
    pub battery_type: [u8; 8],
}

/// The battery block laid out in `b`.
pub open spec fn spec_decode_battery_block(b: Seq<u8>, info: MemMappedBatteryInfo) -> bool {
    &&& info.volt == le_u32(b, 0)
    &&& info.rate == le_u32(b, 4)
    &&& info.cap == le_u32(b, 8)
    &&& info.state == EcBattFlags(b[12])
    &&& info.count == b[13]
    &&& info.index == b[14]
    &&& info.dcap == le_u32(b, 16)
    &&& info.dvlt == le_u32(b, 20)
    &&& info.lfcc == le_u32(b, 24)
    &&& info.ccnt == le_u32(b, 28)
    &&& info.mfgr@ == b.subrange(32, 40)
    &&& info.model@ == b.subrange(40, 48)
    &&& info.serial@ == b.subrange(48, 56)
    &&& info.battery_type@ == b.subrange(56, 64)
}

/// Eight bytes of `b` from `at`.
fn text_field(b: &[u8], at: usize) -> (r: [u8; 8])
    requires
        at + 8 <= b.len(),
    ensures
        r@ == b@.subrange(at as int, at + 8),
{
    let r = [b[at], b[at + 1], b[at + 2], b[at + 3], b[at + 4], b[at + 5], b[at + 6], b[at + 7]];
    assert(r@ =~= b@.subrange(at as int, at + 8));
    r
}

/// Decodes the 64-byte battery block.
pub fn decode_battery_block(b: &[u8]) -> (info: MemMappedBatteryInfo)
    requires
        b.len() == BATT_BLOCK_LEN,
    ensures
        spec_decode_battery_block(b@, info),
{
    MemMappedBatteryInfo {
        volt: read_u32(b, 0),
        rate: read_u32(b, 4),
        cap: read_u32(b, 8),
        state: EcBattFlags(b[12]),
        count: b[13],
        index: b[14],
        dcap: read_u32(b, 16),
        dvlt: read_u32(b, 20),
        lfcc: read_u32(b, 24),
        ccnt: read_u32(b, 28),
        mfgr: text_field(b, 32),
        model: text_field(b, 40),
        serial: text_field(b, 48),
        battery_type: text_field(b, 56),
    }
}

/// The first 64 bytes of `data`, padded with zeros where it is shorter.
pub open spec fn battery_block_bytes(data: Seq<u8>) -> Seq<u8> {
    Seq::new(
        BATT_BLOCK_LEN as nat,
        |i: int|
            if i < data.len() {
                data[i]
            } else {
                0u8
            },
    )
}

/// `r` is what reading the battery block through `readmem` can give: for
/// some answer to a request of 64 bytes at [`BATT_BLOCK_OFFSET`], either the
/// transport's error, or the block decoded from the bytes that came back,
/// zero-padded.
pub open spec fn battery_block_answered<R: Fn(&CrosEcReadmemV2) -> Result<Vec<u8>, EcError>>(
    readmem: R,
    r: Result<MemMappedBatteryInfo, EcError>,
) -> bool {
    exists|reply: Result<Vec<u8>, EcError>|
        #[trigger] readmem.ensures(
            (&CrosEcReadmemV2 { offset: BATT_BLOCK_OFFSET, bytes: BATT_BLOCK_LEN as u32 },),
            reply,
        ) && match reply {
            Err(e) => r == Err::<MemMappedBatteryInfo, EcError>(e),
            Ok(data) => r matches Ok(info) && spec_decode_battery_block(
                battery_block_bytes(data@),
                info,
            ),
        }
}

/// Read the battery block of the EC memory map.
///
/// The block is decoded from whatever bytes the read produced; bytes it did
/// not produce read as zero.
///
/// # Errors
///
/// Fails if the memory-map read itself fails.
pub fn get_memmapped_battery_info<R: Fn(&CrosEcReadmemV2) -> Result<Vec<u8>, EcError>>(
    readmem: &R,
) -> (r: Result<MemMappedBatteryInfo, EcError>)
    requires
        forall|q: &CrosEcReadmemV2| readmem.requires((q,)),
    ensures
        battery_block_answered::<R>(*readmem, r),
{
    let request = CrosEcReadmemV2 { offset: BATT_BLOCK_OFFSET, bytes: BATT_BLOCK_LEN as u32 };
    let reply = readmem(&request);
    let ghost seen = reply;
    match reply {
        Err(e) => {
            assert(readmem.ensures((&request,), seen));
            Err(e)
        },
        Ok(data) => {
            let mut block: Vec<u8> = Vec::new();
            let mut i: usize = 0;
            while i < BATT_BLOCK_LEN
                invariant
                    i <= BATT_BLOCK_LEN,
                    block@.len() == i,
                    forall|j: int| 0 <= j < i ==> block@[j] == battery_block_bytes(data@)[j],
                decreases BATT_BLOCK_LEN - i,
            {
                if i < data.len() {
                    block.push(data[i]);
                } else {
                    block.push(0);
                }
                i = i + 1;
            }
            assert(block@ =~= battery_block_bytes(data@));
            let info = decode_battery_block(block.as_slice());
            assert(readmem.ensures((&request,), seen));
            Ok(info)
        },
    }
}

/// The bytes of a fixed-length C string field up to its first NUL, or all
/// of them when it has none.
pub open spec fn c_prefix(b: Seq<u8>) -> Seq<u8>
    decreases b.len(),
{
    if b.len() == 0 || b[0] == 0 {
        Seq::empty()
    } else {
        seq![b[0]] + c_prefix(b.subrange(1, b.len() as int))
    }
}

/// Whether every byte is ASCII.
pub open spec fn all_ascii(b: Seq<u8>) -> bool {
    forall|i: int| 0 <= i < b.len() ==> b[i] < 128
}

/// ASCII bytes read as characters.
pub open spec fn ascii_chars(b: Seq<u8>) -> Seq<char> {
    Seq::new(b.len(), |i: int| b[i] as char)
}

/// What `String::from_utf8_lossy` makes of some bytes.
pub uninterp spec fn utf8_lossy(b: Seq<u8>) -> Seq<char>;

/// `String::from_utf8_lossy`, owned: the bytes decoded as UTF-8, with each
/// invalid sequence replaced by U+FFFD. Claimed here: the result is a
/// function of the bytes alone, and ASCII bytes come back as the same
/// characters (ASCII is valid UTF-8, and valid UTF-8 is decoded as it is).
#[verifier::external_body]
fn lossy_text(b: &[u8]) -> (r: String)
    ensures
        r@ == utf8_lossy(b@),
        all_ascii(b@) ==> r@ == ascii_chars(b@),
{
    String::from_utf8_lossy(b).into_owned()
}

/// The leading bytes of a text field, up to its first NUL.
fn c_field(field: &[u8; 8]) -> (r: Vec<u8>)
    ensures
        r@ == c_prefix(field@),
{
    let mut out: Vec<u8> = Vec::new();
    let mut i: usize = 0;
    assert(field@.subrange(0, 8) =~= field@);
    assert(out@ + c_prefix(field@) =~= c_prefix(field@));
    while i < 8
        invariant
            i <= 8,
            c_prefix(field@) == out@ + c_prefix(field@.subrange(i as int, 8)),
        decreases 8 - i,
    {
        if field[i] == 0 {
            assert(c_prefix(field@.subrange(i as int, 8)) =~= Seq::empty());
            assert(out@ + Seq::<u8>::empty() =~= out@);
            return out;
        }
        assert(field@.subrange(i as int, 8).subrange(1, 8 - i as int) =~= field@.subrange(
            i + 1,
            8,
        ));
        out.push(field[i]);
        i = i + 1;
        assert(out@ + c_prefix(field@.subrange(i as int, 8)) =~= out@.drop_last() + (seq![
            out@.last(),
        ] + c_prefix(field@.subrange(i as int, 8))));
    }
    assert(c_prefix(field@.subrange(8, 8)) =~= Seq::empty());
    assert(out@ + Seq::<u8>::empty() =~= out@);
    out
}

/// A text field shown as text: its bytes up to the first NUL, decoded
/// lossily as UTF-8.
pub open spec fn field_text(field: [u8; 8]) -> Seq<char> {
    utf8_lossy(c_prefix(field@))
}

/// A text field as text, see [`field_text`].
pub fn field_string(field: &[u8; 8]) -> (r: String)
    ensures
        r@ == field_text(*field),
{
    lossy_text(c_field(field).as_slice())
}

/// `v` thousandths as `<units>.<three digits>`.
pub open spec fn milli_text(v: u32) -> Seq<char> {
    decimal((v / 1000) as nat) + "."@ + decimal_padded((v % 1000) as nat, 3)
}

/// A thousandths text reads back as its value: whole units in one or more
/// digits, a point, then exactly three digits of thousandths, so that
/// `units * 1000 + thousandths == v`.
pub proof fn lemma_milli_text_reads_back(v: u32)
    ensures
        milli_text(v).len() >= 5,
        milli_text(v)[milli_text(v).len() - 4] == '.',
        all_digits(milli_text(v).subrange(0, milli_text(v).len() - 4)),
        all_digits(milli_text(v).subrange(milli_text(v).len() - 3, milli_text(v).len() as int)),
        digits_value(milli_text(v).subrange(0, milli_text(v).len() - 4)) * 1000 + digits_value(
            milli_text(v).subrange(milli_text(v).len() - 3, milli_text(v).len() as int),
        ) == v,
{
    let w = decimal((v / 1000) as nat);
    let f = decimal_padded((v % 1000) as nat, 3);
    lemma_decimal_reads_back((v / 1000) as nat);
    lemma_decimal_padded_reads_back((v % 1000) as nat, 3);
    lemma_decimal_padded_short((v % 1000) as nat, 3);
    let t = milli_text(v);
    assert(t =~= w + "."@ + f) by {
        reveal_strlit(".");
    }
    reveal_strlit(".");
    assert(t.subrange(0, t.len() - 4) =~= w);
    assert(t.subrange(t.len() - 3, t.len() as int) =~= f);
}

/// The battery block as the report prints it, one line per item, with the
/// four text fields already decoded as `mfgr`, `model`, `serial` and `btype`.
pub open spec fn battery_info_text(
    info: MemMappedBatteryInfo,
    mfgr: Seq<char>,
    model: Seq<char>,
    serial: Seq<char>,
    btype: Seq<char>,
) -> Seq<char> {
    "---- Stats for battery at index "@ + decimal(info.index as nat) + " ----\n"@
        + "Manufacturer:  "@ + mfgr + "\n"@
        + "Model:         "@ + model + "\n"@
        + "Serial:        "@ + serial + "\n"@
        + "Type:          "@ + btype + "\n"@
        + "State:         "@ + batt_flags_text(info.state.0, 8) + "\n"@
        + "Count:         "@ + decimal(info.count as nat) + "\n"@
        + "Cycle Count:   "@ + decimal(info.ccnt as nat) + "\n"@
        + "Design Volt:   "@ + milli_text(info.dvlt) + " V\n"@
        + "Present Volt:  "@ + milli_text(info.volt) + " V\n"@
        + "Present Curr:  "@ + milli_text(info.rate) + " A\n"@
        + "Remain. mAh:   "@ + decimal(info.cap as nat) + "\n"@
        + "Design mAh:    "@ + decimal(info.dcap as nat) + "\n"@
        + "Last Full mAh: "@ + decimal(info.lfcc as nat) + "\n"@
}

/// Appends `v` thousandths as `<units>.<three digits>`.
fn push_milli(s: &mut String, v: u32)
    ensures
        final(s)@ == old(s)@ + milli_text(v),
{
    proof {
        reveal_strlit(".");
    }
    push_decimal(s, (v / 1000) as u64);
    push_str(s, ".");
    push_decimal_padded(s, (v % 1000) as u64, 3);
    assert(s@ =~= old(s)@ + milli_text(v));
}

/// Appends `label`, `v` in decimal and a newline.
fn push_line_decimal(s: &mut String, label: &str, v: u64)
    ensures
        final(s)@ == old(s)@ + label@ + decimal(v as nat) + "\n"@,
{
    push_str(s, label);
    push_decimal(s, v);
    push_str(s, "\n");
    assert(s@ =~= old(s)@ + label@ + decimal(v as nat) + "\n"@);
}

/// Appends `label`, `t` and a newline.
fn push_line_text(s: &mut String, label: &str, t: &str)
    ensures
        final(s)@ == old(s)@ + label@ + t@ + "\n"@,
{
    push_str(s, label);
    push_str(s, t);
    push_str(s, "\n");
    assert(s@ =~= old(s)@ + label@ + t@ + "\n"@);
}

/// Appends `label`, `v` thousandths, `unit` and a newline.
fn push_line_milli(s: &mut String, label: &str, v: u32, unit: &str)
    ensures
        final(s)@ == old(s)@ + label@ + milli_text(v) + unit@,
{
    push_str(s, label);
    push_milli(s, v);
    push_str(s, unit);
    assert(s@ =~= old(s)@ + label@ + milli_text(v) + unit@);
}

/// The report's voltage and current lines: the design voltage, present
/// voltage and present current, one after another, each its label, the
/// value in thousandths (see [`lemma_milli_text_reads_back`]) and its unit.
pub proof fn lemma_battery_report_milli_lines(
    info: MemMappedBatteryInfo,
    mfgr: Seq<char>,
    model: Seq<char>,
    serial: Seq<char>,
    btype: Seq<char>,
)
    ensures
        exists|pre: Seq<char>, post: Seq<char>|
            battery_info_text(info, mfgr, model, serial, btype) == pre + "Design Volt:   "@
                + milli_text(info.dvlt) + " V\n"@ + "Present Volt:  "@ + milli_text(info.volt)
                + " V\n"@ + "Present Curr:  "@ + milli_text(info.rate) + " A\n"@ + post,
{
    let pre = "---- Stats for battery at index "@ + decimal(info.index as nat) + " ----\n"@
        + "Manufacturer:  "@ + mfgr + "\n"@
        + "Model:         "@ + model + "\n"@
        + "Serial:        "@ + serial + "\n"@
        + "Type:          "@ + btype + "\n"@
        + "State:         "@ + batt_flags_text(info.state.0, 8) + "\n"@
        + "Count:         "@ + decimal(info.count as nat) + "\n"@
        + "Cycle Count:   "@ + decimal(info.ccnt as nat) + "\n"@;
    let post = "Remain. mAh:   "@ + decimal(info.cap as nat) + "\n"@
        + "Design mAh:    "@ + decimal(info.dcap as nat) + "\n"@
        + "Last Full mAh: "@ + decimal(info.lfcc as nat) + "\n"@;
    assert(battery_info_text(info, mfgr, model, serial, btype) =~= pre + "Design Volt:   "@
        + milli_text(info.dvlt) + " V\n"@ + "Present Volt:  "@ + milli_text(info.volt) + " V\n"@
        + "Present Curr:  "@ + milli_text(info.rate) + " A\n"@ + post);
}

/// The report opens with the index of the battery it is about.
pub proof fn lemma_battery_report_opens_with_index(
    info: MemMappedBatteryInfo,
    mfgr: Seq<char>,
    model: Seq<char>,
    serial: Seq<char>,
    btype: Seq<char>,
)
    ensures
        ("---- Stats for battery at index "@ + decimal(info.index as nat) + " ----\n"@).is_prefix_of(
            battery_info_text(info, mfgr, model, serial, btype),
        ),
{
    broadcast use lemma_prefix_first, lemma_prefix_extend;

}

/// The report closes with the battery's counts, voltages, current and
/// capacities, each line its label and the field of that name: counts and
/// capacities in decimal, voltages and current in thousandths.
pub proof fn lemma_battery_report_number_lines(
    info: MemMappedBatteryInfo,
    mfgr: Seq<char>,
    model: Seq<char>,
    serial: Seq<char>,
    btype: Seq<char>,
)
    ensures
        exists|pre: Seq<char>|
            battery_info_text(info, mfgr, model, serial, btype) == pre + "Count:         "@ + decimal(
                info.count as nat,
            ) + "\n"@ + "Cycle Count:   "@ + decimal(info.ccnt as nat) + "\n"@ + "Design Volt:   "@
                + milli_text(info.dvlt) + " V\n"@ + "Present Volt:  "@ + milli_text(info.volt)
                + " V\n"@ + "Present Curr:  "@ + milli_text(info.rate) + " A\n"@ + "Remain. mAh:   "@
                + decimal(info.cap as nat) + "\n"@ + "Design mAh:    "@ + decimal(info.dcap as nat)
                + "\n"@ + "Last Full mAh: "@ + decimal(info.lfcc as nat) + "\n"@,
{
    let pre = "---- Stats for battery at index "@ + decimal(info.index as nat) + " ----\n"@
        + "Manufacturer:  "@ + mfgr + "\n"@
        + "Model:         "@ + model + "\n"@
        + "Serial:        "@ + serial + "\n"@
        + "Type:          "@ + btype + "\n"@
        + "State:         "@ + batt_flags_text(info.state.0, 8) + "\n"@;
    assert(battery_info_text(info, mfgr, model, serial, btype) == pre + "Count:         "@ + decimal(
        info.count as nat,
    ) + "\n"@ + "Cycle Count:   "@ + decimal(info.ccnt as nat) + "\n"@ + "Design Volt:   "@
        + milli_text(info.dvlt) + " V\n"@ + "Present Volt:  "@ + milli_text(info.volt) + " V\n"@
        + "Present Curr:  "@ + milli_text(info.rate) + " A\n"@ + "Remain. mAh:   "@ + decimal(
        info.cap as nat,
    ) + "\n"@ + "Design mAh:    "@ + decimal(info.dcap as nat) + "\n"@ + "Last Full mAh: "@
        + decimal(info.lfcc as nat) + "\n"@);
}

/// The battery report for `info`, given its four text fields as text.
pub fn battery_info_lines(
    info: &MemMappedBatteryInfo,
    mfgr: &str,
    model: &str,
    serial: &str,
    btype: &str,
) -> (r: String)
    ensures
        r@ == battery_info_text(*info, mfgr@, model@, serial@, btype@),
{
    proof {
        reveal_strlit("---- Stats for battery at index ");
        reveal_strlit(" ----\n");
        reveal_strlit("\n");
        reveal_strlit(" V\n");
        reveal_strlit(" A\n");
    }
    let mut s = String::new();
    push_str(&mut s, "---- Stats for battery at index ");
    push_decimal(&mut s, info.index as u64);
    push_str(&mut s, " ----\n");
    push_line_text(&mut s, "Manufacturer:  ", mfgr);
    push_line_text(&mut s, "Model:         ", model);
    push_line_text(&mut s, "Serial:        ", serial);
    push_line_text(&mut s, "Type:          ", btype);
    let flags = info.state.describe();
    push_line_text(&mut s, "State:         ", flags.as_str());
    push_line_decimal(&mut s, "Count:         ", info.count as u64);
    push_line_decimal(&mut s, "Cycle Count:   ", info.ccnt as u64);
    push_line_milli(&mut s, "Design Volt:   ", info.dvlt, " V\n");
    push_line_milli(&mut s, "Present Volt:  ", info.volt, " V\n");
    push_line_milli(&mut s, "Present Curr:  ", info.rate, " A\n");
    push_line_decimal(&mut s, "Remain. mAh:   ", info.cap as u64);
    push_line_decimal(&mut s, "Design mAh:    ", info.dcap as u64);
    push_line_decimal(&mut s, "Last Full mAh: ", info.lfcc as u64);
    proof {
        reveal_strlit("Manufacturer:  ");
        reveal_strlit("Model:         ");
        reveal_strlit("Serial:        ");
        reveal_strlit("Type:          ");
        reveal_strlit("State:         ");
        reveal_strlit("Count:         ");
        reveal_strlit("Cycle Count:   ");
        reveal_strlit("Design Volt:   ");
        reveal_strlit("Present Volt:  ");
        reveal_strlit("Present Curr:  ");
        reveal_strlit("Remain. mAh:   ");
        reveal_strlit("Design mAh:    ");
        reveal_strlit("Last Full mAh: ");
    }
    assert(s@ =~= battery_info_text(*info, mfgr@, model@, serial@, btype@));
    s
}

impl MemMappedBatteryInfo {
    /// The battery report: its index, the text fields, the flags, counts,
    /// and the voltages, current and capacities in their units.
    pub fn describe(&self) -> (r: String)
        ensures
            r@ == battery_info_text(
                *self,
                field_text(self.mfgr),
                field_text(self.model),
                field_text(self.serial),
                field_text(self.battery_type),
            ),
    {
        let mfgr = field_string(&self.mfgr);
        let model = field_string(&self.model);
        let serial = field_string(&self.serial);
        let btype = field_string(&self.battery_type);
        battery_info_lines(self, mfgr.as_str(), model.as_str(), serial.as_str(), btype.as_str())
    }
}

} // verus!
