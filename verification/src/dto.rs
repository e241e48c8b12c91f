//! The values the charge monitor's D-Bus service hands out, and how they
//! are made from what the EC reports.
//!
//! Field order and types are the wire format: the service serialises the
//! fields positionally, as `(uuuyyyuuuussss)`, `(nnnnnnn)` and
//! `(yyyyqqqqu)`.
use vstd::prelude::*;

use crate::battery::{
    EcResponseBatteryDynamicInfo,
    MemMappedBatteryInfo,
    battery_block_answered,
    field_text,
    get_battery_dynamic_info,
    get_memmapped_battery_info,
    BatteryDynamicInfo,
    EcParamsBatteryDynamicInfo,
    field_string,
};
use crate::command::{CrosEcCommandV2, EcReply, answered};
use crate::error::{EcError, ToolError};
use crate::memmap::CrosEcReadmemV2;
use crate::usb::{as_tool, get_port_pd_info, port_number_message};
use crate::usbpd::{EcParamsUsbPdPowerInfo, EcResponseUsbPdPowerInfo, UsbPdPowerInfo};

verus! {

/// The battery block of the EC memory map, as the service hands it out.
pub struct MemMappedBatteryInfoDto {
    /// Battery present voltage (mV).
    pub volt: u32,
    /// Battery present rate (mA).
    pub rate: u32,
    /// Battery remaining capacity (mAh).
    pub cap: u32,
    /// Battery flags (the `EC_BATT_FLAG_*` bits).
    pub state: u8,
    /// Battery count.
    pub count: u8,
    /// Current battery data index.
    pub index: u8,
    /// Battery design capacity (mAh).
    pub dcap: u32,
    /// Battery design voltage (mV).
    pub dvlt: u32,
    /// Battery last full charge capacity (mAh).
    pub lfcc: u32,
    /// Battery cycle count.
    pub ccnt: u32,
    /// Battery manufacturer string.
    pub mfgr: String,
    /// Battery model number string.
    pub model: String,
    /// Battery serial number string.
    pub serial: String,
    /// Battery type string.
    pub battery_type: String,
}

/// Battery dynamic info, as the service hands it out. Voltages in mV,
/// currents in mA, capacities in mAh.
#[derive(Clone, Copy, Debug, PartialEq, Eq, Structural)]
pub struct BatteryDynamicInfoDto {
    /// Battery voltage (mV).
    pub actual_voltage: i16,
    /// Battery current (mA); negative means discharging.
    pub actual_current: i16,
    /// Remaining capacity (mAh).
    pub remaining_capacity: i16,
    /// Full capacity (mAh, might change occasionally).
    pub full_capacity: i16,
    /// Flags.
    pub flags: i16,
    /// Charging voltage desired by the battery (mV).
    pub desired_voltage: i16,
    /// Charging current desired by the battery (mA).
    pub desired_current: i16,
}

/// USB-PD power info for one port, as the service hands it out.
#[derive(Clone, Copy, Debug, PartialEq, Eq, Structural)]
pub struct PortPdInfoDto {
    /// Power role: 0 disconnected, 1 source, 2 sink, 3 sink not charging.
    /// Only 2 marks the port the EC chose to draw power from.
    pub role: u8,
    /// Charger type.
    pub charge_type: u8,
    /// Whether the port supports dual-role operation.
    pub dualrole: u8,
    pub reserved1: u8,
    /// Maximum voltage advertised (mV).
    pub voltage_max: u16,
    /// Present voltage (mV).
    pub voltage_now: u16,
    /// Maximum current advertised (mA).
    pub current_max: u16,
    /// Negotiated current limit (mA), not an instantaneous draw.
    pub current_lim: u16,
    /// Maximum power (microwatts).
    pub max_power: u32,
}

/// `dto` carries the numbers of `info` unchanged and its text fields as
/// text.
pub open spec fn mem_mapped_dto_of(info: MemMappedBatteryInfo, dto: MemMappedBatteryInfoDto) -> bool {
    &&& dto.volt == info.volt
    &&& dto.rate == info.rate
    &&& dto.cap == info.cap
    &&& dto.state == info.state.0
    &&& dto.count == info.count
    &&& dto.index == info.index
    &&& dto.dcap == info.dcap
    &&& dto.dvlt == info.dvlt
    &&& dto.lfcc == info.lfcc
    &&& dto.ccnt == info.ccnt
    &&& dto.mfgr@ == field_text(info.mfgr)
    &&& dto.model@ == field_text(info.model)
    &&& dto.serial@ == field_text(info.serial)
    &&& dto.battery_type@ == field_text(info.battery_type)
}

/// The battery block as the service hands it out, given its four text
/// fields already decoded: the numbers unchanged, the texts as given.
pub fn mem_mapped_dto_with_text(
    info: &MemMappedBatteryInfo,
    mfgr: String,
    model: String,
    serial: String,
    battery_type: String,
) -> (dto: MemMappedBatteryInfoDto)
    ensures
        dto.volt == info.volt && dto.rate == info.rate && dto.cap == info.cap && dto.state
            == info.state.0 && dto.count == info.count && dto.index == info.index && dto.dcap
            == info.dcap && dto.dvlt == info.dvlt && dto.lfcc == info.lfcc && dto.ccnt == info.ccnt,
        dto.mfgr@ == mfgr@ && dto.model@ == model@ && dto.serial@ == serial@ && dto.battery_type@
            == battery_type@,
{
    MemMappedBatteryInfoDto {
        volt: info.volt,
        rate: info.rate,
        cap: info.cap,
        state: info.state.0,
        count: info.count,
        index: info.index,
        dcap: info.dcap,
        dvlt: info.dvlt,
        lfcc: info.lfcc,
        ccnt: info.ccnt,
        mfgr,
        model,
        serial,
        battery_type,
    }
}

/// The battery block as the service hands it out.
pub fn mem_mapped_dto(info: &MemMappedBatteryInfo) -> (dto: MemMappedBatteryInfoDto)
    ensures
        mem_mapped_dto_of(*info, dto),
{
    mem_mapped_dto_with_text(
        info,
        field_string(&info.mfgr),
        field_string(&info.model),
        field_string(&info.serial),
        field_string(&info.battery_type),
    )
}

/// Read the battery block and hand it out.
///
/// # Errors
///
/// Fails if the memory-map read fails.
pub fn get_mem_mapped_info<R: Fn(&CrosEcReadmemV2) -> Result<Vec<u8>, EcError>>(readmem: &R) -> (r:
    Result<MemMappedBatteryInfoDto, EcError>)
    requires
        forall|q: &CrosEcReadmemV2| readmem.requires((q,)),
    ensures
        exists|o: Result<MemMappedBatteryInfo, EcError>|
            battery_block_answered::<R>(*readmem, o) && match o {
                Ok(info) => r matches Ok(dto) && mem_mapped_dto_of(info, dto),
                Err(e) => r == Err::<MemMappedBatteryInfoDto, EcError>(e),
            },
{
    let o = get_memmapped_battery_info(readmem);
    let ghost seen = o;
    match o {
        Ok(info) => {
            let dto = mem_mapped_dto(&info);
            assert(battery_block_answered::<R>(*readmem, seen));
            Ok(dto)
        },
        Err(e) => {
            assert(battery_block_answered::<R>(*readmem, seen));
            Err(e)
        },
    }
}

/// The dynamic info as the service hands it out: every field unchanged.
pub open spec fn dynamic_dto_of(i: EcResponseBatteryDynamicInfo) -> BatteryDynamicInfoDto {
    BatteryDynamicInfoDto {
        actual_voltage: i.actual_voltage,
        actual_current: i.actual_current,
        remaining_capacity: i.remaining_capacity,
        full_capacity: i.full_capacity,
        flags: i.flags,
        desired_voltage: i.desired_voltage,
        desired_current: i.desired_current,
    }
}

/// The dynamic info as the service hands it out.
pub fn dynamic_dto(i: &EcResponseBatteryDynamicInfo) -> (dto: BatteryDynamicInfoDto)
    ensures
        dto == dynamic_dto_of(*i),
        dto.actual_voltage == i.actual_voltage,
        dto.actual_current == i.actual_current,
        dto.remaining_capacity == i.remaining_capacity,
        dto.full_capacity == i.full_capacity,
        dto.flags == i.flags,
        dto.desired_voltage == i.desired_voltage,
        dto.desired_current == i.desired_current,
{
    BatteryDynamicInfoDto {
        actual_voltage: i.actual_voltage,
        actual_current: i.actual_current,
        remaining_capacity: i.remaining_capacity,
        full_capacity: i.full_capacity,
        flags: i.flags,
        desired_voltage: i.desired_voltage,
        desired_current: i.desired_current,
    }
}

/// The service hands out the battery's dynamic info unchanged: every field
/// of what it sends is the field of the same name in the EC's answer.
pub proof fn lemma_dynamic_dto_copies_each_field(i: EcResponseBatteryDynamicInfo)
    ensures
        dynamic_dto_of(i).actual_voltage == i.actual_voltage,
        dynamic_dto_of(i).actual_current == i.actual_current,
        dynamic_dto_of(i).remaining_capacity == i.remaining_capacity,
        dynamic_dto_of(i).full_capacity == i.full_capacity,
        dynamic_dto_of(i).flags == i.flags,
        dynamic_dto_of(i).desired_voltage == i.desired_voltage,
        dynamic_dto_of(i).desired_current == i.desired_current,
{
}

/// Read the battery's dynamic info and hand it out.
///
/// # Errors
///
/// Fails if the EC is unreachable, refuses the command, or answers short.
pub fn get_dynamic_info<F: Fn(&CrosEcCommandV2) -> Result<EcReply, EcError>>(xfer: &F) -> (r:
    Result<BatteryDynamicInfoDto, EcError>)
    requires
        forall|f: &CrosEcCommandV2| xfer.requires((f,)),
    ensures
        exists|o: Result<EcResponseBatteryDynamicInfo, EcError>|
            answered::<BatteryDynamicInfo, F>(*xfer, EcParamsBatteryDynamicInfo { index: 0 }, o)
                && match o {
                Ok(i) => r == Ok::<BatteryDynamicInfoDto, EcError>(dynamic_dto_of(i)),
                Err(e) => r == Err::<BatteryDynamicInfoDto, EcError>(e),
            },
{
    let o = get_battery_dynamic_info(xfer);
    let ghost seen = o;
    let r = match o {
        Ok(i) => Ok(dynamic_dto(&i)),
        Err(e) => Err(e),
    };
    assert(answered::<BatteryDynamicInfo, F>(*xfer, EcParamsBatteryDynamicInfo { index: 0 }, seen));
    r
}

/// A port's power info as the service hands it out: every field unchanged.
pub open spec fn port_dto_of(i: EcResponseUsbPdPowerInfo) -> PortPdInfoDto {
    PortPdInfoDto {
        role: i.role,
        charge_type: i.charge_type,
        dualrole: i.dualrole,
        reserved1: i.reserved1,
        voltage_max: i.voltage_max,
        voltage_now: i.voltage_now,
        current_max: i.current_max,
        current_lim: i.current_lim,
        max_power: i.max_power,
    }
}

/// A port's power info as the service hands it out.
pub fn port_dto(i: &EcResponseUsbPdPowerInfo) -> (dto: PortPdInfoDto)
    ensures
        dto == port_dto_of(*i),
        dto.role == i.role,
        dto.charge_type == i.charge_type,
        dto.dualrole == i.dualrole,
        dto.reserved1 == i.reserved1,
        dto.voltage_max == i.voltage_max,
        dto.voltage_now == i.voltage_now,
        dto.current_max == i.current_max,
        dto.current_lim == i.current_lim,
        dto.max_power == i.max_power,
{
    PortPdInfoDto {
        role: i.role,
        charge_type: i.charge_type,
        dualrole: i.dualrole,
        reserved1: i.reserved1,
        voltage_max: i.voltage_max,
        voltage_now: i.voltage_now,
        current_max: i.current_max,
        current_lim: i.current_lim,
        max_power: i.max_power,
    }
}

/// The service hands out a port's power info unchanged: every field of what
/// it sends is the field of the same name in the EC's answer.
pub proof fn lemma_port_dto_copies_each_field(i: EcResponseUsbPdPowerInfo)
    ensures
        port_dto_of(i).role == i.role,
        port_dto_of(i).charge_type == i.charge_type,
        port_dto_of(i).dualrole == i.dualrole,
        port_dto_of(i).reserved1 == i.reserved1,
        port_dto_of(i).voltage_max == i.voltage_max,
        port_dto_of(i).voltage_now == i.voltage_now,
        port_dto_of(i).current_max == i.current_max,
        port_dto_of(i).current_lim == i.current_lim,
        port_dto_of(i).max_power == i.max_power,
{
}

/// Read one port's power info, after checking the index against
/// `num_ports`, and hand it out.
///
/// # Errors
///
/// The range message for a bad index, without asking the EC; otherwise the
/// EC's failure.
pub fn get_port_pd_info_dto<F: Fn(&CrosEcCommandV2) -> Result<EcReply, EcError>>(
    xfer: &F,
    num_ports: u8,
    port: u8,
) -> (r: Result<PortPdInfoDto, ToolError>)
    requires
        forall|f: &CrosEcCommandV2| xfer.requires((f,)),
    ensures
        port >= num_ports ==> (r matches Err(ToolError::Message(m)) && m@ == port_number_message(
            port,
            num_ports,
        )),
        port < num_ports ==> exists|o: Result<EcResponseUsbPdPowerInfo, EcError>|
            answered::<UsbPdPowerInfo, F>(*xfer, EcParamsUsbPdPowerInfo { port }, o) && match o {
                Ok(i) => r == Ok::<PortPdInfoDto, ToolError>(port_dto_of(i)),
                Err(e) => r == Err::<PortPdInfoDto, ToolError>(ToolError::Ec(e)),
            },
{
    let o = get_port_pd_info(xfer, num_ports, port);
    match o {
        Ok(i) => Ok(port_dto(&i)),
        Err(e) => Err(e),
    }
}

} // verus!
