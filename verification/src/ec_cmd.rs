//! The EC host command numbers.
use vstd::prelude::*;

verus! {

/// The EC host commands, named as in `ec_commands.h`.
#[derive(Clone, Copy, Debug, PartialEq, Eq, Structural)]
pub enum EcCmd {
    /// Get protocol version, used to deal with non-backward compatible protocol changes.
    ProtoVersion,
    /// Hello. This is a simple command to test the EC is responsive to commands.
    Hello,
    /// Get version number.
    GetVersion,
    /// Read test.
    ReadTest,
    /// Get build information. Response is null-terminated string.
    GetBuildInfo,
    /// Get chip info.
    GetChipInfo,
    /// Get board HW version.
    GetBoardVersion,
    /// Read memory-mapped data. This is an alternate interface to memory-mapped data for bus protocols which don't support direct-mapped memory - I2C, SPI, etc. Response is params.size bytes of data.
    ReadMemmap,
    /// Read versions supported for a command.
    GetCmdVersions,
    /// Check EC communications status (busy). This is needed on i2c/spi but not on lpc since it has its own out-of-band busy indicator. lpc must read the status from the command register. Attempting this on lpc will overwrite the args/parameter space and corrupt its data.
    GetCommsStatus,
    /// Fake a variety of responses, purely for testing purposes.
    TestProtocol,
    /// Get protocol information.
    GetProtocolInfo,
    /// More than one command can use these structs to get/set parameters.
    GsvPauseInS5,
    /// List the features supported by the firmware.
    GetFeatures,
    /// Get the board's SKU ID from EC.
    GetSkuId,
    /// Set SKU ID from AP.
    SetSkuId,
    /// Get flash info.
    FlashInfo,
    /// Read flash. Response is params.size bytes of data.
    FlashRead,
    /// Write flash.
    FlashWrite,
    /// Erase flash.
    FlashErase,
    /// Get/set flash protection. If mask!=0, sets/clear the requested bits of flags. Depending on the firmware write protect GPIO, not all flags will take effect immediately; some flags require a subsequent hard reset to take effect. Check the returned flags bits to see what actually happened. If mask=0, simply returns the current flags state.
    FlashProtect,
    /// Get the region offset/size.
    FlashRegionInfo,
    /// Read/write VbNvContext.
    VbnvContext,
    /// Get SPI flash information.
    FlashSpiInfo,
    /// Select flash during flash operations.
    FlashSelect,
    /// Request random numbers to be generated and returned. Can be used to test the random number generator is truly random.
    RandNum,
    /// Get information about the key used to sign the RW firmware.
    RwsigInfo,
    /// Get information about the system, such as reset flags, locked state, etc.
    Sysinfo,
    /// Get fan target RPM.
    PwmGetFanTargetRpm,
    /// Set target fan RPM.
    PwmSetFanTargetRpm,
    /// Get keyboard backlight. OBSOLETE - Use EC_CMD_PWM_SET_DUTY.
    PwmGetKeyboardBacklight,
    /// Set keyboard backlight. OBSOLETE - Use EC_CMD_PWM_SET_DUTY.
    PwmSetKeyboardBacklight,
    /// Set target fan PWM duty cycle.
    PwmSetFanDuty,
    PwmSetDuty,
    PwmGetDuty,
    /// Lightbar commands. Since we only use one HOST command to say "talk to the lightbar", we put the "and tell it to do X" part into a subcommand.
    LightbarCmd,
    /// LED control commands.
    LedControl,
    /// Verified boot hash command.
    VbootHash,
    /// Motion sense commands. We'll make separate structs for sub-commands with different input args, so that we know how much to expect.
    MotionSenseCmd,
    /// Make lid event always open.
    ForceLidOpen,
    /// Configure the behavior of the power button.
    ConfigPowerButton,
    /// Set USB port charging mode.
    UsbChargeSetMode,
    /// Get persistent storage info.
    PstoreInfo,
    /// Read persistent storage. Response is params.size bytes of data.
    PstoreRead,
    /// Write persistent storage.
    PstoreWrite,
    /// These use ec_response_rtc.
    RtcGetValue,
    /// These use ec_response_rtc.
    RtcGetAlarm,
    /// These all use ec_params_rtc.
    RtcSetValue,
    /// These all use ec_params_rtc.
    RtcSetAlarm,
    /// Get last port80 code from previous boot.
    Port80Read,
    /// Get persistent storage info.
    VstoreInfo,
    /// Read temporary secure storage. Response is EC_VSTORE_SLOT_SIZE bytes of data.
    VstoreRead,
    /// Write temporary secure storage and lock it.
    VstoreWrite,
    ThermalSetThreshold,
    ThermalGetThreshold,
    /// Toggle automatic fan control.
    ThermalAutoFanCtrl,
    /// Get/Set TMP006 calibration data.
    Tmp006GetCalibration,
    /// Get/Set TMP006 calibration data.
    Tmp006SetCalibration,
    /// Read raw TMP006 data.
    Tmp006GetRaw,
    /// Read key state. Returns raw data for keyboard cols; see ec_response_mkbp_info.cols for expected response size. NOTE: This has been superseded by EC_CMD_MKBP_GET_NEXT_EVENT.
    MkbpState,
    /// Provide information about various MKBP things. See enum ec_mkbp_info_type.
    MkbpInfo,
    /// Simulate key press.
    MkbpSimulateKey,
    GetKeyboardId,
    /// Configure keyboard scanning.
    MkbpSetConfig,
    /// Configure keyboard scanning.
    MkbpGetConfig,
    /// Run the key scan emulation.
    KeyscanSeqCtrl,
    /// Get the next pending MKBP event. Returns EC_RES_UNAVAILABLE if there is no event pending.
    GetNextEvent,
    /// Run keyboard factory test scanning.
    KeyboardFactoryTest,
    MkbpWakeMask,
    /// Read temperature sensor info.
    TempSensorGetInfo,
    /// ACPI Read Embedded Controller. This reads from ACPI memory space on the EC (EC_ACPI_MEM_*).
    AcpiRead,
    /// ACPI Write Embedded Controller. This reads from ACPI memory space on the EC (EC_ACPI_MEM_*).
    AcpiWrite,
    /// ACPI Burst Enable Embedded Controller. This enables burst mode on the EC to allow the host to issue several commands back-to-back. While in this mode, writes to mapped multi-byte data are locked out to ensure data consistency.
    AcpiBurstEnable,
    /// ACPI Burst Disable Embedded Controller. This disables burst mode on the EC and stops preventing EC writes to mapped multi-byte data.
    AcpiBurstDisable,
    /// ACPI Query Embedded Controller. This clears the lowest-order bit in the currently pending host events, and sets the result code to the 1-based index of the bit (event 0x00000001 = 1, event 0x80000000 = 32), or 0 if no event was pending.
    AcpiQueryEvent,
    /// These all use ec_response_host_event_mask.
    HostEventGetB,
    /// These all use ec_response_host_event_mask.
    HostEventGetSmiMask,
    /// These all use ec_response_host_event_mask.
    HostEventGetSciMask,
    /// These all use ec_params_host_event_mask.
    HostEventSetSmiMask,
    /// These all use ec_params_host_event_mask.
    HostEventSetSciMask,
    /// These all use ec_params_host_event_mask.
    HostEventClear,
    /// These all use ec_response_host_event_mask.
    HostEventGetWakeMask,
    /// These all use ec_params_host_event_mask.
    HostEventSetWakeMask,
    /// These all use ec_params_host_event_mask.
    HostEventClearB,
    /// Enable/disable LCD backlight.
    SwitchEnableBklight,
    /// Enable/disable WLAN/Bluetooth.
    SwitchEnableWireless,
    /// Set GPIO output value.
    GpioSet,
    /// Get GPIO value.
    GpioGet,
    /// Read I2C bus. CAUTION: Deprecated, not supported in EC builds >= 8398.0.0. Use EC_CMD_I2C_PASSTHRU instead.
    I2cRead,
    /// Write I2C bus. CAUTION: Deprecated, not supported in EC builds >= 8398.0.0. Use EC_CMD_I2C_PASSTHRU instead.
    I2cWrite,
    /// Force charge state machine to stop charging the battery or force it to discharge the battery.
    ChargeControl,
    /// Snapshot console output buffer for use by EC_CMD_CONSOLE_READ.
    ConsoleSnapshot,
    /// Read data from the saved snapshot. Response is null-terminated string. Empty string, if there is no more remaining output.
    ConsoleRead,
    /// Cut off battery power immediately or after the host has shut down.
    BatteryCutOff,
    /// Switch USB mux or return to automatic switching.
    UsbMux,
    /// Switch on/off a LDO.
    LdoSet,
    /// Get LDO state.
    LdoGet,
    /// Get power info. Note: v0 of this command is deprecated.
    PowerInfo,
    /// I2C passthru command.
    I2cPassthru,
    /// Power button hang detect.
    HangDetect,
    /// This is the single catch-all host command to exchange data regarding the charge state machine (v2 and up).
    ChargeState,
    /// Set maximum battery charging current.
    ChargeCurrentLimit,
    /// Set maximum external voltage / current.
    ExternalPowerLimit,
    /// Set maximum voltage & current of a dedicated charge port.
    OverrideDedicatedChargerLimit,
    /// Unified host event programming interface - Should be used by newer versions of BIOS/OS to program host events and masks.
    HostEvent,
    /// Set the delay before going into hibernation.
    HibernationDelay,
    /// Inform the EC when entering a sleep state.
    HostSleepEvent,
    /// Device events.
    DeviceEvent,
    /// Get / Set 16-bit smart battery registers.
    SbReadWord,
    /// Get / Set 16-bit smart battery registers.
    SbWriteWord,
    /// Get / Set string smart battery parameters formatted as SMBUS "block".
    SbReadBlock,
    /// Get / Set string smart battery parameters formatted as SMBUS "block".
    SbWriteBlock,
    /// Battery vendor parameters. Get or set vendor-specific parameters in the battery. On a set operation, the response contains the actual value set, which may be rounded or clipped from the requested value.
    BatteryVendorParam,
    /// Smart Battery Firmware Update Commands.
    SbFwUpdate,
    /// Entering Verified Boot Mode Command. Default mode is VBOOT_MODE_NORMAL if EC did not receive this command. Valid Modes are: normal, developer, and recovery. EC no longer needs to know what mode vboot has entered, so this command is deprecated.
    EnteringMode,
    /// I2C passthru protection command: Protects I2C tunnels against access on certain addresses (board-specific).
    I2cPassthruProtect,
    /// CEC message from the AP to be written on the CEC bus.
    CecWriteMsg,
    /// Set various CEC parameters.
    CecSet,
    /// Read various CEC parameters.
    CecGet,
    /// Commands for audio codec.
    EcCodec,
    /// Commands for DMIC on audio codec.
    EcCodecDmic,
    /// Commands for I2S RX on audio codec.
    EcCodecI2sRx,
    /// Commands for WoV on audio codec.
    EcCodecWov,
    /// Commands for PoE PSE controller.
    Pse,
    /// Reboot NOW. This command will work even when the EC LPC interface is busy, because the reboot command is processed at interrupt level. Note that when the EC reboots, the host will reboot too, so there is no response to this command. Use EC_CMD_REBOOT_EC to reboot the EC more politely.
    Reboot,
    /// TODO(crosbug.com/p/23747): This is a confusing name, since it doesn't necessarily reboot the EC. Rename to "image" or something similar?
    RebootEc,
    /// Get information on last EC panic. Returns variable-length platform-dependent panic information. See panic.h for details.
    GetPanicInfo,
    /// Resend last response (not supported on LPC). Returns EC_RES_UNAVAILABLE if there is no response available.
    ResendResponse,
    /// This header byte on a command indicates version 0. Any header byte less than this means that we are talking to an old EC which doesn't support versioning. In that case, we assume version 0.
    Version0,
    /// EC to PD MCU exchange status command.
    PdExchangeStatus,
    /// Set USB type-C port role and muxes. Deprecated in favor of TYPEC_STATUS and TYPEC_CONTROL commands.
    UsbPdControl,
    UsbPdPorts,
    UsbPdPowerInfo,
    /// AP to PD MCU host event status command, cleared on read.
    PdHostEventStatus,
    /// This command will return the number of USB PD charge port + the number of dedicated port present. EC_CMD_USB_PD_PORTS does NOT include the dedicated ports.
    ChargePortCount,
    /// Write USB-PD device FW.
    UsbPdFwUpdate,
    /// Write USB-PD Accessory RW_HASH table entry.
    UsbPdRwHashEntry,
    /// Read USB-PD Accessory info.
    UsbPdDevInfo,
    /// Read USB-PD Device discovery info.
    UsbPdDiscovery,
    /// Override default charge behavior.
    PdChargePortOverride,
    /// Read (and delete) one entry of PD event log.
    PdGetLogEntry,
    /// Get/Set USB-PD Alternate mode info.
    UsbPdGetAmode,
    UsbPdSetAmode,
    /// Ask the PD MCU to record a log of a requested type.
    PdWriteLogEntry,
    /// Control USB-PD chip.
    PdControl,
    /// Get info about USB-C SS muxes.
    UsbPdMuxInfo,
    PdChipInfo,
    /// Run RW signature verification and get status.
    RwsigCheckStatus,
    /// For controlling RWSIG task.
    RwsigAction,
    /// Run verification on a slot.
    EfsVerify,
    /// Retrieve info from Cros Board Info store. Response is based on the data type. Integers return a uint32. Strings return a string, using the response size to determine how big it is.
    GetCrosBoardInfo,
    /// Write info into Cros Board Info on EEPROM. Write fails if the board has hardware write-protect enabled.
    SetCrosBoardInfo,
    /// Information about resets of the AP by the EC and the EC's own uptime.
    GetUptimeInfo,
    /// Add entropy to the device secret (stored in the rollback region). Depending on the chip, the operation may take a long time (e.g. to erase flash), so the commands are asynchronous.
    AddEntropy,
    /// Perform a single read of a given ADC channel.
    AdcRead,
    /// Read back rollback info.
    RollbackInfo,
    /// Issue AP reset.
    ApReset,
    /// Locate peripheral chips.
    LocateChip,
    /// Reboot AP on G3. This command is used for validation purpose, where the AP needs to be returned back to S0 state from G3 state without using the servo to trigger wake events.
    RebootApOnG3,
    /// Get PD port capabilities. Returns the following static capabilities of the given port: power role, try-power role, and data role.
    GetPdPortCaps,
    /// Button press simulation. This command is used to simulate a button press. NOTE: This is only available on unlocked devices for testing purposes only.
    Button,
    /// "Get the Keyboard Config". An EC implementing this command is expected to be vivaldi capable, i.e. can send action codes for the top row keys.
    GetKeybdConfig,
    /// Configure smart discharge.
    SmartDischarge,
    /// Get basic info of voltage regulator for given index. Returns the regulator name and supported voltage list in mV.
    RegulatorGetInfo,
    /// Configure the regulator as enabled / disabled.
    RegulatorEnable,
    /// Query if the regulator is enabled. Returns 1 if the regulator is enabled, 0 if not.
    RegulatorIsEnabled,
    /// Set voltage for the voltage regulator within the range specified. The driver should select the voltage in range closest to min_mv.
    RegulatorSetVoltage,
    /// Get the currently configured voltage for the voltage regulator. Note that this might be called before the regulator is enabled, and this should return the configured output voltage if the regulator is enabled.
    RegulatorGetVoltage,
    /// Gather all discovery information for the given port and partner type.
    TypecDiscovery,
    /// USB Type-C commands for AP-controlled device policy.
    TypecControl,
    /// Gather all status information for a port.
    TypecStatus,
    /// Reserve a range of host commands for the CR51 firmware.
    Cr51Base,
    /// Reserve a range of host commands for the CR51 firmware.
    Cr51Last,
    /// Fingerprint SPI sensor passthru command: prototyping ONLY.
    FpPassthru,
    /// Configure the Fingerprint MCU behavior.
    FpMode,
    /// Retrieve Fingerprint sensor information.
    FpInfo,
    /// Get the last captured finger frame or a template content.
    FpFrame,
    /// Load a template into the MCU.
    FpTemplate,
    /// Clear the current fingerprint user context and set a new one.
    FpContext,
    FpStats,
    FpSeed,
    FpEncStatus,
    FpReadMatchSecret,
    /// Perform touchpad self test.
    TpSelfTest,
    /// Get number of frame types, and the size of each type.
    TpFrameInfo,
    /// Create a snapshot of current frame readings.
    TpFrameSnapshot,
    /// Read the frame.
    TpFrameGet,
    /// Get battery static information, i.e. information that never changes, or very infrequently.
    BatteryGetStatic,
    /// Get battery dynamic information, i.e. information that is likely to change every time it is read.
    BatteryGetDynamic,
    /// Control charger chip. Used to control charger chip on the slave.
    ChargerControl,
    /// Reserve a range of host commands for board-specific, experimental, or special purpose features.
    BoardSpecificBase,
    /// Reserve a range of host commands for board-specific, experimental, or special purpose features.
    BoardSpecificLast,
}

/// The command number sent on the wire for each command.
pub open spec fn ec_cmd_code(cmd: EcCmd) -> u16 {
    match cmd {
        EcCmd::ProtoVersion => 0x0000,
        EcCmd::Hello => 0x0001,
        EcCmd::GetVersion => 0x0002,
        EcCmd::ReadTest => 0x0003,
        EcCmd::GetBuildInfo => 0x0004,
        EcCmd::GetChipInfo => 0x0005,
        EcCmd::GetBoardVersion => 0x0006,
        EcCmd::ReadMemmap => 0x0007,
        EcCmd::GetCmdVersions => 0x0008,
        EcCmd::GetCommsStatus => 0x0009,
        EcCmd::TestProtocol => 0x000a,
        EcCmd::GetProtocolInfo => 0x000b,
        EcCmd::GsvPauseInS5 => 0x000c,
        EcCmd::GetFeatures => 0x000d,
        EcCmd::GetSkuId => 0x000e,
        EcCmd::SetSkuId => 0x000f,
        EcCmd::FlashInfo => 0x0010,
        EcCmd::FlashRead => 0x0011,
        EcCmd::FlashWrite => 0x0012,
        EcCmd::FlashErase => 0x0013,
        EcCmd::FlashProtect => 0x0015,
        EcCmd::FlashRegionInfo => 0x0016,
        EcCmd::VbnvContext => 0x0017,
        EcCmd::FlashSpiInfo => 0x0018,
        EcCmd::FlashSelect => 0x0019,
        EcCmd::RandNum => 0x001a,
        EcCmd::RwsigInfo => 0x001b,
        EcCmd::Sysinfo => 0x001c,
        EcCmd::PwmGetFanTargetRpm => 0x0020,
        EcCmd::PwmSetFanTargetRpm => 0x0021,
        EcCmd::PwmGetKeyboardBacklight => 0x0022,
        EcCmd::PwmSetKeyboardBacklight => 0x0023,
        EcCmd::PwmSetFanDuty => 0x0024,
        EcCmd::PwmSetDuty => 0x0025,
        EcCmd::PwmGetDuty => 0x0026,
        EcCmd::LightbarCmd => 0x0028,
        EcCmd::LedControl => 0x0029,
        EcCmd::VbootHash => 0x002a,
        EcCmd::MotionSenseCmd => 0x002b,
        EcCmd::ForceLidOpen => 0x002c,
        EcCmd::ConfigPowerButton => 0x002d,
        EcCmd::UsbChargeSetMode => 0x0030,
        EcCmd::PstoreInfo => 0x0040,
        EcCmd::PstoreRead => 0x0041,
        EcCmd::PstoreWrite => 0x0042,
        EcCmd::RtcGetValue => 0x0044,
        EcCmd::RtcGetAlarm => 0x0045,
        EcCmd::RtcSetValue => 0x0046,
        EcCmd::RtcSetAlarm => 0x0047,
        EcCmd::Port80Read => 0x0048,
        EcCmd::VstoreInfo => 0x0049,
        EcCmd::VstoreRead => 0x004a,
        EcCmd::VstoreWrite => 0x004b,
        EcCmd::ThermalSetThreshold => 0x0050,
        EcCmd::ThermalGetThreshold => 0x0051,
        EcCmd::ThermalAutoFanCtrl => 0x0052,
        EcCmd::Tmp006GetCalibration => 0x0053,
        EcCmd::Tmp006SetCalibration => 0x0054,
        EcCmd::Tmp006GetRaw => 0x0055,
        EcCmd::MkbpState => 0x0060,
        EcCmd::MkbpInfo => 0x0061,
        EcCmd::MkbpSimulateKey => 0x0062,
        EcCmd::GetKeyboardId => 0x0063,
        EcCmd::MkbpSetConfig => 0x0064,
        EcCmd::MkbpGetConfig => 0x0065,
        EcCmd::KeyscanSeqCtrl => 0x0066,
        EcCmd::GetNextEvent => 0x0067,
        EcCmd::KeyboardFactoryTest => 0x0068,
        EcCmd::MkbpWakeMask => 0x0069,
        EcCmd::TempSensorGetInfo => 0x0070,
        EcCmd::AcpiRead => 0x0080,
        EcCmd::AcpiWrite => 0x0081,
        EcCmd::AcpiBurstEnable => 0x0082,
        EcCmd::AcpiBurstDisable => 0x0083,
        EcCmd::AcpiQueryEvent => 0x0084,
        EcCmd::HostEventGetB => 0x0087,
        EcCmd::HostEventGetSmiMask => 0x0088,
        EcCmd::HostEventGetSciMask => 0x0089,
        EcCmd::HostEventSetSmiMask => 0x008a,
        EcCmd::HostEventSetSciMask => 0x008b,
        EcCmd::HostEventClear => 0x008c,
        EcCmd::HostEventGetWakeMask => 0x008d,
        EcCmd::HostEventSetWakeMask => 0x008e,
        EcCmd::HostEventClearB => 0x008f,
        EcCmd::SwitchEnableBklight => 0x0090,
        EcCmd::SwitchEnableWireless => 0x0091,
        EcCmd::GpioSet => 0x0092,
        EcCmd::GpioGet => 0x0093,
        EcCmd::I2cRead => 0x0094,
        EcCmd::I2cWrite => 0x0095,
        EcCmd::ChargeControl => 0x0096,
        EcCmd::ConsoleSnapshot => 0x0097,
        EcCmd::ConsoleRead => 0x0098,
        EcCmd::BatteryCutOff => 0x0099,
        EcCmd::UsbMux => 0x009a,
        EcCmd::LdoSet => 0x009b,
        EcCmd::LdoGet => 0x009c,
        EcCmd::PowerInfo => 0x009d,
        EcCmd::I2cPassthru => 0x009e,
        EcCmd::HangDetect => 0x009f,
        EcCmd::ChargeState => 0x00a0,
        EcCmd::ChargeCurrentLimit => 0x00a1,
        EcCmd::ExternalPowerLimit => 0x00a2,
        EcCmd::OverrideDedicatedChargerLimit => 0x00a3,
        EcCmd::HostEvent => 0x00a4,
        EcCmd::HibernationDelay => 0x00a8,
        EcCmd::HostSleepEvent => 0x00a9,
        EcCmd::DeviceEvent => 0x00aa,
        EcCmd::SbReadWord => 0x00b0,
        EcCmd::SbWriteWord => 0x00b1,
        EcCmd::SbReadBlock => 0x00b2,
        EcCmd::SbWriteBlock => 0x00b3,
        EcCmd::BatteryVendorParam => 0x00b4,
        EcCmd::SbFwUpdate => 0x00b5,
        EcCmd::EnteringMode => 0x00b6,
        EcCmd::I2cPassthruProtect => 0x00b7,
        EcCmd::CecWriteMsg => 0x00b8,
        EcCmd::CecSet => 0x00ba,
        EcCmd::CecGet => 0x00bb,
        EcCmd::EcCodec => 0x00bc,
        EcCmd::EcCodecDmic => 0x00bd,
        EcCmd::EcCodecI2sRx => 0x00be,
        EcCmd::EcCodecWov => 0x00bf,
        EcCmd::Pse => 0x00c0,
        EcCmd::Reboot => 0x00d1,
        EcCmd::RebootEc => 0x00d2,
        EcCmd::GetPanicInfo => 0x00d3,
        EcCmd::ResendResponse => 0x00db,
        EcCmd::Version0 => 0x00dc,
        EcCmd::PdExchangeStatus => 0x0100,
        EcCmd::UsbPdControl => 0x0101,
        EcCmd::UsbPdPorts => 0x0102,
        EcCmd::UsbPdPowerInfo => 0x0103,
        EcCmd::PdHostEventStatus => 0x0104,
        EcCmd::ChargePortCount => 0x0105,
        EcCmd::UsbPdFwUpdate => 0x0110,
        EcCmd::UsbPdRwHashEntry => 0x0111,
        EcCmd::UsbPdDevInfo => 0x0112,
        EcCmd::UsbPdDiscovery => 0x0113,
        EcCmd::PdChargePortOverride => 0x0114,
        EcCmd::PdGetLogEntry => 0x0115,
        EcCmd::UsbPdGetAmode => 0x0116,
        EcCmd::UsbPdSetAmode => 0x0117,
        EcCmd::PdWriteLogEntry => 0x0118,
        EcCmd::PdControl => 0x0119,
        EcCmd::UsbPdMuxInfo => 0x011a,
        EcCmd::PdChipInfo => 0x011b,
        EcCmd::RwsigCheckStatus => 0x011c,
        EcCmd::RwsigAction => 0x011d,
        EcCmd::EfsVerify => 0x011e,
        EcCmd::GetCrosBoardInfo => 0x011f,
        EcCmd::SetCrosBoardInfo => 0x0120,
        EcCmd::GetUptimeInfo => 0x0121,
        EcCmd::AddEntropy => 0x0122,
        EcCmd::AdcRead => 0x0123,
        EcCmd::RollbackInfo => 0x0124,
        EcCmd::ApReset => 0x0125,
        EcCmd::LocateChip => 0x0126,
        EcCmd::RebootApOnG3 => 0x0127,
        EcCmd::GetPdPortCaps => 0x0128,
        EcCmd::Button => 0x0129,
        EcCmd::GetKeybdConfig => 0x012a,
        EcCmd::SmartDischarge => 0x012b,
        EcCmd::RegulatorGetInfo => 0x012c,
        EcCmd::RegulatorEnable => 0x012d,
        EcCmd::RegulatorIsEnabled => 0x012e,
        EcCmd::RegulatorSetVoltage => 0x012f,
        EcCmd::RegulatorGetVoltage => 0x0130,
        EcCmd::TypecDiscovery => 0x0131,
        EcCmd::TypecControl => 0x0132,
        EcCmd::TypecStatus => 0x0133,
        EcCmd::Cr51Base => 0x0300,
        EcCmd::Cr51Last => 0x03ff,
        EcCmd::FpPassthru => 0x0400,
        EcCmd::FpMode => 0x0402,
        EcCmd::FpInfo => 0x0403,
        EcCmd::FpFrame => 0x0404,
        EcCmd::FpTemplate => 0x0405,
        EcCmd::FpContext => 0x0406,
        EcCmd::FpStats => 0x0407,
        EcCmd::FpSeed => 0x0408,
        EcCmd::FpEncStatus => 0x0409,
        EcCmd::FpReadMatchSecret => 0x040a,
        EcCmd::TpSelfTest => 0x0500,
        EcCmd::TpFrameInfo => 0x0501,
        EcCmd::TpFrameSnapshot => 0x0502,
        EcCmd::TpFrameGet => 0x0503,
        EcCmd::BatteryGetStatic => 0x0600,
        EcCmd::BatteryGetDynamic => 0x0601,
        EcCmd::ChargerControl => 0x0602,
        EcCmd::BoardSpecificBase => 0x3e00,
        EcCmd::BoardSpecificLast => 0x3fff,
    }
}

/// The command's name, as `{:?}` shows it.
pub open spec fn ec_cmd_name(cmd: EcCmd) -> Seq<char> {
    match cmd {
        EcCmd::ProtoVersion => "ProtoVersion"@,
        EcCmd::Hello => "Hello"@,
        EcCmd::GetVersion => "GetVersion"@,
        EcCmd::ReadTest => "ReadTest"@,
        EcCmd::GetBuildInfo => "GetBuildInfo"@,
        EcCmd::GetChipInfo => "GetChipInfo"@,
        EcCmd::GetBoardVersion => "GetBoardVersion"@,
        EcCmd::ReadMemmap => "ReadMemmap"@,
        EcCmd::GetCmdVersions => "GetCmdVersions"@,
        EcCmd::GetCommsStatus => "GetCommsStatus"@,
        EcCmd::TestProtocol => "TestProtocol"@,
        EcCmd::GetProtocolInfo => "GetProtocolInfo"@,
        EcCmd::GsvPauseInS5 => "GsvPauseInS5"@,
        EcCmd::GetFeatures => "GetFeatures"@,
        EcCmd::GetSkuId => "GetSkuId"@,
        EcCmd::SetSkuId => "SetSkuId"@,
        EcCmd::FlashInfo => "FlashInfo"@,
        EcCmd::FlashRead => "FlashRead"@,
        EcCmd::FlashWrite => "FlashWrite"@,
        EcCmd::FlashErase => "FlashErase"@,
        EcCmd::FlashProtect => "FlashProtect"@,
        EcCmd::FlashRegionInfo => "FlashRegionInfo"@,
        EcCmd::VbnvContext => "VbnvContext"@,
        EcCmd::FlashSpiInfo => "FlashSpiInfo"@,
        EcCmd::FlashSelect => "FlashSelect"@,
        EcCmd::RandNum => "RandNum"@,
        EcCmd::RwsigInfo => "RwsigInfo"@,
        EcCmd::Sysinfo => "Sysinfo"@,
        EcCmd::PwmGetFanTargetRpm => "PwmGetFanTargetRpm"@,
        EcCmd::PwmSetFanTargetRpm => "PwmSetFanTargetRpm"@,
        EcCmd::PwmGetKeyboardBacklight => "PwmGetKeyboardBacklight"@,
        EcCmd::PwmSetKeyboardBacklight => "PwmSetKeyboardBacklight"@,
        EcCmd::PwmSetFanDuty => "PwmSetFanDuty"@,
        EcCmd::PwmSetDuty => "PwmSetDuty"@,
        EcCmd::PwmGetDuty => "PwmGetDuty"@,
        EcCmd::LightbarCmd => "LightbarCmd"@,
        EcCmd::LedControl => "LedControl"@,
        EcCmd::VbootHash => "VbootHash"@,
        EcCmd::MotionSenseCmd => "MotionSenseCmd"@,
        EcCmd::ForceLidOpen => "ForceLidOpen"@,
        EcCmd::ConfigPowerButton => "ConfigPowerButton"@,
        EcCmd::UsbChargeSetMode => "UsbChargeSetMode"@,
        EcCmd::PstoreInfo => "PstoreInfo"@,
        EcCmd::PstoreRead => "PstoreRead"@,
        EcCmd::PstoreWrite => "PstoreWrite"@,
        EcCmd::RtcGetValue => "RtcGetValue"@,
        EcCmd::RtcGetAlarm => "RtcGetAlarm"@,
        EcCmd::RtcSetValue => "RtcSetValue"@,
        EcCmd::RtcSetAlarm => "RtcSetAlarm"@,
        EcCmd::Port80Read => "Port80Read"@,
        EcCmd::VstoreInfo => "VstoreInfo"@,
        EcCmd::VstoreRead => "VstoreRead"@,
        EcCmd::VstoreWrite => "VstoreWrite"@,
        EcCmd::ThermalSetThreshold => "ThermalSetThreshold"@,
        EcCmd::ThermalGetThreshold => "ThermalGetThreshold"@,
        EcCmd::ThermalAutoFanCtrl => "ThermalAutoFanCtrl"@,
        EcCmd::Tmp006GetCalibration => "Tmp006GetCalibration"@,
        EcCmd::Tmp006SetCalibration => "Tmp006SetCalibration"@,
        EcCmd::Tmp006GetRaw => "Tmp006GetRaw"@,
        EcCmd::MkbpState => "MkbpState"@,
        EcCmd::MkbpInfo => "MkbpInfo"@,
        EcCmd::MkbpSimulateKey => "MkbpSimulateKey"@,
        EcCmd::GetKeyboardId => "GetKeyboardId"@,
        EcCmd::MkbpSetConfig => "MkbpSetConfig"@,
        EcCmd::MkbpGetConfig => "MkbpGetConfig"@,
        EcCmd::KeyscanSeqCtrl => "KeyscanSeqCtrl"@,
        EcCmd::GetNextEvent => "GetNextEvent"@,
        EcCmd::KeyboardFactoryTest => "KeyboardFactoryTest"@,
        EcCmd::MkbpWakeMask => "MkbpWakeMask"@,
        EcCmd::TempSensorGetInfo => "TempSensorGetInfo"@,
        EcCmd::AcpiRead => "AcpiRead"@,
        EcCmd::AcpiWrite => "AcpiWrite"@,
        EcCmd::AcpiBurstEnable => "AcpiBurstEnable"@,
        EcCmd::AcpiBurstDisable => "AcpiBurstDisable"@,
        EcCmd::AcpiQueryEvent => "AcpiQueryEvent"@,
        EcCmd::HostEventGetB => "HostEventGetB"@,
        EcCmd::HostEventGetSmiMask => "HostEventGetSmiMask"@,
        EcCmd::HostEventGetSciMask => "HostEventGetSciMask"@,
        EcCmd::HostEventSetSmiMask => "HostEventSetSmiMask"@,
        EcCmd::HostEventSetSciMask => "HostEventSetSciMask"@,
        EcCmd::HostEventClear => "HostEventClear"@,
        EcCmd::HostEventGetWakeMask => "HostEventGetWakeMask"@,
        EcCmd::HostEventSetWakeMask => "HostEventSetWakeMask"@,
        EcCmd::HostEventClearB => "HostEventClearB"@,
        EcCmd::SwitchEnableBklight => "SwitchEnableBklight"@,
        EcCmd::SwitchEnableWireless => "SwitchEnableWireless"@,
        EcCmd::GpioSet => "GpioSet"@,
        EcCmd::GpioGet => "GpioGet"@,
        EcCmd::I2cRead => "I2cRead"@,
        EcCmd::I2cWrite => "I2cWrite"@,
        EcCmd::ChargeControl => "ChargeControl"@,
        EcCmd::ConsoleSnapshot => "ConsoleSnapshot"@,
        EcCmd::ConsoleRead => "ConsoleRead"@,
        EcCmd::BatteryCutOff => "BatteryCutOff"@,
        EcCmd::UsbMux => "UsbMux"@,
        EcCmd::LdoSet => "LdoSet"@,
        EcCmd::LdoGet => "LdoGet"@,
        EcCmd::PowerInfo => "PowerInfo"@,
        EcCmd::I2cPassthru => "I2cPassthru"@,
        EcCmd::HangDetect => "HangDetect"@,
        EcCmd::ChargeState => "ChargeState"@,
        EcCmd::ChargeCurrentLimit => "ChargeCurrentLimit"@,
        EcCmd::ExternalPowerLimit => "ExternalPowerLimit"@,
        EcCmd::OverrideDedicatedChargerLimit => "OverrideDedicatedChargerLimit"@,
        EcCmd::HostEvent => "HostEvent"@,
        EcCmd::HibernationDelay => "HibernationDelay"@,
        EcCmd::HostSleepEvent => "HostSleepEvent"@,
        EcCmd::DeviceEvent => "DeviceEvent"@,
        EcCmd::SbReadWord => "SbReadWord"@,
        EcCmd::SbWriteWord => "SbWriteWord"@,
        EcCmd::SbReadBlock => "SbReadBlock"@,
        EcCmd::SbWriteBlock => "SbWriteBlock"@,
        EcCmd::BatteryVendorParam => "BatteryVendorParam"@,
        EcCmd::SbFwUpdate => "SbFwUpdate"@,
        EcCmd::EnteringMode => "EnteringMode"@,
        EcCmd::I2cPassthruProtect => "I2cPassthruProtect"@,
        EcCmd::CecWriteMsg => "CecWriteMsg"@,
        EcCmd::CecSet => "CecSet"@,
        EcCmd::CecGet => "CecGet"@,
        EcCmd::EcCodec => "EcCodec"@,
        EcCmd::EcCodecDmic => "EcCodecDmic"@,
        EcCmd::EcCodecI2sRx => "EcCodecI2sRx"@,
        EcCmd::EcCodecWov => "EcCodecWov"@,
        EcCmd::Pse => "Pse"@,
        EcCmd::Reboot => "Reboot"@,
        EcCmd::RebootEc => "RebootEc"@,
        EcCmd::GetPanicInfo => "GetPanicInfo"@,
        EcCmd::ResendResponse => "ResendResponse"@,
        EcCmd::Version0 => "Version0"@,
        EcCmd::PdExchangeStatus => "PdExchangeStatus"@,
        EcCmd::UsbPdControl => "UsbPdControl"@,
        EcCmd::UsbPdPorts => "UsbPdPorts"@,
        EcCmd::UsbPdPowerInfo => "UsbPdPowerInfo"@,
        EcCmd::PdHostEventStatus => "PdHostEventStatus"@,
        EcCmd::ChargePortCount => "ChargePortCount"@,
        EcCmd::UsbPdFwUpdate => "UsbPdFwUpdate"@,
        EcCmd::UsbPdRwHashEntry => "UsbPdRwHashEntry"@,
        EcCmd::UsbPdDevInfo => "UsbPdDevInfo"@,
        EcCmd::UsbPdDiscovery => "UsbPdDiscovery"@,
        EcCmd::PdChargePortOverride => "PdChargePortOverride"@,
        EcCmd::PdGetLogEntry => "PdGetLogEntry"@,
        EcCmd::UsbPdGetAmode => "UsbPdGetAmode"@,
        EcCmd::UsbPdSetAmode => "UsbPdSetAmode"@,
        EcCmd::PdWriteLogEntry => "PdWriteLogEntry"@,
        EcCmd::PdControl => "PdControl"@,
        EcCmd::UsbPdMuxInfo => "UsbPdMuxInfo"@,
        EcCmd::PdChipInfo => "PdChipInfo"@,
        EcCmd::RwsigCheckStatus => "RwsigCheckStatus"@,
        EcCmd::RwsigAction => "RwsigAction"@,
        EcCmd::EfsVerify => "EfsVerify"@,
        EcCmd::GetCrosBoardInfo => "GetCrosBoardInfo"@,
        EcCmd::SetCrosBoardInfo => "SetCrosBoardInfo"@,
        EcCmd::GetUptimeInfo => "GetUptimeInfo"@,
        EcCmd::AddEntropy => "AddEntropy"@,
        EcCmd::AdcRead => "AdcRead"@,
        EcCmd::RollbackInfo => "RollbackInfo"@,
        EcCmd::ApReset => "ApReset"@,
        EcCmd::LocateChip => "LocateChip"@,
        EcCmd::RebootApOnG3 => "RebootApOnG3"@,
        EcCmd::GetPdPortCaps => "GetPdPortCaps"@,
        EcCmd::Button => "Button"@,
        EcCmd::GetKeybdConfig => "GetKeybdConfig"@,
        EcCmd::SmartDischarge => "SmartDischarge"@,
        EcCmd::RegulatorGetInfo => "RegulatorGetInfo"@,
        EcCmd::RegulatorEnable => "RegulatorEnable"@,
        EcCmd::RegulatorIsEnabled => "RegulatorIsEnabled"@,
        EcCmd::RegulatorSetVoltage => "RegulatorSetVoltage"@,
        EcCmd::RegulatorGetVoltage => "RegulatorGetVoltage"@,
        EcCmd::TypecDiscovery => "TypecDiscovery"@,
        EcCmd::TypecControl => "TypecControl"@,
        EcCmd::TypecStatus => "TypecStatus"@,
        EcCmd::Cr51Base => "Cr51Base"@,
        EcCmd::Cr51Last => "Cr51Last"@,
        EcCmd::FpPassthru => "FpPassthru"@,
        EcCmd::FpMode => "FpMode"@,
        EcCmd::FpInfo => "FpInfo"@,
        EcCmd::FpFrame => "FpFrame"@,
        EcCmd::FpTemplate => "FpTemplate"@,
        EcCmd::FpContext => "FpContext"@,
        EcCmd::FpStats => "FpStats"@,
        EcCmd::FpSeed => "FpSeed"@,
        EcCmd::FpEncStatus => "FpEncStatus"@,
        EcCmd::FpReadMatchSecret => "FpReadMatchSecret"@,
        EcCmd::TpSelfTest => "TpSelfTest"@,
        EcCmd::TpFrameInfo => "TpFrameInfo"@,
        EcCmd::TpFrameSnapshot => "TpFrameSnapshot"@,
        EcCmd::TpFrameGet => "TpFrameGet"@,
        EcCmd::BatteryGetStatic => "BatteryGetStatic"@,
        EcCmd::BatteryGetDynamic => "BatteryGetDynamic"@,
        EcCmd::ChargerControl => "ChargerControl"@,
        EcCmd::BoardSpecificBase => "BoardSpecificBase"@,
        EcCmd::BoardSpecificLast => "BoardSpecificLast"@,
    }
}

impl EcCmd {
    /// The command number sent on the wire.
    pub fn code(self) -> (r: u16)
        ensures
            r == ec_cmd_code(self),
    {
        match self {
            EcCmd::ProtoVersion => 0x0000,
            EcCmd::Hello => 0x0001,
            EcCmd::GetVersion => 0x0002,
            EcCmd::ReadTest => 0x0003,
            EcCmd::GetBuildInfo => 0x0004,
            EcCmd::GetChipInfo => 0x0005,
            EcCmd::GetBoardVersion => 0x0006,
            EcCmd::ReadMemmap => 0x0007,
            EcCmd::GetCmdVersions => 0x0008,
            EcCmd::GetCommsStatus => 0x0009,
            EcCmd::TestProtocol => 0x000a,
            EcCmd::GetProtocolInfo => 0x000b,
            EcCmd::GsvPauseInS5 => 0x000c,
            EcCmd::GetFeatures => 0x000d,
            EcCmd::GetSkuId => 0x000e,
            EcCmd::SetSkuId => 0x000f,
            EcCmd::FlashInfo => 0x0010,
            EcCmd::FlashRead => 0x0011,
            EcCmd::FlashWrite => 0x0012,
            EcCmd::FlashErase => 0x0013,
            EcCmd::FlashProtect => 0x0015,
            EcCmd::FlashRegionInfo => 0x0016,
            EcCmd::VbnvContext => 0x0017,
            EcCmd::FlashSpiInfo => 0x0018,
            EcCmd::FlashSelect => 0x0019,
            EcCmd::RandNum => 0x001a,
            EcCmd::RwsigInfo => 0x001b,
            EcCmd::Sysinfo => 0x001c,
            EcCmd::PwmGetFanTargetRpm => 0x0020,
            EcCmd::PwmSetFanTargetRpm => 0x0021,
            EcCmd::PwmGetKeyboardBacklight => 0x0022,
            EcCmd::PwmSetKeyboardBacklight => 0x0023,
            EcCmd::PwmSetFanDuty => 0x0024,
            EcCmd::PwmSetDuty => 0x0025,
            EcCmd::PwmGetDuty => 0x0026,
            EcCmd::LightbarCmd => 0x0028,
            EcCmd::LedControl => 0x0029,
            EcCmd::VbootHash => 0x002a,
            EcCmd::MotionSenseCmd => 0x002b,
            EcCmd::ForceLidOpen => 0x002c,
            EcCmd::ConfigPowerButton => 0x002d,
            EcCmd::UsbChargeSetMode => 0x0030,
            EcCmd::PstoreInfo => 0x0040,
            EcCmd::PstoreRead => 0x0041,
            EcCmd::PstoreWrite => 0x0042,
            EcCmd::RtcGetValue => 0x0044,
            EcCmd::RtcGetAlarm => 0x0045,
            EcCmd::RtcSetValue => 0x0046,
            EcCmd::RtcSetAlarm => 0x0047,
            EcCmd::Port80Read => 0x0048,
            EcCmd::VstoreInfo => 0x0049,
            EcCmd::VstoreRead => 0x004a,
            EcCmd::VstoreWrite => 0x004b,
            EcCmd::ThermalSetThreshold => 0x0050,
            EcCmd::ThermalGetThreshold => 0x0051,
            EcCmd::ThermalAutoFanCtrl => 0x0052,
            EcCmd::Tmp006GetCalibration => 0x0053,
            EcCmd::Tmp006SetCalibration => 0x0054,
            EcCmd::Tmp006GetRaw => 0x0055,
            EcCmd::MkbpState => 0x0060,
            EcCmd::MkbpInfo => 0x0061,
            EcCmd::MkbpSimulateKey => 0x0062,
            EcCmd::GetKeyboardId => 0x0063,
            EcCmd::MkbpSetConfig => 0x0064,
            EcCmd::MkbpGetConfig => 0x0065,
            EcCmd::KeyscanSeqCtrl => 0x0066,
            EcCmd::GetNextEvent => 0x0067,
            EcCmd::KeyboardFactoryTest => 0x0068,
            EcCmd::MkbpWakeMask => 0x0069,
            EcCmd::TempSensorGetInfo => 0x0070,
            EcCmd::AcpiRead => 0x0080,
            EcCmd::AcpiWrite => 0x0081,
            EcCmd::AcpiBurstEnable => 0x0082,
            EcCmd::AcpiBurstDisable => 0x0083,
            EcCmd::AcpiQueryEvent => 0x0084,
            EcCmd::HostEventGetB => 0x0087,
            EcCmd::HostEventGetSmiMask => 0x0088,
            EcCmd::HostEventGetSciMask => 0x0089,
            EcCmd::HostEventSetSmiMask => 0x008a,
            EcCmd::HostEventSetSciMask => 0x008b,
            EcCmd::HostEventClear => 0x008c,
            EcCmd::HostEventGetWakeMask => 0x008d,
            EcCmd::HostEventSetWakeMask => 0x008e,
            EcCmd::HostEventClearB => 0x008f,
            EcCmd::SwitchEnableBklight => 0x0090,
            EcCmd::SwitchEnableWireless => 0x0091,
            EcCmd::GpioSet => 0x0092,
            EcCmd::GpioGet => 0x0093,
            EcCmd::I2cRead => 0x0094,
            EcCmd::I2cWrite => 0x0095,
            EcCmd::ChargeControl => 0x0096,
            EcCmd::ConsoleSnapshot => 0x0097,
            EcCmd::ConsoleRead => 0x0098,
            EcCmd::BatteryCutOff => 0x0099,
            EcCmd::UsbMux => 0x009a,
            EcCmd::LdoSet => 0x009b,
            EcCmd::LdoGet => 0x009c,
            EcCmd::PowerInfo => 0x009d,
            EcCmd::I2cPassthru => 0x009e,
            EcCmd::HangDetect => 0x009f,
            EcCmd::ChargeState => 0x00a0,
            EcCmd::ChargeCurrentLimit => 0x00a1,
            EcCmd::ExternalPowerLimit => 0x00a2,
            EcCmd::OverrideDedicatedChargerLimit => 0x00a3,
            EcCmd::HostEvent => 0x00a4,
            EcCmd::HibernationDelay => 0x00a8,
            EcCmd::HostSleepEvent => 0x00a9,
            EcCmd::DeviceEvent => 0x00aa,
            EcCmd::SbReadWord => 0x00b0,
            EcCmd::SbWriteWord => 0x00b1,
            EcCmd::SbReadBlock => 0x00b2,
            EcCmd::SbWriteBlock => 0x00b3,
            EcCmd::BatteryVendorParam => 0x00b4,
            EcCmd::SbFwUpdate => 0x00b5,
            EcCmd::EnteringMode => 0x00b6,
            EcCmd::I2cPassthruProtect => 0x00b7,
            EcCmd::CecWriteMsg => 0x00b8,
            EcCmd::CecSet => 0x00ba,
            EcCmd::CecGet => 0x00bb,
            EcCmd::EcCodec => 0x00bc,
            EcCmd::EcCodecDmic => 0x00bd,
            EcCmd::EcCodecI2sRx => 0x00be,
            EcCmd::EcCodecWov => 0x00bf,
            EcCmd::Pse => 0x00c0,
            EcCmd::Reboot => 0x00d1,
            EcCmd::RebootEc => 0x00d2,
            EcCmd::GetPanicInfo => 0x00d3,
            EcCmd::ResendResponse => 0x00db,
            EcCmd::Version0 => 0x00dc,
            EcCmd::PdExchangeStatus => 0x0100,
            EcCmd::UsbPdControl => 0x0101,
            EcCmd::UsbPdPorts => 0x0102,
            EcCmd::UsbPdPowerInfo => 0x0103,
            EcCmd::PdHostEventStatus => 0x0104,
            EcCmd::ChargePortCount => 0x0105,
            EcCmd::UsbPdFwUpdate => 0x0110,
            EcCmd::UsbPdRwHashEntry => 0x0111,
            EcCmd::UsbPdDevInfo => 0x0112,
            EcCmd::UsbPdDiscovery => 0x0113,
            EcCmd::PdChargePortOverride => 0x0114,
            EcCmd::PdGetLogEntry => 0x0115,
            EcCmd::UsbPdGetAmode => 0x0116,
            EcCmd::UsbPdSetAmode => 0x0117,
            EcCmd::PdWriteLogEntry => 0x0118,
            EcCmd::PdControl => 0x0119,
            EcCmd::UsbPdMuxInfo => 0x011a,
            EcCmd::PdChipInfo => 0x011b,
            EcCmd::RwsigCheckStatus => 0x011c,
            EcCmd::RwsigAction => 0x011d,
            EcCmd::EfsVerify => 0x011e,
            EcCmd::GetCrosBoardInfo => 0x011f,
            EcCmd::SetCrosBoardInfo => 0x0120,
            EcCmd::GetUptimeInfo => 0x0121,
            EcCmd::AddEntropy => 0x0122,
            EcCmd::AdcRead => 0x0123,
            EcCmd::RollbackInfo => 0x0124,
            EcCmd::ApReset => 0x0125,
            EcCmd::LocateChip => 0x0126,
            EcCmd::RebootApOnG3 => 0x0127,
            EcCmd::GetPdPortCaps => 0x0128,
            EcCmd::Button => 0x0129,
            EcCmd::GetKeybdConfig => 0x012a,
            EcCmd::SmartDischarge => 0x012b,
            EcCmd::RegulatorGetInfo => 0x012c,
            EcCmd::RegulatorEnable => 0x012d,
            EcCmd::RegulatorIsEnabled => 0x012e,
            EcCmd::RegulatorSetVoltage => 0x012f,
            EcCmd::RegulatorGetVoltage => 0x0130,
            EcCmd::TypecDiscovery => 0x0131,
            EcCmd::TypecControl => 0x0132,
            EcCmd::TypecStatus => 0x0133,
            EcCmd::Cr51Base => 0x0300,
            EcCmd::Cr51Last => 0x03ff,
            EcCmd::FpPassthru => 0x0400,
            EcCmd::FpMode => 0x0402,
            EcCmd::FpInfo => 0x0403,
            EcCmd::FpFrame => 0x0404,
            EcCmd::FpTemplate => 0x0405,
            EcCmd::FpContext => 0x0406,
            EcCmd::FpStats => 0x0407,
            EcCmd::FpSeed => 0x0408,
            EcCmd::FpEncStatus => 0x0409,
            EcCmd::FpReadMatchSecret => 0x040a,
            EcCmd::TpSelfTest => 0x0500,
            EcCmd::TpFrameInfo => 0x0501,
            EcCmd::TpFrameSnapshot => 0x0502,
            EcCmd::TpFrameGet => 0x0503,
            EcCmd::BatteryGetStatic => 0x0600,
            EcCmd::BatteryGetDynamic => 0x0601,
            EcCmd::ChargerControl => 0x0602,
            EcCmd::BoardSpecificBase => 0x3e00,
            EcCmd::BoardSpecificLast => 0x3fff,
        }
    }

    /// The command's name, as `{:?}` shows it.
    pub fn name(self) -> (r: &'static str)
        ensures
            r@ == ec_cmd_name(self),
    {
        match self {
            EcCmd::ProtoVersion => {
                proof {
                    reveal_strlit("ProtoVersion");
                }
                "ProtoVersion"
            },
            EcCmd::Hello => {
                proof {
                    reveal_strlit("Hello");
                }
                "Hello"
            },
            EcCmd::GetVersion => {
                proof {
                    reveal_strlit("GetVersion");
                }
                "GetVersion"
            },
            EcCmd::ReadTest => {
                proof {
                    reveal_strlit("ReadTest");
                }
                "ReadTest"
            },
            EcCmd::GetBuildInfo => {
                proof {
                    reveal_strlit("GetBuildInfo");
                }
                "GetBuildInfo"
            },
            EcCmd::GetChipInfo => {
                proof {
                    reveal_strlit("GetChipInfo");
                }
                "GetChipInfo"
            },
            EcCmd::GetBoardVersion => {
                proof {
                    reveal_strlit("GetBoardVersion");
                }
                "GetBoardVersion"
            },
            EcCmd::ReadMemmap => {
                proof {
                    reveal_strlit("ReadMemmap");
                }
                "ReadMemmap"
            },
            EcCmd::GetCmdVersions => {
                proof {
                    reveal_strlit("GetCmdVersions");
                }
                "GetCmdVersions"
            },
            EcCmd::GetCommsStatus => {
                proof {
                    reveal_strlit("GetCommsStatus");
                }
                "GetCommsStatus"
            },
            EcCmd::TestProtocol => {
                proof {
                    reveal_strlit("TestProtocol");
                }
                "TestProtocol"
            },
            EcCmd::GetProtocolInfo => {
                proof {
                    reveal_strlit("GetProtocolInfo");
                }
                "GetProtocolInfo"
            },
            EcCmd::GsvPauseInS5 => {
                proof {
                    reveal_strlit("GsvPauseInS5");
                }
                "GsvPauseInS5"
            },
            EcCmd::GetFeatures => {
                proof {
                    reveal_strlit("GetFeatures");
                }
                "GetFeatures"
            },
            EcCmd::GetSkuId => {
                proof {
                    reveal_strlit("GetSkuId");
                }
                "GetSkuId"
            },
            EcCmd::SetSkuId => {
                proof {
                    reveal_strlit("SetSkuId");
                }
                "SetSkuId"
            },
            EcCmd::FlashInfo => {
                proof {
                    reveal_strlit("FlashInfo");
                }
                "FlashInfo"
            },
            EcCmd::FlashRead => {
                proof {
                    reveal_strlit("FlashRead");
                }
                "FlashRead"
            },
            EcCmd::FlashWrite => {
                proof {
                    reveal_strlit("FlashWrite");
                }
                "FlashWrite"
            },
            EcCmd::FlashErase => {
                proof {
                    reveal_strlit("FlashErase");
                }
                "FlashErase"
            },
            EcCmd::FlashProtect => {
                proof {
                    reveal_strlit("FlashProtect");
                }
                "FlashProtect"
            },
            EcCmd::FlashRegionInfo => {
                proof {
                    reveal_strlit("FlashRegionInfo");
                }
                "FlashRegionInfo"
            },
            EcCmd::VbnvContext => {
                proof {
                    reveal_strlit("VbnvContext");
                }
                "VbnvContext"
            },
            EcCmd::FlashSpiInfo => {
                proof {
                    reveal_strlit("FlashSpiInfo");
                }
                "FlashSpiInfo"
            },
            EcCmd::FlashSelect => {
                proof {
                    reveal_strlit("FlashSelect");
                }
                "FlashSelect"
            },
            EcCmd::RandNum => {
                proof {
                    reveal_strlit("RandNum");
                }
                "RandNum"
            },
            EcCmd::RwsigInfo => {
                proof {
                    reveal_strlit("RwsigInfo");
                }
                "RwsigInfo"
            },
            EcCmd::Sysinfo => {
                proof {
                    reveal_strlit("Sysinfo");
                }
                "Sysinfo"
            },
            EcCmd::PwmGetFanTargetRpm => {
                proof {
                    reveal_strlit("PwmGetFanTargetRpm");
                }
                "PwmGetFanTargetRpm"
            },
            EcCmd::PwmSetFanTargetRpm => {
                proof {
                    reveal_strlit("PwmSetFanTargetRpm");
                }
                "PwmSetFanTargetRpm"
            },
            EcCmd::PwmGetKeyboardBacklight => {
                proof {
                    reveal_strlit("PwmGetKeyboardBacklight");
                }
                "PwmGetKeyboardBacklight"
            },
            EcCmd::PwmSetKeyboardBacklight => {
                proof {
                    reveal_strlit("PwmSetKeyboardBacklight");
                }
                "PwmSetKeyboardBacklight"
            },
            EcCmd::PwmSetFanDuty => {
                proof {
                    reveal_strlit("PwmSetFanDuty");
                }
                "PwmSetFanDuty"
            },
            EcCmd::PwmSetDuty => {
                proof {
                    reveal_strlit("PwmSetDuty");
                }
                "PwmSetDuty"
            },
            EcCmd::PwmGetDuty => {
                proof {
                    reveal_strlit("PwmGetDuty");
                }
                "PwmGetDuty"
            },
            EcCmd::LightbarCmd => {
                proof {
                    reveal_strlit("LightbarCmd");
                }
                "LightbarCmd"
            },
            EcCmd::LedControl => {
                proof {
                    reveal_strlit("LedControl");
                }
                "LedControl"
            },
            EcCmd::VbootHash => {
                proof {
                    reveal_strlit("VbootHash");
                }
                "VbootHash"
            },
            EcCmd::MotionSenseCmd => {
                proof {
                    reveal_strlit("MotionSenseCmd");
                }
                "MotionSenseCmd"
            },
            EcCmd::ForceLidOpen => {
                proof {
                    reveal_strlit("ForceLidOpen");
                }
                "ForceLidOpen"
            },
            EcCmd::ConfigPowerButton => {
                proof {
                    reveal_strlit("ConfigPowerButton");
                }
                "ConfigPowerButton"
            },
            EcCmd::UsbChargeSetMode => {
                proof {
                    reveal_strlit("UsbChargeSetMode");
                }
                "UsbChargeSetMode"
            },
            EcCmd::PstoreInfo => {
                proof {
                    reveal_strlit("PstoreInfo");
                }
                "PstoreInfo"
            },
            EcCmd::PstoreRead => {
                proof {
                    reveal_strlit("PstoreRead");
                }
                "PstoreRead"
            },
            EcCmd::PstoreWrite => {
                proof {
                    reveal_strlit("PstoreWrite");
                }
                "PstoreWrite"
            },
            EcCmd::RtcGetValue => {
                proof {
                    reveal_strlit("RtcGetValue");
                }
                "RtcGetValue"
            },
            EcCmd::RtcGetAlarm => {
                proof {
                    reveal_strlit("RtcGetAlarm");
                }
                "RtcGetAlarm"
            },
            EcCmd::RtcSetValue => {
                proof {
                    reveal_strlit("RtcSetValue");
                }
                "RtcSetValue"
            },
            EcCmd::RtcSetAlarm => {
                proof {
                    reveal_strlit("RtcSetAlarm");
                }
                "RtcSetAlarm"
            },
            EcCmd::Port80Read => {
                proof {
                    reveal_strlit("Port80Read");
                }
                "Port80Read"
            },
            EcCmd::VstoreInfo => {
                proof {
                    reveal_strlit("VstoreInfo");
                }
                "VstoreInfo"
            },
            EcCmd::VstoreRead => {
                proof {
                    reveal_strlit("VstoreRead");
                }
                "VstoreRead"
            },
            EcCmd::VstoreWrite => {
                proof {
                    reveal_strlit("VstoreWrite");
                }
                "VstoreWrite"
            },
            EcCmd::ThermalSetThreshold => {
                proof {
                    reveal_strlit("ThermalSetThreshold");
                }
                "ThermalSetThreshold"
            },
            EcCmd::ThermalGetThreshold => {
                proof {
                    reveal_strlit("ThermalGetThreshold");
                }
                "ThermalGetThreshold"
            },
            EcCmd::ThermalAutoFanCtrl => {
                proof {
                    reveal_strlit("ThermalAutoFanCtrl");
                }
                "ThermalAutoFanCtrl"
            },
            EcCmd::Tmp006GetCalibration => {
                proof {
                    reveal_strlit("Tmp006GetCalibration");
                }
                "Tmp006GetCalibration"
            },
            EcCmd::Tmp006SetCalibration => {
                proof {
                    reveal_strlit("Tmp006SetCalibration");
                }
                "Tmp006SetCalibration"
            },
            EcCmd::Tmp006GetRaw => {
                proof {
                    reveal_strlit("Tmp006GetRaw");
                }
                "Tmp006GetRaw"
            },
            EcCmd::MkbpState => {
                proof {
                    reveal_strlit("MkbpState");
                }
                "MkbpState"
            },
            EcCmd::MkbpInfo => {
                proof {
                    reveal_strlit("MkbpInfo");
                }
                "MkbpInfo"
            },
            EcCmd::MkbpSimulateKey => {
                proof {
                    reveal_strlit("MkbpSimulateKey");
                }
                "MkbpSimulateKey"
            },
            EcCmd::GetKeyboardId => {
                proof {
                    reveal_strlit("GetKeyboardId");
                }
                "GetKeyboardId"
            },
            EcCmd::MkbpSetConfig => {
                proof {
                    reveal_strlit("MkbpSetConfig");
                }
                "MkbpSetConfig"
            },
            EcCmd::MkbpGetConfig => {
                proof {
                    reveal_strlit("MkbpGetConfig");
                }
                "MkbpGetConfig"
            },
            EcCmd::KeyscanSeqCtrl => {
                proof {
                    reveal_strlit("KeyscanSeqCtrl");
                }
                "KeyscanSeqCtrl"
            },
            EcCmd::GetNextEvent => {
                proof {
                    reveal_strlit("GetNextEvent");
                }
                "GetNextEvent"
            },
            EcCmd::KeyboardFactoryTest => {
                proof {
                    reveal_strlit("KeyboardFactoryTest");
                }
                "KeyboardFactoryTest"
            },
            EcCmd::MkbpWakeMask => {
                proof {
                    reveal_strlit("MkbpWakeMask");
                }
                "MkbpWakeMask"
            },
            EcCmd::TempSensorGetInfo => {
                proof {
                    reveal_strlit("TempSensorGetInfo");
                }
                "TempSensorGetInfo"
            },
            EcCmd::AcpiRead => {
                proof {
                    reveal_strlit("AcpiRead");
                }
                "AcpiRead"
            },
            EcCmd::AcpiWrite => {
                proof {
                    reveal_strlit("AcpiWrite");
                }
                "AcpiWrite"
            },
            EcCmd::AcpiBurstEnable => {
                proof {
                    reveal_strlit("AcpiBurstEnable");
                }
                "AcpiBurstEnable"
            },
            EcCmd::AcpiBurstDisable => {
                proof {
                    reveal_strlit("AcpiBurstDisable");
                }
                "AcpiBurstDisable"
            },
            EcCmd::AcpiQueryEvent => {
                proof {
                    reveal_strlit("AcpiQueryEvent");
                }
                "AcpiQueryEvent"
            },
            EcCmd::HostEventGetB => {
                proof {
                    reveal_strlit("HostEventGetB");
                }
                "HostEventGetB"
            },
            EcCmd::HostEventGetSmiMask => {
                proof {
                    reveal_strlit("HostEventGetSmiMask");
                }
                "HostEventGetSmiMask"
            },
            EcCmd::HostEventGetSciMask => {
                proof {
                    reveal_strlit("HostEventGetSciMask");
                }
                "HostEventGetSciMask"
            },
            EcCmd::HostEventSetSmiMask => {
                proof {
                    reveal_strlit("HostEventSetSmiMask");
                }
                "HostEventSetSmiMask"
            },
            EcCmd::HostEventSetSciMask => {
                proof {
                    reveal_strlit("HostEventSetSciMask");
                }
                "HostEventSetSciMask"
            },
            EcCmd::HostEventClear => {
                proof {
                    reveal_strlit("HostEventClear");
                }
                "HostEventClear"
            },
            EcCmd::HostEventGetWakeMask => {
                proof {
                    reveal_strlit("HostEventGetWakeMask");
                }
                "HostEventGetWakeMask"
            },
            EcCmd::HostEventSetWakeMask => {
                proof {
                    reveal_strlit("HostEventSetWakeMask");
                }
                "HostEventSetWakeMask"
            },
            EcCmd::HostEventClearB => {
                proof {
                    reveal_strlit("HostEventClearB");
                }
                "HostEventClearB"
            },
            EcCmd::SwitchEnableBklight => {
                proof {
                    reveal_strlit("SwitchEnableBklight");
                }
                "SwitchEnableBklight"
            },
            EcCmd::SwitchEnableWireless => {
                proof {
                    reveal_strlit("SwitchEnableWireless");
                }
                "SwitchEnableWireless"
            },
            EcCmd::GpioSet => {
                proof {
                    reveal_strlit("GpioSet");
                }
                "GpioSet"
            },
            EcCmd::GpioGet => {
                proof {
                    reveal_strlit("GpioGet");
                }
                "GpioGet"
            },
            EcCmd::I2cRead => {
                proof {
                    reveal_strlit("I2cRead");
                }
                "I2cRead"
            },
            EcCmd::I2cWrite => {
                proof {
                    reveal_strlit("I2cWrite");
                }
                "I2cWrite"
            },
            EcCmd::ChargeControl => {
                proof {
                    reveal_strlit("ChargeControl");
                }
                "ChargeControl"
            },
            EcCmd::ConsoleSnapshot => {
                proof {
                    reveal_strlit("ConsoleSnapshot");
                }
                "ConsoleSnapshot"
            },
            EcCmd::ConsoleRead => {
                proof {
                    reveal_strlit("ConsoleRead");
                }
                "ConsoleRead"
            },
            EcCmd::BatteryCutOff => {
                proof {
                    reveal_strlit("BatteryCutOff");
                }
                "BatteryCutOff"
            },
            EcCmd::UsbMux => {
                proof {
                    reveal_strlit("UsbMux");
                }
                "UsbMux"
            },
            EcCmd::LdoSet => {
                proof {
                    reveal_strlit("LdoSet");
                }
                "LdoSet"
            },
            EcCmd::LdoGet => {
                proof {
                    reveal_strlit("LdoGet");
                }
                "LdoGet"
            },
            EcCmd::PowerInfo => {
                proof {
                    reveal_strlit("PowerInfo");
                }
                "PowerInfo"
            },
            EcCmd::I2cPassthru => {
                proof {
                    reveal_strlit("I2cPassthru");
                }
                "I2cPassthru"
            },
            EcCmd::HangDetect => {
                proof {
                    reveal_strlit("HangDetect");
                }
                "HangDetect"
            },
            EcCmd::ChargeState => {
                proof {
                    reveal_strlit("ChargeState");
                }
                "ChargeState"
            },
            EcCmd::ChargeCurrentLimit => {
                proof {
                    reveal_strlit("ChargeCurrentLimit");
                }
                "ChargeCurrentLimit"
            },
            EcCmd::ExternalPowerLimit => {
                proof {
                    reveal_strlit("ExternalPowerLimit");
                }
                "ExternalPowerLimit"
            },
            EcCmd::OverrideDedicatedChargerLimit => {
                proof {
                    reveal_strlit("OverrideDedicatedChargerLimit");
                }
                "OverrideDedicatedChargerLimit"
            },
            EcCmd::HostEvent => {
                proof {
                    reveal_strlit("HostEvent");
                }
                "HostEvent"
            },
            EcCmd::HibernationDelay => {
                proof {
                    reveal_strlit("HibernationDelay");
                }
                "HibernationDelay"
            },
            EcCmd::HostSleepEvent => {
                proof {
                    reveal_strlit("HostSleepEvent");
                }
                "HostSleepEvent"
            },
            EcCmd::DeviceEvent => {
                proof {
                    reveal_strlit("DeviceEvent");
                }
                "DeviceEvent"
            },
            EcCmd::SbReadWord => {
                proof {
                    reveal_strlit("SbReadWord");
                }
                "SbReadWord"
            },
            EcCmd::SbWriteWord => {
                proof {
                    reveal_strlit("SbWriteWord");
                }
                "SbWriteWord"
            },
            EcCmd::SbReadBlock => {
                proof {
                    reveal_strlit("SbReadBlock");
                }
                "SbReadBlock"
            },
            EcCmd::SbWriteBlock => {
                proof {
                    reveal_strlit("SbWriteBlock");
                }
                "SbWriteBlock"
            },
            EcCmd::BatteryVendorParam => {
                proof {
                    reveal_strlit("BatteryVendorParam");
                }
                "BatteryVendorParam"
            },
            EcCmd::SbFwUpdate => {
                proof {
                    reveal_strlit("SbFwUpdate");
                }
                "SbFwUpdate"
            },
            EcCmd::EnteringMode => {
                proof {
                    reveal_strlit("EnteringMode");
                }
                "EnteringMode"
            },
            EcCmd::I2cPassthruProtect => {
                proof {
                    reveal_strlit("I2cPassthruProtect");
                }
                "I2cPassthruProtect"
            },
            EcCmd::CecWriteMsg => {
                proof {
                    reveal_strlit("CecWriteMsg");
                }
                "CecWriteMsg"
            },
            EcCmd::CecSet => {
                proof {
                    reveal_strlit("CecSet");
                }
                "CecSet"
            },
            EcCmd::CecGet => {
                proof {
                    reveal_strlit("CecGet");
                }
                "CecGet"
            },
            EcCmd::EcCodec => {
                proof {
                    reveal_strlit("EcCodec");
                }
                "EcCodec"
            },
            EcCmd::EcCodecDmic => {
                proof {
                    reveal_strlit("EcCodecDmic");
                }
                "EcCodecDmic"
            },
            EcCmd::EcCodecI2sRx => {
                proof {
                    reveal_strlit("EcCodecI2sRx");
                }
                "EcCodecI2sRx"
            },
            EcCmd::EcCodecWov => {
                proof {
                    reveal_strlit("EcCodecWov");
                }
                "EcCodecWov"
            },
            EcCmd::Pse => {
                proof {
                    reveal_strlit("Pse");
                }
                "Pse"
            },
            EcCmd::Reboot => {
                proof {
                    reveal_strlit("Reboot");
                }
                "Reboot"
            },
            EcCmd::RebootEc => {
                proof {
                    reveal_strlit("RebootEc");
                }
                "RebootEc"
            },
            EcCmd::GetPanicInfo => {
                proof {
                    reveal_strlit("GetPanicInfo");
                }
                "GetPanicInfo"
            },
            EcCmd::ResendResponse => {
                proof {
                    reveal_strlit("ResendResponse");
                }
                "ResendResponse"
            },
            EcCmd::Version0 => {
                proof {
                    reveal_strlit("Version0");
                }
                "Version0"
            },
            EcCmd::PdExchangeStatus => {
                proof {
                    reveal_strlit("PdExchangeStatus");
                }
                "PdExchangeStatus"
            },
            EcCmd::UsbPdControl => {
                proof {
                    reveal_strlit("UsbPdControl");
                }
                "UsbPdControl"
            },
            EcCmd::UsbPdPorts => {
                proof {
                    reveal_strlit("UsbPdPorts");
                }
                "UsbPdPorts"
            },
            EcCmd::UsbPdPowerInfo => {
                proof {
                    reveal_strlit("UsbPdPowerInfo");
                }
                "UsbPdPowerInfo"
            },
            EcCmd::PdHostEventStatus => {
                proof {
                    reveal_strlit("PdHostEventStatus");
                }
                "PdHostEventStatus"
            },
            EcCmd::ChargePortCount => {
                proof {
                    reveal_strlit("ChargePortCount");
                }
                "ChargePortCount"
            },
            EcCmd::UsbPdFwUpdate => {
                proof {
                    reveal_strlit("UsbPdFwUpdate");
                }
                "UsbPdFwUpdate"
            },
            EcCmd::UsbPdRwHashEntry => {
                proof {
                    reveal_strlit("UsbPdRwHashEntry");
                }
                "UsbPdRwHashEntry"
            },
            EcCmd::UsbPdDevInfo => {
                proof {
                    reveal_strlit("UsbPdDevInfo");
                }
                "UsbPdDevInfo"
            },
            EcCmd::UsbPdDiscovery => {
                proof {
                    reveal_strlit("UsbPdDiscovery");
                }
                "UsbPdDiscovery"
            },
            EcCmd::PdChargePortOverride => {
                proof {
                    reveal_strlit("PdChargePortOverride");
                }
                "PdChargePortOverride"
            },
            EcCmd::PdGetLogEntry => {
                proof {
                    reveal_strlit("PdGetLogEntry");
                }
                "PdGetLogEntry"
            },
            EcCmd::UsbPdGetAmode => {
                proof {
                    reveal_strlit("UsbPdGetAmode");
                }
                "UsbPdGetAmode"
            },
            EcCmd::UsbPdSetAmode => {
                proof {
                    reveal_strlit("UsbPdSetAmode");
                }
                "UsbPdSetAmode"
            },
            EcCmd::PdWriteLogEntry => {
                proof {
                    reveal_strlit("PdWriteLogEntry");
                }
                "PdWriteLogEntry"
            },
            EcCmd::PdControl => {
                proof {
                    reveal_strlit("PdControl");
                }
                "PdControl"
            },
            EcCmd::UsbPdMuxInfo => {
                proof {
                    reveal_strlit("UsbPdMuxInfo");
                }
                "UsbPdMuxInfo"
            },
            EcCmd::PdChipInfo => {
                proof {
                    reveal_strlit("PdChipInfo");
                }
                "PdChipInfo"
            },
            EcCmd::RwsigCheckStatus => {
                proof {
                    reveal_strlit("RwsigCheckStatus");
                }
                "RwsigCheckStatus"
            },
            EcCmd::RwsigAction => {
                proof {
                    reveal_strlit("RwsigAction");
                }
                "RwsigAction"
            },
            EcCmd::EfsVerify => {
                proof {
                    reveal_strlit("EfsVerify");
                }
                "EfsVerify"
            },
            EcCmd::GetCrosBoardInfo => {
                proof {
                    reveal_strlit("GetCrosBoardInfo");
                }
                "GetCrosBoardInfo"
            },
            EcCmd::SetCrosBoardInfo => {
                proof {
                    reveal_strlit("SetCrosBoardInfo");
                }
                "SetCrosBoardInfo"
            },
            EcCmd::GetUptimeInfo => {
                proof {
                    reveal_strlit("GetUptimeInfo");
                }
                "GetUptimeInfo"
            },
            EcCmd::AddEntropy => {
                proof {
                    reveal_strlit("AddEntropy");
                }
                "AddEntropy"
            },
            EcCmd::AdcRead => {
                proof {
                    reveal_strlit("AdcRead");
                }
                "AdcRead"
            },
            EcCmd::RollbackInfo => {
                proof {
                    reveal_strlit("RollbackInfo");
                }
                "RollbackInfo"
            },
            EcCmd::ApReset => {
                proof {
                    reveal_strlit("ApReset");
                }
                "ApReset"
            },
            EcCmd::LocateChip => {
                proof {
                    reveal_strlit("LocateChip");
                }
                "LocateChip"
            },
            EcCmd::RebootApOnG3 => {
                proof {
                    reveal_strlit("RebootApOnG3");
                }
                "RebootApOnG3"
            },
            EcCmd::GetPdPortCaps => {
                proof {
                    reveal_strlit("GetPdPortCaps");
                }
                "GetPdPortCaps"
            },
            EcCmd::Button => {
                proof {
                    reveal_strlit("Button");
                }
                "Button"
            },
            EcCmd::GetKeybdConfig => {
                proof {
                    reveal_strlit("GetKeybdConfig");
                }
                "GetKeybdConfig"
            },
            EcCmd::SmartDischarge => {
                proof {
                    reveal_strlit("SmartDischarge");
                }
                "SmartDischarge"
            },
            EcCmd::RegulatorGetInfo => {
                proof {
                    reveal_strlit("RegulatorGetInfo");
                }
                "RegulatorGetInfo"
            },
            EcCmd::RegulatorEnable => {
                proof {
                    reveal_strlit("RegulatorEnable");
                }
                "RegulatorEnable"
            },
            EcCmd::RegulatorIsEnabled => {
                proof {
                    reveal_strlit("RegulatorIsEnabled");
                }
                "RegulatorIsEnabled"
            },
            EcCmd::RegulatorSetVoltage => {
                proof {
                    reveal_strlit("RegulatorSetVoltage");
                }
                "RegulatorSetVoltage"
            },
            EcCmd::RegulatorGetVoltage => {
                proof {
                    reveal_strlit("RegulatorGetVoltage");
                }
                "RegulatorGetVoltage"
            },
            EcCmd::TypecDiscovery => {
                proof {
                    reveal_strlit("TypecDiscovery");
                }
                "TypecDiscovery"
            },
            EcCmd::TypecControl => {
                proof {
                    reveal_strlit("TypecControl");
                }
                "TypecControl"
            },
            EcCmd::TypecStatus => {
                proof {
                    reveal_strlit("TypecStatus");
                }
                "TypecStatus"
            },
            EcCmd::Cr51Base => {
                proof {
                    reveal_strlit("Cr51Base");
                }
                "Cr51Base"
            },
            EcCmd::Cr51Last => {
                proof {
                    reveal_strlit("Cr51Last");
                }
                "Cr51Last"
            },
            EcCmd::FpPassthru => {
                proof {
                    reveal_strlit("FpPassthru");
                }
                "FpPassthru"
            },
            EcCmd::FpMode => {
                proof {
                    reveal_strlit("FpMode");
                }
                "FpMode"
            },
            EcCmd::FpInfo => {
                proof {
                    reveal_strlit("FpInfo");
                }
                "FpInfo"
            },
            EcCmd::FpFrame => {
                proof {
                    reveal_strlit("FpFrame");
                }
                "FpFrame"
            },
            EcCmd::FpTemplate => {
                proof {
                    reveal_strlit("FpTemplate");
                }
                "FpTemplate"
            },
            EcCmd::FpContext => {
                proof {
                    reveal_strlit("FpContext");
                }
                "FpContext"
            },
            EcCmd::FpStats => {
                proof {
                    reveal_strlit("FpStats");
                }
                "FpStats"
            },
            EcCmd::FpSeed => {
                proof {
                    reveal_strlit("FpSeed");
                }
                "FpSeed"
            },
            EcCmd::FpEncStatus => {
                proof {
                    reveal_strlit("FpEncStatus");
                }
                "FpEncStatus"
            },
            EcCmd::FpReadMatchSecret => {
                proof {
                    reveal_strlit("FpReadMatchSecret");
                }
                "FpReadMatchSecret"
            },
            EcCmd::TpSelfTest => {
                proof {
                    reveal_strlit("TpSelfTest");
                }
                "TpSelfTest"
            },
            EcCmd::TpFrameInfo => {
                proof {
                    reveal_strlit("TpFrameInfo");
                }
                "TpFrameInfo"
            },
            EcCmd::TpFrameSnapshot => {
                proof {
                    reveal_strlit("TpFrameSnapshot");
                }
                "TpFrameSnapshot"
            },
            EcCmd::TpFrameGet => {
                proof {
                    reveal_strlit("TpFrameGet");
                }
                "TpFrameGet"
            },
            EcCmd::BatteryGetStatic => {
                proof {
                    reveal_strlit("BatteryGetStatic");
                }
                "BatteryGetStatic"
            },
            EcCmd::BatteryGetDynamic => {
                proof {
                    reveal_strlit("BatteryGetDynamic");
                }
                "BatteryGetDynamic"
            },
            EcCmd::ChargerControl => {
                proof {
                    reveal_strlit("ChargerControl");
                }
                "ChargerControl"
            },
            EcCmd::BoardSpecificBase => {
                proof {
                    reveal_strlit("BoardSpecificBase");
                }
                "BoardSpecificBase"
            },
            EcCmd::BoardSpecificLast => {
                proof {
                    reveal_strlit("BoardSpecificLast");
                }
                "BoardSpecificLast"
            },
        }
    }
}

} // verus!
