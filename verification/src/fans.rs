//! Driving the fans: a fixed duty cycle, or back to the EC's own control.
use vstd::prelude::*;

use crate::command::{CrosEcCommandV2, EcCommand, EcReply, answered, call};
use crate::ec_cmd::EcCmd;
use crate::error::EcError;
use crate::wire::{push_u32, u32_le};

verus! {

/// Parameters for [`SetFanDuty`] (`struct ec_params_pwm_set_fan_duty_v0`).
#[derive(Clone, Copy, Debug, PartialEq, Eq, Structural)]
pub struct EcParamsPwmSetFanDuty {
    /// Duty cycle, in percent.
    pub percent: u32,
}

/// Set target fan PWM duty cycle.
pub struct SetFanDuty;

impl EcCommand for SetFanDuty {
    type Request = EcParamsPwmSetFanDuty;

    type Response = ();

    open spec fn spec_cmd() -> EcCmd {
        EcCmd::PwmSetFanDuty
    }

    open spec fn spec_version() -> u32 {
        0
    }

    open spec fn request_len() -> nat {
        4
    }

    open spec fn response_len() -> nat {
        0
    }

    open spec fn spec_encode(req: EcParamsPwmSetFanDuty) -> Seq<u8> {
        u32_le(req.percent)
    }

    open spec fn spec_decode(bytes: Seq<u8>) -> () {
        ()
    }

    fn cmd() -> (c: EcCmd) {
        EcCmd::PwmSetFanDuty
    }

    fn version() -> (v: u32) {
        0
    }

    fn request_size() -> (n: usize) {
        4
    }

    fn response_size() -> (n: usize) {
        0
    }

    fn encode(req: &EcParamsPwmSetFanDuty) -> (b: Vec<u8>) {
        let mut b = Vec::new();
        push_u32(&mut b, req.percent);
        assert(b@ =~= u32_le(req.percent));
        b
    }

    fn decode(bytes: &[u8]) -> (r: ()) {
        ()
    }
}

/// Hand fan control back to the EC's own thermal loop.
pub struct ThermalAutoFanCtrl;

impl EcCommand for ThermalAutoFanCtrl {
    type Request = ();

    type Response = ();

    open spec fn spec_cmd() -> EcCmd {
        EcCmd::ThermalAutoFanCtrl
    }

    open spec fn spec_version() -> u32 {
        0
    }

    open spec fn request_len() -> nat {
        0
    }

    open spec fn response_len() -> nat {
        0
    }

    open spec fn spec_encode(req: ()) -> Seq<u8> {
        Seq::empty()
    }

    open spec fn spec_decode(bytes: Seq<u8>) -> () {
        ()
    }

    fn cmd() -> (c: EcCmd) {
        EcCmd::ThermalAutoFanCtrl
    }

    fn version() -> (v: u32) {
        0
    }

    fn request_size() -> (n: usize) {
        0
    }

    fn response_size() -> (n: usize) {
        0
    }

    fn encode(req: &()) -> (b: Vec<u8>) {
        Vec::new()
    }

    fn decode(bytes: &[u8]) -> (r: ()) {
        ()
    }
}

/// Pin every fan at `percent` duty.
///
/// # Errors
///
/// Fails if the EC is unreachable or refuses the command.
pub fn set_duty<F: Fn(&CrosEcCommandV2) -> Result<EcReply, EcError>>(xfer: &F, percent: u8) -> (r:
    Result<(), EcError>)
    requires
        forall|f: &CrosEcCommandV2| xfer.requires((f,)),
    ensures
        answered::<SetFanDuty, F>(*xfer, EcParamsPwmSetFanDuty { percent: percent as u32 }, r),
{
    call::<SetFanDuty, F>(xfer, EcParamsPwmSetFanDuty { percent: percent as u32 })
}

/// Return the fans to the EC's automatic control.
///
/// # Errors
///
/// Fails if the EC is unreachable or refuses the command.
pub fn set_auto<F: Fn(&CrosEcCommandV2) -> Result<EcReply, EcError>>(xfer: &F) -> (r: Result<
    (),
    EcError,
>)
    requires
        forall|f: &CrosEcCommandV2| xfer.requires((f,)),
    ensures
        answered::<ThermalAutoFanCtrl, F>(*xfer, (), r),
{
    call::<ThermalAutoFanCtrl, F>(xfer, ())
}

} // verus!
