//! Asking the EC what it implements.
//!
//! Which host commands an EC answers varies by machine and by firmware, and a
//! command existing in [`EcCmd`] says nothing about whether this EC backs it.
//! `EC_CMD_GET_CMD_VERSIONS` is the cheap, side-effect-free way to find out.
use vstd::prelude::*;

use crate::command::{CrosEcCommandV2, EcCommand, EcReply, answered, call};
use crate::ec_cmd::{EcCmd, ec_cmd_code};
use crate::error::EcError;
use crate::status::{EC_RES_INVALID_PARAM, EcStatus};
use crate::wire::{le_u32, push_u16, read_u32, u16_le};

verus! {

/// Version 1 of `struct ec_params_get_cmd_versions`.
///
/// Version 0 carries the command number in a `u8`, which cannot reach the
/// commands at `0x0100` and above, so only v1 is spoken.
#[derive(Clone, Copy, Debug, PartialEq, Eq, Structural)]
pub struct EcParamsGetCmdVersionsV1 {
    /// The command being asked about.
    pub cmd: u16,
}

/// `struct ec_response_get_cmd_versions`.
#[derive(Clone, Copy, Debug, PartialEq, Eq, Structural)]
pub struct EcResponseGetCmdVersions {
    /// Bit `n` set means version `n` of the command is supported.
    pub version_mask: u32,
}

/// Read the versions supported for a command.
pub struct GetCmdVersions;

impl EcCommand for GetCmdVersions {
    type Request = EcParamsGetCmdVersionsV1;

    type Response = EcResponseGetCmdVersions;

    open spec fn spec_cmd() -> EcCmd {
        EcCmd::GetCmdVersions
    }

    open spec fn spec_version() -> u32 {
        1
    }

    open spec fn request_len() -> nat {
        2
    }

    open spec fn response_len() -> nat {
        4
    }

    open spec fn spec_encode(req: EcParamsGetCmdVersionsV1) -> Seq<u8> {
        u16_le(req.cmd)
    }

    open spec fn spec_decode(bytes: Seq<u8>) -> EcResponseGetCmdVersions {
        EcResponseGetCmdVersions { version_mask: le_u32(bytes, 0) }
    }

    fn cmd() -> (c: EcCmd) {
        EcCmd::GetCmdVersions
    }

    fn version() -> (v: u32) {
        1
    }

    fn request_size() -> (n: usize) {
        2
    }

    fn response_size() -> (n: usize) {
        4
    }

    fn encode(req: &EcParamsGetCmdVersionsV1) -> (b: Vec<u8>) {
        let mut b = Vec::new();
        push_u16(&mut b, req.cmd);
        assert(b@ =~= u16_le(req.cmd));
        b
    }

    fn decode(bytes: &[u8]) -> (r: EcResponseGetCmdVersions) {
        EcResponseGetCmdVersions { version_mask: read_u32(bytes, 0) }
    }
}

/// What a `GET_CMD_VERSIONS` outcome says about the command asked about: its
/// version mask; nothing when the EC answers `EC_RES_INVALID_PARAM`, which is
/// how it says "no such command"; any other failure as it is.
pub open spec fn versions_from(
    o: Result<EcResponseGetCmdVersions, EcError>,
) -> Result<Option<u32>, EcError> {
    match o {
        Ok(resp) => Ok(Some(resp.version_mask)),
        Err(EcError::Rejected { command, version, status }) => if status.0 == EC_RES_INVALID_PARAM {
            Ok(None)
        } else {
            Err(EcError::Rejected { command, version, status })
        },
        Err(e) => Err(e),
    }
}

/// Whether the command asked about exists, given a `GET_CMD_VERSIONS` outcome.
pub open spec fn supported_from(o: Result<EcResponseGetCmdVersions, EcError>) -> Result<bool, EcError> {
    match versions_from(o) {
        Ok(v) => Ok(v is Some),
        Err(e) => Err(e),
    }
}

/// As [`command_versions`], but for a command number with no [`EcCmd`]
/// variant — for sweeping ranges the table does not name.
///
/// # Errors
///
/// Fails if the EC is unreachable, or does not itself implement
/// `EC_CMD_GET_CMD_VERSIONS`.
pub fn command_versions_raw<F: Fn(&CrosEcCommandV2) -> Result<EcReply, EcError>>(
    xfer: &F,
    cmd: u16,
) -> (r: Result<Option<u32>, EcError>)
    requires
        forall|f: &CrosEcCommandV2| xfer.requires((f,)),
    ensures
        exists|o: Result<EcResponseGetCmdVersions, EcError>|
            answered::<GetCmdVersions, F>(*xfer, EcParamsGetCmdVersionsV1 { cmd }, o) && r
                == versions_from(o),
{
    let o = call::<GetCmdVersions, F>(xfer, EcParamsGetCmdVersionsV1 { cmd });
    let ghost seen = o;
    let r = match o {
        Ok(resp) => Ok(Some(resp.version_mask)),
        Err(EcError::Rejected { command, version, status }) => {
            if status.0 == EC_RES_INVALID_PARAM {
                Ok(None)
            } else {
                Err(EcError::Rejected { command, version, status })
            }
        },
        Err(e) => Err(e),
    };
    assert(answered::<GetCmdVersions, F>(*xfer, EcParamsGetCmdVersionsV1 { cmd }, seen) && r
        == versions_from(seen));
    r
}

/// Which versions of `cmd` this EC implements, as a bitmask, or `None` if it
/// does not implement the command at all.
///
/// # Errors
///
/// Fails if the EC is unreachable, or does not itself implement
/// `EC_CMD_GET_CMD_VERSIONS`.
pub fn command_versions<F: Fn(&CrosEcCommandV2) -> Result<EcReply, EcError>>(
    xfer: &F,
    cmd: EcCmd,
) -> (r: Result<Option<u32>, EcError>)
    requires
        forall|f: &CrosEcCommandV2| xfer.requires((f,)),
    ensures
        exists|o: Result<EcResponseGetCmdVersions, EcError>|
            answered::<GetCmdVersions, F>(
                *xfer,
                EcParamsGetCmdVersionsV1 { cmd: ec_cmd_code(cmd) },
                o,
            ) && r == versions_from(o),
{
    command_versions_raw(xfer, cmd.code())
}

/// Whether this EC implements `cmd` at all.
///
/// # Errors
///
/// As [`command_versions`].
pub fn is_supported<F: Fn(&CrosEcCommandV2) -> Result<EcReply, EcError>>(xfer: &F, cmd: EcCmd) -> (r:
    Result<bool, EcError>)
    requires
        forall|f: &CrosEcCommandV2| xfer.requires((f,)),
    ensures
        exists|o: Result<EcResponseGetCmdVersions, EcError>|
            answered::<GetCmdVersions, F>(
                *xfer,
                EcParamsGetCmdVersionsV1 { cmd: ec_cmd_code(cmd) },
                o,
            ) && r == supported_from(o),
{
    let v = command_versions(xfer, cmd);
    let ghost o = choose|o: Result<EcResponseGetCmdVersions, EcError>|
        answered::<GetCmdVersions, F>(*xfer, EcParamsGetCmdVersionsV1 { cmd: ec_cmd_code(cmd) }, o)
            && v == versions_from(o);
    let r = match v {
        Ok(mask) => Ok(mask.is_some()),
        Err(e) => Err(e),
    };
    assert(answered::<GetCmdVersions, F>(
        *xfer,
        EcParamsGetCmdVersionsV1 { cmd: ec_cmd_code(cmd) },
        o,
    ) && r == supported_from(o));
    r
}

} // verus!
