//! The single error type every EC access funnels through.
use vstd::prelude::*;

use crate::ec_cmd::{EcCmd, ec_cmd_name};
use crate::status::{EcStatus, status_text};
use crate::text::{decimal, hex, pad_front, push_decimal, push_prefixed_hex, push_str};

verus! {

/// The error an `ioctl` reports.
#[verifier::external_type_specification]
#[verifier::external_body]
pub struct ExErrno(nix::errno::Errno);

/// Anything that can go wrong talking to the EC.
#[derive(Debug)]
pub enum EcError {
    /// `/dev/cros_ec` could not be opened. Usually means the `cros_ec_dev`
    /// module is missing, or the process is not running as root.
    Unavailable(String),
    /// The `ioctl` itself failed, before the EC ever saw the command.
    Ioctl(nix::errno::Errno),
    /// The command reached the EC, and the EC refused it.
    Rejected {
        /// The command that was refused.
        command: EcCmd,
        /// Version of that command.
        version: u32,
        /// What the EC said went wrong.
        status: EcStatus,
    },
    /// The EC returned fewer payload bytes than the declared response type
    /// needs, so there is no complete response to hand back.
    ShortResponse {
        /// The command that under-delivered.
        command: EcCmd,
        /// Bytes the response type requires.
        expected: usize,
        /// Bytes the EC actually wrote.
        got: usize,
    },
    /// A memory-map read ran past the end of the EC's mapped region.
    MemMapRange {
        /// Requested start offset.
        offset: u32,
        /// Requested length in bytes.
        len: usize,
    },
    /// A memory-map read returned fewer bytes than requested.
    ShortRead {
        /// Requested start offset.
        offset: u32,
        /// Bytes requested.
        expected: usize,
        /// Bytes actually read.
        got: usize,
    },
}

impl From<nix::errno::Errno> for EcError {
    fn from(e: nix::errno::Errno) -> (r: Self) {
        EcError::Ioctl(e)
    }
}

impl vstd::std_specs::convert::FromSpecImpl<nix::errno::Errno> for EcError {
    open spec fn obeys_from_spec() -> bool {
        true
    }

    open spec fn from_spec(v: nix::errno::Errno) -> Self {
        EcError::Ioctl(v)
    }
}

/// An offset as `{:#04x}` shows it: `0x` and at least two hex digits.
pub open spec fn offset_text(offset: u32) -> Seq<char> {
    "0x"@ + pad_front(hex(offset as nat), 2, '0')
}

/// What `nix::errno::Errno`'s `Display` makes of an error number: its
/// symbolic name and fixed description.
pub uninterp spec fn errno_display(e: nix::errno::Errno) -> Seq<char>;

/// How an error reads; an `ioctl` failure shows the error number as `nix`
/// displays it.
pub open spec fn error_text(e: EcError) -> Seq<char> {
    match e {
        EcError::Unavailable(why) => "cannot open /dev/cros_ec: "@ + why@,
        EcError::Ioctl(errno) => "EC ioctl failed: "@ + errno_display(errno),
        EcError::Rejected { command, version, status } => "EC rejected "@ + ec_cmd_name(command)
            + " (v"@ + decimal(version as nat) + "): "@ + status_text(status.0),
        EcError::ShortResponse { command, expected, got } => "EC returned "@ + decimal(got as nat)
            + " bytes for "@ + ec_cmd_name(command) + ", expected "@ + decimal(expected as nat),
        EcError::MemMapRange { offset, len } => "memory-map read of "@ + decimal(len as nat)
            + " bytes at "@ + offset_text(offset)
            + " runs past the end of the 255 byte EC memory map"@,
        EcError::ShortRead { offset, expected, got } => "memory-map read at "@ + offset_text(offset)
            + " returned "@ + decimal(got as nat) + " bytes, expected "@ + decimal(expected as nat),
    }
}

/// `nix::errno::Errno`'s `Display`, which writes the error's symbolic name
/// and its fixed description. Claimed here: the text depends on the error
/// number alone, named [`errno_display`]; nothing else is said of it.
#[verifier::external_body]
fn errno_text(e: &nix::errno::Errno) -> (r: String)
    ensures
        r@ == errno_display(*e),
{
    e.to_string()
}

impl EcError {
    /// How the error reads, see [`error_text`]. The text of an `ioctl`
    /// failure is what `nix` makes of the error number.
    pub fn describe(&self) -> (r: String)
        ensures
            r@ == error_text(*self),
    {
        proof {
            reveal_strlit("cannot open /dev/cros_ec: ");
            reveal_strlit("EC ioctl failed: ");
            reveal_strlit("EC rejected ");
            reveal_strlit(" (v");
            reveal_strlit("): ");
            reveal_strlit("EC returned ");
            reveal_strlit(" bytes for ");
            reveal_strlit(", expected ");
            reveal_strlit("memory-map read of ");
            reveal_strlit(" bytes at ");
            reveal_strlit(" runs past the end of the 255 byte EC memory map");
            reveal_strlit("memory-map read at ");
            reveal_strlit(" returned ");
            reveal_strlit(" bytes, expected ");
        }
        let mut s = String::new();
        match self {
            EcError::Unavailable(why) => {
                push_str(&mut s, "cannot open /dev/cros_ec: ");
                push_str(&mut s, why.as_str());
            },
            EcError::Ioctl(e) => {
                push_str(&mut s, "EC ioctl failed: ");
                let t = errno_text(e);
                push_str(&mut s, t.as_str());
                assert(s@ =~= error_text(*self));
            },
            EcError::Rejected { command, version, status } => {
                push_str(&mut s, "EC rejected ");
                push_str(&mut s, command.name());
                push_str(&mut s, " (v");
                push_decimal(&mut s, *version as u64);
                push_str(&mut s, "): ");
                let st = status.describe();
                push_str(&mut s, st.as_str());
            },
            EcError::ShortResponse { command, expected, got } => {
                push_str(&mut s, "EC returned ");
                push_decimal(&mut s, *got as u64);
                push_str(&mut s, " bytes for ");
                push_str(&mut s, command.name());
                push_str(&mut s, ", expected ");
                push_decimal(&mut s, *expected as u64);
            },
            EcError::MemMapRange { offset, len } => {
                push_str(&mut s, "memory-map read of ");
                push_decimal(&mut s, *len as u64);
                push_str(&mut s, " bytes at ");
                push_prefixed_hex(&mut s, *offset as u64, 4);
                push_str(&mut s, " runs past the end of the 255 byte EC memory map");
            },
            EcError::ShortRead { offset, expected, got } => {
                push_str(&mut s, "memory-map read at ");
                push_prefixed_hex(&mut s, *offset as u64, 4);
                push_str(&mut s, " returned ");
                push_decimal(&mut s, *got as u64);
                push_str(&mut s, " bytes, expected ");
                push_decimal(&mut s, *expected as u64);
            },
        }
        assert(s@ =~= error_text(*self));
        s
    }
}

} // verus!

verus! {

/// A failure of one of the command-line tools: either the EC's, or a
/// problem with what the user asked for, described in words.
#[derive(Debug)]
pub enum ToolError {
    /// Talking to the EC failed.
    Ec(EcError),
    /// The request itself was unusable.
    Message(String),
}

/// How a tool failure reads: the EC error's text, or the message.
pub open spec fn tool_error_text(e: ToolError) -> Seq<char> {
    match e {
        ToolError::Ec(inner) => error_text(inner),
        ToolError::Message(m) => m@,
    }
}

impl ToolError {
    /// How the failure reads, see [`tool_error_text`].
    pub fn describe(&self) -> (r: String)
        ensures
            r@ == tool_error_text(*self),
    {
        match self {
            ToolError::Ec(e) => e.describe(),
            ToolError::Message(m) => m.clone(),
        }
    }
}

} // verus!
