//! The result code the EC writes back into a command header.
use vstd::prelude::*;

use crate::text::{decimal, push_decimal, push_str};

verus! {

/// The result code the EC writes back into a command header (`EC_RES_*`).
///
/// Zero means success; anything else means the EC understood the transfer but
/// refused or failed the command.
#[derive(Clone, Copy, Debug, PartialEq, Eq, Structural)]
pub struct EcStatus(pub u32);

/// `EC_RES_SUCCESS`.
pub const EC_RES_SUCCESS: u32 = 0;

/// `EC_RES_INVALID_COMMAND`: the EC does not implement the command.
pub const EC_RES_INVALID_COMMAND: u32 = 1;

/// `EC_RES_INVALID_PARAM`: the EC refused the parameters.
pub const EC_RES_INVALID_PARAM: u32 = 3;

/// The `EC_RES_*` name of a result code, where the code is one we know.
pub open spec fn status_name(code: u32) -> Option<Seq<char>> {
    match code {
        0 => Some("EC_RES_SUCCESS"@),
        1 => Some("EC_RES_INVALID_COMMAND"@),
        2 => Some("EC_RES_ERROR"@),
        3 => Some("EC_RES_INVALID_PARAM"@),
        4 => Some("EC_RES_ACCESS_DENIED"@),
        5 => Some("EC_RES_INVALID_RESPONSE"@),
        6 => Some("EC_RES_INVALID_VERSION"@),
        7 => Some("EC_RES_INVALID_CHECKSUM"@),
        8 => Some("EC_RES_IN_PROGRESS"@),
        9 => Some("EC_RES_UNAVAILABLE"@),
        10 => Some("EC_RES_TIMEOUT"@),
        11 => Some("EC_RES_OVERFLOW"@),
        12 => Some("EC_RES_INVALID_HEADER"@),
        13 => Some("EC_RES_REQUEST_TRUNCATED"@),
        14 => Some("EC_RES_RESPONSE_TOO_BIG"@),
        15 => Some("EC_RES_BUS_ERROR"@),
        16 => Some("EC_RES_BUSY"@),
        17 => Some("EC_RES_INVALID_HEADER_VERSION"@),
        18 => Some("EC_RES_INVALID_HEADER_CRC"@),
        19 => Some("EC_RES_INVALID_DATA_CRC"@),
        20 => Some("EC_RES_DUP_UNAVAILABLE"@),
        _ => None,
    }
}

impl EcStatus {
    /// `EC_RES_SUCCESS`.
    pub fn success() -> (r: EcStatus)
        ensures
            r.0 == EC_RES_SUCCESS,
    {
        EcStatus(EC_RES_SUCCESS)
    }

    /// Whether the EC reported success.
    pub fn is_success(self) -> (r: bool)
        ensures
            r == (self.0 == EC_RES_SUCCESS),
    {
        self.0 == EC_RES_SUCCESS
    }

    /// The `EC_RES_*` name for this code, if it is one we know about.
    pub fn name(self) -> (r: Option<&'static str>)
        ensures
            r is Some <==> status_name(self.0) is Some,
            r matches Some(s) ==> s@ == status_name(self.0)->0,
    {
        proof {
            reveal_strlit("EC_RES_SUCCESS");
            reveal_strlit("EC_RES_INVALID_COMMAND");
            reveal_strlit("EC_RES_ERROR");
            reveal_strlit("EC_RES_INVALID_PARAM");
            reveal_strlit("EC_RES_ACCESS_DENIED");
            reveal_strlit("EC_RES_INVALID_RESPONSE");
            reveal_strlit("EC_RES_INVALID_VERSION");
            reveal_strlit("EC_RES_INVALID_CHECKSUM");
            reveal_strlit("EC_RES_IN_PROGRESS");
            reveal_strlit("EC_RES_UNAVAILABLE");
            reveal_strlit("EC_RES_TIMEOUT");
            reveal_strlit("EC_RES_OVERFLOW");
            reveal_strlit("EC_RES_INVALID_HEADER");
            reveal_strlit("EC_RES_REQUEST_TRUNCATED");
            reveal_strlit("EC_RES_RESPONSE_TOO_BIG");
            reveal_strlit("EC_RES_BUS_ERROR");
            reveal_strlit("EC_RES_BUSY");
            reveal_strlit("EC_RES_INVALID_HEADER_VERSION");
            reveal_strlit("EC_RES_INVALID_HEADER_CRC");
            reveal_strlit("EC_RES_INVALID_DATA_CRC");
            reveal_strlit("EC_RES_DUP_UNAVAILABLE");
        }
        match self.0 {
            0 => Some("EC_RES_SUCCESS"),
            1 => Some("EC_RES_INVALID_COMMAND"),
            2 => Some("EC_RES_ERROR"),
            3 => Some("EC_RES_INVALID_PARAM"),
            4 => Some("EC_RES_ACCESS_DENIED"),
            5 => Some("EC_RES_INVALID_RESPONSE"),
            6 => Some("EC_RES_INVALID_VERSION"),
            7 => Some("EC_RES_INVALID_CHECKSUM"),
            8 => Some("EC_RES_IN_PROGRESS"),
            9 => Some("EC_RES_UNAVAILABLE"),
            10 => Some("EC_RES_TIMEOUT"),
            11 => Some("EC_RES_OVERFLOW"),
            12 => Some("EC_RES_INVALID_HEADER"),
            13 => Some("EC_RES_REQUEST_TRUNCATED"),
            14 => Some("EC_RES_RESPONSE_TOO_BIG"),
            15 => Some("EC_RES_BUS_ERROR"),
            16 => Some("EC_RES_BUSY"),
            17 => Some("EC_RES_INVALID_HEADER_VERSION"),
            18 => Some("EC_RES_INVALID_HEADER_CRC"),
            19 => Some("EC_RES_INVALID_DATA_CRC"),
            20 => Some("EC_RES_DUP_UNAVAILABLE"),
            _ => None,
        }
    }
}

/// How a result code reads: its name and number, or that it is unknown.
pub open spec fn status_text(code: u32) -> Seq<char> {
    match status_name(code) {
        Some(name) => name + " ("@ + decimal(code as nat) + ")"@,
        None => "unknown EC result "@ + decimal(code as nat),
    }
}

impl EcStatus {
    /// How the code reads, see [`status_text`].
    pub fn describe(self) -> (r: String)
        ensures
            r@ == status_text(self.0),
    {
        proof {
            reveal_strlit(" (");
            reveal_strlit(")");
            reveal_strlit("unknown EC result ");
        }
        let mut s = String::new();
        match self.name() {
            Some(name) => {
                push_str(&mut s, name);
                push_str(&mut s, " (");
                push_decimal(&mut s, self.0 as u64);
                push_str(&mut s, ")");
            },
            None => {
                push_str(&mut s, "unknown EC result ");
                push_decimal(&mut s, self.0 as u64);
            },
        }
        assert(s@ =~= status_text(self.0));
        s
    }

    /// The code as its debugging form shows it: `EcStatus(` and how it reads.
    pub fn debug_text(self) -> (r: String)
        ensures
            r@ == "EcStatus("@ + status_text(self.0) + ")"@,
    {
        proof {
            reveal_strlit("EcStatus(");
            reveal_strlit(")");
        }
        let mut s = String::new();
        push_str(&mut s, "EcStatus(");
        let d = self.describe();
        push_str(&mut s, d.as_str());
        push_str(&mut s, ")");
        s
    }
}

} // verus!
