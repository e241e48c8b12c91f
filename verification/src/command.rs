//! Declaring EC host commands, framing them, and checking the EC's reply.
//!
//! A command is a marker type implementing [`EcCommand`]: it names the
//! command number and version and says how its request and response payloads
//! are laid out on the wire. [`call`] frames a request, hands the frame to a
//! transport (the `/dev/cros_ec` ioctl, or anything standing in for it), and
//! checks the reply: the EC's result code first, then that the reply is long
//! enough for the response.
use vstd::prelude::*;

use crate::ec_cmd::{EcCmd, ec_cmd_code};
use crate::error::EcError;
use crate::status::EcStatus;

verus! {

/// The header of a version 2 host command, followed by its payload.
///
/// On the wire the request and response payloads share the bytes after the
/// header: the kernel copies `outsize` bytes in and up to `insize` bytes back
/// out, so `data` is sized for the larger of the two.
pub struct CrosEcCommandV2 {
    /// Command version, usually 0.
    pub version: u32,
    /// Command number, an [`EcCmd`] code.
    pub command: u32,
    /// Bytes of request payload at the start of `data`.
    pub outsize: u32,
    /// Bytes of response payload the EC may write back.
    pub insize: u32,
    /// Filled in by the EC: an [`EcStatus`] code.
    pub result: u32,
    /// The payload.
    pub data: Vec<u8>,
}

/// What came back from one host command: the EC's result code and the
/// payload bytes it wrote.
pub struct EcReply {
    /// The EC's result code (`EC_RES_*`).
    pub result: u32,
    /// Exactly the payload bytes the EC returned.
    pub data: Vec<u8>,
}

/// One host command the EC understands.
///
/// Implement this on a marker type, one per command and version, naming the
/// command, its version and how its payloads are laid out.
pub trait EcCommand {
    /// Parameters sent to the EC.
    type Request;

    /// Payload the EC writes back.
    type Response;

    /// The host command.
    spec fn spec_cmd() -> EcCmd;

    /// The command version.
    spec fn spec_version() -> u32;

    /// Bytes of the request payload.
    spec fn request_len() -> nat;

    /// Bytes of the response payload.
    spec fn response_len() -> nat;

    /// Wire layout of a request.
    spec fn spec_encode(req: Self::Request) -> Seq<u8>;

    /// The response laid out in the given bytes.
    spec fn spec_decode(bytes: Seq<u8>) -> Self::Response;

    fn cmd() -> (c: EcCmd)
        ensures
            c == Self::spec_cmd(),
    ;

    fn version() -> (v: u32)
        ensures
            v == Self::spec_version(),
    ;

    fn request_size() -> (n: usize)
        ensures
            n == Self::request_len(),
            n <= 0xffff,
    ;

    fn response_size() -> (n: usize)
        ensures
            n == Self::response_len(),
            n <= 0xffff,
    ;

    fn encode(req: &Self::Request) -> (b: Vec<u8>)
        ensures
            b@ == Self::spec_encode(*req),
            b.len() == Self::request_len(),
    ;

    fn decode(bytes: &[u8]) -> (r: Self::Response)
        requires
            bytes.len() == Self::response_len(),
        ensures
            r == Self::spec_decode(bytes@),
    ;
}

/// The larger of two sizes.
pub open spec fn max_len(a: nat, b: nat) -> nat {
    if a >= b {
        a
    } else {
        b
    }
}

/// The frame for request `req`: sizes from the command's payload types, the
/// encoded request followed by zeros up to the larger payload, no result.
pub open spec fn frame_for<C: EcCommand>(f: CrosEcCommandV2, req: C::Request) -> bool {
    &&& f.version == C::spec_version()
    &&& f.command == ec_cmd_code(C::spec_cmd()) as u32
    &&& f.outsize == C::request_len()
    &&& f.insize == C::response_len()
    &&& f.result == 0
    &&& f.data@ == C::spec_encode(req) + Seq::new(
        (max_len(C::request_len(), C::response_len()) - C::request_len()) as nat,
        |i: int| 0u8,
    )
}

/// What a command's reply means: a refusal if the result code is not
/// success, a short response if fewer bytes came back than the response
/// needs, otherwise the response decoded from the leading bytes.
pub open spec fn spec_complete<C: EcCommand>(result: u32, data: Seq<u8>) -> Result<
    C::Response,
    EcError,
> {
    if result != 0 {
        Err(EcError::Rejected { command: C::spec_cmd(), version: C::spec_version(), status: EcStatus(result) })
    } else if data.len() < C::response_len() {
        Err(
            EcError::ShortResponse {
                command: C::spec_cmd(),
                expected: C::response_len() as usize,
                got: data.len() as usize,
            },
        )
    } else {
        Ok(C::spec_decode(data.subrange(0, C::response_len() as int)))
    }
}

/// The outcome of a call given what the transport returned.
pub open spec fn spec_outcome<C: EcCommand>(reply: Result<EcReply, EcError>) -> Result<
    C::Response,
    EcError,
> {
    match reply {
        Ok(r) => spec_complete::<C>(r.result, r.data@),
        Err(e) => Err(e),
    }
}

/// `outcome` is what a call of command `C` with `req` through `xfer` can
/// return: for some frame of that request and some answer `xfer` may give to
/// it, the outcome is what that answer means.
pub open spec fn answered<C: EcCommand, F: Fn(&CrosEcCommandV2) -> Result<EcReply, EcError>>(
    xfer: F,
    req: C::Request,
    outcome: Result<C::Response, EcError>,
) -> bool {
    exists|f: CrosEcCommandV2, reply: Result<EcReply, EcError>|
        frame_for::<C>(f, req) && xfer.ensures((&f,), reply) && outcome == spec_outcome::<C>(reply)
}

/// Builds the frame for a request.
pub fn build_frame<C: EcCommand>(req: &C::Request) -> (f: CrosEcCommandV2)
    ensures
        frame_for::<C>(f, *req),
{
    let out_len = C::request_size();
    let in_len = C::response_size();
    let mut data = C::encode(req);
    let total = if out_len >= in_len {
        out_len
    } else {
        in_len
    };
    let ghost encoded = data@;
    while data.len() < total
        invariant
            out_len <= data.len() <= total,
            total == max_len(out_len as nat, in_len as nat),
            data@ == encoded + Seq::new((data.len() - out_len) as nat, |i: int| 0u8),
            encoded.len() == out_len,
        decreases total - data.len(),
    {
        data.push(0);
        assert(data@ =~= encoded + Seq::new((data.len() - out_len) as nat, |i: int| 0u8));
    }
    CrosEcCommandV2 {
        version: C::version(),
        command: C::cmd().code() as u32,
        outsize: out_len as u32,
        insize: in_len as u32,
        result: 0,
        data,
    }
}

/// Checks a reply: the result code, then the length, then decodes.
pub fn complete<C: EcCommand>(reply: &EcReply) -> (r: Result<C::Response, EcError>)
    ensures
        r == spec_complete::<C>(reply.result, reply.data@),
{
    let status = EcStatus(reply.result);
    if !status.is_success() {
        return Err(EcError::Rejected { command: C::cmd(), version: C::version(), status });
    }
    let in_len = C::response_size();
    if reply.data.len() < in_len {
        return Err(
            EcError::ShortResponse { command: C::cmd(), expected: in_len, got: reply.data.len() },
        );
    }
    let bytes = slice_prefix(reply.data.as_slice(), in_len);
    Ok(C::decode(bytes))
}

/// The first `n` bytes of a slice.
fn slice_prefix(s: &[u8], n: usize) -> (r: &[u8])
    requires
        n <= s.len(),
    ensures
        r@ == s@.subrange(0, n as int),
{
    vstd::slice::slice_subrange(s, 0, n)
}

/// Sends a command through `xfer` and returns the EC's response.
///
/// The frame handed to `xfer` carries the command number, version and
/// payload sizes of `C` and the encoded request. Whatever `xfer` answers,
/// the result is what [`spec_outcome`] makes of it: the transport's own error,
/// a refusal when the EC's result code is not success, a short response when
/// fewer bytes came back than the response needs, or the decoded response.
pub fn call<C: EcCommand, F: Fn(&CrosEcCommandV2) -> Result<EcReply, EcError>>(
    xfer: &F,
    request: C::Request,
) -> (r: Result<C::Response, EcError>)
    requires
        forall|f: &CrosEcCommandV2| xfer.requires((f,)),
    ensures
        answered::<C, F>(*xfer, request, r),
{
    let frame = build_frame::<C>(&request);
    let reply = xfer(&frame);
    let ghost seen = reply;
    let r = match reply {
        Ok(rep) => complete::<C>(&rep),
        Err(e) => Err(e),
    };
    assert(frame_for::<C>(frame, request) && xfer.ensures((&frame,), seen) && r == spec_outcome::<
        C,
    >(seen));
    r
}

/// A command the EC refused is an error carrying the EC's status, never a
/// response: whatever payload came back with it.
pub proof fn lemma_refused_is_error<C: EcCommand>(result: u32, data: Seq<u8>)
    requires
        result != 0,
    ensures
        spec_complete::<C>(result, data) == Err::<C::Response, EcError>(
            EcError::Rejected {
                command: C::spec_cmd(),
                version: C::spec_version(),
                status: EcStatus(result),
            },
        ),
{
}

/// A response is only ever made from an accepted command whose reply is long
/// enough, and it is decoded from the reply's leading bytes.
pub proof fn lemma_response_needs_full_reply<C: EcCommand>(
    result: u32,
    data: Seq<u8>,
    resp: C::Response,
)
    requires
        spec_complete::<C>(result, data) == Ok::<C::Response, EcError>(resp),
    ensures
        result == 0,
        data.len() >= C::response_len(),
        resp == C::spec_decode(data.subrange(0, C::response_len() as int)),
{
}

/// Every frame declares the sizes of the command's own payloads, is sized
/// for the larger of the two, and carries nothing after the request but
/// zeros: no stale bytes reach the EC through the gap between a short
/// request and a long response.
pub proof fn lemma_frame_zeroed<C: EcCommand>(f: CrosEcCommandV2, req: C::Request, i: int)
    requires
        frame_for::<C>(f, req),
        C::spec_encode(req).len() == C::request_len(),
        C::request_len() <= i < f.data@.len(),
    ensures
        f.outsize == C::request_len(),
        f.insize == C::response_len(),
        f.data@.len() == max_len(C::request_len(), C::response_len()),
        f.data@[i] == 0,
{
    assert(f.data@[i] == Seq::new(
        (max_len(C::request_len(), C::response_len()) - C::request_len()) as nat,
        |k: int| 0u8,
    )[i - C::request_len()]);
}

} // verus!
