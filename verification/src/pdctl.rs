//! The decisions behind `fw-pdctl`: which ports to act on, when to refuse a
//! role change, how to read a charge-override target, and how to word what
//! the EC said.
use vstd::prelude::*;
use vstd::string::StringExecFns;

use crate::command::{CrosEcCommandV2, EcReply, answered};
use crate::error::{EcError, ToolError};
use crate::status::{EC_RES_INVALID_COMMAND, EC_RES_INVALID_PARAM};
use crate::text::{
    decimal,
    decimal_padded,
    lemma_decimal_padded_reads_back,
    lemma_decimal_padded_short,
    lemma_decimal_reads_back,
    push_decimal,
    push_decimal_padded,
    push_str,
};
use crate::usbpd::{
    ChargePortCount, EcParamsChargePortOverride, EcParamsUsbPdPowerInfo,
    EcResponseChargePortCount, EcResponseUsbPdPowerInfo, OVERRIDE_DONT_CHARGE, OVERRIDE_OFF,
    PdChargePortOverride, PowerRole, UsbPdPowerInfo, capped_port_count, charge_port_count,
    power_info, power_role_name, set_charge_override,
};
use crate::pd::{RoleRequest, role_name};

verus! {

pub open spec fn hint_unavailable() -> Seq<char> {
    "/dev/cros_ec is root-only; try running this under sudo."@
}

pub open spec fn hint_not_implemented() -> Seq<char> {
    "This EC does not implement that command. Run `fw-pdctl supported` to see what it does."@
}

pub open spec fn hint_bad_param() -> Seq<char> {
    "The EC rejected the parameters; check the port index."@
}

/// The sentence worth adding under an error, if there is one.
pub open spec fn spec_hint_for(e: ToolError) -> Option<Seq<char>> {
    match e {
        ToolError::Ec(EcError::Unavailable(_)) => Some(hint_unavailable()),
        ToolError::Ec(EcError::Rejected { status, .. }) => if status.0 == EC_RES_INVALID_COMMAND {
            Some(hint_not_implemented())
        } else if status.0 == EC_RES_INVALID_PARAM {
            Some(hint_bad_param())
        } else {
            None
        },
        _ => None,
    }
}

/// Turn a failure into a sentence worth adding underneath it.
pub fn hint_for(e: &ToolError) -> (r: Option<&'static str>)
    ensures
        r is Some <==> spec_hint_for(*e) is Some,
        r matches Some(s) ==> s@ == spec_hint_for(*e)->0,
{
    proof {
        reveal_strlit("/dev/cros_ec is root-only; try running this under sudo.");
        reveal_strlit(
            "This EC does not implement that command. Run `fw-pdctl supported` to see what it does.",
        );
        reveal_strlit("The EC rejected the parameters; check the port index.");
    }
    match e {
        ToolError::Ec(EcError::Unavailable(_)) => Some(
            "/dev/cros_ec is root-only; try running this under sudo.",
        ),
        ToolError::Ec(EcError::Rejected { status, .. }) => {
            if status.0 == EC_RES_INVALID_COMMAND {
                Some(
                    "This EC does not implement that command. Run `fw-pdctl supported` to see what it does.",
                )
            } else if status.0 == EC_RES_INVALID_PARAM {
                Some("The EC rejected the parameters; check the port index.")
            } else {
                None
            }
        },
        _ => None,
    }
}

/// The message for a port index outside the EC's port count.
pub open spec fn port_range_message(port: u8, count: u8) -> Seq<char> {
    "port "@ + decimal(port as nat) + " is out of range; the EC reports "@ + decimal(count as nat)
        + " ports"@
}

/// Checks a port index against the EC's port count.
pub fn check_port(port: u8, count: u8) -> (r: Result<(), ToolError>)
    ensures
        port < count ==> r is Ok,
        port >= count ==> (r matches Err(ToolError::Message(m)) && m@ == port_range_message(
            port,
            count,
        )),
{
    if port >= count {
        let mut m = String::new();
        proof {
            reveal_strlit("port ");
            reveal_strlit(" is out of range; the EC reports ");
            reveal_strlit(" ports");
        }
        push_str(&mut m, "port ");
        push_decimal(&mut m, port as u64);
        push_str(&mut m, " is out of range; the EC reports ");
        push_decimal(&mut m, count as u64);
        push_str(&mut m, " ports");
        assert(m@ =~= port_range_message(port, count));
        return Err(ToolError::Message(m));
    }
    Ok(())
}

/// `capped` is a port count a `CHARGE_PORT_COUNT` call through `xfer` can
/// report.
pub open spec fn count_answered<F: Fn(&CrosEcCommandV2) -> Result<EcReply, EcError>>(
    xfer: F,
    count: Result<u8, EcError>,
) -> bool {
    exists|o: Result<EcResponseChargePortCount, EcError>|
        answered::<ChargePortCount, F>(xfer, (), o) && count == capped_port_count(o)
}

/// What choosing the ports through `xfer` can give, given the port count:
/// the count's error; the one port given, or the range message when it is
/// out of range; or every port the EC reports, in order.
pub open spec fn ports_from(c: Result<u8, EcError>, only: Option<u8>, r: Result<Vec<u8>, ToolError>) -> bool {
    match c {
        Err(e) => r == Err::<Vec<u8>, ToolError>(ToolError::Ec(e)),
        Ok(count) => match only {
            Some(p) => if p < count {
                r matches Ok(v) && v@ == seq![p]
            } else {
                r matches Err(ToolError::Message(m)) && m@ == port_range_message(p, count)
            },
            None => r matches Ok(v) && v@ == Seq::new(count as nat, |i: int| i as u8),
        },
    }
}

/// `r` is what choosing the ports through `xfer` can give.
pub open spec fn ports_answered<F: Fn(&CrosEcCommandV2) -> Result<EcReply, EcError>>(
    xfer: F,
    only: Option<u8>,
    r: Result<Vec<u8>, ToolError>,
) -> bool {
    exists|c: Result<u8, EcError>| count_answered(xfer, c) && ports_from(c, only, r)
}

/// The ports to act on: the one given, if it is in range, otherwise every
/// port the EC reports.
pub fn ports<F: Fn(&CrosEcCommandV2) -> Result<EcReply, EcError>>(xfer: &F, only: Option<u8>) -> (r:
    Result<Vec<u8>, ToolError>)
    requires
        forall|f: &CrosEcCommandV2| xfer.requires((f,)),
    ensures
        ports_answered(*xfer, only, r),
{
    let c = charge_port_count(xfer);
    let ghost seen = c;
    assert(count_answered(*xfer, seen));
    let r = match c {
        Err(e) => Err(ToolError::Ec(e)),
        Ok(count) => match only {
            Some(p) => {
                let checked = check_port(p, count);
                match checked {
                    Ok(()) => {
                        let mut v = Vec::new();
                        v.push(p);
                        assert(v@ =~= seq![p]);
                        Ok(v)
                    },
                    Err(e) => Err(e),
                }
            },
            None => {
                let mut v: Vec<u8> = Vec::new();
                let mut i: u8 = 0;
                while i < count
                    invariant
                        i <= count,
                        v@ == Seq::new(i as nat, |k: int| k as u8),
                    decreases count - i,
                {
                    v.push(i);
                    i = i + 1;
                    assert(v@ =~= Seq::new(i as nat, |k: int| k as u8));
                }
                Ok(v)
            },
        },
    };
    assert(count_answered(*xfer, seen) && ports_from(seen, only, r));
    r
}

/// Microwatts as watts with two decimals, without floating point.
pub open spec fn microwatts_text(uw: u32) -> Seq<char> {
    decimal((uw / 1_000_000) as nat) + "."@ + decimal_padded(((uw % 1_000_000) / 10_000) as nat, 2)
        + " W"@
}

/// The power text reads back as the power in hundredths of a watt, cut
/// down: whole watts in one or more digits, a point, exactly two digits of
/// hundredths, then ` W`, with `watts * 100 + hundredths == uw / 10_000`.
pub proof fn lemma_microwatts_text_reads_back(uw: u32)
    ensures
        microwatts_text(uw).len() >= 6,
        microwatts_text(uw).subrange(microwatts_text(uw).len() - 2, microwatts_text(uw).len() as int)
            == " W"@,
        microwatts_text(uw)[microwatts_text(uw).len() - 5] == '.',
        all_digits(microwatts_text(uw).subrange(0, microwatts_text(uw).len() - 5)),
        all_digits(
            microwatts_text(uw).subrange(microwatts_text(uw).len() - 4, microwatts_text(uw).len() - 2),
        ),
        digits_value(microwatts_text(uw).subrange(0, microwatts_text(uw).len() - 5)) * 100
            + digits_value(
            microwatts_text(uw).subrange(microwatts_text(uw).len() - 4, microwatts_text(uw).len() - 2),
        ) == uw / 10_000,
{
    let w = decimal((uw / 1_000_000) as nat);
    let f = decimal_padded(((uw % 1_000_000) / 10_000) as nat, 2);
    lemma_decimal_reads_back((uw / 1_000_000) as nat);
    lemma_decimal_padded_reads_back(((uw % 1_000_000) / 10_000) as nat, 2);
    lemma_decimal_padded_short(((uw % 1_000_000) / 10_000) as nat, 2);
    reveal_strlit(".");
    reveal_strlit(" W");
    let t = microwatts_text(uw);
    assert(t =~= w + "."@ + f + " W"@);
    assert(t.subrange(0, t.len() - 5) =~= w);
    assert(t.subrange(t.len() - 4, t.len() - 2) =~= f);
    assert(t.subrange(t.len() - 2, t.len() as int) =~= " W"@);
    assert((uw / 1_000_000) * 100 + (uw % 1_000_000) / 10_000 == uw / 10_000);
}

/// Microwatts as `W`, without floating point.
pub fn format_microwatts(uw: u32) -> (r: String)
    ensures
        r@ == microwatts_text(uw),
{
    proof {
        reveal_strlit(".");
        reveal_strlit(" W");
    }
    let mut s = String::new();
    push_decimal(&mut s, (uw / 1_000_000) as u64);
    push_str(&mut s, ".");
    push_decimal_padded(&mut s, ((uw % 1_000_000) / 10_000) as u64, 2);
    push_str(&mut s, " W");
    assert(s@ =~= microwatts_text(uw));
    s
}

/// The versions set in a `GET_CMD_VERSIONS` mask, as `v<n>` separated by
/// commas, lowest first, over bits `0..upto`.
pub open spec fn version_items(mask: u32, upto: nat) -> Seq<char>
    decreases upto,
{
    if upto == 0 {
        Seq::empty()
    } else {
        let rest = version_items(mask, (upto - 1) as nat);
        let bit = (upto - 1) as nat;
        if mask & (1u32 << bit) != 0 {
            if rest.len() == 0 {
                "v"@ + decimal(bit)
            } else {
                rest + ","@ + "v"@ + decimal(bit)
            }
        } else {
            rest
        }
    }
}

/// A `GET_CMD_VERSIONS` bitmask as a readable version list: `none` when no
/// bit is set.
pub open spec fn version_list_text(mask: u32) -> Seq<char> {
    let items = version_items(mask, 32);
    if items.len() == 0 {
        "none"@
    } else {
        items
    }
}

/// A `GET_CMD_VERSIONS` bitmask as a readable version list.
pub fn version_list(mask: u32) -> (r: String)
    ensures
        r@ == version_list_text(mask),
{
    proof {
        reveal_strlit("v");
        reveal_strlit(",");
        reveal_strlit("none");
    }
    let mut s = String::new();
    let mut i: u32 = 0;
    while i < 32
        invariant
            i <= 32,
            s@ == version_items(mask, i as nat),
        decreases 32 - i,
    {
        if mask & (1u32 << i) != 0 {
            if s.unicode_len() != 0 {
                push_str(&mut s, ",");
            }
            push_str(&mut s, "v");
            push_decimal(&mut s, i as u64);
        }
        i = i + 1;
    }
    if s.unicode_len() == 0 {
        return String::from_str("none");
    }
    s
}


/// `o` is an answer a `USB_PD_POWER_INFO` call for `port` through `xfer` can
/// give.
pub open spec fn info_answered<F: Fn(&CrosEcCommandV2) -> Result<EcReply, EcError>>(
    xfer: F,
    port: u8,
    o: Result<EcResponseUsbPdPowerInfo, EcError>,
) -> bool {
    answered::<UsbPdPowerInfo, F>(xfer, EcParamsUsbPdPowerInfo { port }, o)
}

/// Port `port` was asked about and is not the active charger.
pub open spec fn passed_over<F: Fn(&CrosEcCommandV2) -> Result<EcReply, EcError>>(
    xfer: F,
    port: u8,
) -> bool {
    exists|i: EcResponseUsbPdPowerInfo| info_answered(xfer, port, Ok(i)) && i.role != 2
}

/// Port `port` was asked about and is the active charger.
pub open spec fn found_active<F: Fn(&CrosEcCommandV2) -> Result<EcReply, EcError>>(
    xfer: F,
    port: u8,
) -> bool {
    exists|i: EcResponseUsbPdPowerInfo| info_answered(xfer, port, Ok(i)) && i.role == 2
}

/// `r` is what asking `xfer` for the port charging the system can give:
/// the port count's error; or, asking the ports in order, the first the EC
/// selected to charge from, with every port before it passed over; no port,
/// when every port was passed over; or the error of the first port that
/// could not be read, every port before it passed over.
pub open spec fn active_answered<F: Fn(&CrosEcCommandV2) -> Result<EcReply, EcError>>(
    xfer: F,
    r: Result<Option<u8>, EcError>,
) -> bool {
    exists|c: Result<u8, EcError>|
        count_answered(xfer, c) && match c {
            Err(e) => r == Err::<Option<u8>, EcError>(e),
            Ok(count) => match r {
                Ok(Some(p)) => p < count && found_active(xfer, p) && forall|q: u8|
                    q < p ==> #[trigger] passed_over(xfer, q),
                Ok(None) => forall|q: u8| q < count ==> #[trigger] passed_over(xfer, q),
                Err(e) => exists|p: u8|
                    p < count && info_answered(xfer, p, Err(e)) && forall|q: u8|
                        q < p ==> #[trigger] passed_over(xfer, q),
            },
        }
}

/// The port currently drawing power into the system, if any: ports are asked
/// in order and the first one the EC selected to charge from is the answer.
pub fn active_charge_port<F: Fn(&CrosEcCommandV2) -> Result<EcReply, EcError>>(xfer: &F) -> (r:
    Result<Option<u8>, EcError>)
    requires
        forall|f: &CrosEcCommandV2| xfer.requires((f,)),
    ensures
        active_answered(*xfer, r),
{
    let c = charge_port_count(xfer);
    let ghost seen = c;
    assert(count_answered(*xfer, seen));
    let count = match c {
        Ok(count) => count,
        Err(e) => {
            return Err(e);
        },
    };
    let mut port: u8 = 0;
    while port < count
        invariant
            port <= count,
            seen == Ok::<u8, EcError>(count),
            count_answered(*xfer, seen),
            forall|f: &CrosEcCommandV2| xfer.requires((f,)),
            forall|q: u8| q < port ==> #[trigger] passed_over(*xfer, q),
        decreases count - port,
    {
        let info = power_info(xfer, port);
        let ghost gi = info;
        match info {
            Ok(i) => {
                assert(info_answered(*xfer, port, gi));
                assert(gi == Ok::<EcResponseUsbPdPowerInfo, EcError>(i));
                assert(info_answered(*xfer, port, Ok(i)));
                if i.is_active_charger() {
                    assert(found_active(*xfer, port));
                    return Ok(Some(port));
                }
                assert(passed_over(*xfer, port));
            },
            Err(e) => {
                assert(info_answered(*xfer, port, gi));
                return Err(e);
            },
        }
        port = port + 1;
    }
    Ok(None)
}

/// Why a role change was refused: the port is powering the system and the
/// role would cut that input.
pub open spec fn refusal_text(port: u8, current: PowerRole, role: RoleRequest) -> Seq<char> {
    "port "@ + decimal(port as nat) + " is currently "@ + power_role_name(current)
        + " — it is powering this system, and setting it to `"@ + role_name(role)
        + "` would cut that input. Pass --force if that is what you want."@
}

/// A role change must be refused: the role can drop input, it is not
/// forced, and the port is drawing power.
pub open spec fn refuses_role_change(role: RoleRequest, force: bool, current: Option<PowerRole>) -> bool {
    &&& !(role == RoleRequest::NoChange || role == RoleRequest::ForceSink)
    &&& !force
    &&& current matches Some(c) && (c == PowerRole::Sink || c == PowerRole::SinkNotCharging)
}

/// Whether pinning `port` to `role` must be refused given the port's current
/// power role: only roles that can drop input are refused, only without
/// `force`, and only while the port is drawing power.
pub fn role_change_refusal(
    port: u8,
    role: RoleRequest,
    force: bool,
    current: Option<PowerRole>,
) -> (r: Option<String>)
    ensures
        r is Some <==> refuses_role_change(role, force, current),
        r matches Some(m) ==> m@ == refusal_text(port, current->0, role),
{
    if role.can_drop_input() && !force {
        if let Some(c) = current {
            if c.is_drawing_power() {
                proof {
                    reveal_strlit("port ");
                    reveal_strlit(" is currently ");
                    reveal_strlit(" — it is powering this system, and setting it to `");
                    reveal_strlit("` would cut that input. Pass --force if that is what you want.");
                }
                let mut m = String::new();
                push_str(&mut m, "port ");
                push_decimal(&mut m, port as u64);
                push_str(&mut m, " is currently ");
                push_str(&mut m, c.name());
                push_str(&mut m, " — it is powering this system, and setting it to `");
                push_str(&mut m, role.name());
                push_str(&mut m, "` would cut that input. Pass --force if that is what you want.");
                assert(m@ =~= refusal_text(port, c, role));
                return Some(m);
            }
        }
    }
    None
}

/// The text after an optional leading `+` sign.
pub open spec fn unsigned_part(s: Seq<char>) -> Seq<char> {
    if s.len() > 0 && s[0] == '+' {
        s.drop_first()
    } else {
        s
    }
}

/// Whether every character is an ASCII digit.
pub open spec fn all_digits(d: Seq<char>) -> bool {
    forall|i: int| 0 <= i < d.len() ==> is_digit(#[trigger] d[i])
}

/// The digits of a decimal `u8`, as `str::parse` reads them: an optional `+`
/// sign, then one or more ASCII digits whose value fits.
pub open spec fn spec_parse_u8(s: Seq<char>) -> Option<u8> {
    let d = unsigned_part(s);
    if d.len() == 0 || !all_digits(d) {
        None
    } else if digits_value(d) > 255 {
        None
    } else {
        Some(digits_value(d) as u8)
    }
}

/// The value of a string of ASCII digits.
pub open spec fn digits_value(d: Seq<char>) -> nat
    decreases d.len(),
{
    if d.len() == 0 {
        0
    } else {
        digits_value(d.drop_last()) * 10 + (d.last() as nat - '0' as nat) as nat
    }
}

/// Whether a character is an ASCII digit.
pub open spec fn is_digit(c: char) -> bool {
    '0' <= c <= '9'
}

/// A string of digits is worth at least any of its prefixes.
proof fn lemma_digits_prefix(d: Seq<char>, k: int)
    requires
        0 <= k <= d.len(),
        all_digits(d),
    ensures
        digits_value(d.subrange(0, k)) <= digits_value(d),
    decreases d.len(),
{
    if k < d.len() {
        let e = d.drop_last();
        assert forall|i: int| 0 <= i < e.len() implies is_digit(#[trigger] e[i]) by {
            assert(e[i] == d[i]);
        }
        lemma_digits_prefix(e, k);
        assert(e.subrange(0, k) =~= d.subrange(0, k));
    } else {
        assert(d.subrange(0, k) =~= d);
    }
}

/// The value of one more digit.
proof fn lemma_digits_step(d: Seq<char>, m: int)
    requires
        0 <= m < d.len(),
    ensures
        digits_value(d.subrange(0, m + 1)) == digits_value(d.subrange(0, m)) * 10 + (d[m] as nat
            - '0' as nat) as nat,
{
    assert(d.subrange(0, m + 1).drop_last() =~= d.subrange(0, m));
}

/// Reads a decimal `u8` as `str::parse` does: an optional `+` sign, then
/// one or more ASCII digits whose value fits.
fn parse_u8(s: &str) -> (r: Option<u8>)
    ensures
        r == spec_parse_u8(s@),
{
    let len = s.unicode_len();
    let start: usize = if len > 0 && s.get_char(0) == '+' {
        1
    } else {
        0
    };
    let ghost d = unsigned_part(s@);
    assert(d =~= s@.subrange(start as int, len as int));
    if start >= len {
        return None;
    }
    let mut value: u32 = 0;
    let mut i: usize = start;
    assert(d.subrange(0, 0) =~= Seq::<char>::empty());
    while i < len
        invariant
            start <= i <= len,
            len == s@.len(),
            start < len,
            d == s@.subrange(start as int, len as int),
            d == unsigned_part(s@),
            value == digits_value(d.subrange(0, i - start)),
            value <= 255,
            forall|j: int| 0 <= j < i - start ==> is_digit(#[trigger] d[j]),
        decreases len - i,
    {
        let c = s.get_char(i);
        assert(c == d[i - start]);
        if !('0' <= c && c <= '9') {
            proof {
                let m = (i - start) as int;
                assert(!is_digit(d[m]));
                assert(!all_digits(d));
            }
            return None;
        }
        proof {
            lemma_digits_step(d, i - start);
        }
        value = value * 10 + (c as u32 - '0' as u32);
        assert(value == digits_value(d.subrange(0, i - start + 1)));
        if value > 255 {
            proof {
                if all_digits(d) {
                    lemma_digits_prefix(d, i - start + 1);
                    assert(digits_value(d) > 255);
                }
            }
            return None;
        }
        i = i + 1;
    }
    assert(d.subrange(0, len - start) =~= d);
    Some(value as u8)
}

/// Whether the target is one of the keywords `off` and `none`.
pub open spec fn is_keyword(t: Seq<char>) -> bool {
    t == "off"@ || t == "none"@
}

/// What applying the override `port` through `xfer` can give: when
/// charging is being turned off everywhere, a warning about the port that
/// was charging, if asking found one; then the override's own outcome.
pub open spec fn override_applied<F: Fn(&CrosEcCommandV2) -> Result<EcReply, EcError>>(
    xfer: F,
    port: i16,
    r: (Option<u8>, Result<i16, ToolError>),
) -> bool {
    &&& port == OVERRIDE_DONT_CHARGE ==> exists|w: Result<Option<u8>, EcError>|
        #[trigger] active_answered(xfer, w) && r.0 == match w {
            Ok(Some(a)) => Some(a),
            _ => None,
        }
    &&& port != OVERRIDE_DONT_CHARGE ==> r.0 is None
    &&& exists|so: Result<(), EcError>|
        #[trigger] answered::<PdChargePortOverride, F>(
            xfer,
            EcParamsChargePortOverride { override_port: port },
            so,
        ) && r.1 == match so {
            Ok(()) => Ok::<i16, ToolError>(port),
            Err(e) => Err(ToolError::Ec(e)),
        }
}

/// What a charge-override target asks for.
pub open spec fn spec_charge_target(t: Seq<char>) -> Option<i16> {
    if t == "off"@ {
        Some(OVERRIDE_OFF)
    } else if t == "none"@ {
        Some(OVERRIDE_DONT_CHARGE)
    } else {
        match spec_parse_u8(t) {
            Some(p) => Some(p as i16),
            None => None,
        }
    }
}

/// The message for a target that is neither a port index nor a keyword.
pub open spec fn bad_target_text(t: Seq<char>) -> Seq<char> {
    "expected a port index, `off`, or `none`, got `"@ + t + "`"@
}

/// Chooses which port the system charges from: a port index, `off` to hand
/// selection back to the EC, or `none` to refuse to charge from any port.
///
/// Returns the port that was charging the system when `none` was asked for
/// (worth a warning), and the override that was applied.
pub fn charge_override<F: Fn(&CrosEcCommandV2) -> Result<EcReply, EcError>>(
    xfer: &F,
    target: &str,
) -> (r: (Option<u8>, Result<i16, ToolError>))
    requires
        forall|f: &CrosEcCommandV2| xfer.requires((f,)),
    ensures
        spec_charge_target(target@) is None ==> r.0 is None && (r.1 matches Err(
            ToolError::Message(m),
        ) && m@ == bad_target_text(target@)),
        match spec_charge_target(target@) {
            None => true,
            Some(port) => if is_keyword(target@) {
                override_applied(*xfer, port, r)
            } else {
                exists|c: Result<u8, EcError>|
                    #![trigger count_answered(*xfer, c)]
                    count_answered(*xfer, c) && match c {
                        Err(e) => r.0 is None && r.1 == Err::<i16, ToolError>(ToolError::Ec(e)),
                        Ok(count) => if port >= count {
                            r.0 is None && (r.1 matches Err(ToolError::Message(m)) && m@
                                == port_range_message(port as u8, count))
                        } else {
                            override_applied(*xfer, port, r)
                        },
                    }
            },
        },
{
    proof {
        reveal_strlit("off");
        reveal_strlit("none");
        reveal_strlit("expected a port index, `off`, or `none`, got `");
        reveal_strlit("`");
    }
    let t = String::from_str(target);
    let ghost mut gc: Result<u8, EcError> = Ok(0);
    let port: i16 = if t == String::from_str("off") {
        OVERRIDE_OFF
    } else if t == String::from_str("none") {
        OVERRIDE_DONT_CHARGE
    } else {
        match parse_u8(target) {
            None => {
                let mut m = String::new();
                push_str(&mut m, "expected a port index, `off`, or `none`, got `");
                push_str(&mut m, target);
                push_str(&mut m, "`");
                assert(m@ =~= bad_target_text(target@));
                return (None, Err(ToolError::Message(m)));
            },
            Some(p) => {
                let c = charge_port_count(xfer);
                proof {
                    gc = c;
                }
                assert(count_answered(*xfer, gc));
                match c {
                    Err(e) => {
                        return (None, Err(ToolError::Ec(e)));
                    },
                    Ok(count) => {
                        if let Err(e) = check_port(p, count) {
                            assert((p as i16) as u8 == p);
                            return (None, Err(e));
                        }
                    },
                }
                p as i16
            },
        }
    };
    let warn = if port == OVERRIDE_DONT_CHARGE {
        let o = active_charge_port(xfer);
        let ghost gw = o;
        let w = match o {
            Ok(Some(a)) => Some(a),
            _ => None,
        };
        assert(active_answered(*xfer, gw) && w == match gw {
            Ok(Some(a)) => Some(a),
            _ => None,
        });
        w
    } else {
        None
    };
    let so = set_charge_override(xfer, port);
    let ghost gso = so;
    let r = match so {
        Ok(()) => (warn, Ok(port)),
        Err(e) => (warn, Err(ToolError::Ec(e))),
    };
    assert(answered::<PdChargePortOverride, F>(
        *xfer,
        EcParamsChargePortOverride { override_port: port },
        gso,
    ));
    assert(override_applied(*xfer, port, r));
    proof {
        if !is_keyword(target@) {
            assert(count_answered(*xfer, gc));
        }
    }
    r
}

/// `v` in decimal, with a `-` when negative.
pub open spec fn int_text(v: int) -> Seq<char> {
    if v < 0 {
        "-"@ + decimal((-v) as nat)
    } else {
        decimal(v as nat)
    }
}

/// The warning that the port about to lose its charger is charging the
/// system right now.
pub open spec fn active_warning_text(port: u8) -> Seq<char> {
    "[WARN]: Port "@ + decimal(port as nat) + " is charging this system right now."@
}

/// The warning that the port about to lose its charger is charging the
/// system right now.
pub fn active_warning(port: u8) -> (r: String)
    ensures
        r@ == active_warning_text(port),
{
    proof {
        reveal_strlit("[WARN]: Port ");
        reveal_strlit(" is charging this system right now.");
    }
    let mut s = String::new();
    push_str(&mut s, "[WARN]: Port ");
    push_decimal(&mut s, port as u64);
    push_str(&mut s, " is charging this system right now.");
    assert(s@ =~= active_warning_text(port));
    s
}

/// What is said once the override `port` is applied: the EC chooses again,
/// charging is off everywhere, or charging is forced to a port; in the last
/// two cases, how to undo it.
pub open spec fn override_text(port: i16) -> Seq<Seq<char>> {
    if port == OVERRIDE_OFF {
        seq!["[INFO]: Charge port selection handed back to the EC."@]
    } else if port == OVERRIDE_DONT_CHARGE {
        seq![
            "[INFO]: Charging disabled on all ports."@,
            "[INFO]: Restore with `fw-pdctl charge-override off`."@
        ]
    } else {
        seq![
            "[INFO]: Charging forced to port "@ + int_text(port as int) + "."@,
            "[INFO]: Restore with `fw-pdctl charge-override off`."@
        ]
    }
}

/// What is said once the override `port` is applied, see
/// [`override_text`].
pub fn override_messages(port: i16) -> (r: Vec<String>)
    ensures
        r@.map_values(|l: String| l@) == override_text(port),
{
    proof {
        reveal_strlit("[INFO]: Charge port selection handed back to the EC.");
        reveal_strlit("[INFO]: Charging disabled on all ports.");
        reveal_strlit("[INFO]: Restore with `fw-pdctl charge-override off`.");
        reveal_strlit("[INFO]: Charging forced to port ");
        reveal_strlit("-");
        reveal_strlit(".");
    }
    let mut v: Vec<String> = Vec::new();
    if port == OVERRIDE_OFF {
        v.push(String::from_str("[INFO]: Charge port selection handed back to the EC."));
    } else if port == OVERRIDE_DONT_CHARGE {
        v.push(String::from_str("[INFO]: Charging disabled on all ports."));
        v.push(String::from_str("[INFO]: Restore with `fw-pdctl charge-override off`."));
    } else {
        let mut m = String::new();
        push_str(&mut m, "[INFO]: Charging forced to port ");
        if port < 0 {
            push_str(&mut m, "-");
            push_decimal(&mut m, (-(port as i32)) as u64);
        } else {
            push_decimal(&mut m, port as u64);
        }
        push_str(&mut m, ".");
        assert(m@ =~= "[INFO]: Charging forced to port "@ + int_text(port as int) + "."@);
        v.push(m);
        v.push(String::from_str("[INFO]: Restore with `fw-pdctl charge-override off`."));
    }
    assert(v@.map_values(|l: String| l@) =~= override_text(port));
    v
}

} // verus!
