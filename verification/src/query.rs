//! Picking the port the power is coming from, and the `key=value` summary
//! the desktop widget parses.
//!
//! The EC marks exactly one port `Sink` once it has picked where to draw
//! from. Any other port with a charger attached reports `SinkNotCharging`,
//! so taking the first sink-ish port found reports the wrong one whenever two
//! chargers are plugged in. A `SinkNotCharging` port is still worth falling
//! back to (without it a plugged-in but unselected charger would show as no
//! charger at all) but it never outranks the real one.
//!
//! The ports are asked about one at a time; [`select_step`] is the decision
//! taken after each answer, and says when asking further is pointless.
use vstd::prelude::*;

use crate::dto::PortPdInfoDto;
use crate::text::{decimal, push_decimal, push_str};

verus! {

/// `USB_PD_PORT_POWER_SINK`: the port the EC selected to charge from.
pub const ROLE_SINK: u8 = 2;

/// `USB_PD_PORT_POWER_SINK_NOT_CHARGING`: a charger is attached, but the EC
/// chose a different port to draw from.
pub const ROLE_SINK_NOT_CHARGING: u8 = 3;

/// Rank of [`ROLE_SINK`]; nothing beats it.
pub const RANK_CHARGING: u8 = 2;

/// How good a candidate a port in `role` is for where the power comes from.
pub open spec fn spec_rank(role: u8) -> u8 {
    if role == ROLE_SINK {
        RANK_CHARGING
    } else if role == ROLE_SINK_NOT_CHARGING {
        1
    } else {
        0
    }
}

/// How good a candidate a port in `role` is for where the power comes from:
/// 2 for the selected sink, 1 for a sink that is not charging, 0 otherwise.
pub fn rank(role: u8) -> (r: u8)
    ensures
        r == spec_rank(role),
{
    match role {
        ROLE_SINK => RANK_CHARGING,
        ROLE_SINK_NOT_CHARGING => 1,
        _ => 0,
    }
}

/// The role of the chosen port, if there is one.
pub open spec fn chosen_role(best: Option<(u8, PortPdInfoDto)>) -> u8 {
    match best {
        Some((_, chosen)) => chosen.role,
        None => 0,
    }
}

/// The decision after port `i` answered `info`, given the best port so far:
/// the new best, and whether asking about further ports is pointless.
///
/// A port of rank 0 is passed over. A port replaces the best so far when
/// there is none or it ranks strictly higher, so among equally ranked ports
/// the lowest index wins. Once the selected sink is found, nothing can
/// outrank it.
pub open spec fn spec_select_step(
    best: Option<(u8, PortPdInfoDto)>,
    i: u8,
    info: PortPdInfoDto,
) -> (Option<(u8, PortPdInfoDto)>, bool) {
    if spec_rank(info.role) == 0 {
        (best, false)
    } else if best is None || spec_rank(info.role) > spec_rank(chosen_role(best)) {
        (Some((i, info)), spec_rank(info.role) == RANK_CHARGING)
    } else {
        (best, false)
    }
}

/// The decision after port `i` answered `info`, see [`spec_select_step`].
pub fn select_step(best: Option<(u8, PortPdInfoDto)>, i: u8, info: PortPdInfoDto) -> (r: (
    Option<(u8, PortPdInfoDto)>,
    bool,
))
    ensures
        r == spec_select_step(best, i, info),
{
    let r = rank(info.role);
    if r == 0 {
        return (best, false);
    }
    let replace = match best {
        None => true,
        Some((_, chosen)) => r > rank(chosen.role),
    };
    if replace {
        (Some((i, info)), r == RANK_CHARGING)
    } else {
        (best, false)
    }
}

/// The state after asking about ports `0..n` of `infos` in order, stopping
/// once [`spec_select_step`] says to.
pub open spec fn run_selection(infos: Seq<PortPdInfoDto>, n: nat) -> (
    Option<(u8, PortPdInfoDto)>,
    bool,
)
    decreases n,
{
    if n == 0 {
        (None, false)
    } else {
        let prev = run_selection(infos, (n - 1) as nat);
        if prev.1 {
            prev
        } else {
            spec_select_step(prev.0, (n - 1) as u8, infos[n - 1])
        }
    }
}

/// The first index at or after `k`, below `n`, of a port of rank `r`.
pub open spec fn first_of_rank(infos: Seq<PortPdInfoDto>, r: u8, k: int, n: int) -> Option<int>
    decreases n - k,
{
    if k >= n || k < 0 {
        None
    } else if spec_rank(infos[k].role) == r {
        Some(k)
    } else {
        first_of_rank(infos, r, k + 1, n)
    }
}

/// The port the power comes from among the first `n`: the first selected
/// sink if there is one, otherwise the first sink that is not charging.
pub open spec fn best_port(infos: Seq<PortPdInfoDto>, n: int) -> Option<int> {
    match first_of_rank(infos, RANK_CHARGING, 0, n) {
        Some(i) => Some(i),
        None => first_of_rank(infos, 1, 0, n),
    }
}

proof fn lemma_first_of_rank_step(infos: Seq<PortPdInfoDto>, r: u8, k: int, n: int)
    requires
        0 <= k <= n,
        n < infos.len(),
    ensures
        first_of_rank(infos, r, k, n + 1) == (match first_of_rank(infos, r, k, n) {
            Some(i) => Some(i),
            None => if spec_rank(infos[n].role) == r {
                Some(n)
            } else {
                None
            },
        }),
    decreases n - k,
{
    if k < n && spec_rank(infos[k].role) != r {
        lemma_first_of_rank_step(infos, r, k + 1, n);
    } else if k == n {
        assert(first_of_rank(infos, r, k + 1, n + 1) is None);
    }
}

proof fn lemma_first_of_rank_bounds(infos: Seq<PortPdInfoDto>, r: u8, k: int, n: int)
    requires
        0 <= k,
    ensures
        first_of_rank(infos, r, k, n) matches Some(i) ==> k <= i < n && spec_rank(infos[i].role)
            == r,
    decreases n - k,
{
    if k < n && spec_rank(infos[k].role) != r {
        lemma_first_of_rank_bounds(infos, r, k + 1, n);
    }
}

/// What the run has found after `n` ports: stopped exactly when a selected
/// sink was among them, on the first one; otherwise the first sink that is
/// not charging, if any.
proof fn lemma_run_selection(infos: Seq<PortPdInfoDto>, n: nat)
    requires
        n <= infos.len(),
        infos.len() <= 256,
    ensures
        run_selection(infos, n).1 <==> first_of_rank(infos, RANK_CHARGING, 0, n as int) is Some,
        run_selection(infos, n).0 matches Some((i, info)) ==> best_port(infos, n as int) == Some(
            i as int,
        ) && info == infos[i as int],
        run_selection(infos, n).0 is None ==> best_port(infos, n as int) is None,
    decreases n,
{
    if n > 0 {
        let m = (n - 1) as nat;
        lemma_run_selection(infos, m);
        lemma_first_of_rank_step(infos, RANK_CHARGING, 0, m as int);
        lemma_first_of_rank_step(infos, 1, 0, m as int);
        lemma_first_of_rank_bounds(infos, RANK_CHARGING, 0, m as int);
        lemma_first_of_rank_bounds(infos, 1, 0, m as int);
        let prev = run_selection(infos, m);
        if !prev.1 {
            if let Some((j, chosen)) = prev.0 {
                assert(spec_rank(chosen.role) == 1);
            }
            assert((m as u8) as int == m);
        }
    }
}

/// Asking about every port in order and stopping as [`select_step`] says
/// finds the first selected sink if any port is one, otherwise the first
/// sink that is not charging, and reports that port's own answer.
pub proof fn lemma_selection_finds_best_port(infos: Seq<PortPdInfoDto>)
    requires
        infos.len() <= 256,
    ensures
        run_selection(infos, infos.len()).0 matches Some((i, info)) ==> best_port(
            infos,
            infos.len() as int,
        ) == Some(i as int) && info == infos[i as int],
        run_selection(infos, infos.len()).0 is None ==> best_port(infos, infos.len() as int) is None,
{
    lemma_run_selection(infos, infos.len());
}

/// The summary the widget parses: one `key=value` per line. `port` is the
/// chosen port counted from 1, or `?` when there is none, in which case the
/// electrical values are 0.
pub open spec fn summary_text(best: Option<(u8, PortPdInfoDto)>, batt_state: u8) -> Seq<char> {
    let (port, voltage_max, current_max, max_power) = match best {
        Some((i, info)) => (
            decimal(i as nat + 1),
            info.voltage_max as nat,
            info.current_max as nat,
            info.max_power as nat,
        ),
        None => ("?"@, 0nat, 0nat, 0nat),
    };
    "ok=1\nport="@ + port + "\nvoltage_max="@ + decimal(voltage_max) + "\ncurrent_max="@ + decimal(
        current_max,
    ) + "\nmax_power="@ + decimal(max_power) + "\nbatt_state="@ + decimal(batt_state as nat)
}

/// The summary the widget parses, see [`summary_text`].
pub fn summary(best: Option<(u8, PortPdInfoDto)>, batt_state: u8) -> (r: String)
    ensures
        r@ == summary_text(best, batt_state),
{
    proof {
        reveal_strlit("ok=1\nport=");
        reveal_strlit("?");
        reveal_strlit("\nvoltage_max=");
        reveal_strlit("\ncurrent_max=");
        reveal_strlit("\nmax_power=");
        reveal_strlit("\nbatt_state=");
    }
    let mut s = String::new();
    push_str(&mut s, "ok=1\nport=");
    let (voltage_max, current_max, max_power) = match best {
        Some((i, info)) => {
            push_decimal(&mut s, i as u64 + 1);
            (info.voltage_max, info.current_max, info.max_power)
        },
        None => {
            push_str(&mut s, "?");
            (0u16, 0u16, 0u32)
        },
    };
    push_str(&mut s, "\nvoltage_max=");
    push_decimal(&mut s, voltage_max as u64);
    push_str(&mut s, "\ncurrent_max=");
    push_decimal(&mut s, current_max as u64);
    push_str(&mut s, "\nmax_power=");
    push_decimal(&mut s, max_power as u64);
    push_str(&mut s, "\nbatt_state=");
    push_decimal(&mut s, batt_state as u64);
    assert(s@ =~= summary_text(best, batt_state));
    s
}

} // verus!
