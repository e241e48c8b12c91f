//! System power-source information (`EC_CMD_POWER_INFO` v1) and its report.
use vstd::prelude::*;

use crate::text::{decimal, has_part, lemma_has_part_extend, lemma_has_part_last, push_decimal, push_str};
use vstd::string::StringExecFns;

verus! {

/// Intel-specific battery power items (dynamic battery power technology).
#[derive(Clone, Copy, Debug, PartialEq, Eq, Structural)]
pub struct IntelBattDbpt {
    /// Battery's level of DBPT support: 0 or 2.
    pub support_level: u8,
    /// Maximum peak power from the battery over 10 ms, in watts; 0 when DBPT
    /// is not supported.
    pub max_peak_power: u8,
    /// Maximum sustained power from the battery, in watts; 0 when DBPT is
    /// not supported.
    pub sus_peak_power: u8,
}

impl Default for IntelBattDbpt {
    fn default() -> (r: Self)
        ensures
            r == (IntelBattDbpt { support_level: 0, max_peak_power: 0, sus_peak_power: 0 }),
    {
        IntelBattDbpt { support_level: 0, max_peak_power: 0, sus_peak_power: 0 }
    }
}

/// The DBPT items as text: `Unsupported` at support level 0.
pub open spec fn dbpt_text(d: IntelBattDbpt) -> Seq<char> {
    if d.support_level != 0 {
        "Level "@ + decimal(d.support_level as nat) + "; 10ms Peak @ "@ + decimal(
            d.max_peak_power as nat,
        ) + " W, "@ + decimal(d.sus_peak_power as nat) + " W Sus"@
    } else {
        "Unsupported"@
    }
}

impl IntelBattDbpt {
    /// The DBPT items as text, see [`dbpt_text`].
    pub fn describe(&self) -> (r: String)
        ensures
            r@ == dbpt_text(*self),
    {
        proof {
            reveal_strlit("Level ");
            reveal_strlit("; 10ms Peak @ ");
            reveal_strlit(" W, ");
            reveal_strlit(" W Sus");
            reveal_strlit("Unsupported");
        }
        if self.support_level != 0 {
            let mut s = String::new();
            push_str(&mut s, "Level ");
            push_decimal(&mut s, self.support_level as u64);
            push_str(&mut s, "; 10ms Peak @ ");
            push_decimal(&mut s, self.max_peak_power as u64);
            push_str(&mut s, " W, ");
            push_decimal(&mut s, self.sus_peak_power as u64);
            push_str(&mut s, " W Sus");
            assert(s@ =~= dbpt_text(*self));
            s
        } else {
            String::from_str("Unsupported")
        }
    }
}

/// Which source the system is running from.
#[derive(Clone, Copy, Debug, PartialEq, Eq, Structural)]
pub enum SystemPowerSource {
    /// Not established yet, or no presence signals are available.
    Unknown,
    /// Battery alone.
    Battery,
    /// A/C alone.
    AC,
    /// A/C and battery.
    ACBattery,
}

impl Default for SystemPowerSource {
    fn default() -> (r: Self)
        ensures
            r == SystemPowerSource::Unknown,
    {
        SystemPowerSource::Unknown
    }
}

/// The source's display name.
pub open spec fn power_source_name(s: SystemPowerSource) -> Seq<char> {
    match s {
        SystemPowerSource::Unknown => "Unknown"@,
        SystemPowerSource::Battery => "Battery"@,
        SystemPowerSource::AC => "AC"@,
        SystemPowerSource::ACBattery => "ACBattery"@,
    }
}

impl SystemPowerSource {
    /// The source's display name.
    pub fn name(&self) -> (r: &'static str)
        ensures
            r@ == power_source_name(*self),
    {
        proof {
            reveal_strlit("Unknown");
            reveal_strlit("Battery");
            reveal_strlit("AC");
            reveal_strlit("ACBattery");
        }
        match self {
            SystemPowerSource::Unknown => "Unknown",
            SystemPowerSource::Battery => "Battery",
            SystemPowerSource::AC => "AC",
            SystemPowerSource::ACBattery => "ACBattery",
        }
    }
}

/// `struct ec_response_power_info_v1`.
#[derive(Clone, Copy, Debug, PartialEq, Eq, Structural)]
pub struct EcResponsePowerInfoV1 {
    /// The source the system runs from.
    pub system_power_source: SystemPowerSource,
    /// Battery state of charge, 0-100, 0 if not present.
    pub battery_soc: u8,
    /// AC adapter 100% rating, watts.
    pub ac_adapter_100pct: u8,
    /// AC adapter 10 ms rating, watts.
    pub ac_adapter_10ms: u8,
    /// Battery 1C rating, derated.
    pub battery_1cd: u8,
    /// Rest of platform average, watts.
    pub rop_avg: u8,
    /// Rest of platform peak, watts.
    pub rop_peak: u8,
    /// Nominal charger efficiency, percent.
    pub nominal_charger_eff: u8,
    /// Rest of platform VR average efficiency, percent.
    pub rop_avg_eff: u8,
    /// Rest of platform VR peak efficiency, percent.
    pub rop_peak_eff: u8,
    /// SoC VR efficiency at average level, percent.
    pub soc_avg_eff: u8,
    /// SoC VR efficiency at peak level, percent.
    pub soc_peak_eff: u8,
    /// Intel-specific items.
    pub intel: IntelBattDbpt,
}

impl Default for EcResponsePowerInfoV1 {
    fn default() -> (r: Self)
        ensures
            r == (EcResponsePowerInfoV1 {
                system_power_source: SystemPowerSource::Unknown,
                battery_soc: 0,
                ac_adapter_100pct: 0,
                ac_adapter_10ms: 0,
                battery_1cd: 0,
                rop_avg: 0,
                rop_peak: 0,
                nominal_charger_eff: 0,
                rop_avg_eff: 0,
                rop_peak_eff: 0,
                soc_avg_eff: 0,
                soc_peak_eff: 0,
                intel: IntelBattDbpt { support_level: 0, max_peak_power: 0, sus_peak_power: 0 },
            }),
    {
        EcResponsePowerInfoV1 {
            system_power_source: SystemPowerSource::default(),
            battery_soc: 0,
            ac_adapter_100pct: 0,
            ac_adapter_10ms: 0,
            battery_1cd: 0,
            rop_avg: 0,
            rop_peak: 0,
            nominal_charger_eff: 0,
            rop_avg_eff: 0,
            rop_peak_eff: 0,
            soc_avg_eff: 0,
            soc_peak_eff: 0,
            intel: IntelBattDbpt::default(),
        }
    }
}

/// A report line: `label`, the value in decimal, `unit` and a newline.
pub open spec fn value_line(label: Seq<char>, v: u8, unit: Seq<char>) -> Seq<char> {
    label + decimal(v as nat) + unit + "\n"@
}

/// The power-source report, one line per item.
pub open spec fn power_info_text(p: EcResponsePowerInfoV1) -> Seq<char> {
    "---- System Power Source Information ----\n"@
        + "Power Source:         "@ + power_source_name(p.system_power_source) + "\n"@
        + value_line("Battery SoC:          "@, p.battery_soc, "%"@)
        + value_line("AC Adapter (100%):    "@, p.ac_adapter_100pct, " W"@)
        + value_line("AC Adapter (10ms):    "@, p.ac_adapter_10ms, " W"@)
        + value_line("Battery 1C Derated:   "@, p.battery_1cd, ""@)
        + value_line("ROP Average:          "@, p.rop_avg, " W"@)
        + value_line("ROP Peak:             "@, p.rop_peak, " W"@)
        + value_line("Nominal Charger Eff:  "@, p.nominal_charger_eff, "%"@)
        + value_line("ROP VR Avg Eff:       "@, p.rop_avg_eff, "%"@)
        + value_line("ROP VR Peak Eff:      "@, p.rop_peak_eff, "%"@)
        + value_line("SoC VR Avg Eff:       "@, p.soc_avg_eff, "%"@)
        + value_line("SoC VR Peak Eff:      "@, p.soc_peak_eff, "%"@)
        + "Intel DBPT:           "@ + dbpt_text(p.intel) + "\n"@
}

/// Each line of the power-source report carries the field its label names,
/// in decimal, with its unit.
pub proof fn lemma_power_info_lines(p: EcResponsePowerInfoV1)
    ensures
        has_part(power_info_text(p), "Battery SoC:          "@ + decimal(p.battery_soc as nat) + "%"@ + "\n"@),
        has_part(power_info_text(p), "AC Adapter (100%):    "@ + decimal(p.ac_adapter_100pct as nat) + " W"@ + "\n"@),
        has_part(power_info_text(p), "AC Adapter (10ms):    "@ + decimal(p.ac_adapter_10ms as nat) + " W"@ + "\n"@),
        has_part(power_info_text(p), "Battery 1C Derated:   "@ + decimal(p.battery_1cd as nat) + ""@ + "\n"@),
        has_part(power_info_text(p), "ROP Average:          "@ + decimal(p.rop_avg as nat) + " W"@ + "\n"@),
        has_part(power_info_text(p), "ROP Peak:             "@ + decimal(p.rop_peak as nat) + " W"@ + "\n"@),
        has_part(power_info_text(p), "Nominal Charger Eff:  "@ + decimal(p.nominal_charger_eff as nat) + "%"@ + "\n"@),
        has_part(power_info_text(p), "ROP VR Avg Eff:       "@ + decimal(p.rop_avg_eff as nat) + "%"@ + "\n"@),
        has_part(power_info_text(p), "ROP VR Peak Eff:      "@ + decimal(p.rop_peak_eff as nat) + "%"@ + "\n"@),
        has_part(power_info_text(p), "SoC VR Avg Eff:       "@ + decimal(p.soc_avg_eff as nat) + "%"@ + "\n"@),
        has_part(power_info_text(p), "SoC VR Peak Eff:      "@ + decimal(p.soc_peak_eff as nat) + "%"@ + "\n"@),
        has_part(power_info_text(p), "Intel DBPT:           "@ + dbpt_text(p.intel) + "\n"@),
{
    broadcast use lemma_has_part_last, lemma_has_part_extend;

    let t = power_info_text(p);
    let last = "Intel DBPT:           "@ + dbpt_text(p.intel) + "\n"@;
    assert(t =~= t.subrange(0, t.len() - last.len()) + last + Seq::<char>::empty());
}

/// Appends a report line for `v`.
fn push_value_line(s: &mut String, label: &str, v: u8, unit: &str)
    ensures
        final(s)@ == old(s)@ + value_line(label@, v, unit@),
{
    proof {
        reveal_strlit("\n");
    }
    push_str(s, label);
    push_decimal(s, v as u64);
    push_str(s, unit);
    push_str(s, "\n");
    assert(s@ =~= old(s)@ + value_line(label@, v, unit@));
}

impl EcResponsePowerInfoV1 {
    /// The power-source report, see [`power_info_text`].
    pub fn describe(&self) -> (r: String)
        ensures
            r@ == power_info_text(*self),
    {
        proof {
            reveal_strlit("---- System Power Source Information ----\n");
            reveal_strlit("Power Source:         ");
            reveal_strlit("Intel DBPT:           ");
            reveal_strlit("\n");
        }
        let mut s = String::new();
        push_str(&mut s, "---- System Power Source Information ----\n");
        push_str(&mut s, "Power Source:         ");
        push_str(&mut s, self.system_power_source.name());
        push_str(&mut s, "\n");
        push_value_line(&mut s, "Battery SoC:          ", self.battery_soc, "%");
        push_value_line(&mut s, "AC Adapter (100%):    ", self.ac_adapter_100pct, " W");
        push_value_line(&mut s, "AC Adapter (10ms):    ", self.ac_adapter_10ms, " W");
        push_value_line(&mut s, "Battery 1C Derated:   ", self.battery_1cd, "");
        push_value_line(&mut s, "ROP Average:          ", self.rop_avg, " W");
        push_value_line(&mut s, "ROP Peak:             ", self.rop_peak, " W");
        push_value_line(&mut s, "Nominal Charger Eff:  ", self.nominal_charger_eff, "%");
        push_value_line(&mut s, "ROP VR Avg Eff:       ", self.rop_avg_eff, "%");
        push_value_line(&mut s, "ROP VR Peak Eff:      ", self.rop_peak_eff, "%");
        push_value_line(&mut s, "SoC VR Avg Eff:       ", self.soc_avg_eff, "%");
        push_value_line(&mut s, "SoC VR Peak Eff:      ", self.soc_peak_eff, "%");
        let dbpt = self.intel.describe();
        push_str(&mut s, "Intel DBPT:           ");
        push_str(&mut s, dbpt.as_str());
        push_str(&mut s, "\n");
        assert(s@ =~= power_info_text(*self));
        s
    }
}

} // verus!
