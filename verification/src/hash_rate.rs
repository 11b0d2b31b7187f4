use vstd::prelude::*;

verus! {

/// The unit a hash rate is displayed in, from plain hashes per second up by
/// factors of a thousand.
#[derive(Debug, Clone, Copy, PartialEq, Eq, Structural)]
pub enum HashRateUnitFormat {
    Hs,
    KHs,
    MHs,
    GHs,
    THs,
    PHs,
    EHs,
    ZHs,
    YHs,
}

/// The display text of a unit.
pub open spec fn unit_text_spec(u: HashRateUnitFormat) -> Seq<char> {
    match u {
        HashRateUnitFormat::Hs => "H/s"@,
        HashRateUnitFormat::KHs => "KH/s"@,
        HashRateUnitFormat::MHs => "MH/s"@,
        HashRateUnitFormat::GHs => "GH/s"@,
        HashRateUnitFormat::THs => "TH/s"@,
        HashRateUnitFormat::PHs => "PH/s"@,
        HashRateUnitFormat::EHs => "EH/s"@,
        HashRateUnitFormat::ZHs => "ZH/s"@,
        HashRateUnitFormat::YHs => "YH/s"@,
    }
}

impl HashRateUnitFormat {
    /// The display text of this unit.
    pub fn unit_text(&self) -> (r: &'static str)
        ensures
            r@ == unit_text_spec(*self),
    {
        match self {
            HashRateUnitFormat::Hs => "H/s",
            HashRateUnitFormat::KHs => "KH/s",
            HashRateUnitFormat::MHs => "MH/s",
            HashRateUnitFormat::GHs => "GH/s",
            HashRateUnitFormat::THs => "TH/s",
            HashRateUnitFormat::PHs => "PH/s",
            HashRateUnitFormat::EHs => "EH/s",
            HashRateUnitFormat::ZHs => "ZH/s",
            HashRateUnitFormat::YHs => "YH/s",
        }
    }
}

/// A formatted hash rate: the rendered value, the unit's display text, and
/// the unit itself.
pub struct GTHashRate {
    pub value: String,
    pub unit_str: String,
    pub unit_flag: HashRateUnitFormat,
}

impl GTHashRate {
    /// Packs a rendered value with its unit.
    pub fn new(value: String, unit_str: String, unit_flag: HashRateUnitFormat) -> (r: Self)
        ensures
            r.value == value,
            r.unit_str == unit_str,
            r.unit_flag == unit_flag,
    {
        GTHashRate { value, unit_str, unit_flag }
    }
}

} // verus!
