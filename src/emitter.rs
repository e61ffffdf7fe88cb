//! The avatar parameters one heart-rate sample maps to, sent together as one
//! OSC bundle, and the text mirrored to the file sink.

use vstd::prelude::*;
use crate::config::Config;

verus! {

/// Ceiling of the `Normalised` parameter and of the integer `HR` parameter.
pub const AVATAR_HR_CAP: u8 = 240;

/// The five avatar parameters, in the order they appear in a bundle.
#[derive(Clone, Copy, Debug, PartialEq, Eq, Structural)]
pub enum AvatarParam {
    HrConnected,
    IsHrActive,
    HrPercent,
    Normalised,
    Hr,
}

pub open spec fn param_address(p: AvatarParam) -> Seq<char> {
    match p {
        AvatarParam::HrConnected => "/avatar/parameters/hr_connected"@,
        AvatarParam::IsHrActive => "/avatar/parameters/isHRActive"@,
        AvatarParam::HrPercent => "/avatar/parameters/hr_percent"@,
        AvatarParam::Normalised => "/avatar/parameters/VRCOSC/Heartrate/Normalised"@,
        AvatarParam::Hr => "/avatar/parameters/HR"@,
    }
}

impl AvatarParam {
    /// The OSC address the parameter is sent to.
    pub fn address(&self) -> (r: &'static str)
        ensures
            r@ == param_address(*self),
    {
        match self {
            AvatarParam::HrConnected => "/avatar/parameters/hr_connected",
            AvatarParam::IsHrActive => "/avatar/parameters/isHRActive",
            AvatarParam::HrPercent => "/avatar/parameters/hr_percent",
            AvatarParam::Normalised => "/avatar/parameters/VRCOSC/Heartrate/Normalised",
            AvatarParam::Hr => "/avatar/parameters/HR",
        }
    }
}

/// A typed OSC argument. A float parameter is carried as the exact fraction
/// `num / den`; the sender turns it into a 32-bit float.
#[derive(Clone, Copy, Debug, PartialEq, Eq, Structural)]
pub enum OscArg {
    Bool(bool),
    Ratio { num: u16, den: u16 },
    Int(i32),
}

/// One addressed message of a bundle.
#[derive(Clone, Copy, Debug, PartialEq, Eq, Structural)]
pub struct ParamUpdate {
    pub param: AvatarParam,
    pub arg: OscArg,
}

/// OSC time tag of every bundle: the fixed "immediately" marker
/// (0 seconds, fraction 1), never the wall clock.
pub const TIMETAG_SECONDS: u32 = 0;
pub const TIMETAG_FRACTIONAL: u32 = 1;

pub open spec fn min_int(a: int, b: int) -> int {
    if a < b {
        a
    } else {
        b
    }
}

/// The messages one sample yields, for a `hr_percent` ceiling `ceiling`.
pub open spec fn updates_for(hr: u8, ceiling: u16) -> Seq<ParamUpdate> {
    seq![
        ParamUpdate { param: AvatarParam::HrConnected, arg: OscArg::Bool(hr > 0) },
        ParamUpdate { param: AvatarParam::IsHrActive, arg: OscArg::Bool(hr > 0) },
        ParamUpdate {
            param: AvatarParam::HrPercent,
            arg: OscArg::Ratio { num: min_int(hr as int, ceiling as int) as u16, den: ceiling },
        },
        ParamUpdate {
            param: AvatarParam::Normalised,
            arg: OscArg::Ratio { num: min_int(hr as int, 240) as u16, den: 240 },
        },
        ParamUpdate { param: AvatarParam::Hr, arg: OscArg::Int(min_int(hr as int, 240) as i32) },
    ]
}

/// Everything a bundle carries: its time tag and its messages, in order.
pub struct BundlePlan {
    pub timetag_seconds: u32,
    pub timetag_fractional: u32,
    pub updates: Vec<ParamUpdate>,
}

impl BundlePlan {
    pub open spec fn view_spec(&self) -> (u32, u32, Seq<ParamUpdate>) {
        (self.timetag_seconds, self.timetag_fractional, self.updates@)
    }
}

pub open spec fn bundle_for(hr: u8, ceiling: u16) -> (u32, u32, Seq<ParamUpdate>) {
    (TIMETAG_SECONDS, TIMETAG_FRACTIONAL, updates_for(hr, ceiling))
}

/// Maps one sample to the five avatar parameters of a bundle.
pub fn bundle_plan(heart_rate: u8, config: &Config) -> (r: BundlePlan)
    requires
        config.wf(),
    ensures
        r.view_spec() == bundle_for(heart_rate, config.max_heart_rate_for_percent),
{
    let active = heart_rate > 0;
    let ceiling = config.max_heart_rate_for_percent;
    let hr = heart_rate as u16;
    let for_percent: u16 = if hr < ceiling { hr } else { ceiling };
    let capped: u8 = if heart_rate < AVATAR_HR_CAP { heart_rate } else { AVATAR_HR_CAP };
    let mut updates: Vec<ParamUpdate> = Vec::new();
    updates.push(ParamUpdate { param: AvatarParam::HrConnected, arg: OscArg::Bool(active) });
    updates.push(ParamUpdate { param: AvatarParam::IsHrActive, arg: OscArg::Bool(active) });
    updates.push(
        ParamUpdate {
            param: AvatarParam::HrPercent,
            arg: OscArg::Ratio { num: for_percent, den: ceiling },
        },
    );
    updates.push(
        ParamUpdate {
            param: AvatarParam::Normalised,
            arg: OscArg::Ratio { num: capped as u16, den: AVATAR_HR_CAP as u16 },
        },
    );
    updates.push(ParamUpdate { param: AvatarParam::Hr, arg: OscArg::Int(capped as i32) });
    let r = BundlePlan {
        timetag_seconds: TIMETAG_SECONDS,
        timetag_fractional: TIMETAG_FRACTIONAL,
        updates,
    };
    assert(r.updates@ =~= updates_for(heart_rate, ceiling));
    r
}

/// Both presence flags say whether the sample is non-zero.
pub proof fn lemma_presence_flags(hr: u8, ceiling: u16)
    ensures
        updates_for(hr, ceiling)[0].arg == OscArg::Bool(hr != 0),
        updates_for(hr, ceiling)[1].arg == OscArg::Bool(hr != 0),
        updates_for(hr, ceiling)[0].param == AvatarParam::HrConnected,
        updates_for(hr, ceiling)[1].param == AvatarParam::IsHrActive,
{
}

/// `hr_percent` is `min(hr, ceiling) / ceiling`, `Normalised` is
/// `min(hr, 240) / 240` and `HR` is the integer `min(hr, 240)`.
pub proof fn lemma_scaled_values(hr: u8, ceiling: u16)
    requires
        ceiling > 0,
    ensures
        updates_for(hr, ceiling)[2] == (ParamUpdate {
            param: AvatarParam::HrPercent,
            arg: OscArg::Ratio { num: min_int(hr as int, ceiling as int) as u16, den: ceiling },
        }),
        updates_for(hr, ceiling)[3] == (ParamUpdate {
            param: AvatarParam::Normalised,
            arg: OscArg::Ratio { num: min_int(hr as int, 240) as u16, den: 240 },
        }),
        updates_for(hr, ceiling)[4] == (ParamUpdate {
            param: AvatarParam::Hr,
            arg: OscArg::Int(min_int(hr as int, 240) as i32),
        }),
        min_int(hr as int, ceiling as int) <= ceiling,
        min_int(hr as int, 240) <= 240,
{
}

/// Two bundles built from the same sample under the same settings are the
/// same, time tag included: nothing in a bundle depends on when it is built.
pub proof fn lemma_bundle_repeatable(hr1: u8, hr2: u8, ceiling: u16)
    requires
        hr1 == hr2,
    ensures
        bundle_for(hr1, ceiling) == bundle_for(hr2, ceiling),
        bundle_for(hr1, ceiling).0 == TIMETAG_SECONDS,
        bundle_for(hr1, ceiling).1 == TIMETAG_FRACTIONAL,
{
}

/// The decimal digits of `v`, most significant first, without leading zeros.
pub open spec fn decimal_digits(v: nat) -> Seq<u8>
    decreases v,
{
    if v < 10 {
        seq![(48 + v) as u8]
    } else {
        decimal_digits(v / 10).push((48 + v % 10) as u8)
    }
}

/// The text written to the file sink for a sample: its decimal ASCII form.
pub fn file_text(heart_rate: u8) -> (r: Vec<u8>)
    ensures
        r@ == decimal_digits(heart_rate as nat),
{
    let mut r: Vec<u8> = Vec::new();
    if heart_rate >= 100 {
        r.push(48 + heart_rate / 100);
    }
    if heart_rate >= 10 {
        r.push(48 + (heart_rate / 10) % 10);
    }
    r.push(48 + heart_rate % 10);
    proof {
        let v = heart_rate as nat;
        if v >= 10 {
            assert(decimal_digits(v) == decimal_digits(v / 10).push((48 + v % 10) as u8));
            if v / 10 >= 10 {
                assert(decimal_digits(v / 10) == decimal_digits(v / 100).push(
                    (48 + (v / 10) % 10) as u8,
                )) by {
                    assert(v / 10 / 10 == v / 100);
                }
                assert(decimal_digits(v / 100) == seq![(48 + v / 100) as u8]);
            }
        }
        assert(r@ =~= decimal_digits(v));
    }
    r
}

} // verus!
