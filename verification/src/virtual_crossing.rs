use vstd::prelude::*;

verus! {

/// How strongly the displayed view is stabilised against deck motion.
#[derive(Debug, Clone, Copy, PartialEq, Eq, Structural)]
pub enum ViewStabilizationMode {
    Off,
    Reduced,
    Strong,
}

impl ViewStabilizationMode {
    /// Machine identifier of the mode.
    pub open spec fn code(self) -> Seq<char> {
        match self {
            ViewStabilizationMode::Off => "none"@,
            ViewStabilizationMode::Reduced => "reduced"@,
            ViewStabilizationMode::Strong => "strong"@,
        }
    }

    pub fn as_str(&self) -> (s: &'static str)
        ensures
            s@ == self.code(),
    {
        match self {
            ViewStabilizationMode::Off => "none",
            ViewStabilizationMode::Reduced => "reduced",
            ViewStabilizationMode::Strong => "strong",
        }
    }
}

/// Distinct stabilisation modes never share a textual form.
pub proof fn lemma_stabilization_codes_distinct(a: ViewStabilizationMode, b: ViewStabilizationMode)
    ensures
        a.code() == b.code() ==> a == b,
{
    reveal_strlit("none");
    reveal_strlit("reduced");
    reveal_strlit("strong");
    if a != b {
        assert(a.code().len() != b.code().len() || a.code()[0] != b.code()[0]);
    }
}

/// Comfort perceived by a pedestrian on the deck, from best to worst.
#[derive(Debug, Clone, Copy, PartialEq, Eq, Structural)]
pub enum ComfortLevel {
    Comfortable,
    SlightlyUncomfortable,
    Uncomfortable,
    VeryUncomfortable,
    Intolerable,
}

impl ComfortLevel {
    /// Machine identifier of the level.
    pub open spec fn code(self) -> Seq<char> {
        match self {
            ComfortLevel::Comfortable => "comfortable"@,
            ComfortLevel::SlightlyUncomfortable => "slightly_uncomfortable"@,
            ComfortLevel::Uncomfortable => "uncomfortable"@,
            ComfortLevel::VeryUncomfortable => "very_uncomfortable"@,
            ComfortLevel::Intolerable => "intolerable"@,
        }
    }

    /// Human-readable name of the level.
    pub open spec fn label(self) -> Seq<char> {
        match self {
            ComfortLevel::Comfortable => "舒适"@,
            ComfortLevel::SlightlyUncomfortable => "轻微不适"@,
            ComfortLevel::Uncomfortable => "不适"@,
            ComfortLevel::VeryUncomfortable => "非常不适"@,
            ComfortLevel::Intolerable => "无法忍受"@,
        }
    }

    pub fn as_str(&self) -> (s: &'static str)
        ensures
            s@ == self.code(),
    {
        match self {
            ComfortLevel::Comfortable => "comfortable",
            ComfortLevel::SlightlyUncomfortable => "slightly_uncomfortable",
            ComfortLevel::Uncomfortable => "uncomfortable",
            ComfortLevel::VeryUncomfortable => "very_uncomfortable",
            ComfortLevel::Intolerable => "intolerable",
        }
    }

    pub fn display_name(&self) -> (s: &'static str)
        ensures
            s@ == self.label(),
    {
        match self {
            ComfortLevel::Comfortable => "舒适",
            ComfortLevel::SlightlyUncomfortable => "轻微不适",
            ComfortLevel::Uncomfortable => "不适",
            ComfortLevel::VeryUncomfortable => "非常不适",
            ComfortLevel::Intolerable => "无法忍受",
        }
    }
}

/// Distinct comfort levels never share a textual form.
pub proof fn lemma_comfort_texts_distinct(a: ComfortLevel, b: ComfortLevel)
    ensures
        a.code() == b.code() ==> a == b,
        a.label() == b.label() ==> a == b,
{
    reveal_strlit("comfortable");
    reveal_strlit("slightly_uncomfortable");
    reveal_strlit("uncomfortable");
    reveal_strlit("very_uncomfortable");
    reveal_strlit("intolerable");
    reveal_strlit("舒适");
    reveal_strlit("轻微不适");
    reveal_strlit("不适");
    reveal_strlit("非常不适");
    reveal_strlit("无法忍受");
    if a != b {
        assert(a.code().len() != b.code().len() || a.code()[0] != b.code()[0]);
        assert(a.label().len() != b.label().len() || a.label()[0] != b.label()[0]);
    }
}

/// Structural danger while crossing, from safest to most dangerous.
#[derive(Debug, Clone, Copy, PartialEq, Eq, Structural)]
pub enum DangerLevel {
    Safe,
    Caution,
    Dangerous,
    Critical,
}

impl DangerLevel {
    /// Machine identifier of the level.
    pub open spec fn code(self) -> Seq<char> {
        match self {
            DangerLevel::Safe => "safe"@,
            DangerLevel::Caution => "caution"@,
            DangerLevel::Dangerous => "dangerous"@,
            DangerLevel::Critical => "critical"@,
        }
    }

    /// Human-readable name of the level.
    pub open spec fn label(self) -> Seq<char> {
        match self {
            DangerLevel::Safe => "安全"@,
            DangerLevel::Caution => "注意"@,
            DangerLevel::Dangerous => "危险"@,
            DangerLevel::Critical => "极危"@,
        }
    }

    pub fn as_str(&self) -> (s: &'static str)
        ensures
            s@ == self.code(),
    {
        match self {
            DangerLevel::Safe => "safe",
            DangerLevel::Caution => "caution",
            DangerLevel::Dangerous => "dangerous",
            DangerLevel::Critical => "critical",
        }
    }

    pub fn display_name(&self) -> (s: &'static str)
        ensures
            s@ == self.label(),
    {
        match self {
            DangerLevel::Safe => "安全",
            DangerLevel::Caution => "注意",
            DangerLevel::Dangerous => "危险",
            DangerLevel::Critical => "极危",
        }
    }
}

/// Distinct danger levels never share a textual form.
pub proof fn lemma_danger_texts_distinct(a: DangerLevel, b: DangerLevel)
    ensures
        a.code() == b.code() ==> a == b,
        a.label() == b.label() ==> a == b,
{
    reveal_strlit("safe");
    reveal_strlit("caution");
    reveal_strlit("dangerous");
    reveal_strlit("critical");
    reveal_strlit("安全");
    reveal_strlit("注意");
    reveal_strlit("危险");
    reveal_strlit("极危");
    if a != b {
        assert(a.code().len() != b.code().len() || a.code()[0] != b.code()[0]);
        assert(a.label().len() != b.label().len() || a.label()[0] != b.label()[0]);
    }
}

} // verus!
