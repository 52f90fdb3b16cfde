use vstd::prelude::*;

verus! {

/// Traditional wind-resistance measures for a suspension bridge.
#[derive(Debug, Clone, Copy, PartialEq, Eq, Structural)]
pub enum WindResistantMeasure {
    WindCable,
    Ballast,
    WindCableAndBallast,
}

impl WindResistantMeasure {
    /// Machine identifier of the measure.
    pub open spec fn code(self) -> Seq<char> {
        match self {
            WindResistantMeasure::WindCable => "wind_cable"@,
            WindResistantMeasure::Ballast => "ballast"@,
            WindResistantMeasure::WindCableAndBallast => "wind_cable_and_ballast"@,
        }
    }

    /// Human-readable name of the measure.
    pub open spec fn label(self) -> Seq<char> {
        match self {
            WindResistantMeasure::WindCable => "风缆"@,
            WindResistantMeasure::Ballast => "压重"@,
            WindResistantMeasure::WindCableAndBallast => "风缆+压重"@,
        }
    }

    /// Every variant, in declaration order.
    pub open spec fn catalogue() -> Seq<WindResistantMeasure> {
        seq![WindResistantMeasure::WindCable, WindResistantMeasure::Ballast, WindResistantMeasure::WindCableAndBallast]
    }

    pub fn all() -> (v: Vec<WindResistantMeasure>)
        ensures
            v@ == Self::catalogue(),
    {
        vec![WindResistantMeasure::WindCable, WindResistantMeasure::Ballast, WindResistantMeasure::WindCableAndBallast]
    }

    pub fn as_str(&self) -> (s: &'static str)
        ensures
            s@ == self.code(),
    {
        match self {
            WindResistantMeasure::WindCable => "wind_cable",
            WindResistantMeasure::Ballast => "ballast",
            WindResistantMeasure::WindCableAndBallast => "wind_cable_and_ballast",
        }
    }

    pub fn display_name(&self) -> (s: &'static str)
        ensures
            s@ == self.label(),
    {
        match self {
            WindResistantMeasure::WindCable => "风缆",
            WindResistantMeasure::Ballast => "压重",
            WindResistantMeasure::WindCableAndBallast => "风缆+压重",
        }
    }
}

/// `all` lists every measure exactly once.
pub proof fn lemma_measure_catalogue_complete(x: WindResistantMeasure)
    ensures
        WindResistantMeasure::catalogue().contains(x),
        WindResistantMeasure::catalogue().len() == 3,
        WindResistantMeasure::catalogue().no_duplicates(),
{
    let c = WindResistantMeasure::catalogue();
    match x {
        WindResistantMeasure::WindCable => assert(c[0] == x),
        WindResistantMeasure::Ballast => assert(c[1] == x),
        WindResistantMeasure::WindCableAndBallast => assert(c[2] == x),
    }
}

/// Distinct measures never share a textual form.
pub proof fn lemma_measure_texts_distinct(a: WindResistantMeasure, b: WindResistantMeasure)
    ensures
        a.code() == b.code() ==> a == b,
        a.label() == b.label() ==> a == b,
{
    reveal_strlit("wind_cable");
    reveal_strlit("ballast");
    reveal_strlit("wind_cable_and_ballast");
    reveal_strlit("风缆");
    reveal_strlit("压重");
    reveal_strlit("风缆+压重");
    if a != b {
        assert(a.code().len() != b.code().len() || a.code()[0] != b.code()[0]);
        assert(a.label().len() != b.label().len() || a.label()[0] != b.label()[0]);
    }
}

} // verus!
