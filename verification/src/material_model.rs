use vstd::prelude::*;

verus! {

/// Cable materials found on ancient suspension bridges.
#[derive(Debug, Clone, Copy, PartialEq, Eq, Structural)]
pub enum CableMaterial {
    Bamboo,
    Rattan,
    IronChain,
}

impl CableMaterial {
    /// Machine identifier of the material.
    pub open spec fn code(self) -> Seq<char> {
        match self {
            CableMaterial::Bamboo => "bamboo"@,
            CableMaterial::Rattan => "rattan"@,
            CableMaterial::IronChain => "iron_chain"@,
        }
    }

    /// Human-readable name of the material.
    pub open spec fn label(self) -> Seq<char> {
        match self {
            CableMaterial::Bamboo => "竹索"@,
            CableMaterial::Rattan => "藤索"@,
            CableMaterial::IronChain => "铁索"@,
        }
    }

    /// Every material, in declaration order.
    pub open spec fn catalogue() -> Seq<CableMaterial> {
        seq![CableMaterial::Bamboo, CableMaterial::Rattan, CableMaterial::IronChain]
    }

    pub fn as_str(&self) -> (s: &'static str)
        ensures
            s@ == self.code(),
    {
        match self {
            CableMaterial::Bamboo => "bamboo",
            CableMaterial::Rattan => "rattan",
            CableMaterial::IronChain => "iron_chain",
        }
    }

    pub fn display_name(&self) -> (s: &'static str)
        ensures
            s@ == self.label(),
    {
        match self {
            CableMaterial::Bamboo => "竹索",
            CableMaterial::Rattan => "藤索",
            CableMaterial::IronChain => "铁索",
        }
    }

    pub fn all() -> (v: Vec<CableMaterial>)
        ensures
            v@ == Self::catalogue(),
    {
        vec![CableMaterial::Bamboo, CableMaterial::Rattan, CableMaterial::IronChain]
    }
}

/// `all` lists every material exactly once.
pub proof fn lemma_material_catalogue_complete(m: CableMaterial)
    ensures
        CableMaterial::catalogue().contains(m),
        CableMaterial::catalogue().len() == 3,
        CableMaterial::catalogue().no_duplicates(),
{
    let c = CableMaterial::catalogue();
    match m {
        CableMaterial::Bamboo => assert(c[0] == m),
        CableMaterial::Rattan => assert(c[1] == m),
        CableMaterial::IronChain => assert(c[2] == m),
    }
}

/// Distinct materials have distinct identifiers and distinct names.
pub proof fn lemma_material_codes_distinct(a: CableMaterial, b: CableMaterial)
    ensures
        a.code() == b.code() ==> a == b,
        a.label() == b.label() ==> a == b,
{
    reveal_strlit("bamboo");
    reveal_strlit("rattan");
    reveal_strlit("iron_chain");
    reveal_strlit("竹索");
    reveal_strlit("藤索");
    reveal_strlit("铁索");
    if a != b {
        assert(a.code()[0] != b.code()[0]);
        assert(a.label()[0] != b.label()[0]);
    }
}

} // verus!
