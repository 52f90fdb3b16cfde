use vstd::prelude::*;

verus! {

/// Bridge design codes that a wind-resistance check can be held against.
#[derive(Debug, Clone, Copy, PartialEq, Eq, Structural)]
pub enum DesignCode {
    CJJ692015,
    JTGTD602015,
    EurocodeEN19912,
    BS5400,
}

impl DesignCode {
    /// Short designation of the code.
    pub open spec fn code(self) -> Seq<char> {
        match self {
            DesignCode::CJJ692015 => "CJJ 69-2015"@,
            DesignCode::JTGTD602015 => "JTG/T D60-2015"@,
            DesignCode::EurocodeEN19912 => "EN 1991-2"@,
            DesignCode::BS5400 => "BS 5400"@,
        }
    }

    /// Designation with a description.
    pub open spec fn label(self) -> Seq<char> {
        match self {
            DesignCode::CJJ692015 => "CJJ 69-2015 城市人行桥"@,
            DesignCode::JTGTD602015 => "JTG/T D60-2015 公路桥抗风"@,
            DesignCode::EurocodeEN19912 => "EN 1991-2 欧洲人行桥"@,
            DesignCode::BS5400 => "BS 5400 英国桥梁"@,
        }
    }

    /// Every variant, in declaration order.
    pub open spec fn catalogue() -> Seq<DesignCode> {
        seq![DesignCode::CJJ692015, DesignCode::JTGTD602015, DesignCode::EurocodeEN19912, DesignCode::BS5400]
    }

    pub fn all() -> (v: Vec<DesignCode>)
        ensures
            v@ == Self::catalogue(),
    {
        vec![DesignCode::CJJ692015, DesignCode::JTGTD602015, DesignCode::EurocodeEN19912, DesignCode::BS5400]
    }

    pub fn as_str(&self) -> (s: &'static str)
        ensures
            s@ == self.code(),
    {
        match self {
            DesignCode::CJJ692015 => "CJJ 69-2015",
            DesignCode::JTGTD602015 => "JTG/T D60-2015",
            DesignCode::EurocodeEN19912 => "EN 1991-2",
            DesignCode::BS5400 => "BS 5400",
        }
    }

    pub fn display_name(&self) -> (s: &'static str)
        ensures
            s@ == self.label(),
    {
        match self {
            DesignCode::CJJ692015 => "CJJ 69-2015 城市人行桥",
            DesignCode::JTGTD602015 => "JTG/T D60-2015 公路桥抗风",
            DesignCode::EurocodeEN19912 => "EN 1991-2 欧洲人行桥",
            DesignCode::BS5400 => "BS 5400 英国桥梁",
        }
    }
}

/// `all` lists every design code exactly once.
pub proof fn lemma_design_code_catalogue_complete(x: DesignCode)
    ensures
        DesignCode::catalogue().contains(x),
        DesignCode::catalogue().len() == 4,
        DesignCode::catalogue().no_duplicates(),
{
    let c = DesignCode::catalogue();
    match x {
        DesignCode::CJJ692015 => assert(c[0] == x),
        DesignCode::JTGTD602015 => assert(c[1] == x),
        DesignCode::EurocodeEN19912 => assert(c[2] == x),
        DesignCode::BS5400 => assert(c[3] == x),
    }
}

/// Distinct design codes never share a textual form.
pub proof fn lemma_design_code_texts_distinct(a: DesignCode, b: DesignCode)
    ensures
        a.code() == b.code() ==> a == b,
        a.label() == b.label() ==> a == b,
{
    reveal_strlit("CJJ 69-2015");
    reveal_strlit("JTG/T D60-2015");
    reveal_strlit("EN 1991-2");
    reveal_strlit("BS 5400");
    reveal_strlit("CJJ 69-2015 城市人行桥");
    reveal_strlit("JTG/T D60-2015 公路桥抗风");
    reveal_strlit("EN 1991-2 欧洲人行桥");
    reveal_strlit("BS 5400 英国桥梁");
    if a != b {
        assert(a.code().len() != b.code().len() || a.code()[0] != b.code()[0]);
        assert(a.label().len() != b.label().len() || a.label()[0] != b.label()[0]);
    }
}

} // verus!
