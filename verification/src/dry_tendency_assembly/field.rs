use vstd::prelude::*;

verus! {

/// Semantic role of a field supplied to dry-tendency assembly.
#[derive(Clone, Copy, Debug, PartialEq, Eq, Structural)]
pub enum DryTendencyAssemblyField {
    /// West-east RK momentum tendency.
    WestEastRungeKuttaMomentum,
    /// South-north RK momentum tendency.
    SouthNorthRungeKuttaMomentum,
    /// Vertical RK momentum tendency.
    VerticalRungeKuttaMomentum,
    /// RK geopotential tendency.
    RungeKuttaGeopotential,
    /// RK potential-temperature tendency.
    RungeKuttaPotentialTemperature,
    /// RK column-mass tendency.
    RungeKuttaColumnMass,
    /// Persistent west-east momentum tendency.
    WestEastForwardMomentum,
    /// Persistent south-north momentum tendency.
    SouthNorthForwardMomentum,
    /// Persistent vertical momentum tendency.
    VerticalForwardMomentum,
    /// Persistent geopotential tendency.
    ForwardGeopotential,
    /// Persistent potential-temperature tendency.
    ForwardPotentialTemperature,
    /// Persistent column-mass tendency.
    ForwardColumnMass,
    /// Saved west-east boundary tendency.
    SavedWestEastMomentum,
    /// Saved south-north boundary tendency.
    SavedSouthNorthMomentum,
    /// Saved vertical boundary tendency.
    SavedVerticalMomentum,
    /// Saved geopotential boundary tendency.
    SavedGeopotential,
    /// Saved potential-temperature boundary tendency.
    SavedPotentialTemperature,
    /// Diabatic heating tendency.
    DiabaticHeating,
    /// Full column mass.
    FullColumnMass,
    /// West-east momentum south-north map factor.
    WestEastMomentumSouthNorthMapFactor,
    /// South-north momentum west-east map factor.
    SouthNorthMomentumWestEastMapFactor,
    /// Inverse south-north momentum west-east map factor.
    InverseSouthNorthMomentumWestEastMapFactor,
    /// Mass-point south-north map factor.
    MassPointSouthNorthMapFactor,
}

impl DryTendencyAssemblyField {
    /// The field role name used in diagnostics.
    pub open spec fn spec_text(self) -> Seq<char> {
        match self {
            DryTendencyAssemblyField::WestEastRungeKuttaMomentum => "west-east RK momentum tendency"@,
            DryTendencyAssemblyField::SouthNorthRungeKuttaMomentum => "south-north RK momentum tendency"@,
            DryTendencyAssemblyField::VerticalRungeKuttaMomentum => "vertical RK momentum tendency"@,
            DryTendencyAssemblyField::RungeKuttaGeopotential => "RK geopotential tendency"@,
            DryTendencyAssemblyField::RungeKuttaPotentialTemperature => "RK potential-temperature tendency"@,
            DryTendencyAssemblyField::RungeKuttaColumnMass => "RK column-mass tendency"@,
            DryTendencyAssemblyField::WestEastForwardMomentum => "persistent west-east momentum tendency"@,
            DryTendencyAssemblyField::SouthNorthForwardMomentum => "persistent south-north momentum tendency"@,
            DryTendencyAssemblyField::VerticalForwardMomentum => "persistent vertical momentum tendency"@,
            DryTendencyAssemblyField::ForwardGeopotential => "persistent geopotential tendency"@,
            DryTendencyAssemblyField::ForwardPotentialTemperature => "persistent potential-temperature tendency"@,
            DryTendencyAssemblyField::ForwardColumnMass => "persistent column-mass tendency"@,
            DryTendencyAssemblyField::SavedWestEastMomentum => "saved west-east momentum tendency"@,
            DryTendencyAssemblyField::SavedSouthNorthMomentum => "saved south-north momentum tendency"@,
            DryTendencyAssemblyField::SavedVerticalMomentum => "saved vertical momentum tendency"@,
            DryTendencyAssemblyField::SavedGeopotential => "saved geopotential tendency"@,
            DryTendencyAssemblyField::SavedPotentialTemperature => "saved potential-temperature tendency"@,
            DryTendencyAssemblyField::DiabaticHeating => "diabatic heating"@,
            DryTendencyAssemblyField::FullColumnMass => "full column mass"@,
            DryTendencyAssemblyField::WestEastMomentumSouthNorthMapFactor => "west-east momentum map factor"@,
            DryTendencyAssemblyField::SouthNorthMomentumWestEastMapFactor => "south-north momentum map factor"@,
            DryTendencyAssemblyField::InverseSouthNorthMomentumWestEastMapFactor => "inverse south-north momentum map factor"@,
            DryTendencyAssemblyField::MassPointSouthNorthMapFactor => "mass-point map factor"@,
        }
    }

    /// The field role name used in diagnostics.
    pub fn to_string(&self) -> (r: String)
        ensures
            r@ == self.spec_text(),
    {
        String::from_str(match self {
            DryTendencyAssemblyField::WestEastRungeKuttaMomentum => "west-east RK momentum tendency",
            DryTendencyAssemblyField::SouthNorthRungeKuttaMomentum => "south-north RK momentum tendency",
            DryTendencyAssemblyField::VerticalRungeKuttaMomentum => "vertical RK momentum tendency",
            DryTendencyAssemblyField::RungeKuttaGeopotential => "RK geopotential tendency",
            DryTendencyAssemblyField::RungeKuttaPotentialTemperature => "RK potential-temperature tendency",
            DryTendencyAssemblyField::RungeKuttaColumnMass => "RK column-mass tendency",
            DryTendencyAssemblyField::WestEastForwardMomentum => "persistent west-east momentum tendency",
            DryTendencyAssemblyField::SouthNorthForwardMomentum => "persistent south-north momentum tendency",
            DryTendencyAssemblyField::VerticalForwardMomentum => "persistent vertical momentum tendency",
            DryTendencyAssemblyField::ForwardGeopotential => "persistent geopotential tendency",
            DryTendencyAssemblyField::ForwardPotentialTemperature => "persistent potential-temperature tendency",
            DryTendencyAssemblyField::ForwardColumnMass => "persistent column-mass tendency",
            DryTendencyAssemblyField::SavedWestEastMomentum => "saved west-east momentum tendency",
            DryTendencyAssemblyField::SavedSouthNorthMomentum => "saved south-north momentum tendency",
            DryTendencyAssemblyField::SavedVerticalMomentum => "saved vertical momentum tendency",
            DryTendencyAssemblyField::SavedGeopotential => "saved geopotential tendency",
            DryTendencyAssemblyField::SavedPotentialTemperature => "saved potential-temperature tendency",
            DryTendencyAssemblyField::DiabaticHeating => "diabatic heating",
            DryTendencyAssemblyField::FullColumnMass => "full column mass",
            DryTendencyAssemblyField::WestEastMomentumSouthNorthMapFactor => "west-east momentum map factor",
            DryTendencyAssemblyField::SouthNorthMomentumWestEastMapFactor => "south-north momentum map factor",
            DryTendencyAssemblyField::InverseSouthNorthMomentumWestEastMapFactor => "inverse south-north momentum map factor",
            DryTendencyAssemblyField::MassPointSouthNorthMapFactor => "mass-point map factor",
        })
    }
}

impl DryTendencyAssemblyField {
    /// The length of the role's name and its third character.
    pub open spec fn spec_text_key(self) -> (nat, char) {
        match self {
            DryTendencyAssemblyField::WestEastRungeKuttaMomentum => (30, 's'),
            DryTendencyAssemblyField::SouthNorthRungeKuttaMomentum => (32, 'u'),
            DryTendencyAssemblyField::VerticalRungeKuttaMomentum => (29, 'r'),
            DryTendencyAssemblyField::RungeKuttaGeopotential => (24, ' '),
            DryTendencyAssemblyField::RungeKuttaPotentialTemperature => (33, ' '),
            DryTendencyAssemblyField::RungeKuttaColumnMass => (23, ' '),
            DryTendencyAssemblyField::WestEastForwardMomentum => (38, 'r'),
            DryTendencyAssemblyField::SouthNorthForwardMomentum => (40, 'r'),
            DryTendencyAssemblyField::VerticalForwardMomentum => (37, 'r'),
            DryTendencyAssemblyField::ForwardGeopotential => (32, 'r'),
            DryTendencyAssemblyField::ForwardPotentialTemperature => (41, 'r'),
            DryTendencyAssemblyField::ForwardColumnMass => (31, 'r'),
            DryTendencyAssemblyField::SavedWestEastMomentum => (33, 'v'),
            DryTendencyAssemblyField::SavedSouthNorthMomentum => (35, 'v'),
            DryTendencyAssemblyField::SavedVerticalMomentum => (32, 'v'),
            DryTendencyAssemblyField::SavedGeopotential => (27, 'v'),
            DryTendencyAssemblyField::SavedPotentialTemperature => (36, 'v'),
            DryTendencyAssemblyField::DiabaticHeating => (16, 'a'),
            DryTendencyAssemblyField::FullColumnMass => (16, 'l'),
            DryTendencyAssemblyField::WestEastMomentumSouthNorthMapFactor => (29, 's'),
            DryTendencyAssemblyField::SouthNorthMomentumWestEastMapFactor => (31, 'u'),
            DryTendencyAssemblyField::InverseSouthNorthMomentumWestEastMapFactor => (39, 'v'),
            DryTendencyAssemblyField::MassPointSouthNorthMapFactor => (21, 's'),
        }
    }
}

/// Each role's name has the length and third character of its key.
proof fn lemma_field_text_key(field: DryTendencyAssemblyField)
    ensures
        field.spec_text().len() == field.spec_text_key().0,
        field.spec_text()[2] == field.spec_text_key().1,
{
    match field {
        DryTendencyAssemblyField::WestEastRungeKuttaMomentum => { reveal_strlit("west-east RK momentum tendency"); },
        DryTendencyAssemblyField::SouthNorthRungeKuttaMomentum => { reveal_strlit("south-north RK momentum tendency"); },
        DryTendencyAssemblyField::VerticalRungeKuttaMomentum => { reveal_strlit("vertical RK momentum tendency"); },
        DryTendencyAssemblyField::RungeKuttaGeopotential => { reveal_strlit("RK geopotential tendency"); },
        DryTendencyAssemblyField::RungeKuttaPotentialTemperature => { reveal_strlit("RK potential-temperature tendency"); },
        DryTendencyAssemblyField::RungeKuttaColumnMass => { reveal_strlit("RK column-mass tendency"); },
        DryTendencyAssemblyField::WestEastForwardMomentum => { reveal_strlit("persistent west-east momentum tendency"); },
        DryTendencyAssemblyField::SouthNorthForwardMomentum => { reveal_strlit("persistent south-north momentum tendency"); },
        DryTendencyAssemblyField::VerticalForwardMomentum => { reveal_strlit("persistent vertical momentum tendency"); },
        DryTendencyAssemblyField::ForwardGeopotential => { reveal_strlit("persistent geopotential tendency"); },
        DryTendencyAssemblyField::ForwardPotentialTemperature => { reveal_strlit("persistent potential-temperature tendency"); },
        DryTendencyAssemblyField::ForwardColumnMass => { reveal_strlit("persistent column-mass tendency"); },
        DryTendencyAssemblyField::SavedWestEastMomentum => { reveal_strlit("saved west-east momentum tendency"); },
        DryTendencyAssemblyField::SavedSouthNorthMomentum => { reveal_strlit("saved south-north momentum tendency"); },
        DryTendencyAssemblyField::SavedVerticalMomentum => { reveal_strlit("saved vertical momentum tendency"); },
        DryTendencyAssemblyField::SavedGeopotential => { reveal_strlit("saved geopotential tendency"); },
        DryTendencyAssemblyField::SavedPotentialTemperature => { reveal_strlit("saved potential-temperature tendency"); },
        DryTendencyAssemblyField::DiabaticHeating => { reveal_strlit("diabatic heating"); },
        DryTendencyAssemblyField::FullColumnMass => { reveal_strlit("full column mass"); },
        DryTendencyAssemblyField::WestEastMomentumSouthNorthMapFactor => { reveal_strlit("west-east momentum map factor"); },
        DryTendencyAssemblyField::SouthNorthMomentumWestEastMapFactor => { reveal_strlit("south-north momentum map factor"); },
        DryTendencyAssemblyField::InverseSouthNorthMomentumWestEastMapFactor => { reveal_strlit("inverse south-north momentum map factor"); },
        DryTendencyAssemblyField::MassPointSouthNorthMapFactor => { reveal_strlit("mass-point map factor"); },
    }
}

/// Distinct field roles have distinct names.
pub proof fn lemma_field_texts_distinct(a: DryTendencyAssemblyField, b: DryTendencyAssemblyField)
    ensures
        a != b ==> a.spec_text() != b.spec_text(),
{
    lemma_field_text_key(a);
    lemma_field_text_key(b);
}

} // verus!
