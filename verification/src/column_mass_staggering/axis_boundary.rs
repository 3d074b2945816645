use vstd::prelude::*;

verus! {

/// Which physical-domain boundaries an active tile touches along one axis.
#[derive(Clone, Copy, Debug, PartialEq, Eq, Structural)]
pub enum ColumnMassStaggeringAxisBoundary {
    /// The tile touches neither boundary.
    Interior,
    /// The tile touches only the lower boundary.
    Lower,
    /// The tile touches only the upper boundary.
    Upper,
    /// The tile touches both boundaries.
    Both,
}

impl ColumnMassStaggeringAxisBoundary {
    pub open spec fn spec_from_contacts(lower: bool, upper: bool) -> Self {
        if lower {
            if upper { Self::Both } else { Self::Lower }
        } else {
            if upper { Self::Upper } else { Self::Interior }
        }
    }

    pub open spec fn spec_touches_lower(self) -> bool {
        self is Lower || self is Both
    }

    pub open spec fn spec_touches_upper(self) -> bool {
        self is Upper || self is Both
    }

    /// Classifies a tile from its independent lower and upper contacts.
    #[verifier::when_used_as_spec(spec_from_contacts)]
    pub fn from_contacts(lower: bool, upper: bool) -> (r: Self)
        ensures r == Self::spec_from_contacts(lower, upper),
    {
        match (lower, upper) {
            (false, false) => Self::Interior,
            (true, false) => Self::Lower,
            (false, true) => Self::Upper,
            (true, true) => Self::Both,
        }
    }

    /// Whether the tile touches the lower physical boundary.
    #[verifier::when_used_as_spec(spec_touches_lower)]
    pub fn touches_lower(self) -> (r: bool)
        ensures r == self.spec_touches_lower(),
    {
        matches!(self, Self::Lower | Self::Both)
    }

    /// Whether the tile touches the upper physical boundary.
    #[verifier::when_used_as_spec(spec_touches_upper)]
    pub fn touches_upper(self) -> (r: bool)
        ensures r == self.spec_touches_upper(),
    {
        matches!(self, Self::Upper | Self::Both)
    }
}

/// Classifying contacts and reading them back gives the contacts again, and
/// every boundary state is the classification of its own contacts.
pub proof fn lemma_boundary_contacts_round_trip(lower: bool, upper: bool, boundary: ColumnMassStaggeringAxisBoundary)
    ensures
        ColumnMassStaggeringAxisBoundary::spec_from_contacts(lower, upper).spec_touches_lower() == lower,
        ColumnMassStaggeringAxisBoundary::spec_from_contacts(lower, upper).spec_touches_upper() == upper,
        ColumnMassStaggeringAxisBoundary::spec_from_contacts(boundary.spec_touches_lower(), boundary.spec_touches_upper()) == boundary,
{
}

} // verus!
