//! The order of versions: by major, then minor, then patch.

use crate::version::Version;
use std::cmp::Ordering;
use vstd::prelude::*;
use vstd::std_specs::cmp::PartialOrdSpecImpl;

verus! {

impl Version {
    /// `self` comes strictly before `other`: at the first field in which the
    /// two differ, `self` is the smaller.
    pub open spec fn precedes(self, other: Version) -> bool {
        ||| self.major < other.major
        ||| self.major == other.major && self.minor < other.minor
        ||| self.major == other.major && self.minor == other.minor && self.patch < other.patch
    }

    /// `self` is `minimum` or a later version.
    pub open spec fn meets(self, minimum: Version) -> bool {
        !self.precedes(minimum)
    }

    /// How `self` stands to `other` in the order of versions.
    pub open spec fn standing(self, other: Version) -> Ordering {
        if self.precedes(other) {
            Ordering::Less
        } else if self == other {
            Ordering::Equal
        } else {
            Ordering::Greater
        }
    }

    /// Tells whether `self` is `minimum` or a later version.
    pub fn at_least(&self, minimum: &Version) -> (r: bool)
        ensures
            r == self.meets(*minimum),
    {
        if self.major != minimum.major {
            self.major > minimum.major
        } else if self.minor != minimum.minor {
            self.minor > minimum.minor
        } else {
            self.patch >= minimum.patch
        }
    }
}

impl PartialOrd for Version {
    fn partial_cmp(&self, other: &Version) -> (r: Option<Ordering>) {
        if self.major < other.major {
            Some(Ordering::Less)
        } else if self.major > other.major {
            Some(Ordering::Greater)
        } else if self.minor < other.minor {
            Some(Ordering::Less)
        } else if self.minor > other.minor {
            Some(Ordering::Greater)
        } else if self.patch < other.patch {
            Some(Ordering::Less)
        } else if self.patch > other.patch {
            Some(Ordering::Greater)
        } else {
            Some(Ordering::Equal)
        }
    }
}

impl PartialOrdSpecImpl for Version {
    open spec fn obeys_partial_cmp_spec() -> bool {
        true
    }

    open spec fn partial_cmp_spec(&self, other: &Version) -> Option<Ordering> {
        Some(self.standing(*other))
    }
}

/// Of two versions exactly one holds: the first precedes the second, they
/// are the same version, or the second precedes the first. Two versions are
/// the same exactly when they agree in all three fields.
pub proof fn lemma_order_is_total(a: Version, b: Version)
    ensures
        a.precedes(b) || a == b || b.precedes(a),
        !(a.precedes(b) && a == b),
        !(a.precedes(b) && b.precedes(a)),
        !(a == b && b.precedes(a)),
        a == b <==> a.major == b.major && a.minor == b.minor && a.patch == b.patch,
        a.meets(b) <==> a == b || b.precedes(a),
{
}

/// Precedence is transitive, and so is meeting a minimum.
pub proof fn lemma_order_is_transitive(a: Version, b: Version, c: Version)
    ensures
        a.precedes(b) && b.precedes(c) ==> a.precedes(c),
        a.meets(b) && b.meets(c) ==> a.meets(c),
{
}

/// A version meets itself and does not precede itself.
pub proof fn lemma_meets_is_reflexive(a: Version)
    ensures
        a.meets(a),
        !a.precedes(a),
{
}

} // verus!
