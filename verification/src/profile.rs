//! The registry of power profiles: a closed, ordered set of three, each
//! backed by one CPU frequency governor.

use crate::text::{is_space, lemma_trimmed_fixed, text_eq, trim, trimmed};
use vstd::prelude::*;

verus! {

/// How many profiles the registry holds.
pub const PROFILE_COUNT: usize = 3;

/// A user-selectable power policy.
#[derive(Clone, Copy, Debug, PartialEq, Eq, Structural)]
pub enum Profile {
    PowerSaver,
    Balanced,
    Performance,
}

impl Profile {
    /// The profile's place in the registry's order.
    pub open spec fn position(self) -> int {
        match self {
            Profile::PowerSaver => 0,
            Profile::Balanced => 1,
            Profile::Performance => 2,
        }
    }

    /// The profile at place `i` of the registry's order.
    pub open spec fn at(i: int) -> Profile
        recommends
            0 <= i < PROFILE_COUNT,
    {
        if i == 0 {
            Profile::PowerSaver
        } else if i == 1 {
            Profile::Balanced
        } else {
            Profile::Performance
        }
    }

    /// The name shown to the user.
    pub open spec fn name_text(self) -> Seq<char> {
        match self {
            Profile::PowerSaver => "Power Saver"@,
            Profile::Balanced => "Balanced"@,
            Profile::Performance => "Performance"@,
        }
    }

    /// The identifier of the governor that backs the profile.
    pub open spec fn governor_text(self) -> Seq<char> {
        match self {
            Profile::PowerSaver => "powersave"@,
            Profile::Balanced => "schedutil"@,
            Profile::Performance => "performance"@,
        }
    }

    /// The profile whose governor identifier is exactly `id`, if there is one.
    pub open spec fn for_governor(id: Seq<char>) -> Option<Profile> {
        if id =~= Profile::PowerSaver.governor_text() {
            Some(Profile::PowerSaver)
        } else if id =~= Profile::Balanced.governor_text() {
            Some(Profile::Balanced)
        } else if id =~= Profile::Performance.governor_text() {
            Some(Profile::Performance)
        } else {
            None
        }
    }

    /// Whether `found` is the profile that `id` names, in case `id` is one
    /// of the three governor identifiers as it stands.
    #[verifier::inline]
    pub open spec fn found_by_governor(id: Seq<char>, found: Option<Profile>) -> bool {
        &&& id == Profile::PowerSaver.governor_text() ==> found == Some(Profile::PowerSaver)
        &&& id == Profile::Balanced.governor_text() ==> found == Some(Profile::Balanced)
        &&& id == Profile::Performance.governor_text() ==> found == Some(Profile::Performance)
    }

    /// The three profiles in registry order.
    pub fn all() -> (r: [Profile; PROFILE_COUNT])
        ensures
            forall|i: int| 0 <= i < PROFILE_COUNT ==> r[i] == Profile::at(i),
    {
        [Profile::PowerSaver, Profile::Balanced, Profile::Performance]
    }

    /// The profile's place in `all()`.
    pub fn index(&self) -> (i: usize)
        ensures
            i == self.position(),
            i < PROFILE_COUNT,
    {
        match self {
            Profile::PowerSaver => 0,
            Profile::Balanced => 1,
            Profile::Performance => 2,
        }
    }

    /// The name shown to the user.
    pub fn name(&self) -> (r: &'static str)
        ensures
            r@ == self.name_text(),
    {
        match self {
            Profile::PowerSaver => "Power Saver",
            Profile::Balanced => "Balanced",
            Profile::Performance => "Performance",
        }
    }

    /// The identifier of the governor that backs the profile.
    pub fn governor(&self) -> (r: &'static str)
        ensures
            r@ == self.governor_text(),
    {
        match self {
            Profile::PowerSaver => "powersave",
            Profile::Balanced => "schedutil",
            Profile::Performance => "performance",
        }
    }

    /// Looks a profile up by governor identifier. Surrounding whitespace is
    /// ignored; the match is otherwise exact and case-sensitive. Any other
    /// governor yields `None`.
    pub fn from_governor(gov: &str) -> (r: Option<Profile>)
        ensures
            r == Profile::for_governor(trimmed(gov@)),
            r is None <==> forall|p: Profile| trimmed(gov@) != p.governor_text(),
            Profile::found_by_governor(gov@, r),
    {
        proof {
            lemma_governor_round_trip(Profile::PowerSaver);
            lemma_governor_round_trip(Profile::Balanced);
            lemma_governor_round_trip(Profile::Performance);
        }
        let id = trim(gov);
        if text_eq(id, "powersave") {
            Some(Profile::PowerSaver)
        } else if text_eq(id, "schedutil") {
            Some(Profile::Balanced)
        } else if text_eq(id, "performance") {
            Some(Profile::Performance)
        } else {
            None
        }
    }
}

/// `position` and `at` are inverse to each other: every profile has a place
/// below `PROFILE_COUNT`, and every such place holds one profile.
pub proof fn lemma_position_at(p: Profile, i: int)
    ensures
        0 <= p.position() < PROFILE_COUNT,
        Profile::at(p.position()) == p,
        0 <= i < PROFILE_COUNT ==> Profile::at(i).position() == i,
{
}

/// No two profiles share a governor identifier.
pub proof fn lemma_governors_distinct(p: Profile, q: Profile)
    requires
        p.governor_text() == q.governor_text(),
    ensures
        p == q,
{
    reveal_strlit("powersave");
    reveal_strlit("schedutil");
    reveal_strlit("performance");
    assert("powersave"@.len() != "performance"@.len());
    assert("schedutil"@.len() != "performance"@.len());
    assert("powersave"@[0] != "schedutil"@[0]);
}

/// Looking up a profile's own governor identifier finds that profile again,
/// with or without the trimming that `from_governor` applies.
pub proof fn lemma_governor_round_trip(p: Profile)
    ensures
        Profile::for_governor(p.governor_text()) == Some(p),
        Profile::for_governor(trimmed(p.governor_text())) == Some(p),
{
    reveal_strlit("powersave");
    reveal_strlit("schedutil");
    reveal_strlit("performance");
    let g = p.governor_text();
    lemma_trimmed_fixed(g);
    if Profile::for_governor(g) != Some(p) {
        let q = Profile::for_governor(g)->0;
        lemma_governors_distinct(p, q);
    }
}

/// A text that, once trimmed, is none of the three governor identifiers
/// belongs to no profile.
pub proof fn lemma_unknown_governor(id: Seq<char>)
    requires
        forall|p: Profile| trimmed(id) != p.governor_text(),
    ensures
        Profile::for_governor(trimmed(id)) is None,
{
}

} // verus!
