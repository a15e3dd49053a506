//! Which pronoun to use for a member, going by the names of their roles.

use crate::text::same_text;
use vstd::prelude::*;
use vstd::std_specs::convert::FromSpecImpl;

verus! {

/// The name of the role that asks for "he".
pub const ROLE_PRONOUN_HE: &'static str = "He / Him / His";

/// The name of the role that asks for "she".
pub const ROLE_PRONOUN_SHE: &'static str = "She / Her / Hers";

/// A pronoun that a role can ask for.
#[derive(Debug, Clone, Copy, PartialEq, Eq, Structural)]
pub enum BinaryPronoun {
    He,
    She,
}

/// A pronoun that the bot uses.
#[derive(Debug, Clone, Copy, PartialEq, Eq, Structural)]
pub enum Pronoun {
    He,
    She,
    They,
}

impl Pronoun {
    /// The reflexive form of the pronoun.
    pub open spec fn reflexive(self) -> Seq<char> {
        match self {
            Pronoun::He => "himself"@,
            Pronoun::She => "herself"@,
            Pronoun::They => "themself"@,
        }
    }

    /// Returns either "himself", "herself", or "themself" based on the pronoun.
    pub fn get_pronounself(&self) -> (word: &'static str)
        ensures
            word@ == self.reflexive(),
    {
        match self {
            Pronoun::He => "himself",
            Pronoun::She => "herself",
            Pronoun::They => "themself",
        }
    }
}

impl From<BinaryPronoun> for Pronoun {
    fn from(value: BinaryPronoun) -> (pronoun: Pronoun) {
        match value {
            BinaryPronoun::He => Pronoun::He,
            BinaryPronoun::She => Pronoun::She,
        }
    }
}

impl FromSpecImpl<BinaryPronoun> for Pronoun {
    open spec fn obeys_from_spec() -> bool {
        true
    }

    open spec fn from_spec(value: BinaryPronoun) -> Pronoun {
        match value {
            BinaryPronoun::He => Pronoun::He,
            BinaryPronoun::She => Pronoun::She,
        }
    }
}

/// Whether one of `names` is the role name `role`.
pub open spec fn names_role(names: Seq<&str>, role: Seq<char>) -> bool {
    exists|i: int| 0 <= i < names.len() && (#[trigger] names[i])@ == role
}

/// The pronoun that a list of role names asks for: "he" or "she" where only
/// that one is asked for, "they" where neither is or both are.
pub open spec fn pronoun_for(names: Seq<&str>) -> Pronoun {
    let he = names_role(names, ROLE_PRONOUN_HE@);
    let she = names_role(names, ROLE_PRONOUN_SHE@);
    if he && !she {
        Pronoun::He
    } else if she && !he {
        Pronoun::She
    } else {
        Pronoun::They
    }
}

/// The pronoun that a role name asks for, if it asks for one.
pub fn pronoun_of_role(name: &str) -> (pronoun: Option<BinaryPronoun>)
    ensures
        pronoun == if name@ == ROLE_PRONOUN_HE@ {
            Some(BinaryPronoun::He)
        } else if name@ == ROLE_PRONOUN_SHE@ {
            Some(BinaryPronoun::She)
        } else {
            None::<BinaryPronoun>
        },
{
    if same_text(name, ROLE_PRONOUN_HE) {
        Some(BinaryPronoun::He)
    } else if same_text(name, ROLE_PRONOUN_SHE) {
        Some(BinaryPronoun::She)
    } else {
        None
    }
}

/// Figures out what pronoun to use for a member with the given role names.
///
/// If no pronouns are selected, then [`Pronoun::They`] will be used. If
/// conflicting pronouns are set, then [`Pronoun::They`] will also be used.
pub fn disamiguate_pronouns(names: &[&str]) -> (pronoun: Pronoun)
    ensures
        pronoun == pronoun_for(names@),
{
    proof {
        reveal_strlit("He / Him / His");
        reveal_strlit("She / Her / Hers");
        assert(ROLE_PRONOUN_HE@.len() == 14);
        assert(ROLE_PRONOUN_SHE@.len() == 16);
    }
    let mut chosen: Option<Pronoun> = None;
    let mut i: usize = 0;
    while i < names.len()
        invariant
            i <= names@.len(),
            ROLE_PRONOUN_HE@ != ROLE_PRONOUN_SHE@,
            chosen == if names_role(names@.take(i as int), ROLE_PRONOUN_HE@) || names_role(
                names@.take(i as int),
                ROLE_PRONOUN_SHE@,
            ) {
                Some(pronoun_for(names@.take(i as int)))
            } else {
                None::<Pronoun>
            },
        decreases names@.len() - i,
    {
        let ghost before = names@.take(i as int);
        let ghost after = names@.take(i + 1);
        let found = pronoun_of_role(names[i]);
        proof {
            assert(after[i as int] == names@[i as int]);
            assert forall|role: Seq<char>|
                names_role(after, role) == (names_role(before, role) || names@[i as int]@
                    == role) by {
                if names_role(before, role) {
                    let j = choose|j: int| 0 <= j < before.len() && (#[trigger] before[j])@ == role;
                    assert(after[j] == before[j]);
                }
                if names_role(after, role) {
                    let j = choose|j: int| 0 <= j < after.len() && (#[trigger] after[j])@ == role;
                    if j < i {
                        assert(before[j] == after[j]);
                    }
                }
            }
        }
        match found {
            Some(binary) => {
                let pronoun: Pronoun = Pronoun::from(binary);
                chosen = match chosen {
                    None => Some(pronoun),
                    Some(acc) => {
                        if acc == pronoun {
                            Some(acc)
                        } else {
                            Some(Pronoun::They)
                        }
                    },
                };
            },
            None => {},
        }
        i += 1;
    }
    assert(names@.take(i as int) =~= names@);
    match chosen {
        Some(pronoun) => pronoun,
        None => Pronoun::They,
    }
}

} // verus!
