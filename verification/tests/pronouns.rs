use pi_bot::pronouns::{
    disamiguate_pronouns, pronoun_of_role, BinaryPronoun, Pronoun, ROLE_PRONOUN_HE,
    ROLE_PRONOUN_SHE,
};

const ROLE_PRONOUN_THEY: &str = "They / Them / Theirs";

#[test]
fn pronoun_tests_when_with_singular_he_him() {
    assert_eq!(disamiguate_pronouns(&[ROLE_PRONOUN_HE]), Pronoun::He);
}

#[test]
fn pronoun_tests_when_with_singular_she_her() {
    assert_eq!(disamiguate_pronouns(&[ROLE_PRONOUN_SHE]), Pronoun::She);
}

#[test]
fn pronoun_tests_when_with_singular_they_them() {
    assert_eq!(disamiguate_pronouns(&[ROLE_PRONOUN_THEY]), Pronoun::They);
}

#[test]
fn pronoun_tests_when_with_no_pronouns() {
    assert_eq!(disamiguate_pronouns(&[]), Pronoun::They);
}

#[test]
fn pronoun_tests_when_with_conflicting_pronouns() {
    assert_eq!(disamiguate_pronouns(&[ROLE_PRONOUN_HE, ROLE_PRONOUN_SHE]), Pronoun::They);
}

#[test]
fn pronoun_tests_when_with_conflicting_pronouns_flipped() {
    assert_eq!(disamiguate_pronouns(&[ROLE_PRONOUN_SHE, ROLE_PRONOUN_HE]), Pronoun::They);
}

#[test]
fn pronoun_tests_when_with_he_they() {
    assert_eq!(disamiguate_pronouns(&[ROLE_PRONOUN_HE, ROLE_PRONOUN_THEY]), Pronoun::He);
}

#[test]
fn pronoun_tests_when_with_he_they_flipped() {
    assert_eq!(disamiguate_pronouns(&[ROLE_PRONOUN_THEY, ROLE_PRONOUN_HE]), Pronoun::He);
}

#[test]
fn pronoun_tests_when_with_she_they() {
    assert_eq!(disamiguate_pronouns(&[ROLE_PRONOUN_SHE, ROLE_PRONOUN_THEY]), Pronoun::She);
}

#[test]
fn pronoun_tests_when_with_she_they_flipped() {
    assert_eq!(disamiguate_pronouns(&[ROLE_PRONOUN_THEY, ROLE_PRONOUN_SHE]), Pronoun::She);
}

#[test]
fn pronoun_tests_when_with_all_available_pronouns() {
    assert_eq!(
        disamiguate_pronouns(&[ROLE_PRONOUN_SHE, ROLE_PRONOUN_THEY, ROLE_PRONOUN_HE]),
        Pronoun::They
    );
}

#[test]
fn repeated_pronoun_stays() {
    assert_eq!(disamiguate_pronouns(&[ROLE_PRONOUN_HE, "Staff", ROLE_PRONOUN_HE]), Pronoun::He);
    assert_eq!(
        disamiguate_pronouns(&[ROLE_PRONOUN_HE, ROLE_PRONOUN_SHE, ROLE_PRONOUN_HE]),
        Pronoun::They
    );
}

#[test]
fn reflexive_forms() {
    assert_eq!(Pronoun::He.get_pronounself(), "himself");
    assert_eq!(Pronoun::She.get_pronounself(), "herself");
    assert_eq!(Pronoun::They.get_pronounself(), "themself");
}

#[test]
fn binary_pronoun_converts() {
    assert_eq!(Pronoun::from(BinaryPronoun::He), Pronoun::He);
    assert_eq!(Pronoun::from(BinaryPronoun::She), Pronoun::She);
    assert_eq!(pronoun_of_role("He / Him / His"), Some(BinaryPronoun::He));
    assert_eq!(pronoun_of_role("She / Her / Hers"), Some(BinaryPronoun::She));
    assert_eq!(pronoun_of_role("he / him / his"), None);
}
