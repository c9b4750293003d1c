use gardenbot::classify::CurrentlySelected;

#[test]
fn thirsty_with_counter() {
    assert_eq!(CurrentlySelected::classify("Thirsty 5/5"), CurrentlySelected::Thirsty);
}

#[test]
fn ripe_plain() {
    assert_eq!(CurrentlySelected::classify("Ripe now"), CurrentlySelected::Ripe);
}

#[test]
fn blooming_counts_as_ripe() {
    assert_eq!(CurrentlySelected::classify("Bloomin 3/3"), CurrentlySelected::Ripe);
}

#[test]
fn short_token_is_nothing() {
    assert_eq!(CurrentlySelected::classify("xyz"), CurrentlySelected::Nothing);
}

#[test]
fn empty_is_nothing() {
    assert_eq!(CurrentlySelected::classify(""), CurrentlySelected::Nothing);
}

#[test]
fn whitespace_only_is_nothing() {
    assert_eq!(CurrentlySelected::classify("   "), CurrentlySelected::Nothing);
}

#[test]
fn no_long_token_is_nothing() {
    assert_eq!(CurrentlySelected::classify("ab cde f gh"), CurrentlySelected::Nothing);
}

#[test]
fn growing_full_word() {
    assert_eq!(CurrentlySelected::classify("Growing 1/4"), CurrentlySelected::Growing);
}

#[test]
fn growing_with_dropped_character() {
    // one dropped character, absorbed by the distance threshold
    assert_eq!(CurrentlySelected::classify("Grwin 2/2"), CurrentlySelected::Growing);
}

#[test]
fn thirsty_with_dropped_character() {
    assert_eq!(CurrentlySelected::classify("Thirs 1/1"), CurrentlySelected::Thirsty);
}

#[test]
fn hungry_with_dropped_character() {
    assert_eq!(CurrentlySelected::classify("Hungr"), CurrentlySelected::Hungry);
}

#[test]
fn hungry_full_word() {
    assert_eq!(CurrentlySelected::classify("Hungry 2/3"), CurrentlySelected::Hungry);
}

#[test]
fn truncation_to_six_characters() {
    // the candidate is cut to 6 characters before matching
    assert_eq!(CurrentlySelected::classify("Thirstyyyy"), CurrentlySelected::Thirsty);
}

#[test]
fn leading_short_tokens_are_skipped() {
    assert_eq!(CurrentlySelected::classify("a bc Ripe"), CurrentlySelected::Ripe);
}

#[test]
fn first_long_token_decides() {
    // the first token of length at least 4 is the candidate, even when a
    // later token would match
    assert_eq!(CurrentlySelected::classify("abcd Ripe"), CurrentlySelected::Nothing);
}

#[test]
fn unrelated_long_token_is_nothing() {
    assert_eq!(CurrentlySelected::classify("somejunk here"), CurrentlySelected::Nothing);
}

#[test]
fn code_round_trip() {
    let all = [
        CurrentlySelected::Nothing,
        CurrentlySelected::Growing,
        CurrentlySelected::Thirsty,
        CurrentlySelected::Hungry,
        CurrentlySelected::Ripe,
    ];
    for c in all {
        assert_eq!(CurrentlySelected::from_code(c.to_code()), Some(c));
    }
}

#[test]
fn display_names() {
    assert_eq!(CurrentlySelected::Nothing.display_name(), "None");
    assert_eq!(CurrentlySelected::Growing.display_name(), "Growing");
    assert_eq!(CurrentlySelected::Thirsty.display_name(), "Thirsty");
    assert_eq!(CurrentlySelected::Hungry.display_name(), "Hungry");
    assert_eq!(CurrentlySelected::Ripe.display_name(), "Ripe");
}

#[test]
fn out_of_range_code_decodes_to_none() {
    assert_eq!(CurrentlySelected::from_code(5), None);
    assert_eq!(CurrentlySelected::from_code(255), None);
}
