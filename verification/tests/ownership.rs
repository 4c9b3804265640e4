use lang_basics::borrowing::{calc_len, change, no_dangle};
use lang_basics::ownership::{gives_ownership, scope, takes_and_gives_back};

#[test]
fn scope_grows_the_greeting() {
    assert_eq!(scope(), "hello, world!");
}

#[test]
fn gives_ownership_moves_derp_out() {
    assert_eq!(gives_ownership(), "derp");
}

#[test]
fn takes_and_gives_back_is_identity() {
    let duder = String::from("duder");
    assert_eq!(takes_and_gives_back(duder), "duder");
}

#[test]
fn takes_and_gives_back_keeps_an_empty_string() {
    assert_eq!(takes_and_gives_back(String::new()), "");
}

#[test]
fn calc_len_counts_the_characters() {
    let duderington = String::from("duderington");
    assert_eq!(calc_len(&duderington), 11);
}

#[test]
fn calc_len_of_an_empty_string_is_zero() {
    assert_eq!(calc_len(&String::new()), 0);
}

#[test]
fn change_appends_through_the_reference() {
    let mut s = String::from("mutref");
    change(&mut s);
    assert_eq!(s, "mutref fu.");
}

#[test]
fn no_dangle_hands_the_string_out() {
    assert_eq!(no_dangle(), "no dangle");
}
