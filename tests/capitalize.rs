use pokelib::StrExt;

#[test]
fn capitalize_first_letter() {
    assert_eq!("bulbasaur".capitalize(), "Bulbasaur");
    assert_eq!("mr-mime".capitalize(), "Mr-mime");
}

#[test]
fn capitalize_single_letter() {
    assert_eq!("a".capitalize(), "A");
}

#[test]
fn capitalize_empty() {
    assert_eq!("".capitalize(), "");
}

#[test]
fn capitalize_keeps_rest() {
    assert_eq!("hp".capitalize(), "Hp");
    assert_eq!("special-attack".capitalize(), "Special-attack");
    assert_eq!("Already".capitalize(), "Already");
    assert_eq!("1st".capitalize(), "1st");
}
