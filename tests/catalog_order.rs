use pokelib::{has_prefix, names_in_order, select_candidates, sort_by_name, CatalogEntry};

fn entry(name: &str) -> CatalogEntry {
    CatalogEntry::new(name.to_string(), format!("https://pokeapi.co/api/v2/pokemon-species/{}/", name))
}

fn names(v: &[CatalogEntry]) -> Vec<String> {
    v.iter().map(|e| e.name.clone()).collect()
}

#[test]
fn sort_orders_by_name() {
    let sorted = sort_by_name(vec![entry("squirtle"), entry("bulbasaur"), entry("charmander")]);
    assert_eq!(names(&sorted), vec!["bulbasaur", "charmander", "squirtle"]);
}

#[test]
fn sort_keeps_every_entry() {
    let input = vec![entry("pidgey"), entry("abra"), entry("pidgey"), entry("zubat"), entry("abra")];
    let sorted = sort_by_name(input);
    assert_eq!(names(&sorted), vec!["abra", "abra", "pidgey", "pidgey", "zubat"]);
}

#[test]
fn sort_of_empty_is_empty() {
    assert!(sort_by_name(vec![]).is_empty());
}

#[test]
fn sort_is_stable_for_equal_names() {
    let a = CatalogEntry::new("eevee".to_string(), "first".to_string());
    let b = CatalogEntry::new("eevee".to_string(), "second".to_string());
    let sorted = sort_by_name(vec![entry("zubat"), a, b, entry("abra")]);
    let urls: Vec<String> = sorted.iter().map(|e| e.url.clone()).collect();
    assert_eq!(names(&sorted), vec!["abra", "eevee", "eevee", "zubat"]);
    assert_eq!(urls[1], "first");
    assert_eq!(urls[2], "second");
}

#[test]
fn sort_puts_prefix_first() {
    let sorted = sort_by_name(vec![entry("pikachu-gmax"), entry("pikachu"), entry("pichu")]);
    assert_eq!(names(&sorted), vec!["pichu", "pikachu", "pikachu-gmax"]);
}

#[test]
fn names_compare_by_bytes() {
    assert!(names_in_order("abra", "bulbasaur"));
    assert!(!names_in_order("bulbasaur", "abra"));
    assert!(names_in_order("mew", "mew"));
    assert!(names_in_order("mew", "mewtwo"));
    assert!(!names_in_order("mewtwo", "mew"));
    assert!(names_in_order("", "a"));
    assert!(names_in_order("Zubat", "abra"));
}

#[test]
fn prefix_matches_bytes() {
    assert!(has_prefix("pikachu", "pik"));
    assert!(has_prefix("pikachu", ""));
    assert!(has_prefix("pikachu", "pikachu"));
    assert!(!has_prefix("pik", "pikachu"));
    assert!(!has_prefix("raichu", "pik"));
    assert!(!has_prefix("Pikachu", "pik"));
}

#[test]
fn prefix_filter_keeps_forms_in_order() {
    let all = vec![entry("pikachu"), entry("pikachu-gmax"), entry("raichu")];
    let kept = select_candidates(&all, "pik");
    assert_eq!(names(&kept), vec!["pikachu", "pikachu-gmax"]);
}

#[test]
fn prefix_filter_keeps_source_order() {
    let all = vec![entry("raichu"), entry("pikachu-gmax"), entry("pichu"), entry("pikachu")];
    let kept = select_candidates(&all, "pikachu");
    assert_eq!(names(&kept), vec!["pikachu-gmax", "pikachu"]);
}

#[test]
fn prefix_filter_on_empty_listing() {
    assert!(select_candidates(&vec![], "pik").is_empty());
    let all = vec![entry("raichu")];
    assert!(select_candidates(&all, "pik").is_empty());
}
