use meal_review::db::Restaurant;
use meal_review::search::{match_flags, search_restaurants, select_matches};
use meal_review::settle::{search_reply, NO_MATCH};

fn sample() -> Vec<Restaurant> {
    vec![
        Restaurant { id: 1, name: "KFC".to_string(), address: "WuHan".to_string() },
        Restaurant { id: 2, name: "McDonald's".to_string(), address: "Beijing".to_string() },
        Restaurant { id: 3, name: "Kebab".to_string(), address: "Berlin".to_string() },
    ]
}

#[test]
fn search_is_case_insensitive_and_ordered() {
    let rests = sample();
    assert_eq!(search_restaurants(&rests, "kfc"), vec![1]);
    assert_eq!(search_restaurants(&rests, "k"), vec![1, 3]);
    assert_eq!(search_restaurants(&rests, "k"), search_restaurants(&rests, "k"));
    assert_eq!(search_restaurants(&rests, "KFC"), vec![1]);
    assert_eq!(search_restaurants(&rests, "K"), vec![1, 3]);
    assert_eq!(search_restaurants(&rests, "kEbAb"), vec![3]);
    assert_eq!(search_restaurants(&rests, ""), vec![1, 2, 3]);
}

#[test]
fn search_is_fuzzy() {
    let rests = sample();
    assert_eq!(search_restaurants(&rests, "mcd"), vec![2]);
    assert_eq!(search_restaurants(&rests, "kbb"), vec![3]);
    assert_eq!(search_restaurants(&rests, "zzz"), Vec::<i64>::new());
    assert_eq!(search_restaurants(&rests, "cfk"), Vec::<i64>::new());
}

#[test]
fn select_keeps_flagged_in_order() {
    let rests = sample();
    assert_eq!(select_matches(&rests, &vec![true, false, true]), vec![1, 3]);
    assert_eq!(select_matches(&rests, &vec![false, false, false]), Vec::<i64>::new());
}

#[test]
fn search_reply_lists_matches() {
    let rests = sample();
    let flags = match_flags(&rests, "k");
    assert_eq!(flags, vec![true, false, true]);
    assert_eq!(search_reply(&rests, &flags), "1. KFC WuHan\n3. Kebab Berlin\n");
    assert_eq!(search_reply(&rests, &vec![false, false, false]), NO_MATCH);
}
