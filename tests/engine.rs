use meal_review::db::{Dish, Restaurant};
use meal_review::engine::{
    advance, parse_score, Button, ChatState, Input, Reply, Request, ScoreError, CANCELLED,
    DISH_CANCELLED, NEED_TEXT, NOT_A_NUMBER, SCORE_RANGE,
};
use meal_review::session::{route, SessionStore, Update};
use meal_review::settle::{Outcome, FAILED, NOT_FOUND, NO_DISHES};

fn text(t: &str) -> Update {
    Update::Text(t.to_string())
}

fn press(t: &str) -> Update {
    Update::Callback(t.to_string())
}

fn restaurant(id: i64, name: &str, address: &str) -> Restaurant {
    Restaurant { id, name: name.to_string(), address: address.to_string() }
}

/// Sends one update of chat 1 and answers its request, if any, with `answer`;
/// returns the request that was made and the replies.
fn exchange(store: &mut SessionStore, u: Update, answer: Outcome) -> (Option<Request>, Vec<Reply>) {
    let step = store.begin(1, &u);
    let request = step.request.clone();
    let replies = store.commit(1, step, answer);
    (request, replies)
}

#[test]
fn add_restaurant_end_to_end() {
    let mut store = SessionStore::new();
    let mut calls = Vec::new();
    let step = store.begin(1, &text("/rest add Joe's 5th Ave"));
    if let Some(r) = step.request.clone() {
        calls.push(r);
    }
    let replies = store.commit(1, step, Outcome::Done);
    assert_eq!(calls, vec![Request::AddRestaurant("Joe's".to_string(), "5th Ave".to_string())]);
    assert_eq!(replies, vec![Reply::Text("Added.".to_string())]);
    assert_eq!(store.get(1), ChatState::Idle);
}

#[test]
fn new_dish_flow_end_to_end() {
    let mut store = SessionStore::new();
    let mut calls = Vec::new();
    let (q, _) = exchange(&mut store, press("RestaurantMenu-7-new_dishes"), Outcome::Done);
    assert_eq!(q, None);
    assert_eq!(store.get(1), ChatState::AwaitingDishName(7));
    let (q, replies) = exchange(&mut store, text("Burger"), Outcome::Done);
    assert_eq!(q, None);
    assert_eq!(store.get(1), ChatState::AwaitingDishPhoto(7, "Burger".to_string()));
    assert_eq!(
        replies,
        vec![Reply::Text("Burger created, please send a picture, or just click /skip".to_string())]
    );
    let (q, replies) = exchange(&mut store, text("/skip"), Outcome::Done);
    calls.extend(q);
    assert_eq!(calls, vec![Request::AddDish(7, "Burger".to_string(), None)]);
    assert_eq!(replies, vec![Reply::Text("Dish added".to_string())]);
    assert_eq!(store.get(1), ChatState::Idle);
}

#[test]
fn dish_photo_completes_flow() {
    let s = ChatState::AwaitingDishPhoto(7, "Burger".to_string());
    let step = advance(&s, &Input::Photo("file-1".to_string()));
    assert_eq!(step.next, ChatState::Idle);
    assert_eq!(
        step.request,
        Some(Request::AddDish(7, "Burger".to_string(), Some("file-1".to_string())))
    );
}

fn flow_states() -> Vec<ChatState> {
    vec![
        ChatState::AwaitingDishName(1),
        ChatState::AwaitingDishPhoto(1, "Soup".to_string()),
        ChatState::AwaitingReviewText(2),
        ChatState::AwaitingReviewScore(2, "Nice".to_string()),
        ChatState::AwaitingRestaurantNameEdit(3),
        ChatState::AwaitingRestaurantAddressEdit(3),
    ]
}

#[test]
fn cancel_returns_to_idle_from_every_flow() {
    for s in flow_states() {
        let step = route(&s, &text("/cancel"));
        assert_eq!(step.next, ChatState::Idle);
        assert_eq!(step.request, None);
        let expected = match s {
            ChatState::AwaitingDishName(_) => DISH_CANCELLED,
            _ => CANCELLED,
        };
        assert_eq!(step.replies, vec![Reply::Text(expected.to_string())]);
    }
    let step = route(&ChatState::AwaitingDishName(1), &text("/cancel"));
    assert_eq!(step.replies, vec![Reply::Text("Cancelled".to_string())]);
    let step = route(&ChatState::AwaitingRestaurantNameEdit(1), &text("/cancel"));
    assert_eq!(step.replies, vec![Reply::Text("Process cancelled".to_string())]);
}

#[test]
fn review_text_may_be_empty() {
    let step = route(&ChatState::AwaitingReviewText(6), &text(""));
    assert_eq!(step.next, ChatState::AwaitingReviewScore(6, "".to_string()));
    assert_eq!(step.request, None);
    let step = route(&ChatState::AwaitingDishName(6), &text(""));
    assert_eq!(step.next, ChatState::AwaitingDishName(6));
}

#[test]
fn cancel_while_idle_does_nothing() {
    let step = route(&ChatState::Idle, &text("/cancel"));
    assert_eq!(step.next, ChatState::Idle);
    assert!(step.replies.is_empty());
}

#[test]
fn mismatched_input_keeps_state() {
    for s in flow_states() {
        let step = route(&s, &press("RestaurantMenu-7-new_dishes"));
        assert_eq!(step.next, s);
        assert_eq!(step.request, None);
        let step = route(&s, &Update::Other);
        assert_eq!(step.next, s);
        assert_eq!(step.request, None);
    }
    let s = ChatState::AwaitingDishName(4);
    let step = route(&s, &Update::Photo("f".to_string()));
    assert_eq!(step.next, s);
    assert_eq!(step.replies, vec![Reply::Text(NEED_TEXT.to_string())]);
    let s = ChatState::AwaitingDishPhoto(4, "Tea".to_string());
    let step = route(&s, &text("hello"));
    assert_eq!(step.next, s);
    let step = route(&ChatState::Idle, &text("just chatting"));
    assert_eq!(step.next, ChatState::Idle);
    assert!(step.replies.is_empty());
    let step = route(&ChatState::Idle, &Update::Photo("f".to_string()));
    assert_eq!(step.next, ChatState::Idle);
    assert!(step.replies.is_empty());
}

#[test]
fn bad_token_is_ignored() {
    let step = route(&ChatState::Idle, &press("RestaurantMenu-x-new_dishes"));
    assert_eq!(step.next, ChatState::Idle);
    assert!(step.replies.is_empty());
    assert_eq!(step.request, None);
    let step = route(&ChatState::Idle, &press("RestaurantMenu-1-delete"));
    assert_eq!(step.next, ChatState::Idle);
    assert!(step.replies.is_empty());
}

#[test]
fn score_boundaries() {
    assert_eq!(parse_score("0"), Ok(0));
    assert_eq!(parse_score("5"), Ok(5));
    assert_eq!(parse_score("-1"), Err(ScoreError::OutOfRange));
    assert_eq!(parse_score("6"), Err(ScoreError::OutOfRange));
    assert_eq!(parse_score("five"), Err(ScoreError::NotANumber));
    let s = ChatState::AwaitingReviewScore(9, "Tasty".to_string());
    for (t, score) in [("0", 0u8), ("5", 5u8)] {
        let step = route(&s, &text(t));
        assert_eq!(step.next, ChatState::Idle);
        assert_eq!(step.request, Some(Request::AddReview(9, "Tasty".to_string(), score)));
    }
    for t in ["-1", "6"] {
        let step = route(&s, &text(t));
        assert_eq!(step.next, s);
        assert_eq!(step.request, None);
        assert_eq!(step.replies, vec![Reply::Text(SCORE_RANGE.to_string())]);
    }
    let step = route(&s, &text("abc"));
    assert_eq!(step.next, s);
    assert_eq!(step.replies, vec![Reply::Text(NOT_A_NUMBER.to_string())]);
}

#[test]
fn review_flow() {
    let mut store = SessionStore::new();
    exchange(&mut store, text("/review 5"), Outcome::Done);
    assert_eq!(store.get(1), ChatState::AwaitingReviewText(5));
    exchange(&mut store, text("Crispy"), Outcome::Done);
    assert_eq!(store.get(1), ChatState::AwaitingReviewScore(5, "Crispy".to_string()));
    let (q, replies) = exchange(&mut store, text("4"), Outcome::Done);
    assert_eq!(q, Some(Request::AddReview(5, "Crispy".to_string(), 4)));
    assert_eq!(replies, vec![Reply::Text("New review added".to_string())]);
    assert_eq!(store.get(1), ChatState::Idle);
}

#[test]
fn failed_request_keeps_state() {
    let mut store = SessionStore::new();
    store.set(1, ChatState::AwaitingRestaurantNameEdit(3));
    let (q, replies) = exchange(&mut store, text("New Name"), Outcome::Failed);
    assert_eq!(q, Some(Request::RenameRestaurant(3, "New Name".to_string())));
    assert_eq!(replies, vec![Reply::Text(FAILED.to_string())]);
    assert_eq!(store.get(1), ChatState::AwaitingRestaurantNameEdit(3));
    let (_, replies) = exchange(&mut store, text("New Name"), Outcome::Done);
    assert_eq!(replies, vec![Reply::Text("Restaurant name is changed to New Name".to_string())]);
    assert_eq!(store.get(1), ChatState::Idle);
}

#[test]
fn address_edit_flow() {
    let mut store = SessionStore::new();
    exchange(&mut store, press("RestaurantFieldPicker-3-address"), Outcome::Done);
    assert_eq!(store.get(1), ChatState::AwaitingRestaurantAddressEdit(3));
    let (q, _) = exchange(&mut store, text("1 Main St"), Outcome::Done);
    assert_eq!(q, Some(Request::ReaddressRestaurant(3, "1 Main St".to_string())));
    assert_eq!(store.get(1), ChatState::Idle);
}

#[test]
fn edit_shows_menu_or_not_found() {
    let mut store = SessionStore::new();
    let (q, replies) = exchange(
        &mut store,
        text("/rest edit 3"),
        Outcome::Restaurants(vec![restaurant(3, "KFC", "WuHan")]),
    );
    assert_eq!(q, Some(Request::ShowRestaurant(3)));
    let b = |label: &str, token: &str| Button { label: label.to_string(), token: token.to_string() };
    assert_eq!(
        replies,
        vec![Reply::Buttons(
            "List of operation for: \n\nKFC WuHan".to_string(),
            vec![
                vec![
                    b("Update Restaurant", "RestaurantMenu-3-update"),
                    b("New Dish", "RestaurantMenu-3-new_dishes"),
                ],
                vec![
                    b("List Dishes", "RestaurantMenu-3-list_dishes"),
                    b("Delete", "RestaurantMenu-3-delete"),
                ],
            ],
        )]
    );
    let (_, replies) = exchange(&mut store, text("/rest edit 4"), Outcome::Restaurants(vec![]));
    assert_eq!(replies, vec![Reply::Text(NOT_FOUND.to_string())]);
    assert_eq!(store.get(1), ChatState::Idle);
}

#[test]
fn update_press_offers_field_picker() {
    let step = route(&ChatState::Idle, &press("RestaurantMenu-12-update"));
    let b = |label: &str, token: &str| Button { label: label.to_string(), token: token.to_string() };
    assert_eq!(
        step.replies,
        vec![Reply::Edit(
            "What you want to do with this restaurant".to_string(),
            vec![vec![
                b("Update Name", "RestaurantFieldPicker-12-name"),
                b("Update Address", "RestaurantFieldPicker-12-address"),
            ]],
        )]
    );
    assert_eq!(step.next, ChatState::Idle);
}

#[test]
fn list_dishes_press() {
    let mut store = SessionStore::new();
    let dishes = vec![
        Dish { id: 1, rid: 2, name: "Wings".to_string(), image: None },
        Dish { id: 4, rid: 2, name: "Fries".to_string(), image: Some("f".to_string()) },
    ];
    let (q, replies) = exchange(&mut store, press("RestaurantMenu-2-list_dishes"), Outcome::Dishes(dishes));
    assert_eq!(q, Some(Request::ListDishes(2)));
    assert_eq!(replies, vec![Reply::Text("* 1 Wings\n* 4 Fries\n".to_string())]);
    let (_, replies) = exchange(&mut store, press("RestaurantMenu-2-list_dishes"), Outcome::Dishes(vec![]));
    assert_eq!(replies, vec![Reply::Text(NO_DISHES.to_string())]);
}

#[test]
fn usage_hint_for_bad_command() {
    let step = route(&ChatState::Idle, &text("/rest add KFC"));
    assert_eq!(step.next, ChatState::Idle);
    assert_eq!(step.request, None);
    assert_eq!(step.replies, vec![Reply::Text("too less argument, usage: /rest add <name> <addr>".to_string())]);
}

#[test]
fn help_lists_commands() {
    let step = route(&ChatState::Idle, &text("/help"));
    match &step.replies[..] {
        [Reply::Text(t)] => assert!(t.contains("/rest") && t.contains("/review")),
        _ => panic!("one text reply expected"),
    }
}

#[test]
fn chats_are_independent() {
    let mut store = SessionStore::new();
    store.set(1, ChatState::AwaitingDishName(8));
    let step = store.begin(2, &text("/review 3"));
    store.commit(2, step, Outcome::Done);
    assert_eq!(store.get(1), ChatState::AwaitingDishName(8));
    assert_eq!(store.get(2), ChatState::AwaitingReviewText(3));
    store.set(1, ChatState::Idle);
    assert_eq!(store.get(1), ChatState::Idle);
}
