//! What follows a catalogue request: the replies built from its result, and
//! whether the chat moves on or stays where it was.

use vstd::prelude::*;

use crate::codec::{token_text, Domain};
use crate::db::{Dish, Restaurant};
use crate::engine::{
    button, replies_view, ChatState, ChatStateView, KeyboardView, Reply, ReplyView, Request, RequestView,
    keyboard_view, Button, Step, StepView, VERB_DELETE, VERB_LIST_DISHES, VERB_NEW_DISHES, VERB_UPDATE,
};
use crate::search::{match_flags, match_flags_spec};
use crate::text::{int_text, push_int};

verus! {

pub const FAILED: &'static str = "Operation failed, please retry";

pub const NO_MATCH: &'static str = "No restaurant found";

pub const NO_DISHES: &'static str = "No dishes found";

pub const NOT_FOUND: &'static str = "Incorrect id, no restaurant found";

pub const MENU_TITLE: &'static str = "List of operation for: \n\n";

pub const LABEL_UPDATE: &'static str = "Update Restaurant";

pub const LABEL_NEW_DISH: &'static str = "New Dish";

pub const LABEL_LIST: &'static str = "List Dishes";

pub const LABEL_DELETE: &'static str = "Delete";

/// What the catalogue answered to a request.
#[derive(Clone, Debug, PartialEq, Eq)]
pub enum Outcome {
    /// A write succeeded.
    Done,
    /// The restaurants that were asked for.
    Restaurants(Vec<Restaurant>),
    /// The dishes that were asked for.
    Dishes(Vec<Dish>),
    /// The call failed.
    Failed,
}

/// One line of a search result: `id. name address`.
pub open spec fn restaurant_line(r: Restaurant) -> Seq<char> {
    int_text(r.id as int) + ". "@ + r.name@ + " "@ + r.address@ + "\n"@
}

/// The lines of the flagged restaurants, in order.
pub open spec fn listing(rs: Seq<Restaurant>, flags: Seq<bool>) -> Seq<char>
    decreases rs.len(),
{
    if rs.len() == 0 || flags.len() == 0 {
        Seq::empty()
    } else {
        listing(rs.drop_last(), flags.drop_last()) + if flags.last() {
            restaurant_line(rs.last())
        } else {
            Seq::empty()
        }
    }
}

/// The reply to a search: the matching restaurants, or a note that none matched.
pub open spec fn search_text(rs: Seq<Restaurant>, flags: Seq<bool>) -> Seq<char> {
    if listing(rs, flags).len() == 0 {
        NO_MATCH@
    } else {
        listing(rs, flags)
    }
}

/// One line of a dish list: `* id name`.
pub open spec fn dish_line(d: Dish) -> Seq<char> {
    "* "@ + int_text(d.id as int) + " "@ + d.name@ + "\n"@
}

pub open spec fn dish_lines(ds: Seq<Dish>) -> Seq<char>
    decreases ds.len(),
{
    if ds.len() == 0 {
        Seq::empty()
    } else {
        dish_lines(ds.drop_last()) + dish_line(ds.last())
    }
}

/// The reply to a dish list request.
pub open spec fn dish_text(ds: Seq<Dish>) -> Seq<char> {
    if ds.len() == 0 {
        NO_DISHES@
    } else {
        dish_lines(ds)
    }
}

/// The actions offered for restaurant `id`.
pub open spec fn menu_keyboard(id: i64) -> KeyboardView {
    seq![
        seq![
            (LABEL_UPDATE@, token_text(Domain::RestaurantMenu, id, VERB_UPDATE@)),
            (LABEL_NEW_DISH@, token_text(Domain::RestaurantMenu, id, VERB_NEW_DISHES@)),
        ],
        seq![
            (LABEL_LIST@, token_text(Domain::RestaurantMenu, id, VERB_LIST_DISHES@)),
            (LABEL_DELETE@, token_text(Domain::RestaurantMenu, id, VERB_DELETE@)),
        ],
    ]
}

/// The reply to a request for one restaurant: its menu of actions, or a
/// note that there is no such restaurant.
pub open spec fn menu_spec(rs: Seq<Restaurant>) -> ReplyView {
    if rs.len() == 0 || rs[0].id < 0 {
        ReplyView::Text(NOT_FOUND@)
    } else {
        ReplyView::Buttons(MENU_TITLE@ + rs[0].name@ + " "@ + rs[0].address@, menu_keyboard(rs[0].id))
    }
}

/// What a successful request adds to the replies: `None` when the outcome
/// is a failure or does not answer the request, else the reply it adds, if any.
pub open spec fn result_reply(q: RequestView, o: Outcome) -> Option<Option<ReplyView>> {
    match (q, o) {
        (RequestView::SearchRestaurants(p), Outcome::Restaurants(rs)) => Some(
            Some(ReplyView::Text(search_text(rs@, match_flags_spec(rs@, p)))),
        ),
        (RequestView::ShowRestaurant(_), Outcome::Restaurants(rs)) => Some(Some(menu_spec(rs@))),
        (RequestView::ListDishes(_), Outcome::Dishes(ds)) => Some(Some(ReplyView::Text(dish_text(ds@)))),
        (RequestView::AddRestaurant(_, _), Outcome::Done) => Some(None),
        (RequestView::RenameRestaurant(_, _), Outcome::Done) => Some(None),
        (RequestView::ReaddressRestaurant(_, _), Outcome::Done) => Some(None),
        (RequestView::AddDish(_, _, _), Outcome::Done) => Some(None),
        (RequestView::AddReview(_, _, _), Outcome::Done) => Some(None),
        _ => None,
    }
}

/// The state entered and the replies sent once a step's request, if any,
/// has been answered. On a failure the chat stays where it was, so that the
/// same step can be tried again.
pub open spec fn finish_spec(cur: ChatStateView, step: StepView, o: Outcome) -> (ChatStateView, Seq<ReplyView>) {
    match step.request {
        None => (step.next, step.replies),
        Some(q) => match result_reply(q, o) {
            None => (cur, seq![ReplyView::Text(FAILED@)]),
            Some(None) => (step.next, step.replies),
            Some(Some(r)) => (step.next, step.replies.push(r)),
        },
    }
}

/// The text of a search result, from the restaurants and which of them matched.
pub fn search_reply(rests: &Vec<Restaurant>, flags: &Vec<bool>) -> (r: String)
    requires
        rests.len() == flags.len(),
    ensures
        r@ == search_text(rests@, flags@),
{
    let mut out = String::new();
    let mut i: usize = 0;
    while i < rests.len()
        invariant
            i <= rests.len(),
            rests.len() == flags.len(),
            out@ == listing(rests@.subrange(0, i as int), flags@.subrange(0, i as int)),
        decreases rests.len() - i,
    {
        let ghost r0 = rests@.subrange(0, i as int);
        let ghost f0 = flags@.subrange(0, i as int);
        assert(rests@.subrange(0, i + 1).drop_last() =~= r0);
        assert(flags@.subrange(0, i + 1).drop_last() =~= f0);
        if flags[i] {
            let ghost before = out@;
            let r = &rests[i];
            push_int(&mut out, r.id);
            out.append(". ");
            out.append(r.name.as_str());
            out.append(" ");
            out.append(r.address.as_str());
            out.append("\n");
            assert(out@ =~= before + restaurant_line(*r));
        } else {
            assert(out@ =~= out@ + Seq::<char>::empty());
        }
        i = i + 1;
    }
    assert(rests@.subrange(0, rests.len() as int) =~= rests@);
    assert(flags@.subrange(0, flags.len() as int) =~= flags@);
    if out.as_str().unicode_len() == 0 {
        String::from_str(NO_MATCH)
    } else {
        out
    }
}

/// The text of a dish list.
pub fn dish_reply(dishes: &Vec<Dish>) -> (r: String)
    ensures
        r@ == dish_text(dishes@),
{
    if dishes.len() == 0 {
        return String::from_str(NO_DISHES);
    }
    let mut out = String::new();
    let mut i: usize = 0;
    while i < dishes.len()
        invariant
            i <= dishes.len(),
            out@ == dish_lines(dishes@.subrange(0, i as int)),
        decreases dishes.len() - i,
    {
        assert(dishes@.subrange(0, i + 1).drop_last() =~= dishes@.subrange(0, i as int));
        let ghost before = out@;
        let d = &dishes[i];
        out.append("* ");
        push_int(&mut out, d.id);
        out.append(" ");
        out.append(d.name.as_str());
        out.append("\n");
        assert(out@ =~= before + dish_line(*d));
        i = i + 1;
    }
    assert(dishes@.subrange(0, dishes.len() as int) =~= dishes@);
    out
}

fn menu_keyboard_exec(id: i64) -> (k: Vec<Vec<Button>>)
    requires
        id >= 0,
    ensures
        keyboard_view(k@) == menu_keyboard(id),
{
    proof {
        reveal_strlit("update");
        reveal_strlit("new_dishes");
        reveal_strlit("list_dishes");
        reveal_strlit("delete");
    }
    let mut first: Vec<Button> = Vec::new();
    first.push(button(LABEL_UPDATE, Domain::RestaurantMenu, id, VERB_UPDATE));
    first.push(button(LABEL_NEW_DISH, Domain::RestaurantMenu, id, VERB_NEW_DISHES));
    let mut second: Vec<Button> = Vec::new();
    second.push(button(LABEL_LIST, Domain::RestaurantMenu, id, VERB_LIST_DISHES));
    second.push(button(LABEL_DELETE, Domain::RestaurantMenu, id, VERB_DELETE));
    let mut k: Vec<Vec<Button>> = Vec::new();
    k.push(first);
    k.push(second);
    assert(keyboard_view(k@)[0] =~= menu_keyboard(id)[0]);
    assert(keyboard_view(k@)[1] =~= menu_keyboard(id)[1]);
    assert(keyboard_view(k@) =~= menu_keyboard(id));
    k
}

/// The reply to a request for one restaurant, from what the catalogue found.
pub fn menu_reply(rests: &Vec<Restaurant>) -> (r: Reply)
    ensures
        r@ == menu_spec(rests@),
{
    if rests.len() == 0 || rests[0].id < 0 {
        return Reply::Text(String::from_str(NOT_FOUND));
    }
    let r = &rests[0];
    let mut title = String::from_str(MENU_TITLE);
    title.append(r.name.as_str());
    title.append(" ");
    title.append(r.address.as_str());
    Reply::Buttons(title, menu_keyboard_exec(r.id))
}

/// Completes a step once its request, if any, has been answered: the state
/// to enter and the replies to send. The search reply goes through the
/// fuzzy matcher.
pub fn finish(current: &ChatState, step: Step, outcome: Outcome) -> (r: (ChatState, Vec<Reply>))
    ensures
        (r.0@, replies_view(r.1@)) == finish_spec(current@, step@, outcome),
{
    let Step { next, replies, request } = step;
    let q = match request {
        None => {
            return (next, replies);
        },
        Some(q) => q,
    };
    let extra: Option<Option<Reply>> = match (&q, &outcome) {
        (Request::SearchRestaurants(p), Outcome::Restaurants(rs)) => {
            let flags = match_flags(rs, p.as_str());
            Some(Some(Reply::Text(search_reply(rs, &flags))))
        },
        (Request::ShowRestaurant(_), Outcome::Restaurants(rs)) => Some(Some(menu_reply(rs))),
        (Request::ListDishes(_), Outcome::Dishes(ds)) => Some(Some(Reply::Text(dish_reply(ds)))),
        (Request::AddRestaurant(_, _), Outcome::Done) => Some(None),
        (Request::RenameRestaurant(_, _), Outcome::Done) => Some(None),
        (Request::ReaddressRestaurant(_, _), Outcome::Done) => Some(None),
        (Request::AddDish(_, _, _), Outcome::Done) => Some(None),
        (Request::AddReview(_, _, _), Outcome::Done) => Some(None),
        _ => None,
    };
    match extra {
        None => {
            let mut failed: Vec<Reply> = Vec::new();
            failed.push(Reply::Text(String::from_str(FAILED)));
            assert(replies_view(failed@) =~= seq![ReplyView::Text(FAILED@)]);
            (crate::engine::ChatState::duplicate(current), failed)
        },
        Some(None) => (next, replies),
        Some(Some(reply)) => {
            let mut replies = replies;
            let ghost before = replies@;
            replies.push(reply);
            assert(replies_view(replies@) =~= replies_view(before).push(reply@));
            (next, replies)
        },
    }
}

} // verus!
