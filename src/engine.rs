//! The conversation engine: from the state of one chat and an input, the
//! next state, the replies to send and at most one request to the catalogue.

use vstd::prelude::*;

use crate::codec::{is_ascii_text, token_for, token_text, CallbackAction, Domain, DELIMITER};
use crate::command::{AddRestaurantAction, Command, CommandView, RestActionView};
use crate::text::{free_of, i64_of, parse_i64, text_eq};

verus! {

pub const CANCEL: &'static str = "/cancel";

pub const SKIP: &'static str = "/skip";

pub const HELP_TEXT: &'static str = "Commands for operating the database\n\n/help - Display this help page\n/rest - Operate the restaurant: /rest add <name> <address>, /rest search <pattern>, /rest edit <id>\n/dish - Operate on dish\n/review - Review a dish: /review <dish id>\n/cancel - Leave the current step";

pub const CANCELLED: &'static str = "Process cancelled";

pub const DISH_CANCELLED: &'static str = "Cancelled";

pub const ADDED: &'static str = "Added.";

pub const REVIEW_PROMPT: &'static str = "Please send your review";

pub const DISH_NAME_PROMPT: &'static str = "Please send the name of the dish";

pub const FIELD_PROMPT: &'static str = "What you want to do with this restaurant";

pub const NEW_NAME_PROMPT: &'static str = "Please send the new name, press /cancel to cancel";

pub const NEW_ADDRESS_PROMPT: &'static str = "Please send the new address, press /cancel to cancel";

pub const NEED_TEXT: &'static str = "Please send a text message, or /cancel";

pub const PHOTO_PROMPT: &'static str = " created, please send a picture, or just click /skip";

pub const NEED_IMAGE_NOT_TEXT: &'static str = "Need Image, not text, /skip ?";

pub const NEED_IMAGE: &'static str = "Need images, please retry or /skip";

pub const DISH_ADDED: &'static str = "Dish added";

pub const NAME_CHANGED: &'static str = "Restaurant name is changed to ";

pub const ADDRESS_CHANGED: &'static str = "Restaurant address is changed to ";

pub const SCORE_PROMPT: &'static str = "Please send your rating for this dish, 0 - 5";

pub const NOT_A_NUMBER: &'static str = "Invalid number, please retry";

pub const SCORE_RANGE: &'static str = "Invalid number, please send 0, 1, 2, 3, 4 or 5";

pub const REVIEW_ADDED: &'static str = "New review added";

pub const LABEL_NAME: &'static str = "Update Name";

pub const LABEL_ADDRESS: &'static str = "Update Address";

pub const VERB_UPDATE: &'static str = "update";

pub const VERB_NEW_DISHES: &'static str = "new_dishes";

pub const VERB_LIST_DISHES: &'static str = "list_dishes";

pub const VERB_DELETE: &'static str = "delete";

pub const VERB_NAME: &'static str = "name";

pub const VERB_ADDRESS: &'static str = "address";

/// Where one chat stands in a multi-step flow.
#[derive(Clone, Debug, PartialEq, Eq)]
pub enum ChatState {
    Idle,
    /// Creating a dish of this restaurant: its name comes next.
    AwaitingDishName(i64),
    /// Creating a dish with this restaurant and name: a photo or `/skip` comes next.
    AwaitingDishPhoto(i64, String),
    /// Reviewing this dish: the text comes next.
    AwaitingReviewText(i64),
    /// Reviewing this dish with this text: the score comes next.
    AwaitingReviewScore(i64, String),
    /// Renaming this restaurant: the new name comes next.
    AwaitingRestaurantNameEdit(i64),
    /// Moving this restaurant: the new address comes next.
    AwaitingRestaurantAddressEdit(i64),
}

/// One input to the engine.
#[derive(Clone, Debug, PartialEq, Eq)]
pub enum Input {
    /// A parsed command, sent while no flow is under way.
    Command(Command),
    /// Free text, sent during a flow.
    Text(String),
    /// A photo, by the transport's file reference.
    Photo(String),
    /// A decoded button press.
    Callback(CallbackAction),
    /// Any other kind of message.
    Other,
}

/// An inline button: its label and its callback token.
#[derive(Clone, Debug, PartialEq, Eq)]
pub struct Button {
    pub label: String,
    pub token: String,
}

/// A message to the chat.
#[derive(Clone, Debug, PartialEq, Eq)]
pub enum Reply {
    Text(String),
    /// A text with rows of buttons under it.
    Buttons(String, Vec<Vec<Button>>),
    /// Replace the message whose button was pressed with this text and buttons.
    Edit(String, Vec<Vec<Button>>),
}

/// A call to the catalogue.
#[derive(Clone, Debug, PartialEq, Eq)]
pub enum Request {
    AddRestaurant(String, String),
    /// Fetch all restaurants, to match their names against the pattern.
    SearchRestaurants(String),
    /// Fetch the restaurant with this id, to offer its actions.
    ShowRestaurant(i64),
    ListDishes(i64),
    RenameRestaurant(i64, String),
    ReaddressRestaurant(i64, String),
    /// Restaurant, dish name and image reference.
    AddDish(i64, String, Option<String>),
    /// Dish, review text and score.
    AddReview(i64, String, u8),
}

/// What the engine decided for one input. The replies are sent and the
/// state is entered once the request, if any, has succeeded.
#[derive(Clone, Debug, PartialEq, Eq)]
pub struct Step {
    pub next: ChatState,
    pub replies: Vec<Reply>,
    pub request: Option<Request>,
}

/// Why a score was refused.
#[derive(Clone, Copy, Debug, PartialEq, Eq, Structural)]
pub enum ScoreError {
    NotANumber,
    OutOfRange,
}

pub enum ChatStateView {
    Idle,
    AwaitingDishName(i64),
    AwaitingDishPhoto(i64, Seq<char>),
    AwaitingReviewText(i64),
    AwaitingReviewScore(i64, Seq<char>),
    AwaitingRestaurantNameEdit(i64),
    AwaitingRestaurantAddressEdit(i64),
}

pub enum InputView {
    Command(CommandView),
    Text(Seq<char>),
    Photo(Seq<char>),
    Callback(Domain, i64, Seq<char>),
    Other,
}

pub type KeyboardView = Seq<Seq<(Seq<char>, Seq<char>)>>;

pub enum ReplyView {
    Text(Seq<char>),
    Buttons(Seq<char>, KeyboardView),
    Edit(Seq<char>, KeyboardView),
}

pub enum RequestView {
    AddRestaurant(Seq<char>, Seq<char>),
    SearchRestaurants(Seq<char>),
    ShowRestaurant(i64),
    ListDishes(i64),
    RenameRestaurant(i64, Seq<char>),
    ReaddressRestaurant(i64, Seq<char>),
    AddDish(i64, Seq<char>, Option<Seq<char>>),
    AddReview(i64, Seq<char>, u8),
}

pub struct StepView {
    pub next: ChatStateView,
    pub replies: Seq<ReplyView>,
    pub request: Option<RequestView>,
}

impl View for ChatState {
    type V = ChatStateView;

    open spec fn view(&self) -> ChatStateView {
        match self {
            ChatState::Idle => ChatStateView::Idle,
            ChatState::AwaitingDishName(r) => ChatStateView::AwaitingDishName(*r),
            ChatState::AwaitingDishPhoto(r, n) => ChatStateView::AwaitingDishPhoto(*r, n@),
            ChatState::AwaitingReviewText(d) => ChatStateView::AwaitingReviewText(*d),
            ChatState::AwaitingReviewScore(d, t) => ChatStateView::AwaitingReviewScore(*d, t@),
            ChatState::AwaitingRestaurantNameEdit(r) => ChatStateView::AwaitingRestaurantNameEdit(*r),
            ChatState::AwaitingRestaurantAddressEdit(r) => ChatStateView::AwaitingRestaurantAddressEdit(
                *r,
            ),
        }
    }
}

impl View for Input {
    type V = InputView;

    open spec fn view(&self) -> InputView {
        match self {
            Input::Command(c) => InputView::Command(c@),
            Input::Text(t) => InputView::Text(t@),
            Input::Photo(f) => InputView::Photo(f@),
            Input::Callback(a) => InputView::Callback(a.domain, a.subject_id, a.verb@),
            Input::Other => InputView::Other,
        }
    }
}

pub open spec fn keyboard_view(k: Seq<Vec<Button>>) -> KeyboardView {
    k.map_values(|row: Vec<Button>| row@.map_values(|b: Button| (b.label@, b.token@)))
}

impl View for Reply {
    type V = ReplyView;

    open spec fn view(&self) -> ReplyView {
        match self {
            Reply::Text(t) => ReplyView::Text(t@),
            Reply::Buttons(t, k) => ReplyView::Buttons(t@, keyboard_view(k@)),
            Reply::Edit(t, k) => ReplyView::Edit(t@, keyboard_view(k@)),
        }
    }
}

impl View for Request {
    type V = RequestView;

    open spec fn view(&self) -> RequestView {
        match self {
            Request::AddRestaurant(n, a) => RequestView::AddRestaurant(n@, a@),
            Request::SearchRestaurants(p) => RequestView::SearchRestaurants(p@),
            Request::ShowRestaurant(id) => RequestView::ShowRestaurant(*id),
            Request::ListDishes(id) => RequestView::ListDishes(*id),
            Request::RenameRestaurant(id, n) => RequestView::RenameRestaurant(*id, n@),
            Request::ReaddressRestaurant(id, a) => RequestView::ReaddressRestaurant(*id, a@),
            Request::AddDish(r, n, img) => RequestView::AddDish(
                *r,
                n@,
                match img {
                    Some(f) => Some(f@),
                    None => None,
                },
            ),
            Request::AddReview(d, t, s) => RequestView::AddReview(*d, t@, *s),
        }
    }
}

pub open spec fn replies_view(rs: Seq<Reply>) -> Seq<ReplyView> {
    rs.map_values(|r: Reply| r@)
}

impl View for Step {
    type V = StepView;

    open spec fn view(&self) -> StepView {
        StepView {
            next: self.next@,
            replies: replies_view(self.replies@),
            request: match self.request {
                Some(q) => Some(q@),
                None => None,
            },
        }
    }
}

pub open spec fn step_of(
    next: ChatStateView,
    replies: Seq<ReplyView>,
    request: Option<RequestView>,
) -> StepView {
    StepView { next, replies, request }
}

/// Nothing happens: the state stays, nothing is sent or asked.
pub open spec fn unchanged(s: ChatStateView) -> StepView {
    step_of(s, Seq::empty(), None)
}

/// Go to `s` (or stay there) and say `text`.
pub open spec fn say(s: ChatStateView, text: Seq<char>) -> StepView {
    step_of(s, seq![ReplyView::Text(text)], None)
}

/// What a score text reads as: a whole number from 0 to 5.
pub open spec fn score_spec(t: Seq<char>) -> Result<u8, ScoreError> {
    match i64_of(t) {
        None => Err(ScoreError::NotANumber),
        Some(v) => if 0 <= v && v <= 5 {
            Ok(v as u8)
        } else {
            Err(ScoreError::OutOfRange)
        },
    }
}

/// The buttons that pick the field of restaurant `id` to edit.
pub open spec fn field_keyboard(id: i64) -> KeyboardView {
    seq![
        seq![
            (LABEL_NAME@, token_text(Domain::RestaurantFieldPicker, id, VERB_NAME@)),
            (LABEL_ADDRESS@, token_text(Domain::RestaurantFieldPicker, id, VERB_ADDRESS@)),
        ],
    ]
}

/// What a command does, sent while no flow is under way.
pub open spec fn command_step(c: CommandView) -> StepView {
    match c {
        CommandView::Help => say(ChatStateView::Idle, HELP_TEXT@),
        CommandView::Cancel => unchanged(ChatStateView::Idle),
        CommandView::Dish => unchanged(ChatStateView::Idle),
        CommandView::Rest(RestActionView::Add(n, a)) => step_of(
            ChatStateView::Idle,
            seq![ReplyView::Text(ADDED@)],
            Some(RequestView::AddRestaurant(n, a)),
        ),
        CommandView::Rest(RestActionView::Search(p)) => step_of(
            ChatStateView::Idle,
            Seq::empty(),
            Some(RequestView::SearchRestaurants(p)),
        ),
        CommandView::Rest(RestActionView::Edit(id)) => step_of(
            ChatStateView::Idle,
            Seq::empty(),
            Some(RequestView::ShowRestaurant(id)),
        ),
        CommandView::Review(d) => say(ChatStateView::AwaitingReviewText(d), REVIEW_PROMPT@),
    }
}

/// What a button press does while no flow is under way. A verb that the
/// domain does not know is ignored.
pub open spec fn callback_step(dm: Domain, id: i64, verb: Seq<char>) -> StepView {
    if id < 0 {
        unchanged(ChatStateView::Idle)
    } else {
        match dm {
            Domain::RestaurantMenu => if verb == VERB_NEW_DISHES@ {
                say(ChatStateView::AwaitingDishName(id), DISH_NAME_PROMPT@)
            } else if verb == VERB_LIST_DISHES@ {
                step_of(ChatStateView::Idle, Seq::empty(), Some(RequestView::ListDishes(id)))
            } else if verb == VERB_UPDATE@ {
                step_of(
                    ChatStateView::Idle,
                    seq![ReplyView::Edit(FIELD_PROMPT@, field_keyboard(id))],
                    None,
                )
            } else {
                unchanged(ChatStateView::Idle)
            },
            Domain::RestaurantFieldPicker => if verb == VERB_NAME@ {
                say(ChatStateView::AwaitingRestaurantNameEdit(id), NEW_NAME_PROMPT@)
            } else if verb == VERB_ADDRESS@ {
                say(ChatStateView::AwaitingRestaurantAddressEdit(id), NEW_ADDRESS_PROMPT@)
            } else {
                unchanged(ChatStateView::Idle)
            },
        }
    }
}

/// What a text does during a flow (other than `/cancel`).
pub open spec fn text_step(s: ChatStateView, t: Seq<char>) -> StepView {
    match s {
        ChatStateView::Idle => unchanged(s),
        ChatStateView::AwaitingDishName(rid) => if t.len() > 0 {
            say(ChatStateView::AwaitingDishPhoto(rid, t), t + PHOTO_PROMPT@)
        } else {
            say(s, NEED_TEXT@)
        },
        ChatStateView::AwaitingDishPhoto(rid, name) => if t == SKIP@ {
            step_of(
                ChatStateView::Idle,
                seq![ReplyView::Text(DISH_ADDED@)],
                Some(RequestView::AddDish(rid, name, None)),
            )
        } else {
            say(s, NEED_IMAGE_NOT_TEXT@)
        },
        ChatStateView::AwaitingReviewText(d) => say(
            ChatStateView::AwaitingReviewScore(d, t),
            SCORE_PROMPT@,
        ),
        ChatStateView::AwaitingReviewScore(d, text) => match score_spec(t) {
            Ok(v) => step_of(
                ChatStateView::Idle,
                seq![ReplyView::Text(REVIEW_ADDED@)],
                Some(RequestView::AddReview(d, text, v)),
            ),
            Err(ScoreError::NotANumber) => say(s, NOT_A_NUMBER@),
            Err(ScoreError::OutOfRange) => say(s, SCORE_RANGE@),
        },
        ChatStateView::AwaitingRestaurantNameEdit(r) => if t.len() > 0 {
            step_of(
                ChatStateView::Idle,
                seq![ReplyView::Text(NAME_CHANGED@ + t)],
                Some(RequestView::RenameRestaurant(r, t)),
            )
        } else {
            say(s, NEED_TEXT@)
        },
        ChatStateView::AwaitingRestaurantAddressEdit(r) => if t.len() > 0 {
            step_of(
                ChatStateView::Idle,
                seq![ReplyView::Text(ADDRESS_CHANGED@ + t)],
                Some(RequestView::ReaddressRestaurant(r, t)),
            )
        } else {
            say(s, NEED_TEXT@)
        },
    }
}

/// What an input other than `/cancel` does during a flow. Button presses
/// and commands are ignored; a photo only completes a dish.
pub open spec fn flow_step(s: ChatStateView, i: InputView) -> StepView {
    match i {
        InputView::Text(t) => text_step(s, t),
        InputView::Photo(f) => match s {
            ChatStateView::AwaitingDishPhoto(rid, name) => step_of(
                ChatStateView::Idle,
                seq![ReplyView::Text(DISH_ADDED@)],
                Some(RequestView::AddDish(rid, name, Some(f))),
            ),
            _ => say(s, NEED_TEXT@),
        },
        InputView::Other => match s {
            ChatStateView::AwaitingDishPhoto(_, _) => say(s, NEED_IMAGE@),
            _ => say(s, NEED_TEXT@),
        },
        _ => unchanged(s),
    }
}

/// What `/cancel` says on leaving a flow.
pub open spec fn cancel_text(s: ChatStateView) -> Seq<char> {
    if s is AwaitingDishName {
        DISH_CANCELLED@
    } else {
        CANCELLED@
    }
}

pub open spec fn is_cancel(i: InputView) -> bool {
    i == InputView::Text(CANCEL@)
}

/// The transition of one chat on one input.
pub open spec fn advance_spec(s: ChatStateView, i: InputView) -> StepView {
    match s {
        ChatStateView::Idle => match i {
            InputView::Command(c) => command_step(c),
            InputView::Callback(dm, id, verb) => callback_step(dm, id, verb),
            _ => unchanged(s),
        },
        _ => if is_cancel(i) {
            say(ChatStateView::Idle, cancel_text(s))
        } else {
            flow_step(s, i)
        },
    }
}

/// Whether a state takes inputs of this shape: `Idle` takes commands and
/// button presses; a dish waiting for its photo takes a photo, `/skip` or
/// `/cancel`; every other flow takes text.
pub open spec fn accepts(s: ChatStateView, i: InputView) -> bool {
    match s {
        ChatStateView::Idle => i is Command || i is Callback,
        ChatStateView::AwaitingDishPhoto(_, _) => is_cancel(i) || i == InputView::Text(SKIP@)
            || i is Photo,
        _ => i is Text,
    }
}

/// An input whose shape the state does not take leaves the state as it is
/// and asks nothing of the catalogue.
pub proof fn lemma_confinement(s: ChatStateView, i: InputView)
    requires
        !accepts(s, i),
    ensures
        advance_spec(s, i).next == s,
        advance_spec(s, i).request is None,
{
}

fn text_of(t: &str) -> (r: String)
    ensures
        r@ == t@,
{
    String::from_str(t)
}

fn say_exec(next: ChatState, text: String) -> (r: Step)
    ensures
        r@ == say(next@, text@),
{
    let mut replies: Vec<Reply> = Vec::new();
    replies.push(Reply::Text(text));
    let r = Step { next, replies, request: None };
    assert(r@.replies =~= seq![ReplyView::Text(text@)]);
    r
}

pub(crate) fn unchanged_exec(s: ChatState) -> (r: Step)
    ensures
        r@ == unchanged(s@),
{
    let r = Step { next: s, replies: Vec::new(), request: None };
    assert(r@.replies =~= Seq::<ReplyView>::empty());
    r
}

fn request_exec(text: Option<String>, q: Request) -> (r: Step)
    ensures
        r@ == step_of(
            ChatStateView::Idle,
            match text {
                Some(t) => seq![ReplyView::Text(t@)],
                None => Seq::empty(),
            },
            Some(q@),
        ),
{
    let mut replies: Vec<Reply> = Vec::new();
    match text {
        Some(t) => {
            replies.push(Reply::Text(t));
        },
        None => {},
    }
    let r = Step { next: ChatState::Idle, replies, request: Some(q) };
    assert(r@.replies =~= match text {
        Some(t) => seq![ReplyView::Text(t@)],
        None => Seq::<ReplyView>::empty(),
    });
    r
}

/// Reads a score: a whole number from 0 to 5.
pub fn parse_score(t: &str) -> (r: Result<u8, ScoreError>)
    ensures
        r == score_spec(t@),
{
    match parse_i64(t) {
        None => Err(ScoreError::NotANumber),
        Some(v) => if 0 <= v && v <= 5 {
            Ok(v as u8)
        } else {
            Err(ScoreError::OutOfRange)
        },
    }
}

pub(crate) fn button(label: &str, domain: Domain, id: i64, verb: &str) -> (b: Button)
    requires
        id >= 0,
        free_of(verb@, DELIMITER),
        is_ascii_text(verb@),
        verb@.len() <= 22,
    ensures
        b.label@ == label@,
        b.token@ == token_text(domain, id, verb@),
{
    Button { label: String::from_str(label), token: token_for(domain, id, verb) }
}

fn field_keyboard_exec(id: i64) -> (k: Vec<Vec<Button>>)
    requires
        id >= 0,
    ensures
        keyboard_view(k@) == field_keyboard(id),
{
    proof {
        reveal_strlit("name");
        reveal_strlit("address");
    }
    let mut row: Vec<Button> = Vec::new();
    row.push(button(LABEL_NAME, Domain::RestaurantFieldPicker, id, VERB_NAME));
    row.push(button(LABEL_ADDRESS, Domain::RestaurantFieldPicker, id, VERB_ADDRESS));
    let mut k: Vec<Vec<Button>> = Vec::new();
    k.push(row);
    assert(keyboard_view(k@)[0] =~= field_keyboard(id)[0]);
    assert(keyboard_view(k@) =~= field_keyboard(id));
    k
}

fn command_exec(c: &Command) -> (r: Step)
    ensures
        r@ == command_step(c@),
{
    match c {
        Command::Help => say_exec(ChatState::Idle, text_of(HELP_TEXT)),
        Command::Cancel => unchanged_exec(ChatState::Idle),
        Command::Dish => unchanged_exec(ChatState::Idle),
        Command::Rest(AddRestaurantAction::Add(n, a)) => request_exec(
            Some(text_of(ADDED)),
            Request::AddRestaurant(n.clone(), a.clone()),
        ),
        Command::Rest(AddRestaurantAction::Search(p)) => request_exec(
            None,
            Request::SearchRestaurants(p.clone()),
        ),
        Command::Rest(AddRestaurantAction::Edit(id)) => request_exec(
            None,
            Request::ShowRestaurant(*id),
        ),
        Command::Review(d) => say_exec(ChatState::AwaitingReviewText(*d), text_of(REVIEW_PROMPT)),
    }
}

fn callback_exec(a: &CallbackAction) -> (r: Step)
    ensures
        r@ == callback_step(a.domain, a.subject_id, a.verb@),
{
    let id = a.subject_id;
    if id < 0 {
        return unchanged_exec(ChatState::Idle);
    }
    let verb = a.verb.as_str();
    match a.domain {
        Domain::RestaurantMenu => if text_eq(verb, VERB_NEW_DISHES) {
            say_exec(ChatState::AwaitingDishName(id), text_of(DISH_NAME_PROMPT))
        } else if text_eq(verb, VERB_LIST_DISHES) {
            request_exec(None, Request::ListDishes(id))
        } else if text_eq(verb, VERB_UPDATE) {
            let mut replies: Vec<Reply> = Vec::new();
            replies.push(Reply::Edit(text_of(FIELD_PROMPT), field_keyboard_exec(id)));
            let r = Step { next: ChatState::Idle, replies, request: None };
            assert(r@.replies =~= seq![ReplyView::Edit(FIELD_PROMPT@, field_keyboard(id))]);
            r
        } else {
            unchanged_exec(ChatState::Idle)
        },
        Domain::RestaurantFieldPicker => if text_eq(verb, VERB_NAME) {
            say_exec(ChatState::AwaitingRestaurantNameEdit(id), text_of(NEW_NAME_PROMPT))
        } else if text_eq(verb, VERB_ADDRESS) {
            say_exec(ChatState::AwaitingRestaurantAddressEdit(id), text_of(NEW_ADDRESS_PROMPT))
        } else {
            unchanged_exec(ChatState::Idle)
        },
    }
}

fn copy_state(s: &ChatState) -> (r: ChatState)
    ensures
        r@ == s@,
{
    match s {
        ChatState::Idle => ChatState::Idle,
        ChatState::AwaitingDishName(r) => ChatState::AwaitingDishName(*r),
        ChatState::AwaitingDishPhoto(r, n) => ChatState::AwaitingDishPhoto(*r, n.clone()),
        ChatState::AwaitingReviewText(d) => ChatState::AwaitingReviewText(*d),
        ChatState::AwaitingReviewScore(d, t) => ChatState::AwaitingReviewScore(*d, t.clone()),
        ChatState::AwaitingRestaurantNameEdit(r) => ChatState::AwaitingRestaurantNameEdit(*r),
        ChatState::AwaitingRestaurantAddressEdit(r) => ChatState::AwaitingRestaurantAddressEdit(*r),
    }
}

impl ChatState {
    /// A copy of the state.
    pub fn duplicate(&self) -> (r: ChatState)
        ensures
            r@ == self@,
    {
        copy_state(self)
    }
}

fn concat(a: &str, b: &str) -> (r: String)
    ensures
        r@ == a@ + b@,
{
    let mut r = String::from_str(a);
    r.append(b);
    r
}

fn text_exec(s: &ChatState, t: &String) -> (r: Step)
    requires
        !(s@ is Idle),
    ensures
        r@ == text_step(s@, t@),
{
    let nonempty = t.as_str().unicode_len() > 0;
    match s {
        ChatState::Idle => unchanged_exec(ChatState::Idle),
        ChatState::AwaitingDishName(rid) => if nonempty {
            say_exec(ChatState::AwaitingDishPhoto(*rid, t.clone()), concat(t.as_str(), PHOTO_PROMPT))
        } else {
            say_exec(copy_state(s), text_of(NEED_TEXT))
        },
        ChatState::AwaitingDishPhoto(rid, name) => if text_eq(t.as_str(), SKIP) {
            request_exec(Some(text_of(DISH_ADDED)), Request::AddDish(*rid, name.clone(), None))
        } else {
            say_exec(copy_state(s), text_of(NEED_IMAGE_NOT_TEXT))
        },
        ChatState::AwaitingReviewText(d) => say_exec(
            ChatState::AwaitingReviewScore(*d, t.clone()),
            text_of(SCORE_PROMPT),
        ),
        ChatState::AwaitingReviewScore(d, text) => match parse_score(t.as_str()) {
            Ok(v) => request_exec(Some(text_of(REVIEW_ADDED)), Request::AddReview(*d, text.clone(), v)),
            Err(ScoreError::NotANumber) => say_exec(copy_state(s), text_of(NOT_A_NUMBER)),
            Err(ScoreError::OutOfRange) => say_exec(copy_state(s), text_of(SCORE_RANGE)),
        },
        ChatState::AwaitingRestaurantNameEdit(r) => if nonempty {
            request_exec(Some(concat(NAME_CHANGED, t.as_str())), Request::RenameRestaurant(*r, t.clone()))
        } else {
            say_exec(copy_state(s), text_of(NEED_TEXT))
        },
        ChatState::AwaitingRestaurantAddressEdit(r) => if nonempty {
            request_exec(
                Some(concat(ADDRESS_CHANGED, t.as_str())),
                Request::ReaddressRestaurant(*r, t.clone()),
            )
        } else {
            say_exec(copy_state(s), text_of(NEED_TEXT))
        },
    }
}

/// Advances one chat by one input.
pub fn advance(s: &ChatState, i: &Input) -> (r: Step)
    ensures
        r@ == advance_spec(s@, i@),
{
    match s {
        ChatState::Idle => match i {
            Input::Command(c) => command_exec(c),
            Input::Callback(a) => callback_exec(a),
            _ => unchanged_exec(ChatState::Idle),
        },
        _ => {
            let cancel = match i {
                Input::Text(t) => text_eq(t.as_str(), CANCEL),
                _ => false,
            };
            if cancel {
                let reply = match s {
                    ChatState::AwaitingDishName(_) => text_of(DISH_CANCELLED),
                    _ => text_of(CANCELLED),
                };
                return say_exec(ChatState::Idle, reply);
            }
            match i {
                Input::Text(t) => text_exec(s, t),
                Input::Photo(f) => match s {
                    ChatState::AwaitingDishPhoto(rid, name) => request_exec(
                        Some(text_of(DISH_ADDED)),
                        Request::AddDish(*rid, name.clone(), Some(f.clone())),
                    ),
                    _ => say_exec(copy_state(s), text_of(NEED_TEXT)),
                },
                Input::Other => match s {
                    ChatState::AwaitingDishPhoto(_, _) => say_exec(copy_state(s), text_of(NEED_IMAGE)),
                    _ => say_exec(copy_state(s), text_of(NEED_TEXT)),
                },
                _ => unchanged_exec(copy_state(s)),
            }
        },
    }
}

} // verus!
