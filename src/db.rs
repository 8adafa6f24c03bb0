//! Catalogue records as the store hands them over, and the requests that
//! the store is sent.

use vstd::prelude::*;

verus! {

/// Who writes a review: a known author id, or a name to look up.
#[derive(Clone, Debug, PartialEq, Eq)]
pub enum ReviewerProp {
    Name(String),
    Id(i64),
}

/// Which dish a review is about: a known dish id, or a name to look up.
#[derive(Clone, Debug, PartialEq, Eq)]
pub enum DishProp {
    Id(i64),
    Name(String),
}

/// Everything a new review is made of.
#[derive(Clone, Debug, PartialEq, Eq)]
pub struct NewReviewProps {
    pub reviewer: ReviewerProp,
    pub dish: DishProp,
    pub details: String,
    pub score: u8,
}

/// A dish of a restaurant.
#[derive(Clone, Debug, PartialEq, Eq)]
pub struct Dish {
    pub id: i64,
    pub rid: i64,
    pub name: String,
    pub image: Option<String>,
}

/// How to find one review: by its own id, or by the dish it is about.
#[derive(Clone, Copy, Debug, PartialEq, Eq, Structural)]
pub struct GetReviewProps {
    pub id: Option<i64>,
    pub dish_id: Option<i64>,
}

/// A stored review.
#[derive(Clone, Debug, PartialEq, Eq)]
pub struct Review {
    pub reviewer: i64,
    pub score: u8,
    pub details: String,
}

/// A stored restaurant.
#[derive(Clone, Debug, PartialEq, Eq)]
pub struct Restaurant {
    pub name: String,
    pub id: i64,
    pub address: String,
}

/// Which restaurants to fetch.
#[derive(Clone, Copy, Debug, PartialEq, Eq, Structural)]
pub enum RestaurantSearchProps {
    /// Ids from the first to the second, both included.
    Range(i64, i64),
    Id(i64),
    All,
}

/// A change to one restaurant.
#[derive(Clone, Debug, PartialEq, Eq)]
pub enum UpdateRestaurantProps {
    UpdateName(String),
    UpdateAddr(String),
    Delete,
}

pub const INSERT_USER: &'static str = "INSERT INTO author (id, name) VALUES (?, ?)";

pub const INSERT_RESTAURANT: &'static str = "INSERT INTO restaurant (name, address) VALUES (?, ?)";

pub const INSERT_DISH_WITH_IMAGE: &'static str = "INSERT INTO dish (restaurant, name, image) VALUES (?, ?, ?)";

pub const INSERT_DISH: &'static str = "INSERT INTO dish (restaurant, name) VALUES (?, ?)";

pub const DISH_BY_ID: &'static str = "SELECT * FROM dish WHERE id=?";

pub const DISHES_OF_RESTAURANT: &'static str = "SELECT * FROM dish WHERE restaurant=?";

pub const REVIEWER_ID_BY_NAME: &'static str = "SELECT id FROM author WHERE name = ?";

pub const DISH_ID_BY_NAME: &'static str = "SELECT id FROM dish WHERE name = ?";

pub const INSERT_REVIEW: &'static str = "INSERT INTO review (author, dish, details, score) VALUES (?, ?, ?, ?)";

pub const REVIEW_BY_ID: &'static str = "SELECT author, details, score FROM review WHERE id=?";

pub const REVIEW_BY_DISH: &'static str = "SELECT author, details, score FROM review WHERE dish=?";

pub const RESTAURANTS_IN_RANGE: &'static str = "SELECT * FROM restaurant WHERE id BETWEEN ? AND ?";

pub const RESTAURANT_BY_ID: &'static str = "SELECT * FROM restaurant WHERE id=?";

pub const ALL_RESTAURANTS: &'static str = "SELECT * FROM restaurant";

pub const RENAME_RESTAURANT: &'static str = "UPDATE restaurant SET name=? WHERE id=?";

pub const READDRESS_RESTAURANT: &'static str = "UPDATE restaurant SET address=? WHERE id=?";

pub const DELETE_RESTAURANT: &'static str = "DELETE FROM restaurant WHERE id=?";

/// A value bound to a `?` of a statement.
#[derive(Clone, Debug, PartialEq, Eq)]
pub enum SqlArg {
    Int(i64),
    Text(String),
}

/// An SQL statement with the values of its `?`, in order.
#[derive(Clone, Debug, PartialEq, Eq)]
pub struct Statement {
    pub sql: &'static str,
    pub args: Vec<SqlArg>,
}

pub enum SqlArgView {
    Int(i64),
    Text(Seq<char>),
}

impl View for SqlArg {
    type V = SqlArgView;

    open spec fn view(&self) -> SqlArgView {
        match self {
            SqlArg::Int(i) => SqlArgView::Int(*i),
            SqlArg::Text(t) => SqlArgView::Text(t@),
        }
    }
}

impl View for Statement {
    type V = (Seq<char>, Seq<SqlArgView>);

    open spec fn view(&self) -> (Seq<char>, Seq<SqlArgView>) {
        (self.sql@, self.args@.map_values(|a: SqlArg| a@))
    }
}

/// How an id is had: known already, or read from the one row that a query returns.
#[derive(Clone, Debug, PartialEq, Eq)]
pub enum IdLookup {
    Known(i64),
    Query(Statement),
}

pub enum IdLookupView {
    Known(i64),
    Query((Seq<char>, Seq<SqlArgView>)),
}

impl View for IdLookup {
    type V = IdLookupView;

    open spec fn view(&self) -> IdLookupView {
        match self {
            IdLookup::Known(i) => IdLookupView::Known(*i),
            IdLookup::Query(q) => IdLookupView::Query(q@),
        }
    }
}

fn statement(sql: &'static str, args: Vec<SqlArg>) -> (r: Statement)
    ensures
        r.sql@ == sql@,
        r.args@ == args@,
{
    Statement { sql, args }
}

fn int_args(a: i64) -> (r: Vec<SqlArg>)
    ensures
        r@.map_values(|x: SqlArg| x@) == seq![SqlArgView::Int(a)],
{
    let mut v: Vec<SqlArg> = Vec::new();
    v.push(SqlArg::Int(a));
    assert(v@.map_values(|x: SqlArg| x@) =~= seq![SqlArgView::Int(a)]);
    v
}

fn text_arg(t: &String) -> (r: SqlArg)
    ensures
        r@ == SqlArgView::Text(t@),
{
    SqlArg::Text(t.clone())
}

impl ReviewerProp {
    /// How the author's id is had: given, or looked up by name.
    pub fn lookup(&self) -> (r: IdLookup)
        ensures
            r@ == match self {
                ReviewerProp::Id(id) => IdLookupView::Known(*id),
                ReviewerProp::Name(n) => IdLookupView::Query(
                    (REVIEWER_ID_BY_NAME@, seq![SqlArgView::Text(n@)]),
                ),
            },
    {
        match self {
            ReviewerProp::Id(id) => IdLookup::Known(*id),
            ReviewerProp::Name(n) => {
                let mut args: Vec<SqlArg> = Vec::new();
                args.push(text_arg(n));
                let q = statement(REVIEWER_ID_BY_NAME, args);
                assert(q@.1 =~= seq![SqlArgView::Text(n@)]);
                IdLookup::Query(q)
            },
        }
    }
}

impl DishProp {
    /// How the dish's id is had: given, or looked up by name.
    pub fn lookup(&self) -> (r: IdLookup)
        ensures
            r@ == match self {
                DishProp::Id(id) => IdLookupView::Known(*id),
                DishProp::Name(n) => IdLookupView::Query(
                    (DISH_ID_BY_NAME@, seq![SqlArgView::Text(n@)]),
                ),
            },
    {
        match self {
            DishProp::Id(id) => IdLookup::Known(*id),
            DishProp::Name(n) => {
                let mut args: Vec<SqlArg> = Vec::new();
                args.push(text_arg(n));
                let q = statement(DISH_ID_BY_NAME, args);
                assert(q@.1 =~= seq![SqlArgView::Text(n@)]);
                IdLookup::Query(q)
            },
        }
    }
}

/// Inserts a review author with this id and name.
pub fn new_user_statement(id: i64, name: &String) -> (r: Statement)
    ensures
        r@ == (INSERT_USER@, seq![SqlArgView::Int(id), SqlArgView::Text(name@)]),
{
    let mut args: Vec<SqlArg> = Vec::new();
    args.push(SqlArg::Int(id));
    args.push(text_arg(name));
    let r = statement(INSERT_USER, args);
    assert(r@.1 =~= seq![SqlArgView::Int(id), SqlArgView::Text(name@)]);
    r
}

/// Inserts a restaurant with this name and address.
pub fn new_restaurant_statement(name: &String, addr: &String) -> (r: Statement)
    ensures
        r@ == (INSERT_RESTAURANT@, seq![SqlArgView::Text(name@), SqlArgView::Text(addr@)]),
{
    let mut args: Vec<SqlArg> = Vec::new();
    args.push(text_arg(name));
    args.push(text_arg(addr));
    let r = statement(INSERT_RESTAURANT, args);
    assert(r@.1 =~= seq![SqlArgView::Text(name@), SqlArgView::Text(addr@)]);
    r
}

/// Inserts a dish of `restaurant`, with an image reference where one is given.
pub fn new_dish_statement(restaurant: i64, name: &String, image: &Option<String>) -> (r: Statement)
    ensures
        r@ == match image {
            Some(img) => (
                INSERT_DISH_WITH_IMAGE@,
                seq![SqlArgView::Int(restaurant), SqlArgView::Text(name@), SqlArgView::Text(img@)],
            ),
            None => (INSERT_DISH@, seq![SqlArgView::Int(restaurant), SqlArgView::Text(name@)]),
        },
{
    let mut args: Vec<SqlArg> = Vec::new();
    args.push(SqlArg::Int(restaurant));
    args.push(text_arg(name));
    match image {
        Some(img) => {
            args.push(text_arg(img));
            let r = statement(INSERT_DISH_WITH_IMAGE, args);
            assert(r@.1 =~= seq![
                SqlArgView::Int(restaurant),
                SqlArgView::Text(name@),
                SqlArgView::Text(img@),
            ]);
            r
        },
        None => {
            let r = statement(INSERT_DISH, args);
            assert(r@.1 =~= seq![SqlArgView::Int(restaurant), SqlArgView::Text(name@)]);
            r
        },
    }
}

/// Fetches one dish by id where one is given, else the dishes of `restaurant`.
pub fn dish_query(restaurant: i64, dish_id: Option<i64>) -> (r: Statement)
    ensures
        r@ == match dish_id {
            Some(d) => (DISH_BY_ID@, seq![SqlArgView::Int(d)]),
            None => (DISHES_OF_RESTAURANT@, seq![SqlArgView::Int(restaurant)]),
        },
{
    match dish_id {
        Some(d) => statement(DISH_BY_ID, int_args(d)),
        None => statement(DISHES_OF_RESTAURANT, int_args(restaurant)),
    }
}

/// Inserts a review, once the author's and the dish's ids are known.
pub fn new_review_statement(reviewer: i64, dish: i64, details: &String, score: u8) -> (r: Statement)
    ensures
        r@ == (
            INSERT_REVIEW@,
            seq![
                SqlArgView::Int(reviewer),
                SqlArgView::Int(dish),
                SqlArgView::Text(details@),
                SqlArgView::Int(score as i64),
            ],
        ),
{
    let mut args: Vec<SqlArg> = Vec::new();
    args.push(SqlArg::Int(reviewer));
    args.push(SqlArg::Int(dish));
    args.push(text_arg(details));
    args.push(SqlArg::Int(score as i64));
    let r = statement(INSERT_REVIEW, args);
    assert(r@.1 =~= seq![
        SqlArgView::Int(reviewer),
        SqlArgView::Int(dish),
        SqlArgView::Text(details@),
        SqlArgView::Int(score as i64),
    ]);
    r
}

impl GetReviewProps {
    /// Looks a review up by its own id.
    pub fn by_id(id: i64) -> (r: GetReviewProps)
        ensures
            r.id == Some(id),
            r.dish_id is None,
    {
        GetReviewProps { id: Some(id), dish_id: None }
    }

    /// Looks a review up by the dish it is about.
    pub fn by_dish(dish_id: i64) -> (r: GetReviewProps)
        ensures
            r.id is None,
            r.dish_id == Some(dish_id),
    {
        GetReviewProps { id: None, dish_id: Some(dish_id) }
    }

    /// The query for the review: by id first, else by dish; `None` when
    /// neither is set.
    pub fn into_query(self) -> (r: Option<Statement>)
        ensures
            match r {
                Some(q) => match self.id {
                    Some(id) => q@ == (REVIEW_BY_ID@, seq![SqlArgView::Int(id)]),
                    None => self.dish_id is Some && q@ == (
                        REVIEW_BY_DISH@,
                        seq![SqlArgView::Int(self.dish_id->Some_0)],
                    ),
                },
                None => self.id is None && self.dish_id is None,
            },
    {
        match self.id {
            Some(id) => Some(statement(REVIEW_BY_ID, int_args(id))),
            None => match self.dish_id {
                Some(d) => Some(statement(REVIEW_BY_DISH, int_args(d))),
                None => None,
            },
        }
    }
}

impl RestaurantSearchProps {
    /// The query that fetches the restaurants asked for.
    pub fn into_query_as(self) -> (r: Statement)
        ensures
            r@ == match self {
                RestaurantSearchProps::Range(s, e) => (
                    RESTAURANTS_IN_RANGE@,
                    seq![SqlArgView::Int(s), SqlArgView::Int(e)],
                ),
                RestaurantSearchProps::Id(id) => (RESTAURANT_BY_ID@, seq![SqlArgView::Int(id)]),
                RestaurantSearchProps::All => (ALL_RESTAURANTS@, Seq::<SqlArgView>::empty()),
            },
    {
        match self {
            RestaurantSearchProps::Range(s, e) => {
                let mut args: Vec<SqlArg> = Vec::new();
                args.push(SqlArg::Int(s));
                args.push(SqlArg::Int(e));
                let r = statement(RESTAURANTS_IN_RANGE, args);
                assert(r@.1 =~= seq![SqlArgView::Int(s), SqlArgView::Int(e)]);
                r
            },
            RestaurantSearchProps::Id(id) => statement(RESTAURANT_BY_ID, int_args(id)),
            RestaurantSearchProps::All => {
                let r = statement(ALL_RESTAURANTS, Vec::new());
                assert(r@.1 =~= Seq::<SqlArgView>::empty());
                r
            },
        }
    }
}

impl UpdateRestaurantProps {
    /// The statement that applies the change to restaurant `id`.
    pub fn into_query(self, id: i64) -> (r: Statement)
        ensures
            r@ == match self {
                UpdateRestaurantProps::UpdateName(n) => (
                    RENAME_RESTAURANT@,
                    seq![SqlArgView::Text(n@), SqlArgView::Int(id)],
                ),
                UpdateRestaurantProps::UpdateAddr(a) => (
                    READDRESS_RESTAURANT@,
                    seq![SqlArgView::Text(a@), SqlArgView::Int(id)],
                ),
                UpdateRestaurantProps::Delete => (DELETE_RESTAURANT@, seq![SqlArgView::Int(id)]),
            },
    {
        match self {
            UpdateRestaurantProps::UpdateName(n) => {
                let mut args: Vec<SqlArg> = Vec::new();
                args.push(SqlArg::Text(n));
                args.push(SqlArg::Int(id));
                let r = statement(RENAME_RESTAURANT, args);
                assert(r@.1 =~= seq![SqlArgView::Text(n@), SqlArgView::Int(id)]);
                r
            },
            UpdateRestaurantProps::UpdateAddr(a) => {
                let mut args: Vec<SqlArg> = Vec::new();
                args.push(SqlArg::Text(a));
                args.push(SqlArg::Int(id));
                let r = statement(READDRESS_RESTAURANT, args);
                assert(r@.1 =~= seq![SqlArgView::Text(a@), SqlArgView::Int(id)]);
                r
            },
            UpdateRestaurantProps::Delete => statement(DELETE_RESTAURANT, int_args(id)),
        }
    }
}

} // verus!
