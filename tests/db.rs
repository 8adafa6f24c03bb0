use meal_review::db::{
    dish_query, new_dish_statement, new_restaurant_statement, new_review_statement,
    new_user_statement, DishProp, GetReviewProps, IdLookup, NewReviewProps, RestaurantSearchProps,
    ReviewerProp, SqlArg, Statement, UpdateRestaurantProps, ALL_RESTAURANTS, REVIEW_BY_DISH,
};

#[test]
fn test_add_new_review() {
    let user = new_user_statement(649191333, &"Avimitin".to_string());
    assert_eq!(user.args, vec![SqlArg::Int(649191333), SqlArg::Text("Avimitin".to_string())]);
    let expect = "KFC";
    let rest = new_restaurant_statement(&expect.to_string(), &"WuHan".to_string());
    assert_eq!(rest.args, vec![SqlArg::Text("KFC".to_string()), SqlArg::Text("WuHan".to_string())]);
    let all = RestaurantSearchProps::All.into_query_as();
    assert_eq!(all, Statement { sql: ALL_RESTAURANTS, args: vec![] });
    let dish = new_dish_statement(1, &"".to_string(), &None);
    assert_eq!(dish.args, vec![SqlArg::Int(1), SqlArg::Text("".to_string())]);

    let comment = "Very good chicken, love from WuHan";
    let prop = NewReviewProps {
        dish: DishProp::Id(1),
        reviewer: ReviewerProp::Id(649191333),
        details: comment.to_string(),
        score: 5,
    };
    assert_eq!(prop.reviewer.lookup(), IdLookup::Known(649191333));
    assert_eq!(prop.dish.lookup(), IdLookup::Known(1));
    let review = new_review_statement(649191333, 1, &prop.details, prop.score);
    assert_eq!(
        review.args,
        vec![
            SqlArg::Int(649191333),
            SqlArg::Int(1),
            SqlArg::Text(comment.to_string()),
            SqlArg::Int(5)
        ]
    );
    let get = GetReviewProps::by_dish(1).into_query().unwrap();
    assert_eq!(get, Statement { sql: REVIEW_BY_DISH, args: vec![SqlArg::Int(1)] });
}

#[test]
fn lookups_by_name_query() {
    match ReviewerProp::Name("Ann".to_string()).lookup() {
        IdLookup::Query(q) => {
            assert_eq!(q.sql, "SELECT id FROM author WHERE name = ?");
            assert_eq!(q.args, vec![SqlArg::Text("Ann".to_string())]);
        }
        IdLookup::Known(_) => panic!("a name needs a query"),
    }
    match DishProp::Name("Soup".to_string()).lookup() {
        IdLookup::Query(q) => assert_eq!(q.sql, "SELECT id FROM dish WHERE name = ?"),
        IdLookup::Known(_) => panic!("a name needs a query"),
    }
}

#[test]
fn review_query_prefers_id() {
    let both = GetReviewProps { id: Some(3), dish_id: Some(4) };
    let q = both.into_query().unwrap();
    assert_eq!(q.sql, "SELECT author, details, score FROM review WHERE id=?");
    assert_eq!(q.args, vec![SqlArg::Int(3)]);
    assert_eq!(GetReviewProps { id: None, dish_id: None }.into_query(), None);
    assert_eq!(GetReviewProps::by_id(8).into_query().unwrap().args, vec![SqlArg::Int(8)]);
}

#[test]
fn restaurant_queries() {
    let q = RestaurantSearchProps::Range(2, 5).into_query_as();
    assert_eq!(q.sql, "SELECT * FROM restaurant WHERE id BETWEEN ? AND ?");
    assert_eq!(q.args, vec![SqlArg::Int(2), SqlArg::Int(5)]);
    let q = RestaurantSearchProps::Id(9).into_query_as();
    assert_eq!(q.args, vec![SqlArg::Int(9)]);
    let q = UpdateRestaurantProps::UpdateName("N".to_string()).into_query(7);
    assert_eq!(q.sql, "UPDATE restaurant SET name=? WHERE id=?");
    assert_eq!(q.args, vec![SqlArg::Text("N".to_string()), SqlArg::Int(7)]);
    let q = UpdateRestaurantProps::UpdateAddr("A".to_string()).into_query(7);
    assert_eq!(q.sql, "UPDATE restaurant SET address=? WHERE id=?");
    let q = UpdateRestaurantProps::Delete.into_query(7);
    assert_eq!(q.sql, "DELETE FROM restaurant WHERE id=?");
    assert_eq!(q.args, vec![SqlArg::Int(7)]);
}

#[test]
fn dish_queries() {
    let q = dish_query(2, None);
    assert_eq!(q.sql, "SELECT * FROM dish WHERE restaurant=?");
    assert_eq!(q.args, vec![SqlArg::Int(2)]);
    let q = dish_query(2, Some(5));
    assert_eq!(q.sql, "SELECT * FROM dish WHERE id=?");
    assert_eq!(q.args, vec![SqlArg::Int(5)]);
    let q = new_dish_statement(2, &"Tea".to_string(), &Some("img".to_string()));
    assert_eq!(q.sql, "INSERT INTO dish (restaurant, name, image) VALUES (?, ?, ?)");
    assert_eq!(q.args.len(), 3);
}
