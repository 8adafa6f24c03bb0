use meal_review::command::{parse, AddRestaurantAction, Command, ParseError, ADD_USAGE, NUMBER_HINT};

#[test]
fn parse_rest_add_keeps_rest_of_line_as_address() {
    let c = parse("/rest add Joe's 5th Ave").unwrap();
    assert_eq!(
        c,
        Command::Rest(AddRestaurantAction::Add("Joe's".to_string(), "5th Ave".to_string()))
    );
}

#[test]
fn parse_rest_search_and_edit() {
    assert_eq!(
        parse("/rest search kfc").unwrap(),
        Command::Rest(AddRestaurantAction::Search("kfc".to_string()))
    );
    assert_eq!(parse("/rest edit 12").unwrap(), Command::Rest(AddRestaurantAction::Edit(12)));
}

#[test]
fn parse_simple_commands() {
    assert_eq!(parse("/help").unwrap(), Command::Help);
    assert_eq!(parse("/cancel").unwrap(), Command::Cancel);
    assert_eq!(parse("/dish").unwrap(), Command::Dish);
    assert_eq!(parse("/review 4").unwrap(), Command::Review(4));
}

#[test]
fn parse_too_few_arguments() {
    assert_eq!(parse("/rest add KFC"), Err(ParseError::TooFewArguments(ADD_USAGE.to_string())));
    assert_eq!(
        parse("/rest add KFC"),
        Err(ParseError::TooFewArguments(
            "too less argument, usage: /rest add <name> <addr>".to_string()
        ))
    );
    let too_few = Err(ParseError::TooFewArguments("too less argument".to_string()));
    assert_eq!(parse("/rest"), too_few);
    assert_eq!(parse("/rest search"), too_few);
    assert_eq!(parse("/rest edit"), too_few);
    assert_eq!(
        parse("/review"),
        Err(ParseError::TooFewArguments("Usage: /review <Dish ID>".to_string()))
    );
}

#[test]
fn parse_invalid_arguments() {
    assert_eq!(parse("/rest edit abc"), Err(ParseError::InvalidArgument(NUMBER_HINT.to_string())));
    assert_eq!(
        parse("/rest edit abc"),
        Err(ParseError::InvalidArgument("Can not parse your argument into number".to_string()))
    );
    assert_eq!(
        parse("/rest remove 1"),
        Err(ParseError::InvalidArgument("unexpected action".to_string()))
    );
    assert_eq!(
        parse("/review x"),
        Err(ParseError::InvalidArgument("x is not a valid number".to_string()))
    );
    assert_eq!(
        parse("/review 1 2"),
        Err(ParseError::InvalidArgument("Usage: /review <Dish ID>".to_string()))
    );
}

#[test]
fn parse_is_case_sensitive_and_needs_slash() {
    assert_eq!(parse("/Rest add a b"), Err(ParseError::UnknownCommand));
    assert_eq!(parse("/start"), Err(ParseError::UnknownCommand));
    assert_eq!(parse("rest add a b"), Err(ParseError::NotACommand));
    assert_eq!(parse(""), Err(ParseError::NotACommand));
}
