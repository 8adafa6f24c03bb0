//! The command parser: a text line such as `/rest add <name> <address>`
//! becomes a typed command, or an error that carries a usage hint.

use vstd::prelude::*;

use crate::text::{fields_of, i64_of, join_fields, join_from, parse_i64, split_fields, text_eq, views};

verus! {

pub const TOO_FEW: &'static str = "too less argument";

pub const ADD_USAGE: &'static str = "too less argument, usage: /rest add <name> <addr>";

pub const UNEXPECTED_ACTION: &'static str = "unexpected action";

pub const REVIEW_USAGE: &'static str = "Usage: /review <Dish ID>";

pub const NUMBER_HINT: &'static str = "Can not parse your argument into number";

pub const NOT_A_NUMBER_SUFFIX: &'static str = " is not a valid number";

/// What `/rest` is asked to do.
#[derive(Clone, Debug, PartialEq, Eq)]
pub enum AddRestaurantAction {
    /// Create a restaurant with this name and address.
    Add(String, String),
    /// Look restaurants up by a fuzzy pattern on their names.
    Search(String),
    /// Offer the actions on the restaurant with this id.
    Edit(i64),
}

/// A parsed command line.
#[derive(Clone, Debug, PartialEq, Eq)]
pub enum Command {
    Help,
    Cancel,
    Dish,
    Rest(AddRestaurantAction),
    /// Start a review of the dish with this id.
    Review(i64),
}

/// Why a line is not a command that can be run.
#[derive(Clone, Debug, PartialEq, Eq)]
pub enum ParseError {
    /// The line does not start with `/`.
    NotACommand,
    /// The command name is not one of the known commands.
    UnknownCommand,
    /// An argument is missing; the hint says how to call the command.
    TooFewArguments(String),
    /// An argument is malformed; the hint says what was expected.
    InvalidArgument(String),
}

pub enum RestActionView {
    Add(Seq<char>, Seq<char>),
    Search(Seq<char>),
    Edit(i64),
}

pub enum CommandView {
    Help,
    Cancel,
    Dish,
    Rest(RestActionView),
    Review(i64),
}

pub enum ParseErrorView {
    NotACommand,
    UnknownCommand,
    TooFewArguments(Seq<char>),
    InvalidArgument(Seq<char>),
}

impl View for AddRestaurantAction {
    type V = RestActionView;

    open spec fn view(&self) -> RestActionView {
        match self {
            AddRestaurantAction::Add(n, a) => RestActionView::Add(n@, a@),
            AddRestaurantAction::Search(p) => RestActionView::Search(p@),
            AddRestaurantAction::Edit(id) => RestActionView::Edit(*id),
        }
    }
}

impl View for Command {
    type V = CommandView;

    open spec fn view(&self) -> CommandView {
        match self {
            Command::Help => CommandView::Help,
            Command::Cancel => CommandView::Cancel,
            Command::Dish => CommandView::Dish,
            Command::Rest(a) => CommandView::Rest(a@),
            Command::Review(id) => CommandView::Review(*id),
        }
    }
}

impl View for ParseError {
    type V = ParseErrorView;

    open spec fn view(&self) -> ParseErrorView {
        match self {
            ParseError::NotACommand => ParseErrorView::NotACommand,
            ParseError::UnknownCommand => ParseErrorView::UnknownCommand,
            ParseError::TooFewArguments(h) => ParseErrorView::TooFewArguments(h@),
            ParseError::InvalidArgument(h) => ParseErrorView::InvalidArgument(h@),
        }
    }
}

/// What the arguments of `/rest` (the command itself first) ask for.
pub open spec fn rest_spec(t: Seq<Seq<char>>) -> Result<RestActionView, ParseErrorView> {
    if t.len() < 2 {
        Err(ParseErrorView::TooFewArguments(TOO_FEW@))
    } else if t[1] == "add"@ {
        if t.len() < 4 {
            Err(ParseErrorView::TooFewArguments(ADD_USAGE@))
        } else {
            Ok(RestActionView::Add(t[2], join_fields(t.subrange(3, t.len() as int), ' ')))
        }
    } else if t[1] == "search"@ {
        if t.len() < 3 {
            Err(ParseErrorView::TooFewArguments(TOO_FEW@))
        } else {
            Ok(RestActionView::Search(t[2]))
        }
    } else if t[1] == "edit"@ {
        if t.len() < 3 {
            Err(ParseErrorView::TooFewArguments(TOO_FEW@))
        } else {
            match i64_of(t[2]) {
                Some(id) => Ok(RestActionView::Edit(id)),
                None => Err(ParseErrorView::InvalidArgument(NUMBER_HINT@)),
            }
        }
    } else {
        Err(ParseErrorView::InvalidArgument(UNEXPECTED_ACTION@))
    }
}

/// What the arguments of `/review` (the command itself first) ask for.
pub open spec fn review_spec(t: Seq<Seq<char>>) -> Result<CommandView, ParseErrorView> {
    if t.len() < 2 {
        Err(ParseErrorView::TooFewArguments(REVIEW_USAGE@))
    } else if t.len() > 2 {
        Err(ParseErrorView::InvalidArgument(REVIEW_USAGE@))
    } else {
        match i64_of(t[1]) {
            Some(id) => Ok(CommandView::Review(id)),
            None => Err(ParseErrorView::InvalidArgument(t[1] + NOT_A_NUMBER_SUFFIX@)),
        }
    }
}

/// What a line means: split on single spaces, the first token names the
/// command (after its `/`) and the others are its arguments.
pub open spec fn parse_spec(line: Seq<char>) -> Result<CommandView, ParseErrorView> {
    let t = fields_of(line, ' ');
    let head = t[0];
    if head.len() == 0 || head[0] != '/' {
        Err(ParseErrorView::NotACommand)
    } else {
        let name = head.subrange(1, head.len() as int);
        if name == "help"@ {
            Ok(CommandView::Help)
        } else if name == "cancel"@ {
            Ok(CommandView::Cancel)
        } else if name == "dish"@ {
            Ok(CommandView::Dish)
        } else if name == "rest"@ {
            match rest_spec(t) {
                Ok(a) => Ok(CommandView::Rest(a)),
                Err(e) => Err(e),
            }
        } else if name == "review"@ {
            review_spec(t)
        } else {
            Err(ParseErrorView::UnknownCommand)
        }
    }
}

fn too_few(hint: &str) -> (e: ParseError)
    ensures
        e@ == ParseErrorView::TooFewArguments(hint@),
{
    ParseError::TooFewArguments(String::from_str(hint))
}

fn invalid(hint: &str) -> (e: ParseError)
    ensures
        e@ == ParseErrorView::InvalidArgument(hint@),
{
    ParseError::InvalidArgument(String::from_str(hint))
}

impl AddRestaurantAction {
    /// Reads the arguments of `/rest`, the command token first.
    pub fn new(args: &Vec<String>) -> (r: Result<AddRestaurantAction, ParseError>)
        ensures
            match r {
                Ok(a) => rest_spec(views(args@)) == Ok::<_, ParseErrorView>(a@),
                Err(e) => rest_spec(views(args@)) == Err::<RestActionView, _>(e@),
            },
    {
        let ghost t = views(args@);
        if args.len() < 2 {
            return Err(too_few(TOO_FEW));
        }
        assert(t[1] == args@[1]@);
        let verb = args[1].as_str();
        if text_eq(verb, "add") {
            if args.len() < 4 {
                return Err(too_few(ADD_USAGE));
            }
            assert(t[2] == args@[2]@);
            let address = join_from(args, 3, ' ');
            Ok(AddRestaurantAction::Add(args[2].clone(), address))
        } else if text_eq(verb, "search") {
            if args.len() < 3 {
                return Err(too_few(TOO_FEW));
            }
            assert(t[2] == args@[2]@);
            Ok(AddRestaurantAction::Search(args[2].clone()))
        } else if text_eq(verb, "edit") {
            if args.len() < 3 {
                return Err(too_few(TOO_FEW));
            }
            assert(t[2] == args@[2]@);
            match parse_i64(args[2].as_str()) {
                Some(id) => Ok(AddRestaurantAction::Edit(id)),
                None => Err(invalid(NUMBER_HINT)),
            }
        } else {
            Err(invalid(UNEXPECTED_ACTION))
        }
    }
}

fn review_command(args: &Vec<String>) -> (r: Result<Command, ParseError>)
    ensures
        match r {
            Ok(c) => review_spec(views(args@)) == Ok::<_, ParseErrorView>(c@),
            Err(e) => review_spec(views(args@)) == Err::<CommandView, _>(e@),
        },
{
    if args.len() < 2 {
        return Err(too_few(REVIEW_USAGE));
    }
    if args.len() > 2 {
        return Err(invalid(REVIEW_USAGE));
    }
    assert(views(args@)[1] == args@[1]@);
    match parse_i64(args[1].as_str()) {
        Some(id) => Ok(Command::Review(id)),
        None => {
            let mut hint = args[1].clone();
            hint.append(NOT_A_NUMBER_SUFFIX);
            Err(ParseError::InvalidArgument(hint))
        },
    }
}

/// Parses a command line.
pub fn parse(line: &str) -> (r: Result<Command, ParseError>)
    ensures
        match r {
            Ok(c) => parse_spec(line@) == Ok::<_, ParseErrorView>(c@),
            Err(e) => parse_spec(line@) == Err::<CommandView, _>(e@),
        },
{
    let args = split_fields(line, ' ');
    proof {
        crate::text::lemma_fields_len(line@, ' ');
    }
    assert(views(args@)[0] == args@[0]@);
    let head = args[0].as_str();
    let n = head.unicode_len();
    if n == 0 || head.get_char(0) != '/' {
        return Err(ParseError::NotACommand);
    }
    let name = head.substring_char(1, n);
    if text_eq(name, "help") {
        Ok(Command::Help)
    } else if text_eq(name, "cancel") {
        Ok(Command::Cancel)
    } else if text_eq(name, "dish") {
        Ok(Command::Dish)
    } else if text_eq(name, "rest") {
        match AddRestaurantAction::new(&args) {
            Ok(a) => Ok(Command::Rest(a)),
            Err(e) => Err(e),
        }
    } else if text_eq(name, "review") {
        review_command(&args)
    } else {
        Err(ParseError::UnknownCommand)
    }
}

} // verus!
