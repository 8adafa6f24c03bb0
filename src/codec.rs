//! The callback-token codec: a button press travels as the token
//! `DOMAIN-SUBJECTID-VERB`, and is read back into a typed action.

use vstd::prelude::*;

use crate::text::{
    all_digits, decimal, fields_of, free_of, i64_of, int_text, lemma_decimal, lemma_fields_concat,
    lemma_fields_single, lemma_int_of_decimal, push_char, push_decimal, split_fields, text_eq,
    views,
};

verus! {

/// The delimiter between the three fields of a token.
pub const DELIMITER: char = '-';

/// The largest token, in bytes, that a button can carry.
pub const MAX_TOKEN_LEN: usize = 64;

/// The family of buttons an action belongs to.
#[derive(Clone, Copy, Debug, PartialEq, Eq, Structural)]
pub enum Domain {
    /// The menu offered for one restaurant.
    RestaurantMenu,
    /// The choice of which field of a restaurant to edit.
    RestaurantFieldPicker,
}

/// What a button press asks for: a domain, the id it is about and a verb.
#[derive(Clone, Debug, PartialEq, Eq)]
pub struct CallbackAction {
    pub domain: Domain,
    pub subject_id: i64,
    pub verb: String,
}

/// Why an action could not be encoded.
#[derive(Clone, Copy, Debug, PartialEq, Eq, Structural)]
pub enum EncodeError {
    /// The id is negative, or the verb holds the delimiter or a non-ASCII character.
    InvalidField,
    /// The token would exceed `MAX_TOKEN_LEN` bytes.
    TokenTooLong,
}

/// Why a token could not be decoded.
#[derive(Clone, Copy, Debug, PartialEq, Eq, Structural)]
pub enum DecodeError {
    /// The token does not have exactly three fields.
    MalformedToken,
    /// The first field names no domain.
    UnknownDomain,
    /// The second field is not a base-10 `i64`.
    InvalidSubjectId,
}

pub open spec fn domain_tag(d: Domain) -> Seq<char> {
    match d {
        Domain::RestaurantMenu => "RestaurantMenu"@,
        Domain::RestaurantFieldPicker => "RestaurantFieldPicker"@,
    }
}

pub open spec fn domain_of(tag: Seq<char>) -> Option<Domain> {
    if tag == "RestaurantMenu"@ {
        Some(Domain::RestaurantMenu)
    } else if tag == "RestaurantFieldPicker"@ {
        Some(Domain::RestaurantFieldPicker)
    } else {
        None
    }
}

pub open spec fn is_ascii_text(s: Seq<char>) -> bool {
    forall|i: int| 0 <= i < s.len() ==> (#[trigger] s[i] as u32) < 128
}

/// An action that a token can carry: no field holds the delimiter, and
/// every character is ASCII, so that characters and bytes agree.
pub open spec fn valid_action(a: CallbackAction) -> bool {
    &&& a.subject_id >= 0
    &&& free_of(a.verb@, DELIMITER)
    &&& is_ascii_text(a.verb@)
}

/// The token for a domain, an id and a verb.
pub open spec fn token_text(domain: Domain, id: i64, verb: Seq<char>) -> Seq<char> {
    domain_tag(domain) + seq![DELIMITER] + int_text(id as int) + seq![DELIMITER] + verb
}

/// The token of an action.
pub open spec fn token_of(a: CallbackAction) -> Seq<char> {
    token_text(a.domain, a.subject_id, a.verb@)
}

/// Ten to the power `k`.
pub open spec fn pow10(k: nat) -> nat
    decreases k,
{
    if k == 0 {
        1
    } else {
        10 * pow10((k - 1) as nat)
    }
}

/// What a token reads as: its domain, id and verb, or the first error found.
pub open spec fn decode_spec(t: Seq<char>) -> Result<(Domain, i64, Seq<char>), DecodeError> {
    let fs = fields_of(t, DELIMITER);
    if fs.len() != 3 {
        Err(DecodeError::MalformedToken)
    } else {
        match domain_of(fs[0]) {
            None => Err(DecodeError::UnknownDomain),
            Some(dm) => match i64_of(fs[1]) {
                None => Err(DecodeError::InvalidSubjectId),
                Some(id) => Ok((dm, id, fs[2])),
            },
        }
    }
}

fn tag_text(d: Domain) -> (r: &'static str)
    ensures
        r@ == domain_tag(d),
{
    match d {
        Domain::RestaurantMenu => "RestaurantMenu",
        Domain::RestaurantFieldPicker => "RestaurantFieldPicker",
    }
}

fn valid_verb(verb: &str) -> (r: bool)
    ensures
        r == (free_of(verb@, DELIMITER) && is_ascii_text(verb@)),
{
    let n = verb.unicode_len();
    let mut i: usize = 0;
    while i < n
        invariant
            i <= n,
            n == verb@.len(),
            forall|k: int| 0 <= k < i ==> verb@[k] != DELIMITER && (verb@[k] as u32) < 128,
        decreases n - i,
    {
        let c = verb.get_char(i);
        if c == DELIMITER || (c as u32) >= 128 {
            return false;
        }
        i = i + 1;
    }
    true
}

/// Encodes an action as `DOMAIN-SUBJECTID-VERB`.
pub fn encode(a: &CallbackAction) -> (r: Result<String, EncodeError>)
    ensures
        match r {
            Ok(t) => valid_action(*a) && token_of(*a).len() <= MAX_TOKEN_LEN && t@ == token_of(*a),
            Err(EncodeError::InvalidField) => !valid_action(*a),
            Err(EncodeError::TokenTooLong) => valid_action(*a) && token_of(*a).len() > MAX_TOKEN_LEN,
        },
{
    if a.subject_id < 0 || !valid_verb(a.verb.as_str()) {
        return Err(EncodeError::InvalidField);
    }
    let mut t = String::new();
    t.append(tag_text(a.domain));
    push_char(&mut t, DELIMITER);
    push_decimal(&mut t, a.subject_id as u64);
    push_char(&mut t, DELIMITER);
    t.append(a.verb.as_str());
    assert(t@ =~= token_of(*a));
    if t.as_str().unicode_len() > MAX_TOKEN_LEN {
        return Err(EncodeError::TokenTooLong);
    }
    Ok(t)
}

fn domain_from_tag(tag: &str) -> (r: Option<Domain>)
    ensures
        r == domain_of(tag@),
{
    if text_eq(tag, "RestaurantMenu") {
        Some(Domain::RestaurantMenu)
    } else if text_eq(tag, "RestaurantFieldPicker") {
        Some(Domain::RestaurantFieldPicker)
    } else {
        None
    }
}

/// Decodes a token into an action, rejecting one of the wrong shape. The
/// verb is passed through as it stands.
pub fn decode(token: &str) -> (r: Result<CallbackAction, DecodeError>)
    ensures
        match r {
            Ok(a) => decode_spec(token@) == Ok::<_, DecodeError>((a.domain, a.subject_id, a.verb@)),
            Err(e) => decode_spec(token@) == Err::<(Domain, i64, Seq<char>), _>(e),
        },
{
    let fields = split_fields(token, DELIMITER);
    if fields.len() != 3 {
        return Err(DecodeError::MalformedToken);
    }
    assert(views(fields@)[0] == fields@[0]@);
    assert(views(fields@)[1] == fields@[1]@);
    assert(views(fields@)[2] == fields@[2]@);
    let domain = match domain_from_tag(fields[0].as_str()) {
        Some(d) => d,
        None => {
            return Err(DecodeError::UnknownDomain);
        },
    };
    let subject_id = match crate::text::parse_i64(fields[1].as_str()) {
        Some(id) => id,
        None => {
            return Err(DecodeError::InvalidSubjectId);
        },
    };
    let verb = fields[2].clone();
    Ok(CallbackAction { domain, subject_id, verb })
}

proof fn lemma_decimal_len(n: nat, k: nat)
    requires
        k >= 1,
        n < pow10(k),
    ensures
        decimal(n).len() <= k,
    decreases k,
{
    if n >= 10 {
        if k == 1 {
            assert(pow10(1) == 10 * pow10(0));
        } else {
            assert(pow10(k) == 10 * pow10((k - 1) as nat));
            lemma_decimal_len(n / 10, (k - 1) as nat);
        }
    }
}

/// The token for a button: `domain`, a non-negative `id` and a verb of at
/// most 22 ASCII characters without the delimiter always fit.
pub fn token_for(domain: Domain, id: i64, verb: &str) -> (r: String)
    requires
        id >= 0,
        free_of(verb@, DELIMITER),
        is_ascii_text(verb@),
        verb@.len() <= 22,
    ensures
        r@ == token_text(domain, id, verb@),
{
    proof {
        reveal_strlit("RestaurantMenu");
        reveal_strlit("RestaurantFieldPicker");
        reveal_with_fuel(pow10, 20);
        assert(pow10(19) == 10000000000000000000nat);
        lemma_decimal_len(id as nat, 19);
    }
    let a = CallbackAction { domain, subject_id: id, verb: String::from_str(verb) };
    match encode(&a) {
        Ok(t) => t,
        Err(_) => {
            assert(false);
            String::new()
        },
    }
}

/// Decoding the token of any valid action gives back that action.
pub proof fn lemma_round_trip(a: CallbackAction)
    requires
        valid_action(a),
    ensures
        decode_spec(token_of(a)) == Ok::<_, DecodeError>((a.domain, a.subject_id, a.verb@)),
{
    reveal_strlit("RestaurantMenu");
    reveal_strlit("RestaurantFieldPicker");
    let tag = domain_tag(a.domain);
    let n = a.subject_id as nat;
    let digits = decimal(n);
    assert(int_text(a.subject_id as int) == digits);
    lemma_decimal(n);
    lemma_int_of_decimal(n);
    assert(free_of(tag, DELIMITER));
    assert(free_of(digits, DELIMITER)) by {
        assert forall|i: int| 0 <= i < digits.len() implies #[trigger] digits[i] != DELIMITER by {
            assert(all_digits(digits));
            assert(crate::text::is_digit(digits[i]));
        }
    }
    lemma_fields_single(tag, DELIMITER);
    lemma_fields_single(digits, DELIMITER);
    lemma_fields_single(a.verb@, DELIMITER);
    lemma_fields_concat(tag, digits, DELIMITER);
    lemma_fields_concat(tag + seq![DELIMITER] + digits, a.verb@, DELIMITER);
    let fs = fields_of(token_of(a), DELIMITER);
    assert(fs =~= seq![tag, digits, a.verb@]);
    assert(domain_of(tag) == Some(a.domain));
}

} // verus!
