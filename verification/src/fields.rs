//! Reading the members of a JSON object, one kind of value at a time.
//!
//! Each kind has a spec function that says what the member yields, or the
//! message of the fault, and a reader that is proved to compute it.

use crate::digits::{
    all_digits, decimal_value, digit_of, is_digit, is_digit_char, lemma_decimal_value_grows,
};
use crate::error::{Error, ErrorView};
use crate::json::{flag, is_null, json_tree, member, number, text, JsonView};
use crate::timestamp::{parse_timestamp, parsed_timestamp};
use iso8601_timestamp::Timestamp;
use vstd::prelude::*;

verus! {

/// The value under `name`, where the tree is an object that has it.
pub open spec fn member_of(tree: JsonView, name: Seq<char>) -> Option<JsonView> {
    match tree {
        JsonView::Object(members) if members.contains_key(name) => Some(members[name]),
        _ => None,
    }
}

pub open spec fn missing_field(name: Seq<char>) -> Seq<char> {
    "missing field `"@ + name + "`"@
}

pub open spec fn invalid_field(name: Seq<char>) -> Seq<char> {
    "invalid value for field `"@ + name + "`"@
}

/// A member that must be a string.
pub open spec fn text_of(tree: JsonView, name: Seq<char>) -> Result<Seq<char>, Seq<char>> {
    match member_of(tree, name) {
        None => Err(missing_field(name)),
        Some(JsonView::Text(characters)) => Ok(characters),
        Some(_) => Err(invalid_field(name)),
    }
}

/// A member that must be a string holding an ISO 8601 timestamp.
pub open spec fn timestamp_of(tree: JsonView, name: Seq<char>) -> Result<Timestamp, Seq<char>> {
    match member_of(tree, name) {
        None => Err(missing_field(name)),
        Some(JsonView::Text(characters)) => match parsed_timestamp(characters) {
            Some(stamp) => Ok(stamp),
            None => Err(invalid_field(name)),
        },
        Some(_) => Err(invalid_field(name)),
    }
}

/// A member that must be a number, of which the literal is kept.
pub open spec fn decimal_of(tree: JsonView, name: Seq<char>) -> Result<Seq<char>, Seq<char>> {
    match member_of(tree, name) {
        None => Err(missing_field(name)),
        Some(JsonView::Number(literal)) => Ok(literal),
        Some(_) => Err(invalid_field(name)),
    }
}

/// The value of a numeral of digits only that is at most 255.
pub open spec fn small_number(literal: Seq<char>) -> Option<u8> {
    if literal.len() > 0 && all_digits(literal) && decimal_value(literal) <= 255 {
        Some(decimal_value(literal) as u8)
    } else {
        None
    }
}

/// A member that must be a whole number from 0 to 255.
pub open spec fn small_number_of(tree: JsonView, name: Seq<char>) -> Result<u8, Seq<char>> {
    match member_of(tree, name) {
        None => Err(missing_field(name)),
        Some(JsonView::Number(literal)) => match small_number(literal) {
            Some(n) => Ok(n),
            None => Err(invalid_field(name)),
        },
        Some(_) => Err(invalid_field(name)),
    }
}

/// A member that may be left out or be `null`, and is a boolean otherwise.
pub open spec fn optional_flag_of(tree: JsonView, name: Seq<char>) -> Result<
    Option<bool>,
    Seq<char>,
> {
    match member_of(tree, name) {
        None => Ok(None),
        Some(JsonView::Null) => Ok(None),
        Some(JsonView::Bool(b)) => Ok(Some(b)),
        Some(_) => Err(invalid_field(name)),
    }
}

pub fn missing(name: &str) -> (res: Error)
    ensures
        res@ == ErrorView::ResponseDecodeError(missing_field(name@)),
{
    Error::ResponseDecodeError(String::from_str("missing field `").concat(name).concat("`"))
}

pub fn invalid(name: &str) -> (res: Error)
    ensures
        res@ == ErrorView::ResponseDecodeError(invalid_field(name@)),
{
    Error::ResponseDecodeError(
        String::from_str("invalid value for field `").concat(name).concat("`"),
    )
}

pub fn read_text(record: &serde_json::Value, name: &str) -> (res: Result<String, Error>)
    ensures
        match text_of(json_tree(*record), name@) {
            Ok(characters) => res is Ok && res.unwrap()@ == characters,
            Err(message) => res is Err && res.unwrap_err()@ == ErrorView::ResponseDecodeError(
                message,
            ),
        },
{
    match member(record, name) {
        None => Err(missing(name)),
        Some(value) => match text(value) {
            Some(characters) => Ok(String::from_str(characters)),
            None => Err(invalid(name)),
        },
    }
}

pub fn read_timestamp(record: &serde_json::Value, name: &str) -> (res: Result<Timestamp, Error>)
    ensures
        match timestamp_of(json_tree(*record), name@) {
            Ok(stamp) => res == Ok::<Timestamp, Error>(stamp),
            Err(message) => res is Err && res.unwrap_err()@ == ErrorView::ResponseDecodeError(
                message,
            ),
        },
{
    match member(record, name) {
        None => Err(missing(name)),
        Some(value) => match text(value) {
            Some(characters) => match parse_timestamp(characters) {
                Some(stamp) => Ok(stamp),
                None => Err(invalid(name)),
            },
            None => Err(invalid(name)),
        },
    }
}

pub fn read_decimal(record: &serde_json::Value, name: &str) -> (res: Result<String, Error>)
    ensures
        match decimal_of(json_tree(*record), name@) {
            Ok(literal) => res is Ok && res.unwrap()@ == literal,
            Err(message) => res is Err && res.unwrap_err()@ == ErrorView::ResponseDecodeError(
                message,
            ),
        },
{
    match member(record, name) {
        None => Err(missing(name)),
        Some(value) => match number(value) {
            Some(literal) => Ok(literal),
            None => Err(invalid(name)),
        },
    }
}

/// Reads a numeral of digits only, as far as its value stays within 255.
pub fn parse_small_number(literal: &str) -> (res: Option<u8>)
    ensures
        res == small_number(literal@),
{
    let len = literal.unicode_len();
    if len == 0 {
        return None;
    }
    let mut value: u16 = 0;
    let mut i: usize = 0;
    while i < len
        invariant
            len == literal@.len(),
            i <= len,
            all_digits(literal@.take(i as int)),
            value == decimal_value(literal@.take(i as int)),
            value <= 255,
        decreases len - i,
    {
        let c = literal.get_char(i);
        proof {
            assert(literal@.take(i + 1).drop_last() == literal@.take(i as int));
            assert(literal@.take(i + 1).last() == c);
        }
        if !is_digit_char(c) {
            assert(!all_digits(literal@)) by {
                assert(literal@[i as int] == c);
            }
            return None;
        }
        assert(all_digits(literal@.take(i + 1))) by {
            assert forall|j: int| 0 <= j < i + 1 implies is_digit(
                #[trigger] literal@.take(i + 1)[j],
            ) by {
                if j < i {
                    assert(literal@.take(i as int)[j] == literal@.take(i + 1)[j]);
                }
            }
        }
        let next: u16 = value * 10 + digit_of(c) as u16;
        if next > 255 {
            proof {
                lemma_decimal_value_grows(literal@, i + 1);
            }
            return None;
        }
        value = next;
        i += 1;
    }
    proof {
        assert(literal@.take(len as int) == literal@);
    }
    Some(value as u8)
}

pub fn read_small_number(record: &serde_json::Value, name: &str) -> (res: Result<u8, Error>)
    ensures
        match small_number_of(json_tree(*record), name@) {
            Ok(n) => res == Ok::<u8, Error>(n),
            Err(message) => res is Err && res.unwrap_err()@ == ErrorView::ResponseDecodeError(
                message,
            ),
        },
{
    match member(record, name) {
        None => Err(missing(name)),
        Some(value) => match number(value) {
            Some(literal) => match parse_small_number(literal.as_str()) {
                Some(n) => Ok(n),
                None => Err(invalid(name)),
            },
            None => Err(invalid(name)),
        },
    }
}

pub fn read_optional_flag(record: &serde_json::Value, name: &str) -> (res: Result<
    Option<bool>,
    Error,
>)
    ensures
        match optional_flag_of(json_tree(*record), name@) {
            Ok(b) => res == Ok::<Option<bool>, Error>(b),
            Err(message) => res is Err && res.unwrap_err()@ == ErrorView::ResponseDecodeError(
                message,
            ),
        },
{
    match member(record, name) {
        None => Ok(None),
        Some(value) => {
            if is_null(value) {
                Ok(None)
            } else {
                match flag(value) {
                    Some(b) => Ok(Some(b)),
                    None => Err(invalid(name)),
                }
            }
        },
    }
}

} // verus!
