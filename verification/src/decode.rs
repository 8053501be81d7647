//! From a JSON document to the records it holds.
//!
//! A record is read member by member, in the order in which its type lists
//! them, and the first fault found is the one reported. Members that the
//! record type does not name are passed over. What is shared by all kinds of
//! record is here; each kind has a module of its own.

pub mod prices;
pub mod renewables;
pub mod sites;
pub mod usage;

use crate::error::{Error, ErrorView};
use crate::fields::{member_of, missing, missing_field, read_text, text_of};
use crate::json::{json_tree, member, JsonView};
use crate::records::{TariffInformation, TariffInformationView};
use vstd::prelude::*;

verus! {

/// The first message among the outcomes from index `from` on.
pub open spec fn first_fault<T>(outcomes: Seq<Result<T, Seq<char>>>, from: int) -> Option<
    Seq<char>,
>
    decreases outcomes.len() - from,
{
    if from < 0 || from >= outcomes.len() {
        None
    } else if outcomes[from] is Err {
        Some(outcomes[from]->Err_0)
    } else {
        first_fault(outcomes, from + 1)
    }
}

/// All the values, where every outcome is one; else the first message.
pub open spec fn collected<T>(outcomes: Seq<Result<T, Seq<char>>>) -> Result<Seq<T>, Seq<char>> {
    match first_fault(outcomes, 0) {
        Some(message) => Err(message),
        None => Ok(Seq::new(outcomes.len(), |i: int| outcomes[i]->Ok_0)),
    }
}

/// Whether a decoder's result is the outcome that is expected of it: the
/// value, seen through its view, or the message as a decode error.
pub open spec fn renders<T: View>(res: Result<T, Error>, outcome: Result<T::V, Seq<char>>) -> bool {
    match outcome {
        Ok(value) => res is Ok && res->Ok_0@ == value,
        Err(message) => res is Err && res->Err_0@ == ErrorView::ResponseDecodeError(message),
    }
}

/// Whether a decoder's list is the outcome that is expected of it, item by
/// item.
pub open spec fn renders_list<T: View>(
    res: Result<Vec<T>, Error>,
    outcome: Result<Seq<T::V>, Seq<char>>,
) -> bool {
    match outcome {
        Ok(values) => res is Ok && res->Ok_0@.map_values(|item: T| item@) == values,
        Err(message) => res is Err && res->Err_0@ == ErrorView::ResponseDecodeError(message),
    }
}

pub open spec fn not_a_list() -> Seq<char> {
    "expected an array of records"@
}

pub fn not_an_array() -> (res: Error)
    ensures
        res@ == ErrorView::ResponseDecodeError(not_a_list()),
{
    Error::ResponseDecodeError(String::from_str("expected an array of records"))
}

/// What a decoder makes of each value of a list.
pub open spec fn outcomes_of<T>(
    list: Seq<serde_json::Value>,
    of: spec_fn(JsonView) -> Result<T, Seq<char>>,
) -> Seq<Result<T, Seq<char>>> {
    Seq::new(list.len(), |i: int| of(json_tree(list[i])))
}

/// Decodes each element in turn and stops at the first fault.
#[verifier::loop_isolation(false)]
pub(crate) fn decode_each<T: View, F: Fn(&serde_json::Value) -> Result<T, Error>>(
    list: &Vec<serde_json::Value>,
    decode: F,
    Ghost(of): Ghost<spec_fn(JsonView) -> Result<T::V, Seq<char>>>,
) -> (res: Result<Vec<T>, Error>)
    requires
        forall|value: &serde_json::Value| decode.requires((value,)),
        forall|value: &serde_json::Value, decoded: Result<T, Error>|
            decode.ensures((value,), decoded) ==> renders(decoded, of(json_tree(*value))),
    ensures
        renders_list(res, collected(outcomes_of(list@, of))),
{
    let ghost outcomes = outcomes_of(list@, of);
    let mut decoded: Vec<T> = Vec::new();
    let mut i: usize = 0;
    while i < list.len()
        invariant
            i <= list.len(),
            first_fault(outcomes, 0) == first_fault(outcomes, i as int),
            decoded@.len() == i,
            forall|j: int| 0 <= j < i ==> (#[trigger] outcomes[j]) is Ok,
            forall|j: int| 0 <= j < i ==> (#[trigger] decoded@[j])@ == outcomes[j]->Ok_0,
        decreases list.len() - i,
    {
        assert(outcomes[i as int] == of(json_tree(list@[i as int])));
        let item = decode(&list[i])?;
        decoded.push(item);
        i += 1;
    }
    proof {
        assert(decoded@.map_values(|item: T| item@) =~= Seq::new(
            outcomes.len(),
            |i: int| outcomes[i]->Ok_0,
        ));
    }
    Ok(decoded)
}

/// The member `name`, which must be an object that names a billing period.
pub open spec fn tariff_of(tree: JsonView, name: Seq<char>) -> Result<
    TariffInformationView,
    Seq<char>,
> {
    match member_of(tree, name) {
        None => Err(missing_field(name)),
        Some(inner) => match text_of(inner, "period"@) {
            Ok(period) => Ok(TariffInformationView { period }),
            Err(message) => Err(message),
        },
    }
}

/// Reads the billing period under `name`.
pub fn decode_tariff(record: &serde_json::Value, name: &str) -> (res: Result<
    TariffInformation,
    Error,
>)
    ensures
        renders(res, tariff_of(json_tree(*record), name@)),
{
    let inner = match member(record, name) {
        Some(inner) => inner,
        None => return Err(missing(name)),
    };
    let period = read_text(inner, "period")?;
    Ok(TariffInformation { period })
}

} // verus!
