//! The answer of the rate service as a JSON value, and the rate in it.

use crate::rate::Rate;
use vstd::prelude::*;

verus! {

/// A JSON value.
#[derive(Debug)]
pub enum Json {
    Null,
    Bool(bool),
    /// A number, with its value as a rate where it has one.
    Number(Option<Rate>),
    Text(String),
    Array(Vec<Json>),
    /// An object: its members by name. Where a name occurs more than once,
    /// its first member counts.
    Object(Vec<(String, Json)>),
}

/// The name under which an answer holds its rates.
pub open spec fn rates_name() -> Seq<char> {
    "rates"@
}

/// The first of the members that has the given name, if any has.
pub open spec fn first_named(members: Seq<(String, Json)>, name: Seq<char>) -> Option<Json>
    decreases members.len(),
{
    if members.len() == 0 {
        None
    } else if members[0].0@ == name {
        Some(members[0].1)
    } else {
        first_named(members.skip(1), name)
    }
}

/// The member of an object with the given name; `None` for what is no
/// object or has no such member.
pub open spec fn member(json: Json, name: Seq<char>) -> Option<Json> {
    match json {
        Json::Object(members) => first_named(members@, name),
        _ => None,
    }
}

/// The number that a JSON value is; `None` for what is no number.
pub open spec fn number(json: Json) -> Option<Rate> {
    match json {
        Json::Number(value) => value,
        _ => None,
    }
}

/// The rate of a currency in an answer: the answer is an object, its
/// member `rates` is an object, and the member of that with the currency's
/// name is a number. `None` where any of these fails.
pub open spec fn rate_in_answer(answer: Json, currency: Seq<char>) -> Option<Rate> {
    match member(answer, rates_name()) {
        Some(rates) => match member(rates, currency) {
            Some(value) => number(value),
            None => None,
        },
        None => None,
    }
}

/// Looks up a member of an object by its name.
pub fn find_member<'a>(json: &'a Json, name: &str) -> (found: Option<&'a Json>)
    ensures
        match found {
            Some(value) => member(*json, name@) == Some(*value),
            None => member(*json, name@).is_none(),
        },
{
    match json {
        Json::Object(members) => {
            let wanted: String = name.to_owned();
            let mut i: usize = 0;
            assert(members@.skip(0) =~= members@);
            while i < members.len()
                invariant
                    i <= members.len(),
                    wanted@ == name@,
                    member(*json, name@) == first_named(members@, name@),
                    first_named(members@, name@) == first_named(members@.skip(i as int), name@),
                decreases members.len() - i,
            {
                let ghost rest = members@.skip(i as int);
                assert(rest[0] == members@[i as int]);
                if members[i].0 == wanted {
                    return Some(&members[i].1);
                }
                assert(rest.skip(1) =~= members@.skip(i as int + 1));
                i += 1;
            }
            None
        },
        _ => None,
    }
}

/// Finds the rate of a currency in an answer of the rate service.
pub fn find_rate(answer: &Json, currency: &str) -> (found: Option<Rate>)
    ensures
        found == rate_in_answer(*answer, currency@),
{
    let rates = match find_member(answer, "rates") {
        Some(rates) => rates,
        None => {
            return None;
        },
    };
    match find_member(rates, currency) {
        Some(Json::Number(value)) => *value,
        _ => None,
    }
}

} // verus!
