use vstd::prelude::*;
use vstd::string::StringExecFns;

verus! {

/// The JSON string literal for `text`: the text between double quotes, with the characters
/// that JSON does not take as they are written as escapes.
pub uninterp spec fn json_string_literal(text: Seq<char>) -> Seq<char>;

/// `serde_json::to_string` on a string slice. The contract claims that the result is a
/// function of the text alone, and names it; serialising a string cannot fail.
#[verifier::external_body]
pub(crate) fn quote(text: &str) -> (literal: String)
    ensures
        literal@ == json_string_literal(text@),
{
    serde_json::to_string(text).unwrap_or_default()
}

/// One member of a JSON object as plain values: its name, its text where its value is a
/// string, and its number where its value is a whole number that fits 64 bits unsigned.
pub type Member = (String, Option<String>, Option<u64>);

/// A member by its views.
pub type MemberView = (Seq<char>, Option<Seq<char>>, Option<u64>);

/// What a JSON text holds where it is an array of objects: the members of each object,
/// each object's in the order of their names; `None` where the text is anything else.
pub uninterp spec fn json_records(text: Seq<char>) -> Option<Seq<Seq<MemberView>>>;

/// The view of a member.
pub open spec fn member_view(member: Member) -> MemberView {
    (
        member.0@,
        match member.1 {
            Some(text) => Some(text@),
            None => None,
        },
        member.2,
    )
}

/// The views of the members of a record.
pub open spec fn record_view(record: Seq<Member>) -> Seq<MemberView> {
    record.map_values(|member: Member| member_view(member))
}

/// The views of the members of each record.
pub open spec fn records_view(records: Seq<Vec<Member>>) -> Seq<Seq<MemberView>> {
    records.map_values(|record: Vec<Member>| record_view(record@))
}

/// `serde_json::from_str` into a vector of `serde_json::Map`s; each member's value is handed
/// on as a string, as a number (`Number::as_u64`) or as neither. The contract claims that
/// the outcome is a function of the text alone, and names it.
#[verifier::external_body]
pub(crate) fn parse_records(text: &str) -> (records: Option<Vec<Vec<Member>>>)
    ensures
        records matches Some(rows) ==> json_records(text@) == Some(records_view(rows@)),
        records is None ==> json_records(text@) is None,
{
    let rows: Vec<serde_json::Map<String, serde_json::Value>> = serde_json::from_str(text).ok()?;
    Some(rows.into_iter().map(|row| row.into_iter().map(|(name, value)| match value {
        serde_json::Value::String(text) => (name, Some(text), None),
        serde_json::Value::Number(number) => (name, None, number.as_u64()),
        _ => (name, None, None),
    }).collect()).collect())
}

/// `str`'s `==`: two string slices are equal exactly when they hold the same characters.
pub assume_specification[ <str as PartialEq>::eq ](a: &str, b: &str) -> (equal: bool)
    ensures
        equal == (a@ == b@),
;

/// The first member of a record that goes by `name`.
pub open spec fn find_member(record: Seq<MemberView>, name: Seq<char>) -> Option<MemberView>
    decreases record.len(),
{
    if record.len() == 0 {
        None
    } else if record[0].0 == name {
        Some(record[0])
    } else {
        find_member(record.drop_first(), name)
    }
}

/// The text of the member of a record that goes by `name`, where there is one and its
/// value is a string.
pub open spec fn member_text(record: Seq<MemberView>, name: Seq<char>) -> Option<Seq<char>> {
    match find_member(record, name) {
        Some(member) => member.1,
        None => None,
    }
}

/// The number of the member of a record that goes by `name`, where there is one and its
/// value is a whole number.
pub open spec fn member_number(record: Seq<MemberView>, name: Seq<char>) -> Option<u64> {
    match find_member(record, name) {
        Some(member) => member.2,
        None => None,
    }
}

/// Finds the first member of a record that goes by `name`.
pub fn lookup<'a>(record: &'a Vec<Member>, name: &str) -> (found: Option<&'a Member>)
    ensures
        match find_member(record_view(record@), name@) {
            Some(view) => found matches Some(member) && member_view(*member) == view,
            None => found is None,
        },
{
    let ghost views = record_view(record@);
    let mut at: usize = 0;
    assert(views.skip(0) =~= views);
    while at < record.len()
        invariant
            at <= record.len(),
            views == record_view(record@),
            find_member(views, name@) == find_member(views.skip(at as int), name@),
        decreases record.len() - at,
    {
        let member = &record[at];
        proof {
            let rest = views.skip(at as int);
            assert(rest.len() > 0);
            assert(rest[0] == member_view(*member));
            assert(rest.drop_first() =~= views.skip(at + 1));
        }
        if member.0.as_str().eq(name) {
            return Some(member);
        }
        at += 1;
    }
    assert(views.skip(at as int).len() == 0);
    None
}

/// The character for one decimal digit.
pub open spec fn digit_char(digit: nat) -> char
    recommends
        digit < 10,
{
    if digit == 0 {
        '0'
    } else if digit == 1 {
        '1'
    } else if digit == 2 {
        '2'
    } else if digit == 3 {
        '3'
    } else if digit == 4 {
        '4'
    } else if digit == 5 {
        '5'
    } else if digit == 6 {
        '6'
    } else if digit == 7 {
        '7'
    } else if digit == 8 {
        '8'
    } else {
        '9'
    }
}

/// The decimal numeral of `n`: no sign, no leading zero but for zero itself.
pub open spec fn decimal_digits(n: nat) -> Seq<char>
    decreases n,
{
    if n < 10 {
        seq![digit_char(n)]
    } else {
        decimal_digits(n / 10).push(digit_char(n % 10))
    }
}

/// The decimal numeral of a signed number: a minus sign before the numeral of a negative one.
pub open spec fn signed_decimal_digits(n: int) -> Seq<char> {
    if n < 0 {
        seq!['-'] + decimal_digits((-n) as nat)
    } else {
        decimal_digits(n as nat)
    }
}

fn digit_str(digit: u64) -> (text: &'static str)
    requires
        digit < 10,
    ensures
        text@ == seq![digit_char(digit as nat)],
{
    proof {
        reveal_strlit("0");
        reveal_strlit("1");
        reveal_strlit("2");
        reveal_strlit("3");
        reveal_strlit("4");
        reveal_strlit("5");
        reveal_strlit("6");
        reveal_strlit("7");
        reveal_strlit("8");
        reveal_strlit("9");
    }
    let text = if digit == 0 {
        "0"
    } else if digit == 1 {
        "1"
    } else if digit == 2 {
        "2"
    } else if digit == 3 {
        "3"
    } else if digit == 4 {
        "4"
    } else if digit == 5 {
        "5"
    } else if digit == 6 {
        "6"
    } else if digit == 7 {
        "7"
    } else if digit == 8 {
        "8"
    } else {
        "9"
    };
    assert(text@ =~= seq![digit_char(digit as nat)]);
    text
}

/// Writes `n` as a decimal numeral.
pub fn decimal(n: u64) -> (text: String)
    ensures
        text@ == decimal_digits(n as nat),
{
    let mut text = String::from_str(digit_str(n % 10));
    let mut rest: u64 = n / 10;
    while rest > 0
        invariant
            decimal_digits(n as nat) == if rest == 0 {
                text@
            } else {
                decimal_digits(rest as nat) + text@
            },
        decreases rest,
    {
        let digit = String::from_str(digit_str(rest % 10));
        let ghost before = text@;
        text = digit.concat(text.as_str());
        rest = rest / 10;
        proof {
            if rest > 0 {
                assert(decimal_digits(rest as nat).push(text@[0]) + before
                    =~= decimal_digits(rest as nat) + text@);
            }
        }
    }
    text
}

/// Writes `n` as a decimal numeral, with a minus sign where it is negative.
pub fn signed_decimal(n: i64) -> (text: String)
    ensures
        text@ == signed_decimal_digits(n as int),
{
    if n < 0 {
        proof {
            reveal_strlit("-");
        }
        let magnitude: u64 = if n == i64::MIN {
            9223372036854775808u64
        } else {
            (-n) as u64
        };
        let text = String::from_str("-").concat(decimal(magnitude).as_str());
        assert(text@ =~= seq!['-'] + decimal_digits((-n) as nat));
        text
    } else {
        decimal(n as u64)
    }
}

} // verus!
