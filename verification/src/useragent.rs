use vstd::prelude::*;
use vstd::string::StringExecFns;

verus! {

/// The label under which a session is filed when nothing is known of the client.
pub const UNKNOWN: &'static str = "Unknown";

/// What the user-agent parser makes of a user-agent string: the operating system and the
/// kind of browser that it names, or `None` where it recognises nothing.
pub uninterp spec fn parsed_agent(useragent: Seq<char>) -> Option<(Seq<char>, Seq<char>)>;

/// `woothee::parser::Parser::parse` on the string; of the result the fields `os` and
/// `browser_type` are kept. The contract claims that both are functions of the string
/// alone, and names them.
#[verifier::external_body]
fn parse(useragent: &str) -> (found: Option<(String, String)>)
    ensures
        found matches Some(labels) ==> parsed_agent(useragent@) == Some((labels.0@, labels.1@)),
        found is None ==> parsed_agent(useragent@) is None,
{
    let result = woothee::parser::Parser::new().parse(useragent)?;
    Some((result.os.to_string(), result.browser_type.to_string()))
}

/// The operating system and browser under which a session is filed, given what the parser
/// found: its two labels, and `Unknown` for both where it found nothing.
pub open spec fn labels_of(found: Option<(Seq<char>, Seq<char>)>) -> (Seq<char>, Seq<char>) {
    match found {
        Some(labels) => labels,
        None => (UNKNOWN@, UNKNOWN@),
    }
}

/// Settles the labels of a client from what the parser found: never fails.
pub fn settle_labels(found: Option<(String, String)>) -> (labels: (String, String))
    ensures
        (labels.0@, labels.1@) == labels_of(
            match found {
                Some(pair) => Some((pair.0@, pair.1@)),
                None => None,
            },
        ),
{
    match found {
        Some(labels) => labels,
        None => (String::from_str(UNKNOWN), String::from_str(UNKNOWN)),
    }
}

/// Reads the operating system and the browser out of a user-agent string.
pub fn read_agent(useragent: &str) -> (labels: (String, String))
    ensures
        (labels.0@, labels.1@) == labels_of(parsed_agent(useragent@)),
{
    settle_labels(parse(useragent))
}

/// The operating system and browser under which a session of a client is filed, given how
/// the client names itself, if it does: a client that does not is filed under `Unknown`.
pub open spec fn client_labels(useragent: Option<Seq<char>>) -> (Seq<char>, Seq<char>) {
    match useragent {
        Some(text) => labels_of(parsed_agent(text)),
        None => (UNKNOWN@, UNKNOWN@),
    }
}

/// Settles the labels of a client that may not have named itself: never fails.
pub fn read_client(useragent: Option<&str>) -> (labels: (String, String))
    ensures
        (labels.0@, labels.1@) == client_labels(
            match useragent {
                Some(text) => Some(text@),
                None => None,
            },
        ),
{
    match useragent {
        Some(text) => read_agent(text),
        None => settle_labels(None),
    }
}

} // verus!
