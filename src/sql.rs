//! The decisions of the SQL endpoint: which requests it takes, and whether a request
//! runs a query or gets the playground page.
use vstd::prelude::*;
use vstd::string::StringSliceAdditionalSpecFns;

verus! {

/// The pairs of an `application/x-www-form-urlencoded` text, in order.
pub uninterp spec fn form_pairs(input: Seq<u8>) -> Seq<(Seq<char>, Seq<char>)>;

/// The text that `bytes` hold, if they are valid UTF-8.
pub uninterp spec fn utf8_text(bytes: Seq<u8>) -> Option<Seq<char>>;

/// Relies on `form_urlencoded::parse(..).into_owned()`: it splits the input on `&` and
/// each part on its first `=`, decodes `+` and percent escapes, and skips empty parts;
/// the pairs depend on the input alone, and an empty input has none.
#[verifier::external_body]
fn parse_form(input: &[u8]) -> (r: Vec<(String, String)>)
    ensures
        r@.len() == form_pairs(input@).len(),
        forall|i: int|
            0 <= i < r@.len() ==> #[trigger] r@[i].0@ == form_pairs(input@)[i].0 && r@[i].1@
                == form_pairs(input@)[i].1,
        input@.len() == 0 ==> r@.len() == 0,
{
    form_urlencoded::parse(input).into_owned().collect()
}

/// Relies on `String::from_utf8`, which succeeds exactly on valid UTF-8.
#[verifier::external_body]
fn string_from_utf8(bytes: Vec<u8>) -> (r: Option<String>)
    ensures
        match r {
            Some(s) => utf8_text(bytes@) == Some(s@),
            None => utf8_text(bytes@) is None,
        },
{
    String::from_utf8(bytes).ok()
}

/// The HTTP method of a request, as far as the endpoint tells them apart.
#[derive(Debug, Clone, Copy, PartialEq, Eq, Structural)]
pub enum RequestMethod {
    Get,
    Post,
    Other,
}

/// Why no query could be taken from a request.
#[derive(Debug, Clone, Copy, PartialEq, Eq, Structural)]
pub enum QueryRejection {
    /// A GET request without a `q` or `query` parameter.
    MissingParameter,
    /// The body of a POST request could not be read.
    UnreadableBody,
    /// The body of a POST request is not UTF-8 text.
    InvalidQuery,
    /// Neither GET nor POST.
    MethodNotAllowed,
}

impl QueryRejection {
    /// The HTTP status of the rejection.
    pub fn status(&self) -> (r: u16)
        ensures
            r == (if *self is MethodNotAllowed { 405u16 } else { 400u16 }),
    {
        match self {
            QueryRejection::MethodNotAllowed => 405,
            _ => 400,
        }
    }

    /// The text sent with the rejection.
    pub fn message(&self) -> (r: &'static str)
        ensures
            r@ == match *self {
                QueryRejection::MissingParameter => "Missing 'q' or 'query' parameter."@,
                QueryRejection::UnreadableBody => "Failed to read query from request body"@,
                QueryRejection::InvalidQuery => "Invalid query"@,
                QueryRejection::MethodNotAllowed => "Only GET and POST methods are allowed"@,
            },
    {
        match self {
            QueryRejection::MissingParameter => "Missing 'q' or 'query' parameter.",
            QueryRejection::UnreadableBody => "Failed to read query from request body",
            QueryRejection::InvalidQuery => "Invalid query",
            QueryRejection::MethodNotAllowed => "Only GET and POST methods are allowed",
        }
    }
}

/// What the endpoint does with a request.
#[derive(Debug, Clone, PartialEq, Eq)]
pub enum SqlAction {
    /// Send the playground page.
    ServePlayground,
    /// Run the query and send its rows.
    ExecuteQuery(String),
}

/// Whether a parameter name asks for a query.
pub open spec fn is_query_key(key: Seq<char>) -> bool {
    key == seq!['q'] || key == seq!['q', 'u', 'e', 'r', 'y']
}

/// The value of the first pair whose name is `q` or `query`.
pub open spec fn first_query_value(pairs: Seq<(Seq<char>, Seq<char>)>) -> Option<Seq<char>>
    decreases pairs.len(),
{
    if pairs.len() == 0 {
        None
    } else if is_query_key(pairs[0].0) {
        Some(pairs[0].1)
    } else {
        first_query_value(pairs.drop_first())
    }
}

/// The query that a request carries: for GET the first `q` or `query` parameter of
/// the URI's query text, for POST the body as text.
pub open spec fn spec_extract_query(
    method: RequestMethod,
    uri_query: Seq<u8>,
    body: Option<Seq<u8>>,
) -> Result<Seq<char>, QueryRejection> {
    match method {
        RequestMethod::Get => match first_query_value(form_pairs(uri_query)) {
            Some(q) => Ok(q),
            None => Err(QueryRejection::MissingParameter),
        },
        RequestMethod::Post => match body {
            None => Err(QueryRejection::UnreadableBody),
            Some(bytes) => match utf8_text(bytes) {
                Some(q) => Ok(q),
                None => Err(QueryRejection::InvalidQuery),
            },
        },
        RequestMethod::Other => Err(QueryRejection::MethodNotAllowed),
    }
}

/// The URI's query text, empty when there is none.
pub open spec fn query_text(uri_query: Option<&str>) -> Seq<u8> {
    match uri_query {
        Some(q) => q.spec_bytes(),
        None => Seq::empty(),
    }
}

/// The body's bytes, if it could be read.
pub open spec fn body_bytes(body: Option<Vec<u8>>) -> Option<Seq<u8>> {
    match body {
        Some(b) => Some(b@),
        None => None,
    }
}

fn is_query_name(key: &String) -> (r: bool)
    ensures
        r == is_query_key(key@),
{
    let q = "q".to_owned();
    let query = "query".to_owned();
    proof {
        reveal_strlit("q");
        reveal_strlit("query");
        assert("q"@ =~= seq!['q']);
        assert("query"@ =~= seq!['q', 'u', 'e', 'r', 'y']);
    }
    *key == q || *key == query
}

/// Takes the query out of a request. `uri_query` is the query text of the URI, if any;
/// `body` is the body of a POST request, `None` where it could not be read.
pub fn extract_query(
    method: RequestMethod,
    uri_query: Option<&str>,
    body: Option<Vec<u8>>,
) -> (r: Result<String, QueryRejection>)
    ensures
        match (r, spec_extract_query(method, query_text(uri_query), body_bytes(body))) {
            (Ok(q), Ok(expected)) => q@ == expected,
            (Err(e), Err(expected)) => e == expected,
            _ => false,
        },
{
    match method {
        RequestMethod::Get => {
            let pairs = match uri_query {
                Some(q) => parse_form(q.as_bytes()),
                None => {
                    let empty: Vec<u8> = Vec::new();
                    assert(empty@ =~= Seq::<u8>::empty());
                    parse_form(empty.as_slice())
                },
            };
            let ghost all = form_pairs(query_text(uri_query));
            let mut i: usize = 0;
            assert(all.subrange(0, all.len() as int) =~= all);
            while i < pairs.len()
                invariant
                    i <= pairs@.len(),
                    method == RequestMethod::Get,
                    all == form_pairs(query_text(uri_query)),
                    pairs@.len() == all.len(),
                    forall|j: int|
                        0 <= j < pairs@.len() ==> #[trigger] pairs@[j].0@ == all[j].0 && pairs@[j].1@
                            == all[j].1,
                    first_query_value(all) == first_query_value(all.subrange(i as int, all.len() as int)),
                decreases pairs.len() - i,
            {
                let ghost rest = all.subrange(i as int, all.len() as int);
                assert(rest.drop_first() =~= all.subrange(i + 1, all.len() as int));
                assert(rest.len() > 0 && rest[0] == all[i as int]);
                if is_query_name(&pairs[i].0) {
                    let value = pairs[i].1.clone();
                    assert(pairs@[i as int].0@ == all[i as int].0);
                    assert(value@ == all[i as int].1);
                    return Ok(value);
                }
                assert(pairs@[i as int].0@ == all[i as int].0);
                i = i + 1;
            }
            assert(all.subrange(i as int, all.len() as int).len() == 0);
            Err(QueryRejection::MissingParameter)
        },
        RequestMethod::Post => match body {
            None => Err(QueryRejection::UnreadableBody),
            Some(bytes) => match string_from_utf8(bytes) {
                Some(q) => Ok(q),
                None => Err(QueryRejection::InvalidQuery),
            },
        },
        RequestMethod::Other => Err(QueryRejection::MethodNotAllowed),
    }
}

/// What the endpoint does: a GET without query text, or a request whose query cannot
/// be taken, gets the playground; any other runs its query.
pub open spec fn spec_handle_request(
    method: RequestMethod,
    uri_query: Seq<u8>,
    body: Option<Seq<u8>>,
) -> Result<Seq<char>, ()> {
    if method == RequestMethod::Get && uri_query.len() == 0 {
        Err(())
    } else {
        match spec_extract_query(method, uri_query, body) {
            Ok(q) => Ok(q),
            Err(_) => Err(()),
        }
    }
}

/// Decides what to do with a request; see [`extract_query`] for the arguments.
pub fn handle_request(
    method: RequestMethod,
    uri_query: Option<&str>,
    body: Option<Vec<u8>>,
) -> (r: SqlAction)
    ensures
        match (r, spec_handle_request(method, query_text(uri_query), body_bytes(body))) {
            (SqlAction::ExecuteQuery(q), Ok(expected)) => q@ == expected,
            (SqlAction::ServePlayground, Err(_)) => true,
            _ => false,
        },
{
    let no_query = match uri_query {
        Some(q) => q.as_bytes().len() == 0,
        None => true,
    };
    if method == RequestMethod::Get && no_query {
        SqlAction::ServePlayground
    } else {
        match extract_query(method, uri_query, body) {
            Ok(query) => SqlAction::ExecuteQuery(query),
            Err(_) => SqlAction::ServePlayground,
        }
    }
}

/// Whether the endpoint takes requests for `path`: those under `/sql`.
pub fn should_handle(path: &str) -> (r: bool)
    ensures
        r == (path.spec_bytes().len() >= 4 && path.spec_bytes().subrange(0, 4) == seq![0x2fu8, 0x73u8, 0x71u8, 0x6cu8]),
{
    let bytes = path.as_bytes();
    if bytes.len() < 4 {
        return false;
    }
    // the bytes of "/sql"
    let r = bytes[0] == 0x2f && bytes[1] == 0x73 && bytes[2] == 0x71 && bytes[3] == 0x6c;
    assert(r == (bytes@.subrange(0, 4) =~= seq![0x2fu8, 0x73u8, 0x71u8, 0x6cu8]));
    r
}

} // verus!
