//! The search query and the HTTP request that carries it.

use vstd::prelude::*;
use vstd::utf8::encode_utf8;

verus! {

/// Root of the service's API.
pub const BASE_URL: &'static str = "https://skillsmp.com/api/v1";

/// Bytes that stand for themselves in a query parameter: ASCII letters and
/// digits and `-`, `.`, `_`, `~`.
pub open spec fn is_unreserved(b: u8) -> bool {
    (0x30 <= b <= 0x39) || (0x41 <= b <= 0x5a) || (0x61 <= b <= 0x7a) || b == 0x2d || b == 0x2e
        || b == 0x5f || b == 0x7e
}

/// Upper-case hexadecimal digit of `d < 16`.
pub open spec fn hex_digit(d: int) -> char {
    seq!['0', '1', '2', '3', '4', '5', '6', '7', '8', '9', 'A', 'B', 'C', 'D', 'E', 'F'][d]
}

/// One byte, percent-encoded.
pub open spec fn encode_byte(b: u8) -> Seq<char> {
    if is_unreserved(b) {
        seq![b as char]
    } else {
        seq!['%', hex_digit(b as int / 16), hex_digit(b as int % 16)]
    }
}

/// Percent-encoding of a byte string: each unreserved byte as itself, each
/// other byte as `%` and two upper-case hexadecimal digits.
pub open spec fn percent_encode(bytes: Seq<u8>) -> Seq<char>
    decreases bytes.len(),
{
    if bytes.len() == 0 {
        Seq::empty()
    } else {
        encode_byte(bytes[0]) + percent_encode(bytes.drop_first())
    }
}

/// Relies on urlencoding::encode: percent-encodes every UTF-8 byte of the
/// text except ASCII letters, digits and `-`, `_`, `.`, `~`, with upper-case
/// hexadecimal digits.
#[verifier::external_body]
fn url_encode(s: &str) -> (r: String)
    ensures
        r@ == percent_encode(encode_utf8(s@)),
{
    urlencoding::encode(s).into_owned()
}

/// Decimal digit `d < 10`.
pub open spec fn digit_char(d: int) -> char {
    seq!['0', '1', '2', '3', '4', '5', '6', '7', '8', '9'][d]
}

/// Decimal notation of `n`, without leading zeros.
pub open spec fn decimal(n: nat) -> Seq<char>
    decreases n,
{
    if n < 10 {
        seq![digit_char(n as int)]
    } else {
        decimal(n / 10) + seq![digit_char((n % 10) as int)]
    }
}

fn digit_text(d: u32) -> (r: &'static str)
    requires
        d < 10,
    ensures
        r@ == seq![digit_char(d as int)],
{
    proof {
        reveal_strlit("0");
        reveal_strlit("1");
        reveal_strlit("2");
        reveal_strlit("3");
        reveal_strlit("4");
        reveal_strlit("5");
        reveal_strlit("6");
        reveal_strlit("7");
        reveal_strlit("8");
        reveal_strlit("9");
    }
    let r = if d == 0 {
        "0"
    } else if d == 1 {
        "1"
    } else if d == 2 {
        "2"
    } else if d == 3 {
        "3"
    } else if d == 4 {
        "4"
    } else if d == 5 {
        "5"
    } else if d == 6 {
        "6"
    } else if d == 7 {
        "7"
    } else if d == 8 {
        "8"
    } else {
        "9"
    };
    assert(r@ =~= seq![digit_char(d as int)]);
    r
}

/// Decimal notation of `n`.
pub fn decimal_text(n: u32) -> (r: String)
    ensures
        r@ == decimal(n as nat),
    decreases n,
{
    if n < 10 {
        String::from_str(digit_text(n))
    } else {
        let mut r = decimal_text(n / 10);
        r.append(digit_text(n % 10));
        r
    }
}

/// What one search asks for.
#[derive(Debug, Clone, PartialEq)]
pub struct SearchInput {
    /// Free text to search for.
    pub query: String,
    /// Most entries on one page.
    pub limit: u32,
    /// Which page, counted from 1.
    pub page: u32,
    /// Order of the results, `recent` or `stars`; passed on as given.
    pub sort: String,
    /// Credential sent as a bearer token.
    pub api_key: String,
}

/// A GET request to send: its full address and its headers, in order.
#[derive(Debug, Clone, PartialEq)]
pub struct HttpRequest {
    pub url: String,
    pub headers: Vec<(String, String)>,
}

/// The address of a search: the search endpoint under [`BASE_URL`] with the
/// parameters `q` (the percent-encoded UTF-8 query), `limit`, `page` (both in
/// decimal) and `sortBy` (the sort text as given), in that order.
pub open spec fn search_url(query: Seq<char>, limit: u32, page: u32, sort: Seq<char>) -> Seq<char> {
    BASE_URL@ + "/skills/search?q="@ + percent_encode(encode_utf8(query)) + "&limit="@ + decimal(
        limit as nat,
    ) + "&page="@ + decimal(page as nat) + "&sortBy="@ + sort
}

/// The headers of a search: the key as a bearer token, and a JSON content type.
pub open spec fn search_headers(api_key: Seq<char>, headers: Seq<(String, String)>) -> bool {
    &&& headers.len() == 2
    &&& headers[0].0@ == "Authorization"@
    &&& headers[0].1@ == "Bearer "@ + api_key
    &&& headers[1].0@ == "Content-Type"@
    &&& headers[1].1@ == "application/json"@
}

/// Builds the request for one search. Nothing in the input is checked.
pub fn build_request(input: &SearchInput) -> (r: HttpRequest)
    ensures
        r.url@ == search_url(input.query@, input.limit, input.page, input.sort@),
        search_headers(input.api_key@, r.headers@),
{
    let encoded = url_encode(input.query.as_str());
    let limit = decimal_text(input.limit);
    let page = decimal_text(input.page);
    let mut url = String::from_str(BASE_URL);
    url.append("/skills/search?q=");
    url.append(encoded.as_str());
    url.append("&limit=");
    url.append(limit.as_str());
    url.append("&page=");
    url.append(page.as_str());
    url.append("&sortBy=");
    url.append(input.sort.as_str());
    let mut bearer = String::from_str("Bearer ");
    bearer.append(input.api_key.as_str());
    let mut headers: Vec<(String, String)> = Vec::new();
    headers.push((String::from_str("Authorization"), bearer));
    headers.push((String::from_str("Content-Type"), String::from_str("application/json")));
    HttpRequest { url, headers }
}

/// Entries per page when none is asked for.
pub const DEFAULT_LIMIT: u32 = 10;

/// Page asked for when none is given.
pub const DEFAULT_PAGE: u32 = 1;

impl SearchInput {
    /// A search for `query` with the default options: ten entries, the first
    /// page, most recent first.
    pub fn new(query: String, api_key: String) -> (r: SearchInput)
        ensures
            r.query == query,
            r.api_key == api_key,
            r.limit == DEFAULT_LIMIT,
            r.page == DEFAULT_PAGE,
            r.sort@ == "recent"@,
    {
        SearchInput {
            query,
            limit: DEFAULT_LIMIT,
            page: DEFAULT_PAGE,
            sort: String::from_str("recent"),
            api_key,
        }
    }
}

/// The characters that percent-encoding can produce.
pub open spec fn is_encoded_char(c: char) -> bool {
    let n = c as u32;
    (0x30 <= n <= 0x39) || (0x41 <= n <= 0x5a) || (0x61 <= n <= 0x7a) || n == 0x2d || n == 0x2e
        || n == 0x5f || n == 0x7e || n == 0x25
}

proof fn lemma_percent_encode_chars(bytes: Seq<u8>)
    ensures
        forall|i: int|
            0 <= i < percent_encode(bytes).len() ==> is_encoded_char(
                #[trigger] percent_encode(bytes)[i],
            ),
    decreases bytes.len(),
{
    if bytes.len() > 0 {
        let b = bytes[0];
        lemma_percent_encode_chars(bytes.drop_first());
        let head = encode_byte(b);
        let tail = percent_encode(bytes.drop_first());
        assert(is_encoded_char(hex_digit(b as int / 16)));
        assert(is_encoded_char(hex_digit(b as int % 16)));
        assert forall|i: int| 0 <= i < head.len() implies is_encoded_char(#[trigger] head[i]) by {}
        assert forall|i: int| 0 <= i < percent_encode(bytes).len() implies is_encoded_char(
            #[trigger] percent_encode(bytes)[i],
        ) by {
            if i < head.len() {
                assert(percent_encode(bytes)[i] == head[i]);
            } else {
                assert(percent_encode(bytes)[i] == tail[i - head.len()]);
            }
        }
    }
}

/// The `q` parameter of a search address holds exactly the percent-encoded
/// query: it follows `?q=` directly after the endpoint, contains no `&`, `=`
/// or `#`, and is followed by `&limit=` with the limit, `&page=` with the page
/// and `&sortBy=` with the sort text, verbatim.
pub proof fn lemma_query_parameter(query: Seq<char>, limit: u32, page: u32, sort: Seq<char>)
    ensures
        ({
            let url = search_url(query, limit, page, sort);
            let enc = percent_encode(encode_utf8(query));
            let start = BASE_URL@.len() + "/skills/search?q="@.len() as int;
            &&& url.subrange(0, start) == BASE_URL@ + "/skills/search?q="@
            &&& url.subrange(start, start + enc.len() as int) == enc
            &&& forall|i: int|
                0 <= i < enc.len() ==> #[trigger] enc[i] != '&' && enc[i] != '=' && enc[i] != '#'
            &&& url.subrange(start + enc.len() as int, url.len() as int) == "&limit="@ + decimal(
                limit as nat,
            ) + "&page="@ + decimal(page as nat) + "&sortBy="@ + sort
        }),
{
    let url = search_url(query, limit, page, sort);
    let enc = percent_encode(encode_utf8(query));
    let pre = BASE_URL@ + "/skills/search?q="@;
    let post = "&limit="@ + decimal(limit as nat) + "&page="@ + decimal(page as nat) + "&sortBy="@
        + sort;
    assert(url =~= pre + enc + post);
    assert(url.subrange(0, pre.len() as int) =~= pre);
    assert(url.subrange(pre.len() as int, pre.len() + enc.len() as int) =~= enc);
    assert(url.subrange(pre.len() + enc.len() as int, url.len() as int) =~= post);
    lemma_percent_encode_chars(encode_utf8(query));
    assert forall|i: int| 0 <= i < enc.len() implies #[trigger] enc[i] != '&' && enc[i] != '='
        && enc[i] != '#' by {
        assert(is_encoded_char(enc[i]));
    }
}

} // verus!
