//! Addresses: the base endpoint of a service, built once from `host:port`,
//! and the target of each call, resolved against it.

use vstd::prelude::*;
use vstd::string::*;
use crate::error::{PersiaRpcError, RpcErrorView};

verus! {

/// What `url::Url::parse` makes of `input`: the serialization of the URL, or
/// the text of the parse error.
pub uninterp spec fn url_parsed(input: Seq<char>) -> Result<Seq<char>, Seq<char>>;

/// What `url::Url::join` makes of `input` on the URL that `base` parses to:
/// the serialization of the joined URL, or the text of the parse error.
pub uninterp spec fn url_joined(base: Seq<char>, input: Seq<char>) -> Result<Seq<char>, Seq<char>>;

/// The plain values behind the outcome of a URL operation.
pub open spec fn text_outcome(r: Result<String, String>) -> Result<Seq<char>, Seq<char>> {
    match r {
        Ok(text) => Ok(text@),
        Err(cause) => Err(cause@),
    }
}

/// The plain values behind the outcome of resolving an address.
pub open spec fn address_view(r: Result<String, PersiaRpcError>) -> Result<
    Seq<char>,
    RpcErrorView,
> {
    match r {
        Ok(text) => Ok(text@),
        Err(error) => Err(error@),
    }
}

/// The scheme that every address is read with: plain HTTP.
pub open spec fn scheme_prefix() -> Seq<char> {
    "http://"@
}

/// The marker that the path of a compressed exchange ends with.
pub open spec fn compressed_suffix() -> Seq<char> {
    "_compressed"@
}

/// The text that is parsed for the address `host:port`.
pub open spec fn base_input(server_addr: Seq<char>) -> Seq<char> {
    scheme_prefix() + server_addr
}

/// The path of `endpoint_name`: the name, with the marker after it when the
/// exchange is compressed.
pub open spec fn endpoint_path_spec(endpoint_name: Seq<char>, compress: bool) -> Seq<char> {
    if compress {
        endpoint_name + compressed_suffix()
    } else {
        endpoint_name
    }
}

/// What an attempt to read `attempted` as an address comes to, given what the
/// URL parser made of it.
pub open spec fn address_outcome_spec(
    attempted: Seq<char>,
    parsed: Result<Seq<char>, Seq<char>>,
) -> Result<Seq<char>, RpcErrorView> {
    match parsed {
        Ok(text) => Ok(text),
        Err(cause) => Err(
            RpcErrorView::ServerAddrParseFailure { server_addr: attempted, source: cause },
        ),
    }
}

/// Calls `url::Url::parse` and hands back the URL's serialization, or the
/// text that the parse error displays.
///
/// Taken on trust from that crate: the outcome depends on `input` alone.
/// Nothing is claimed here of which inputs parse.
#[verifier::external_body]
pub(crate) fn parse_url(input: &str) -> (res: Result<String, String>)
    ensures
        text_outcome(res) == url_parsed(input@),
{
    match url::Url::parse(input) {
        Ok(parsed) => Ok(String::from(parsed)),
        Err(e) => Err(e.to_string()),
    }
}

/// Calls `url::Url::join` on the URL that `base` parses to and hands back the
/// joined URL's serialization, or the text that the parse error displays; a
/// `base` that does not parse gives its own parse error.
///
/// Taken on trust from that crate: the outcome depends on `base` and `input`
/// alone. Nothing is claimed here of which inputs join.
#[verifier::external_body]
pub(crate) fn join_url(base: &str, input: &str) -> (res: Result<String, String>)
    ensures
        text_outcome(res) == url_joined(base@, input@),
{
    match url::Url::parse(base) {
        Ok(parsed) => match parsed.join(input) {
            Ok(joined) => Ok(String::from(joined)),
            Err(e) => Err(e.to_string()),
        },
        Err(e) => Err(e.to_string()),
    }
}

/// Turns what the URL parser made of `attempted` into the outcome of
/// resolving it: the address, or an address failure that names `attempted`
/// and the cause.
pub fn address_outcome(attempted: &str, parsed: Result<String, String>) -> (res: Result<
    String,
    PersiaRpcError,
>)
    ensures
        address_view(res) == address_outcome_spec(attempted@, text_outcome(parsed)),
{
    match parsed {
        Ok(text) => Ok(text),
        Err(cause) => Err(
            PersiaRpcError::ServerAddrParseFailure {
                server_addr: String::from_str(attempted),
                source: cause,
            },
        ),
    }
}

/// The path that a call of `endpoint_name` targets.
pub fn endpoint_path(endpoint_name: &str, compress: bool) -> (res: String)
    ensures
        res@ == endpoint_path_spec(endpoint_name@, compress),
{
    if compress {
        String::from_str(endpoint_name).concat("_compressed")
    } else {
        String::from_str(endpoint_name)
    }
}

/// A compressed exchange never shares its path with the plain exchange of
/// the same endpoint: the one is the other with the marker after it.
pub proof fn lemma_compressed_path_is_distinct(endpoint_name: Seq<char>)
    ensures
        endpoint_path_spec(endpoint_name, false) == endpoint_name,
        endpoint_path_spec(endpoint_name, true) == endpoint_name + compressed_suffix(),
        endpoint_path_spec(endpoint_name, true) != endpoint_path_spec(endpoint_name, false),
{
    reveal_strlit("_compressed");
    assert(compressed_suffix().len() == 11);
    assert(endpoint_path_spec(endpoint_name, true).len() == endpoint_name.len() + 11);
}

/// Paths of two endpoints under the same choice of compression are equal
/// only if the endpoints' names are.
pub proof fn lemma_path_determines_name(a: Seq<char>, b: Seq<char>, compress: bool)
    requires
        endpoint_path_spec(a, compress) == endpoint_path_spec(b, compress),
    ensures
        a == b,
{
    if compress {
        let pa = a + compressed_suffix();
        let pb = b + compressed_suffix();
        assert(pa == pb);
        assert(pa.len() == a.len() + compressed_suffix().len());
        assert(pb.len() == b.len() + compressed_suffix().len());
        assert(a =~= pa.subrange(0, a.len() as int));
        assert(b =~= pb.subrange(0, b.len() as int));
    }
}

} // verus!
