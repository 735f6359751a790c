//! The query: the address it is sent to, the credential it carries, and the
//! line that reports its answer.

use vstd::prelude::*;
use crate::text::{join, lemma_occurs_behind, lemma_regroup, occurs_in};

verus! {

/// Why a query failed: the request could not be sent, no answer arrived, or
/// its body could not be read as text. The status of an answer that did
/// arrive is no reason to fail.
#[derive(Clone, Debug, PartialEq, Eq)]
pub struct QueryError {
    /// The transport's own description of what went wrong.
    pub detail: String,
}

/// What a [`QueryError`] holds, as a sequence of characters.
pub struct QueryErrorView {
    pub detail: Seq<char>,
}

impl View for QueryError {
    type V = QueryErrorView;

    open spec fn view(&self) -> QueryErrorView {
        QueryErrorView { detail: self.detail@ }
    }
}

/// The query that is sent when no other is asked for.
pub open spec fn spec_account_query() -> Seq<char> {
    "SELECT Id, Name FROM Account"@
}

/// The query that is sent when no other is asked for: the identifier and
/// the name of every account.
pub fn account_query() -> (query: String)
    ensures
        query@ == spec_account_query(),
{
    String::from_str("SELECT Id, Name FROM Account")
}

/// The path of the query resource, below the instance's base address.
pub open spec fn spec_query_path() -> Seq<char> {
    "/services/data/v58.0/query/"@
}

/// What introduces the query text in the address.
pub open spec fn spec_query_key() -> Seq<char> {
    "?q="@
}

/// The address of a query: the base address, the resource's path, `?q=`
/// and the query text, each as given. Nothing is encoded or escaped.
pub open spec fn spec_request_url(instance_url: Seq<char>, query: Seq<char>) -> Seq<char> {
    instance_url + spec_query_path() + spec_query_key() + query
}

/// The address to which `query` is sent on the host at `instance_url`.
pub fn request_url(instance_url: &str, query: &str) -> (url: String)
    ensures
        url@ == spec_request_url(instance_url@, query@),
        occurs_in(url@, spec_query_key() + query@),
{
    let mut url = join(instance_url, "/services/data/v58.0/query/");
    url.append("?q=");
    url.append(query);
    proof {
        lemma_url_embeds_query(instance_url@, query@);
    }
    url
}

/// The query text stands in the address exactly as it was given: whatever
/// the base address and the query are, the address holds `?q=` directly
/// followed by the query, character for character.
pub proof fn lemma_url_embeds_query(instance_url: Seq<char>, query: Seq<char>)
    ensures
        occurs_in(spec_request_url(instance_url, query), spec_query_key() + query),
{
    let before = instance_url + spec_query_path();
    let needle = spec_query_key() + query;
    lemma_regroup(instance_url, spec_query_path(), spec_query_key(), query);
    lemma_occurs_behind(before, needle);
}

/// The value of the `Authorization` header for a bearer token.
pub open spec fn spec_bearer(access_token: Seq<char>) -> Seq<char> {
    "Bearer "@ + access_token
}

/// The value of the `Authorization` header that presents `access_token`.
pub fn bearer(access_token: &str) -> (value: String)
    ensures
        value@ == spec_bearer(access_token@),
{
    join("Bearer ", access_token)
}

/// The line that reports the answer to a query: a fixed label, then the
/// body as it came.
pub open spec fn spec_response_line(body: Seq<char>) -> Seq<char> {
    "Response: "@ + body
}

/// The line that reports `body`, the answer to a query.
pub fn response_line(body: &str) -> (line: String)
    ensures
        line@ == spec_response_line(body@),
{
    join("Response: ", body)
}

} // verus!
