//! The two requests of a lookup: the user by handle, then the user's recent posts.

use vstd::prelude::*;

verus! {

/// What a request asks for, and so what its answer holds.
#[derive(Clone, Copy, Debug, PartialEq, Eq)]
pub enum Endpoint {
    /// A user's profile, found by handle.
    UserByUsername,
    /// A user's recent posts, found by identifier.
    TweetsByUser,
}

/// One `key=value` pair of a request's query.
#[derive(Clone, Debug, PartialEq, Eq)]
pub struct QueryParam {
    pub key: String,
    pub value: String,
}

/// What a [`QueryParam`] stands for.
pub ghost struct QueryParamView {
    pub key: Seq<char>,
    pub value: Seq<char>,
}

impl View for QueryParam {
    type V = QueryParamView;

    open spec fn view(&self) -> QueryParamView {
        QueryParamView { key: self.key@, value: self.value@ }
    }
}

/// A GET request to the service. The bearer token is added by whoever sends it.
#[derive(Clone, Debug, PartialEq, Eq)]
pub struct ApiRequest {
    /// What is asked for.
    pub endpoint: Endpoint,
    /// The address, without the query.
    pub url: String,
    /// The query, in the order in which it is sent.
    pub query: Vec<QueryParam>,
}

/// What an [`ApiRequest`] stands for.
pub ghost struct ApiRequestView {
    pub endpoint: Endpoint,
    pub url: Seq<char>,
    pub query: Seq<QueryParamView>,
}

impl View for ApiRequest {
    type V = ApiRequestView;

    open spec fn view(&self) -> ApiRequestView {
        ApiRequestView {
            endpoint: self.endpoint,
            url: self.url@,
            query: self.query@.map_values(|param: QueryParam| param@),
        }
    }
}

/// The address under which users are found by handle; the handle follows it.
pub const USER_BY_USERNAME_URL: &'static str = "https://api.twitter.com/2/users/by/username/";

/// The address under which users are found by identifier; the identifier follows it.
pub const USERS_URL: &'static str = "https://api.twitter.com/2/users/";

/// What follows the identifier in the address of a user's posts.
pub const TWEETS_PATH: &'static str = "/tweets";

/// The profile fields that a lookup asks for.
pub const USER_FIELDS: &'static str =
    "created_at,protected,location,public_metrics,description,verified,profile_image_url";

/// The request for the profile of the user with the given handle.
pub open spec fn user_request_of(username: Seq<char>) -> ApiRequestView {
    ApiRequestView {
        endpoint: Endpoint::UserByUsername,
        url: USER_BY_USERNAME_URL@ + username,
        query: seq![QueryParamView { key: "user.fields"@, value: USER_FIELDS@ }],
    }
}

/// The request for the recent posts of the user with the given identifier:
/// five at most, without retweets and replies.
pub open spec fn tweets_request_of(id: Seq<char>) -> ApiRequestView {
    ApiRequestView {
        endpoint: Endpoint::TweetsByUser,
        url: USERS_URL@ + id + TWEETS_PATH@,
        query: seq![
            QueryParamView { key: "max_results"@, value: "5"@ },
            QueryParamView { key: "exclude"@, value: "retweets,replies"@ },
        ],
    }
}

/// One pair of a query.
fn query_param(key: &str, value: &str) -> (param: QueryParam)
    ensures
        param@ == (QueryParamView { key: key@, value: value@ }),
{
    QueryParam { key: String::from_str(key), value: String::from_str(value) }
}

/// The request for the profile of the user with the given handle.
pub fn user_request(username: &str) -> (request: ApiRequest)
    ensures
        request@ == user_request_of(username@),
{
    let mut url = String::from_str(USER_BY_USERNAME_URL);
    url.append(username);
    let mut query: Vec<QueryParam> = Vec::new();
    query.push(query_param("user.fields", USER_FIELDS));
    let request = ApiRequest { endpoint: Endpoint::UserByUsername, url, query };
    assert(request@.query =~= user_request_of(username@).query);
    request
}

/// The request for the recent posts of the user with the given identifier.
pub fn tweets_request(id: &str) -> (request: ApiRequest)
    ensures
        request@ == tweets_request_of(id@),
{
    let mut url = String::from_str(USERS_URL);
    url.append(id);
    url.append(TWEETS_PATH);
    let mut query: Vec<QueryParam> = Vec::new();
    query.push(query_param("max_results", "5"));
    query.push(query_param("exclude", "retweets,replies"));
    let request = ApiRequest { endpoint: Endpoint::TweetsByUser, url, query };
    assert(request@.query =~= tweets_request_of(id@).query);
    request
}

} // verus!
