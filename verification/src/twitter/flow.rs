//! The order of a lookup. Fetching and sending are the caller's work; what
//! to fetch next, what to send, and when to give up is decided here: the
//! caller performs an action, hands back the answer, and gets the next action.

use crate::twitter::model::User;
use crate::twitter::model::UserData;
use crate::twitter::model::UserDataView;
use crate::twitter::model::UserTweets;
use crate::twitter::model::UserTweetsView;
use crate::twitter::model::UserView;
use crate::twitter::payload::build_payload;
use crate::twitter::payload::field_labels;
use crate::twitter::payload::lemma_fields_are_fixed;
use crate::twitter::payload::payload_of;
use crate::twitter::payload::EmbedFieldView;
use crate::twitter::payload::DisplayPayload;
use crate::twitter::payload::DisplayPayloadView;
use crate::twitter::request::tweets_request;
use crate::twitter::request::tweets_request_of;
use crate::twitter::request::user_request;
use crate::twitter::request::user_request_of;
use crate::twitter::request::ApiRequest;
use crate::twitter::request::ApiRequestView;
use vstd::prelude::*;

verus! {

/// Why a fetch brought nothing.
#[derive(Clone, Copy, Debug, PartialEq, Eq)]
pub enum FetchError {
    /// The request failed on the network, or the service refused it.
    Transport,
    /// The answer does not have the shape that was asked for.
    SchemaMismatch,
}

/// What a fetch brought.
#[derive(Clone, Debug, PartialEq, Eq)]
pub enum ResponseBody {
    /// The answer to a lookup by handle.
    User(User),
    /// The answer to a request for recent posts.
    Tweets(UserTweets),
}

/// What a [`ResponseBody`] stands for.
pub ghost enum ResponseBodyView {
    User(UserView),
    Tweets(UserTweetsView),
}

impl View for ResponseBody {
    type V = ResponseBodyView;

    open spec fn view(&self) -> ResponseBodyView {
        match self {
            ResponseBody::User(user) => ResponseBodyView::User(user@),
            ResponseBody::Tweets(tweets) => ResponseBodyView::Tweets(tweets@),
        }
    }
}

/// What an answer, or the lack of one, stands for.
pub open spec fn response_view(response: Result<ResponseBody, FetchError>) -> Result<
    ResponseBodyView,
    FetchError,
> {
    match response {
        Ok(body) => Ok(body@),
        Err(error) => Err(error),
    }
}

/// Where a lookup stands.
#[derive(Clone, Debug, PartialEq, Eq)]
pub enum LookupState {
    /// The profile was asked for.
    AwaitingUser,
    /// The profile is here, and the user's posts were asked for.
    AwaitingTweets(UserData),
    /// The payload was handed out, or the lookup was given up.
    Finished,
}

/// What a [`LookupState`] stands for.
pub ghost enum LookupStateView {
    AwaitingUser,
    AwaitingTweets(UserDataView),
    Finished,
}

impl View for LookupState {
    type V = LookupStateView;

    open spec fn view(&self) -> LookupStateView {
        match self {
            LookupState::AwaitingUser => LookupStateView::AwaitingUser,
            LookupState::AwaitingTweets(user) => LookupStateView::AwaitingTweets(user@),
            LookupState::Finished => LookupStateView::Finished,
        }
    }
}

/// What the caller is to do next.
#[derive(Clone, Debug, PartialEq, Eq)]
pub enum LookupAction {
    /// Send the request and hand back what it brought.
    Fetch(ApiRequest),
    /// Show the payload. The lookup is done.
    Send(DisplayPayload),
    /// Give up, for the reason given. Nothing is shown.
    Abort(FetchError),
    /// Nothing: the lookup was over before.
    Idle,
}

/// What a [`LookupAction`] stands for.
pub ghost enum LookupActionView {
    Fetch(ApiRequestView),
    Send(DisplayPayloadView),
    Abort(FetchError),
    Idle,
}

impl View for LookupAction {
    type V = LookupActionView;

    open spec fn view(&self) -> LookupActionView {
        match self {
            LookupAction::Fetch(request) => LookupActionView::Fetch(request@),
            LookupAction::Send(payload) => LookupActionView::Send(payload@),
            LookupAction::Abort(error) => LookupActionView::Abort(*error),
            LookupAction::Idle => LookupActionView::Idle,
        }
    }
}

/// The first step of the lookup of the user with the given handle.
pub open spec fn first_step(username: Seq<char>) -> (LookupStateView, LookupActionView) {
    (LookupStateView::AwaitingUser, LookupActionView::Fetch(user_request_of(username)))
}

/// The step that an answer leads to.
///
/// A profile leads to the request for the user's posts, the posts to the
/// payload. A failed fetch ends the lookup with its error; so does an answer
/// of the other kind than the one awaited, whose shape is not the one asked
/// for. A lookup that is over stays so.
pub open spec fn step(state: LookupStateView, response: Result<ResponseBodyView, FetchError>) -> (
    LookupStateView,
    LookupActionView,
) {
    match state {
        LookupStateView::AwaitingUser => match response {
            Ok(ResponseBodyView::User(user)) => (
                LookupStateView::AwaitingTweets(user.data),
                LookupActionView::Fetch(tweets_request_of(user.data.id)),
            ),
            Ok(ResponseBodyView::Tweets(_)) => (
                LookupStateView::Finished,
                LookupActionView::Abort(FetchError::SchemaMismatch),
            ),
            Err(error) => (LookupStateView::Finished, LookupActionView::Abort(error)),
        },
        LookupStateView::AwaitingTweets(user) => match response {
            Ok(ResponseBodyView::Tweets(tweets)) => (
                LookupStateView::Finished,
                LookupActionView::Send(payload_of(user, tweets)),
            ),
            Ok(ResponseBodyView::User(_)) => (
                LookupStateView::Finished,
                LookupActionView::Abort(FetchError::SchemaMismatch),
            ),
            Err(error) => (LookupStateView::Finished, LookupActionView::Abort(error)),
        },
        LookupStateView::Finished => (LookupStateView::Finished, LookupActionView::Idle),
    }
}

/// Starts the lookup of the user with the given handle.
pub fn begin(username: &str) -> (outcome: (LookupState, LookupAction))
    ensures
        (outcome.0@, outcome.1@) == first_step(username@),
{
    (LookupState::AwaitingUser, LookupAction::Fetch(user_request(username)))
}

/// Takes what the last fetch brought and says what to do next.
pub fn advance(state: LookupState, response: Result<ResponseBody, FetchError>) -> (outcome: (
    LookupState,
    LookupAction,
))
    ensures
        (outcome.0@, outcome.1@) == step(state@, response_view(response)),
{
    match state {
        LookupState::AwaitingUser => match response {
            Ok(ResponseBody::User(user)) => {
                let request = tweets_request(user.data.id.as_str());
                (LookupState::AwaitingTweets(user.data), LookupAction::Fetch(request))
            },
            Ok(ResponseBody::Tweets(_)) => (
                LookupState::Finished,
                LookupAction::Abort(FetchError::SchemaMismatch),
            ),
            Err(error) => (LookupState::Finished, LookupAction::Abort(error)),
        },
        LookupState::AwaitingTweets(user) => match response {
            Ok(ResponseBody::Tweets(tweets)) => (
                LookupState::Finished,
                LookupAction::Send(build_payload(&user, &tweets)),
            ),
            Ok(ResponseBody::User(_)) => (
                LookupState::Finished,
                LookupAction::Abort(FetchError::SchemaMismatch),
            ),
            Err(error) => (LookupState::Finished, LookupAction::Abort(error)),
        },
        LookupState::Finished => (LookupState::Finished, LookupAction::Idle),
    }
}

/// The actions of a lookup that stands at `state` and is handed the given
/// answers one after the other.
pub open spec fn actions_of(
    state: LookupStateView,
    responses: Seq<Result<ResponseBodyView, FetchError>>,
) -> Seq<LookupActionView>
    decreases responses.len(),
{
    if responses.len() == 0 {
        Seq::empty()
    } else {
        seq![step(state, responses[0]).1] + actions_of(
            step(state, responses[0]).0,
            responses.drop_first(),
        )
    }
}

/// A lookup that is under way and is handed a failed fetch gives up with
/// that fetch's error, and is over.
pub proof fn lemma_failed_fetch_aborts(state: LookupStateView, error: FetchError)
    requires
        state != LookupStateView::Finished,
    ensures
        step(state, Err(error)) == (LookupStateView::Finished, LookupActionView::Abort(error)),
{
}

/// Whatever payload a step hands out has the eight fields in their order.
pub proof fn lemma_sent_payload_is_complete(
    state: LookupStateView,
    response: Result<ResponseBodyView, FetchError>,
)
    requires
        step(state, response).1 is Send,
    ensures
        step(state, response).1->Send_0.fields.map_values(|field: EmbedFieldView| field.name)
            == field_labels(),
{
    match (state, response) {
        (LookupStateView::AwaitingTweets(user), Ok(ResponseBodyView::Tweets(tweets))) => {
            lemma_fields_are_fixed(user, tweets);
        },
        _ => {},
    }
}

/// There is one action for each answer.
pub proof fn lemma_one_action_per_answer(
    state: LookupStateView,
    responses: Seq<Result<ResponseBodyView, FetchError>>,
)
    ensures
        actions_of(state, responses).len() == responses.len(),
    decreases responses.len(),
{
    if responses.len() > 0 {
        lemma_one_action_per_answer(step(state, responses[0]).0, responses.drop_first());
    }
}

/// A lookup that is over does nothing more, whatever it is handed.
pub proof fn lemma_finished_stays_idle(
    responses: Seq<Result<ResponseBodyView, FetchError>>,
    i: int,
)
    requires
        0 <= i < responses.len(),
    ensures
        actions_of(LookupStateView::Finished, responses)[i] == LookupActionView::Idle,
    decreases responses.len(),
{
    lemma_one_action_per_answer(LookupStateView::Finished, responses.drop_first());
    if i > 0 {
        lemma_finished_stays_idle(responses.drop_first(), i - 1);
    }
}

/// A lookup hands out a payload once at most, and only as its second
/// action: after a profile and then posts have come in. The payload is the
/// one of that profile and those posts.
pub proof fn lemma_payload_needs_both_answers(
    responses: Seq<Result<ResponseBodyView, FetchError>>,
    i: int,
)
    requires
        0 <= i < responses.len(),
        actions_of(LookupStateView::AwaitingUser, responses)[i] is Send,
    ensures
        i == 1,
        responses[0] is Ok,
        responses[0]->Ok_0 is User,
        responses[1] is Ok,
        responses[1]->Ok_0 is Tweets,
        actions_of(LookupStateView::AwaitingUser, responses)[i] == LookupActionView::Send(
            payload_of(responses[0]->Ok_0->User_0.data, responses[1]->Ok_0->Tweets_0),
        ),
{
    let first = step(LookupStateView::AwaitingUser, responses[0]);
    let later = responses.drop_first();
    lemma_one_action_per_answer(first.0, later);
    assert(i > 0);
    if first.0 == LookupStateView::Finished {
        lemma_finished_stays_idle(later, i - 1);
    } else {
        let second = step(first.0, later[0]);
        lemma_one_action_per_answer(second.0, later.drop_first());
        assert(second.0 == LookupStateView::Finished);
        if i > 1 {
            lemma_finished_stays_idle(later.drop_first(), i - 2);
        }
    }
}

/// Where the answer to either request is a failed fetch, be it for the
/// network or for the shape of the answer, the lookup never hands out a payload.
pub proof fn lemma_failed_fetch_sends_nothing(
    responses: Seq<Result<ResponseBodyView, FetchError>>,
    failed: int,
    i: int,
)
    requires
        0 <= failed < responses.len(),
        failed < 2,
        responses[failed] is Err,
        0 <= i < responses.len(),
    ensures
        !(actions_of(LookupStateView::AwaitingUser, responses)[i] is Send),
{
    if actions_of(LookupStateView::AwaitingUser, responses)[i] is Send {
        lemma_payload_needs_both_answers(responses, i);
    }
}

} // verus!
