use bot_lookups::calendar::UtcTimestamp;
use bot_lookups::twitter::flow::advance;
use bot_lookups::twitter::flow::begin;
use bot_lookups::twitter::flow::FetchError;
use bot_lookups::twitter::flow::LookupAction;
use bot_lookups::twitter::flow::LookupState;
use bot_lookups::twitter::flow::ResponseBody;
use bot_lookups::twitter::model::User;
use bot_lookups::twitter::model::UserData;
use bot_lookups::twitter::model::UserPublicMetrics;
use bot_lookups::twitter::model::UserTweet;
use bot_lookups::twitter::model::UserTweets;
use bot_lookups::twitter::payload::build_payload;
use bot_lookups::twitter::payload::footer;
use bot_lookups::twitter::payload::latest_tweet;
use bot_lookups::twitter::payload::location_label;
use bot_lookups::twitter::payload::profile_url;
use bot_lookups::twitter::payload::protected_label;
use bot_lookups::twitter::payload::resolve_avatar_url;
use bot_lookups::twitter::payload::title;
use bot_lookups::twitter::payload::DisplayPayload;
use bot_lookups::twitter::payload::EmbedField;
use bot_lookups::twitter::payload::FieldValue;
use bot_lookups::twitter::payload::ACCENT_COLOR;
use bot_lookups::twitter::payload::NO_LOCATION;
use bot_lookups::twitter::payload::NO_TWEET;
use bot_lookups::twitter::payload::VERIFIED_MARK;
use bot_lookups::twitter::request::tweets_request;
use bot_lookups::twitter::request::user_request;
use bot_lookups::twitter::request::ApiRequest;
use bot_lookups::twitter::request::Endpoint;
use bot_lookups::twitter::request::QueryParam;

fn sample_user() -> UserData {
    UserData {
        id: "2244994945".to_string(),
        name: "Twitter Dev".to_string(),
        username: "TwitterDev".to_string(),
        created_at: UtcTimestamp::new(2013, 12, 14, 4, 35, 55).unwrap(),
        protected: false,
        location: Some("127.0.0.1".to_string()),
        description: "The voice of the developer platform".to_string(),
        verified: true,
        profile_image_url: "https://pbs.twimg.com/profile_images/1283786620521652229/lEODkLTh_normal.jpg"
            .to_string(),
        public_metrics: UserPublicMetrics {
            followers_count: 513958,
            following_count: 2039,
            tweet_count: 3635,
        },
    }
}

fn posts(texts: &[&str]) -> UserTweets {
    UserTweets {
        data: Some(texts.iter().map(|text| UserTweet { text: text.to_string() }).collect()),
    }
}

fn no_posts() -> UserTweets {
    UserTweets { data: None }
}

fn text_field(name: &str, text: &str, inline: bool) -> EmbedField {
    EmbedField { name: name.to_string(), value: FieldValue::Text(text.to_string()), inline }
}

fn count_field(name: &str, count: u64, inline: bool) -> EmbedField {
    EmbedField { name: name.to_string(), value: FieldValue::Count(count), inline }
}

fn labels(payload: &DisplayPayload) -> Vec<String> {
    payload.fields.iter().map(|field| field.name.clone()).collect()
}

fn fixed_labels() -> Vec<String> {
    vec![
        "Username".to_string(),
        "Join Date".to_string(),
        "Protected".to_string(),
        "Location".to_string(),
        "Following".to_string(),
        "Followers".to_string(),
        "Tweets".to_string(),
        "Latest Tweet".to_string(),
    ]
}

#[test]
fn payload_of_a_full_profile() {
    let payload = build_payload(&sample_user(), &posts(&["newest", "older"]));
    let expected = DisplayPayload {
        title: "Twitter Dev \\\u{2714}\u{fe0f}".to_string(),
        url: "https://twitter.com/TwitterDev".to_string(),
        thumbnail: "https://pbs.twimg.com/profile_images/1283786620521652229/lEODkLTh_400x400.jpg"
            .to_string(),
        color: 0x00acee,
        description: "The voice of the developer platform".to_string(),
        fields: vec![
            text_field("Username", "TwitterDev", true),
            text_field("Join Date", "December 14, 2013", true),
            text_field("Protected", "No", true),
            text_field("Location", "127.0.0.1", true),
            count_field("Following", 2039, true),
            count_field("Followers", 513958, true),
            count_field("Tweets", 3635, true),
            text_field("Latest Tweet", "newest", false),
        ],
        footer: "User ID: 2244994945 | Powered by Twitter.".to_string(),
    };
    assert_eq!(payload, expected);
}

#[test]
fn payload_always_has_the_eight_fields_in_order() {
    let mut bare = sample_user();
    bare.location = None;
    bare.description = String::new();
    bare.verified = false;
    bare.protected = true;
    let cases = [
        build_payload(&sample_user(), &posts(&["a"])),
        build_payload(&sample_user(), &no_posts()),
        build_payload(&sample_user(), &posts(&[])),
        build_payload(&bare, &posts(&["a", "b", "c", "d", "e"])),
        build_payload(&bare, &no_posts()),
    ];
    for payload in cases.iter() {
        assert_eq!(payload.fields.len(), 8);
        assert_eq!(labels(payload), fixed_labels());
        for (index, field) in payload.fields.iter().enumerate() {
            assert_eq!(field.inline, index < 7);
        }
    }
}

#[test]
fn payload_without_location_says_none() {
    let mut user = sample_user();
    user.location = None;
    let payload = build_payload(&user, &no_posts());
    assert_eq!(payload.fields[3], text_field("Location", "None", true));
    assert_eq!(NO_LOCATION, "None");
    assert_eq!(location_label(&None), "None");
    assert_eq!(location_label(&Some("Berlin".to_string())), "Berlin");
    assert_eq!(location_label(&Some(String::new())), "");
}

#[test]
fn payload_without_posts_says_not_available() {
    let payload = build_payload(&sample_user(), &no_posts());
    assert_eq!(payload.fields[7], text_field("Latest Tweet", "Tweet not available.", false));
    assert_eq!(NO_TWEET, "Tweet not available.");
    assert_eq!(latest_tweet(&no_posts()), "Tweet not available.");
}

#[test]
fn payload_with_an_empty_list_of_posts_says_not_available() {
    let payload = build_payload(&sample_user(), &posts(&[]));
    assert_eq!(payload.fields[7], text_field("Latest Tweet", "Tweet not available.", false));
    assert_eq!(latest_tweet(&posts(&[])), "Tweet not available.");
}

#[test]
fn payload_shows_the_first_post() {
    assert_eq!(latest_tweet(&posts(&["only"])), "only");
    assert_eq!(latest_tweet(&posts(&["first", "second", "third"])), "first");
    assert_eq!(latest_tweet(&posts(&["", "second"])), "");
}

#[test]
fn payload_shows_each_count_under_its_label() {
    let mut user = sample_user();
    user.public_metrics =
        UserPublicMetrics { followers_count: 1, following_count: 2, tweet_count: 3 };
    let payload = build_payload(&user, &no_posts());
    assert_eq!(payload.fields[4], count_field("Following", 2, true));
    assert_eq!(payload.fields[5], count_field("Followers", 1, true));
    assert_eq!(payload.fields[6], count_field("Tweets", 3, true));
    user.public_metrics = UserPublicMetrics {
        followers_count: u64::MAX,
        following_count: 0,
        tweet_count: u64::MAX - 1,
    };
    let payload = build_payload(&user, &no_posts());
    assert_eq!(payload.fields[4].value, FieldValue::Count(0));
    assert_eq!(payload.fields[5].value, FieldValue::Count(u64::MAX));
    assert_eq!(payload.fields[6].value, FieldValue::Count(u64::MAX - 1));
}

#[test]
fn payload_says_whether_the_account_is_protected() {
    let mut user = sample_user();
    user.protected = true;
    assert_eq!(build_payload(&user, &no_posts()).fields[2], text_field("Protected", "Yes", true));
    user.protected = false;
    assert_eq!(build_payload(&user, &no_posts()).fields[2], text_field("Protected", "No", true));
    assert_eq!(protected_label(true), "Yes");
    assert_eq!(protected_label(false), "No");
}

#[test]
fn payload_shows_the_join_date_without_padding() {
    let mut user = sample_user();
    user.created_at = UtcTimestamp::new(2023, 3, 4, 0, 0, 0).unwrap();
    let payload = build_payload(&user, &no_posts());
    assert_eq!(payload.fields[1], text_field("Join Date", "March 4, 2023", true));
}

#[test]
fn payload_has_the_accent_colour() {
    assert_eq!(build_payload(&sample_user(), &no_posts()).color, 0x00acee);
    assert_eq!(ACCENT_COLOR, 0x00acee);
}

#[test]
fn avatar_url_gets_the_larger_size() {
    assert_eq!(resolve_avatar_url(".../abc_normal.jpg"), ".../abc_400x400.jpg");
    assert_eq!(
        resolve_avatar_url("https://pbs.twimg.com/profile_images/1/x_normal.png"),
        "https://pbs.twimg.com/profile_images/1/x_400x400.png"
    );
}

#[test]
fn avatar_url_without_the_token_passes_through() {
    assert_eq!(resolve_avatar_url(".../abc.jpg"), ".../abc.jpg");
    assert_eq!(resolve_avatar_url(".../abc_bigger.jpg"), ".../abc_bigger.jpg");
    assert_eq!(resolve_avatar_url(""), "");
    assert_eq!(
        resolve_avatar_url("https://abs.twimg.com/sticky/default_profile_images/default_profile.png"),
        "https://abs.twimg.com/sticky/default_profile_images/default_profile.png"
    );
}

#[test]
fn avatar_url_resolved_twice_is_resolved_once() {
    for url in [".../abc_normal.jpg", "normal/normal_normal.jpg", ".../abc.jpg", "nornormalmal"] {
        let once = resolve_avatar_url(url);
        assert_eq!(resolve_avatar_url(&once), once);
    }
    assert_eq!(resolve_avatar_url("normal/normal_normal.jpg"), "400x400/400x400_400x400.jpg");
}

#[test]
fn title_of_a_verified_user_ends_with_the_mark() {
    assert_eq!(title("Twitter Dev", true), "Twitter Dev \\\u{2714}\u{fe0f}");
    assert!(title("Twitter Dev", true).ends_with(VERIFIED_MARK));
    assert_eq!(title("", true), " \\\u{2714}\u{fe0f}");
    assert_eq!(VERIFIED_MARK, "\\\u{2714}\u{fe0f}");
}

#[test]
fn title_of_an_unverified_user_has_no_mark() {
    assert_eq!(title("Twitter Dev", false), "Twitter Dev ");
    assert!(!title("Twitter Dev", false).ends_with(VERIFIED_MARK));
    assert!(!title("Twitter Dev", false).contains('\u{2714}'));
    assert_eq!(title("", false), " ");
    assert_eq!(format!("{}{}", title("x", false), VERIFIED_MARK), title("x", true));
}

#[test]
fn profile_url_and_footer() {
    assert_eq!(profile_url("TwitterDev"), "https://twitter.com/TwitterDev");
    assert_eq!(profile_url(""), "https://twitter.com/");
    assert_eq!(footer("2244994945"), "User ID: 2244994945 | Powered by Twitter.");
    assert_eq!(footer(""), "User ID:  | Powered by Twitter.");
}

#[test]
fn request_for_a_user() {
    let expected = ApiRequest {
        endpoint: Endpoint::UserByUsername,
        url: "https://api.twitter.com/2/users/by/username/TwitterDev".to_string(),
        query: vec![QueryParam {
            key: "user.fields".to_string(),
            value: "created_at,protected,location,public_metrics,description,verified,profile_image_url"
                .to_string(),
        }],
    };
    assert_eq!(user_request("TwitterDev"), expected);
}

#[test]
fn request_for_the_posts_of_a_user() {
    let expected = ApiRequest {
        endpoint: Endpoint::TweetsByUser,
        url: "https://api.twitter.com/2/users/2244994945/tweets".to_string(),
        query: vec![
            QueryParam { key: "max_results".to_string(), value: "5".to_string() },
            QueryParam { key: "exclude".to_string(), value: "retweets,replies".to_string() },
        ],
    };
    assert_eq!(tweets_request("2244994945"), expected);
}

#[test]
fn lookup_runs_from_handle_to_payload() {
    let (state, action) = begin("TwitterDev");
    assert_eq!(state, LookupState::AwaitingUser);
    assert_eq!(action, LookupAction::Fetch(user_request("TwitterDev")));

    let answer = ResponseBody::User(User { data: sample_user() });
    let (state, action) = advance(state, Ok(answer));
    assert_eq!(state, LookupState::AwaitingTweets(sample_user()));
    assert_eq!(action, LookupAction::Fetch(tweets_request("2244994945")));

    let answer = ResponseBody::Tweets(posts(&["newest", "older"]));
    let (state, action) = advance(state, Ok(answer));
    assert_eq!(state, LookupState::Finished);
    assert_eq!(
        action,
        LookupAction::Send(build_payload(&sample_user(), &posts(&["newest", "older"])))
    );

    let (state, action) = advance(state, Ok(ResponseBody::Tweets(no_posts())));
    assert_eq!(state, LookupState::Finished);
    assert_eq!(action, LookupAction::Idle);
}

#[test]
fn lookup_without_posts_still_sends_a_payload() {
    let (state, _) = begin("TwitterDev");
    let (state, _) = advance(state, Ok(ResponseBody::User(User { data: sample_user() })));
    let (state, action) = advance(state, Ok(ResponseBody::Tweets(no_posts())));
    assert_eq!(state, LookupState::Finished);
    match action {
        LookupAction::Send(payload) => {
            assert_eq!(payload.fields.len(), 8);
            assert_eq!(labels(&payload), fixed_labels());
            assert_eq!(payload.fields[7].value, FieldValue::Text("Tweet not available.".to_string()));
        },
        other => panic!("expected a payload, got {:?}", other),
    }
}

#[test]
fn lookup_gives_up_when_the_user_answer_is_malformed() {
    let (state, _) = begin("TwitterDev");
    let (state, action) = advance(state, Err(FetchError::SchemaMismatch));
    assert_eq!(state, LookupState::Finished);
    assert_eq!(action, LookupAction::Abort(FetchError::SchemaMismatch));
    let (state, action) = advance(state, Ok(ResponseBody::Tweets(posts(&["late"]))));
    assert_eq!(state, LookupState::Finished);
    assert_eq!(action, LookupAction::Idle);
}

#[test]
fn lookup_gives_up_when_the_posts_answer_is_malformed() {
    let (state, _) = begin("TwitterDev");
    let (state, _) = advance(state, Ok(ResponseBody::User(User { data: sample_user() })));
    let (state, action) = advance(state, Err(FetchError::SchemaMismatch));
    assert_eq!(state, LookupState::Finished);
    assert_eq!(action, LookupAction::Abort(FetchError::SchemaMismatch));
    let (state, action) = advance(state, Ok(ResponseBody::Tweets(posts(&["late"]))));
    assert_eq!(state, LookupState::Finished);
    assert_eq!(action, LookupAction::Idle);
}

#[test]
fn lookup_gives_up_when_a_fetch_fails_on_the_network() {
    let (state, _) = begin("TwitterDev");
    let (state, action) = advance(state, Err(FetchError::Transport));
    assert_eq!(state, LookupState::Finished);
    assert_eq!(action, LookupAction::Abort(FetchError::Transport));

    let (state, _) = begin("TwitterDev");
    let (state, _) = advance(state, Ok(ResponseBody::User(User { data: sample_user() })));
    let (state, action) = advance(state, Err(FetchError::Transport));
    assert_eq!(state, LookupState::Finished);
    assert_eq!(action, LookupAction::Abort(FetchError::Transport));
}

#[test]
fn lookup_takes_an_answer_of_the_wrong_kind_as_a_mismatch() {
    let (state, _) = begin("TwitterDev");
    let (state, action) = advance(state, Ok(ResponseBody::Tweets(posts(&["early"]))));
    assert_eq!(state, LookupState::Finished);
    assert_eq!(action, LookupAction::Abort(FetchError::SchemaMismatch));

    let (state, _) = begin("TwitterDev");
    let (state, _) = advance(state, Ok(ResponseBody::User(User { data: sample_user() })));
    let (state, action) = advance(state, Ok(ResponseBody::User(User { data: sample_user() })));
    assert_eq!(state, LookupState::Finished);
    assert_eq!(action, LookupAction::Abort(FetchError::SchemaMismatch));
}

#[test]
fn lookup_that_is_over_stays_idle() {
    let answers = [
        Ok(ResponseBody::User(User { data: sample_user() })),
        Ok(ResponseBody::Tweets(no_posts())),
        Err(FetchError::Transport),
        Err(FetchError::SchemaMismatch),
    ];
    for answer in answers {
        let (state, action) = advance(LookupState::Finished, answer);
        assert_eq!(state, LookupState::Finished);
        assert_eq!(action, LookupAction::Idle);
    }
}
