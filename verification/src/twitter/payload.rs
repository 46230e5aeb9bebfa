//! The payload shown for a user: what it holds and how it is made from the
//! user's profile and recent posts.

use crate::calendar::long_date_text;
use crate::text::ends_with;
use crate::text::lemma_substitute_first_occurrence;
use crate::text::lemma_substitute_idempotent;
use crate::text::lemma_substitute_without_occurrence;
use crate::text::matches_at;
use crate::text::occurs_in;
use crate::text::replace_all;
use crate::text::share_no_char;
use crate::text::substitute;
use crate::twitter::model::UserData;
use crate::twitter::model::UserDataView;
use crate::twitter::model::UserTweet;
use crate::twitter::model::UserTweets;
use crate::twitter::model::UserTweetsView;
use vstd::prelude::*;

verus! {

/// The accent colour of the payload, as red, green and blue.
pub const ACCENT_COLOR: u32 = 0x00acee;

/// What follows the name of a verified user in the title: an escaped check mark.
pub const VERIFIED_MARK: &'static str = "\\\u{2714}\u{fe0f}";

/// The size token in the address of a profile image as the service sends it.
pub const SIZE_TOKEN: &'static str = "normal";

/// The size token of the image that is shown.
pub const SIZE_SHOWN: &'static str = "400x400";

/// The address under which a profile is found; the handle follows it.
pub const PROFILE_URL: &'static str = "https://twitter.com/";

/// What the location field says of a user without location.
pub const NO_LOCATION: &'static str = "None";

/// What the latest tweet field says where no post qualifies.
pub const NO_TWEET: &'static str = "Tweet not available.";

/// The title: the name, a space, and for a verified user the mark.
pub open spec fn title_text(name: Seq<char>, verified: bool) -> Seq<char> {
    if verified {
        name + " "@ + VERIFIED_MARK@
    } else {
        name + " "@
    }
}

/// The address of the profile of the user with the given handle.
pub open spec fn profile_link(handle: Seq<char>) -> Seq<char> {
    PROFILE_URL@ + handle
}

/// The address of the profile image in the size that is shown.
pub open spec fn avatar_link(url: Seq<char>) -> Seq<char> {
    substitute(url, SIZE_TOKEN@, SIZE_SHOWN@)
}

/// "Yes" or "No".
pub open spec fn yes_no(flag: bool) -> Seq<char> {
    if flag {
        "Yes"@
    } else {
        "No"@
    }
}

/// The location, or the placeholder where there is none.
pub open spec fn location_text(location: Option<Seq<char>>) -> Seq<char> {
    match location {
        Some(place) => place,
        None => NO_LOCATION@,
    }
}

/// The text of the newest post, or the placeholder where the service sent
/// no posts or an empty list.
pub open spec fn latest_tweet_text(tweets: UserTweetsView) -> Seq<char> {
    match tweets.data {
        Some(posts) => if posts.len() > 0 {
            posts[0].text
        } else {
            NO_TWEET@
        },
        None => NO_TWEET@,
    }
}

/// The footer, which names the user's identifier.
pub open spec fn footer_text(id: Seq<char>) -> Seq<char> {
    "User ID: "@ + id + " | Powered by Twitter."@
}

/// The title for a user of the given name.
pub fn title(name: &str, verified: bool) -> (text: String)
    ensures
        text@ == title_text(name@, verified),
{
    let mut text = String::from_str(name);
    text.append(" ");
    if verified {
        text.append(VERIFIED_MARK);
    }
    text
}

/// The address of the profile of the user with the given handle.
pub fn profile_url(handle: &str) -> (url: String)
    ensures
        url@ == profile_link(handle@),
{
    let mut url = String::from_str(PROFILE_URL);
    url.append(handle);
    url
}

/// The address of the profile image in the size that is shown: every size
/// token of the service's address gives way to the one wanted. An address
/// without the token comes back as it is.
pub fn resolve_avatar_url(url: &str) -> (resolved: String)
    ensures
        resolved@ == avatar_link(url@),
{
    replace_all(url, SIZE_TOKEN, SIZE_SHOWN)
}

/// "Yes" for a protected account, "No" for an open one.
pub fn protected_label(protected: bool) -> (label: String)
    ensures
        label@ == yes_no(protected),
{
    if protected {
        String::from_str("Yes")
    } else {
        String::from_str("No")
    }
}

/// The location, or the placeholder where there is none.
pub fn location_label(location: &Option<String>) -> (label: String)
    ensures
        label@ == location_text(
            match *location {
                Some(place) => Some(place@),
                None => None,
            },
        ),
{
    match location {
        Some(place) => place.clone(),
        None => String::from_str(NO_LOCATION),
    }
}

/// The text of the newest post, or the placeholder where there is none.
pub fn latest_tweet(tweets: &UserTweets) -> (text: String)
    ensures
        text@ == latest_tweet_text(tweets@),
{
    match &tweets.data {
        Some(posts) => {
            if posts.len() > 0 {
                posts[0].text.clone()
            } else {
                String::from_str(NO_TWEET)
            }
        },
        None => String::from_str(NO_TWEET),
    }
}

/// The footer, which names the user's identifier.
pub fn footer(id: &str) -> (text: String)
    ensures
        text@ == footer_text(id@),
{
    let mut text = String::from_str("User ID: ");
    text.append(id);
    text.append(" | Powered by Twitter.");
    text
}

/// What a field shows: a text as it stands, or a count, which is shown
/// through the number formatting of whoever displays the payload.
#[derive(Clone, Debug, PartialEq, Eq)]
pub enum FieldValue {
    Text(String),
    Count(u64),
}

/// What a [`FieldValue`] stands for.
pub ghost enum FieldValueView {
    Text(Seq<char>),
    Count(u64),
}

impl View for FieldValue {
    type V = FieldValueView;

    open spec fn view(&self) -> FieldValueView {
        match self {
            FieldValue::Text(text) => FieldValueView::Text(text@),
            FieldValue::Count(count) => FieldValueView::Count(*count),
        }
    }
}

/// A labelled field of the payload.
#[derive(Clone, Debug, PartialEq, Eq)]
pub struct EmbedField {
    /// The label.
    pub name: String,
    /// What is shown under the label.
    pub value: FieldValue,
    /// Whether the field shares its row with others.
    pub inline: bool,
}

/// What an [`EmbedField`] stands for.
pub ghost struct EmbedFieldView {
    pub name: Seq<char>,
    pub value: FieldValueView,
    pub inline: bool,
}

impl View for EmbedField {
    type V = EmbedFieldView;

    open spec fn view(&self) -> EmbedFieldView {
        EmbedFieldView { name: self.name@, value: self.value@, inline: self.inline }
    }
}

/// What is shown for a user.
#[derive(Clone, Debug, PartialEq, Eq)]
pub struct DisplayPayload {
    /// The name, with the mark of a verified user.
    pub title: String,
    /// The address of the profile, to which the title links.
    pub url: String,
    /// The address of the profile image.
    pub thumbnail: String,
    /// The accent colour, as red, green and blue.
    pub color: u32,
    /// The user's description of themselves.
    pub description: String,
    /// The labelled fields, in the order in which they are shown.
    pub fields: Vec<EmbedField>,
    /// The footer.
    pub footer: String,
}

/// What a [`DisplayPayload`] stands for.
pub ghost struct DisplayPayloadView {
    pub title: Seq<char>,
    pub url: Seq<char>,
    pub thumbnail: Seq<char>,
    pub color: u32,
    pub description: Seq<char>,
    pub fields: Seq<EmbedFieldView>,
    pub footer: Seq<char>,
}

impl View for DisplayPayload {
    type V = DisplayPayloadView;

    open spec fn view(&self) -> DisplayPayloadView {
        DisplayPayloadView {
            title: self.title@,
            url: self.url@,
            thumbnail: self.thumbnail@,
            color: self.color,
            description: self.description@,
            fields: self.fields@.map_values(|field: EmbedField| field@),
            footer: self.footer@,
        }
    }
}

/// A field that shows a text.
pub open spec fn text_field_of(name: Seq<char>, text: Seq<char>, inline: bool) -> EmbedFieldView {
    EmbedFieldView { name, value: FieldValueView::Text(text), inline }
}

/// A field that shows a count.
pub open spec fn count_field_of(name: Seq<char>, count: u64, inline: bool) -> EmbedFieldView {
    EmbedFieldView { name, value: FieldValueView::Count(count), inline }
}

/// The labels of the fields, in the order in which they are shown.
pub open spec fn field_labels() -> Seq<Seq<char>> {
    seq![
        "Username"@,
        "Join Date"@,
        "Protected"@,
        "Location"@,
        "Following"@,
        "Followers"@,
        "Tweets"@,
        "Latest Tweet"@,
    ]
}

/// The fields shown for a user: always these eight, in this order. All but
/// the last share their rows.
pub open spec fn fields_of(user: UserDataView, tweets: UserTweetsView) -> Seq<EmbedFieldView> {
    seq![
        text_field_of("Username"@, user.username, true),
        text_field_of(
            "Join Date"@,
            long_date_text(
                user.created_at.date.year,
                user.created_at.date.month,
                user.created_at.date.day,
            ),
            true,
        ),
        text_field_of("Protected"@, yes_no(user.protected), true),
        text_field_of("Location"@, location_text(user.location), true),
        count_field_of("Following"@, user.public_metrics.following_count, true),
        count_field_of("Followers"@, user.public_metrics.followers_count, true),
        count_field_of("Tweets"@, user.public_metrics.tweet_count, true),
        text_field_of("Latest Tweet"@, latest_tweet_text(tweets), false),
    ]
}

/// What is shown for a user with the given profile and recent posts.
pub open spec fn payload_of(user: UserDataView, tweets: UserTweetsView) -> DisplayPayloadView {
    DisplayPayloadView {
        title: title_text(user.name, user.verified),
        url: profile_link(user.username),
        thumbnail: avatar_link(user.profile_image_url),
        color: ACCENT_COLOR,
        description: user.description,
        fields: fields_of(user, tweets),
        footer: footer_text(user.id),
    }
}

/// A field that shows a text.
fn text_field(name: &str, text: String, inline: bool) -> (field: EmbedField)
    ensures
        field@ == text_field_of(name@, text@, inline),
{
    EmbedField { name: String::from_str(name), value: FieldValue::Text(text), inline }
}

/// A field that shows a count.
fn count_field(name: &str, count: u64, inline: bool) -> (field: EmbedField)
    ensures
        field@ == count_field_of(name@, count, inline),
{
    EmbedField { name: String::from_str(name), value: FieldValue::Count(count), inline }
}

/// What is shown for a user with the given profile and recent posts.
pub fn build_payload(user: &UserData, tweets: &UserTweets) -> (payload: DisplayPayload)
    ensures
        payload@ == payload_of(user@, tweets@),
{
    let mut fields: Vec<EmbedField> = Vec::new();
    fields.push(text_field("Username", user.username.clone(), true));
    fields.push(text_field("Join Date", user.created_at.long_date(), true));
    fields.push(text_field("Protected", protected_label(user.protected), true));
    fields.push(text_field("Location", location_label(&user.location), true));
    fields.push(count_field("Following", user.public_metrics.following_count, true));
    fields.push(count_field("Followers", user.public_metrics.followers_count, true));
    fields.push(count_field("Tweets", user.public_metrics.tweet_count, true));
    fields.push(text_field("Latest Tweet", latest_tweet(tweets), false));
    let payload = DisplayPayload {
        title: title(user.name.as_str(), user.verified),
        url: profile_url(user.username.as_str()),
        thumbnail: resolve_avatar_url(user.profile_image_url.as_str()),
        color: ACCENT_COLOR,
        description: user.description.clone(),
        fields,
        footer: footer(user.id.as_str()),
    };
    assert(payload@.fields =~= fields_of(user@, tweets@));
    payload
}

/// Whatever the profile and the posts hold, the payload has the same eight
/// fields in the same order, and all but the last share their rows.
pub proof fn lemma_fields_are_fixed(user: UserDataView, tweets: UserTweetsView)
    ensures
        payload_of(user, tweets).fields.len() == 8,
        payload_of(user, tweets).fields.map_values(|field: EmbedFieldView| field.name)
            == field_labels(),
        forall|i: int| 0 <= i < 8 ==> (#[trigger] payload_of(user, tweets).fields[i]).inline == (i < 7),
{
    assert(payload_of(user, tweets).fields.map_values(|field: EmbedFieldView| field.name)
        =~= field_labels());
}

/// For a user without location the location field shows the placeholder "None".
pub proof fn lemma_absent_location_shows_placeholder(user: UserDataView, tweets: UserTweetsView)
    requires
        user.location is None,
    ensures
        payload_of(user, tweets).fields[3] == text_field_of("Location"@, "None"@, true),
{
}

/// Where the service sent no posts, or an empty list, the latest tweet field
/// shows the placeholder "Tweet not available.".
pub proof fn lemma_no_post_shows_placeholder(user: UserDataView, tweets: UserTweetsView)
    requires
        tweets.data is None || tweets.data->0.len() == 0,
    ensures
        payload_of(user, tweets).fields[7] == text_field_of(
            "Latest Tweet"@,
            "Tweet not available."@,
            false,
        ),
{
}

/// Where the service sent posts, the latest tweet field shows the first.
pub proof fn lemma_first_post_is_shown(user: UserDataView, tweets: UserTweetsView)
    requires
        tweets.data is Some,
        tweets.data->0.len() > 0,
    ensures
        payload_of(user, tweets).fields[7] == text_field_of(
            "Latest Tweet"@,
            tweets.data->0[0].text,
            false,
        ),
{
}

/// The size tokens share no character, and neither is empty.
proof fn lemma_size_tokens_apart()
    ensures
        SIZE_TOKEN@.len() == 6,
        SIZE_SHOWN@.len() == 7,
        share_no_char(SIZE_TOKEN@, SIZE_SHOWN@),
{
    reveal_strlit("normal");
    reveal_strlit("400x400");
}

/// The address of an image without the size token is left as it is.
pub proof fn lemma_avatar_without_token_unchanged(url: Seq<char>)
    requires
        !occurs_in(url, SIZE_TOKEN@),
    ensures
        avatar_link(url) == url,
{
    lemma_substitute_without_occurrence(url, SIZE_TOKEN@, SIZE_SHOWN@);
}

/// In an address that holds the size token once, the token gives way to the
/// size that is shown, and the rest stays.
pub proof fn lemma_avatar_single_token(before: Seq<char>, after: Seq<char>)
    requires
        forall|at: int| 0 <= at < before.len() ==> !matches_at(before + SIZE_TOKEN@ + after, SIZE_TOKEN@, at),
        !occurs_in(after, SIZE_TOKEN@),
    ensures
        avatar_link(before + SIZE_TOKEN@ + after) == before + SIZE_SHOWN@ + after,
{
    lemma_size_tokens_apart();
    lemma_substitute_first_occurrence(before, after, SIZE_TOKEN@, SIZE_SHOWN@);
    lemma_substitute_without_occurrence(after, SIZE_TOKEN@, SIZE_SHOWN@);
}

/// A resolved address holds no size token of the service any more, so
/// resolving it again changes nothing.
pub proof fn lemma_avatar_resolution_idempotent(url: Seq<char>)
    ensures
        !occurs_in(avatar_link(url), SIZE_TOKEN@),
        avatar_link(avatar_link(url)) == avatar_link(url),
{
    lemma_size_tokens_apart();
    crate::text::lemma_substitute_removes_pattern(url, SIZE_TOKEN@, SIZE_SHOWN@);
    lemma_substitute_idempotent(url, SIZE_TOKEN@, SIZE_SHOWN@);
}

/// The title of a verified user is that of an unverified one with the mark
/// behind it; the title of an unverified user does not end with the mark.
pub proof fn lemma_title_mark(name: Seq<char>)
    ensures
        title_text(name, true) == title_text(name, false) + VERIFIED_MARK@,
        ends_with(title_text(name, true), VERIFIED_MARK@),
        !ends_with(title_text(name, false), VERIFIED_MARK@),
{
    reveal_strlit("\\\u{2714}\u{fe0f}");
    reveal_strlit(" ");
    let marked = title_text(name, true);
    let plain = title_text(name, false);
    assert(marked.subrange(marked.len() - VERIFIED_MARK@.len(), marked.len() as int)
        =~= VERIFIED_MARK@);
    if ends_with(plain, VERIFIED_MARK@) {
        assert(plain.subrange(plain.len() - 3, plain.len() as int)[2] == VERIFIED_MARK@[2]);
        assert(plain[plain.len() - 1] == ' ');
    }
}

} // verus!
