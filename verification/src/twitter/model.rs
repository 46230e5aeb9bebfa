//! The records of a user and of their recent posts, as the service returns them.

use crate::calendar::TimestampView;
use crate::calendar::UtcTimestamp;
use vstd::prelude::*;

verus! {

/// The counters that the service publishes for a user.
#[derive(Clone, Copy, Debug, PartialEq, Eq)]
pub struct UserPublicMetrics {
    /// How many accounts follow the user.
    pub followers_count: u64,
    /// How many accounts the user follows.
    pub following_count: u64,
    /// How many posts the user has made.
    pub tweet_count: u64,
}

/// A user's profile.
#[derive(Clone, Debug, PartialEq, Eq)]
pub struct UserData {
    /// The service's identifier of the user.
    pub id: String,
    /// The display name.
    pub name: String,
    /// The handle, without the leading "@".
    pub username: String,
    /// When the account was made.
    pub created_at: UtcTimestamp,
    /// Whether the user's posts are private.
    pub protected: bool,
    /// Where the user says they are, if they say so.
    pub location: Option<String>,
    /// The user's description of themselves; may be empty.
    pub description: String,
    /// Whether the account is verified.
    pub verified: bool,
    /// The address of the profile image, in the service's default size.
    pub profile_image_url: String,
    /// The published counters.
    pub public_metrics: UserPublicMetrics,
}

/// What a [`UserData`] stands for.
pub ghost struct UserDataView {
    pub id: Seq<char>,
    pub name: Seq<char>,
    pub username: Seq<char>,
    pub created_at: TimestampView,
    pub protected: bool,
    pub location: Option<Seq<char>>,
    pub description: Seq<char>,
    pub verified: bool,
    pub profile_image_url: Seq<char>,
    pub public_metrics: UserPublicMetrics,
}

impl View for UserData {
    type V = UserDataView;

    open spec fn view(&self) -> UserDataView {
        UserDataView {
            id: self.id@,
            name: self.name@,
            username: self.username@,
            created_at: self.created_at@,
            protected: self.protected,
            location: match self.location {
                Some(place) => Some(place@),
                None => None,
            },
            description: self.description@,
            verified: self.verified,
            profile_image_url: self.profile_image_url@,
            public_metrics: self.public_metrics,
        }
    }
}

/// The answer to a lookup by handle.
#[derive(Clone, Debug, PartialEq, Eq)]
pub struct User {
    /// The profile found.
    pub data: UserData,
}

/// What a [`User`] stands for.
pub ghost struct UserView {
    pub data: UserDataView,
}

impl View for User {
    type V = UserView;

    open spec fn view(&self) -> UserView {
        UserView { data: self.data@ }
    }
}

/// A post.
#[derive(Clone, Debug, PartialEq, Eq)]
pub struct UserTweet {
    /// What the post says.
    pub text: String,
}

/// What a [`UserTweet`] stands for.
pub ghost struct UserTweetView {
    pub text: Seq<char>,
}

impl View for UserTweet {
    type V = UserTweetView;

    open spec fn view(&self) -> UserTweetView {
        UserTweetView { text: self.text@ }
    }
}

/// The answer to a request for a user's recent posts, newest first.
/// The service leaves `data` out when no post qualifies.
#[derive(Clone, Debug, PartialEq, Eq)]
pub struct UserTweets {
    /// The posts, if the service sent any.
    pub data: Option<Vec<UserTweet>>,
}

/// What a [`UserTweets`] stands for.
pub ghost struct UserTweetsView {
    pub data: Option<Seq<UserTweetView>>,
}

impl View for UserTweets {
    type V = UserTweetsView;

    open spec fn view(&self) -> UserTweetsView {
        UserTweetsView {
            data: match self.data {
                Some(posts) => Some(posts@.map_values(|post: UserTweet| post@)),
                None => None,
            },
        }
    }
}

} // verus!
