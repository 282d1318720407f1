use crate::endpoint::query::{
    encode, encoded_query, is_plain_key, opt_field, opt_text, pairs_view, push_field,
    values_escaped,
};
use crate::endpoint::{
    get as get_request, put as put_request, request_headers, Method, Request, ToQuery,
};
use crate::API_URL;
use vstd::prelude::*;

verus! {

/// Path of the current-user endpoint under the API root.
pub const ME_PATH: &'static str = "me";

/// The absolute URI of the current-user endpoint.
pub open spec fn me_uri() -> Seq<char> {
    API_URL@ + ME_PATH@
}

fn me_uri_string() -> (r: String)
    ensures
        r@ == me_uri(),
{
    let mut uri = String::from_str(API_URL);
    uri.append(ME_PATH);
    uri
}

/// Me endpoint: the user whose bearer token is used.
#[derive(Debug, Clone, Copy, PartialEq, Eq, Structural, Hash)]
pub struct Me;

/// A user on Unsplash.
pub struct User {
    /// User ID.
    pub id: String,
    /// Username.
    pub username: String,
    /// User's real name.
    pub name: String,
    /// URL to the user's portfolio.
    pub portfolio_url: Option<String>,
    /// User's email.
    pub email: Option<String>,
    /// User's bio.
    pub bio: Option<String>,
    /// User's location.
    pub location: Option<String>,
    /// Total number of likes the user has received.
    pub total_likes: usize,
    /// Total number of photos the user has uploaded.
    pub total_photos: usize,
    /// Total number of collections the user has.
    pub total_collections: usize,
    /// User's Instagram username.
    pub instagram_username: Option<String>,
    /// User's Twitter username.
    pub twitter_username: Option<String>,
    /// URLs to the user's profile image in various sizes.
    pub profile_image: ProfileImages,
    /// Links to the user's profile.
    pub links: UserLinks,
    /// When the user's profile was last updated.
    pub updated_at: Option<String>,
    /// Whether the user who accessed the API follows this user.
    pub followed_by_user: Option<bool>,
}

/// A user's profile images.
pub struct ProfileImages {
    /// URL to a small version of the user's profile image.
    pub small: String,
    /// URL to a medium version of the user's profile image.
    pub medium: String,
    /// URL to a large version of the user's profile image.
    pub large: String,
}

/// Links to pages about a user.
pub struct UserLinks {
    /// Link to the user in the user endpoint.
    pub self_link: String,
    /// Link to the user's profile.
    pub html: String,
    /// API link to the user's photos.
    pub photos: String,
    /// API link to the user's likes.
    pub likes: String,
    /// API link to the user's portfolio.
    pub portfolio: String,
}

/// The changes that a profile update sends, in the order in which they are
/// sent; an absent field is left as it is.
pub struct ProfileChanges {
    /// New username.
    pub username: Option<String>,
    /// New first name.
    pub first_name: Option<String>,
    /// New last name.
    pub last_name: Option<String>,
    /// New email.
    pub email: Option<String>,
    /// New url.
    pub url: Option<String>,
    /// New location.
    pub location: Option<String>,
    /// New bio.
    pub bio: Option<String>,
    /// New Instagram username.
    pub instagram_username: Option<String>,
}

/// Builder for an update of the current user's profile.
pub struct UserUpdate {
    username: Option<String>,
    first_name: Option<String>,
    last_name: Option<String>,
    email: Option<String>,
    url: Option<String>,
    location: Option<String>,
    bio: Option<String>,
    instagram_username: Option<String>,
}

impl View for UserUpdate {
    type V = ProfileChanges;

    closed spec fn view(&self) -> ProfileChanges {
        ProfileChanges {
            username: self.username,
            first_name: self.first_name,
            last_name: self.last_name,
            email: self.email,
            url: self.url,
            location: self.location,
            bio: self.bio,
            instagram_username: self.instagram_username,
        }
    }
}

impl ProfileChanges {
    /// No change.
    pub open spec fn none() -> ProfileChanges {
        ProfileChanges {
            username: None,
            first_name: None,
            last_name: None,
            email: None,
            url: None,
            location: None,
            bio: None,
            instagram_username: None,
        }
    }
}

impl Default for UserUpdate {
    fn default() -> (r: UserUpdate)
        ensures
            r@ == ProfileChanges::none(),
    {
        UserUpdate {
            username: None,
            first_name: None,
            last_name: None,
            email: None,
            url: None,
            location: None,
            bio: None,
            instagram_username: None,
        }
    }
}

impl Me {
    /// The GET request for the current user's data; `auth` is the value of
    /// the Authorization header.
    pub fn get(self, auth: &str) -> (r: Request)
        ensures
            r.method == Method::Get,
            r.uri@ == me_uri(),
            pairs_view(r.headers@) == request_headers(auth@),
    {
        get_request(&(), auth, me_uri_string().as_str())
    }

    /// Starts an update of the current user's profile, with no change set.
    pub fn update(self) -> (r: UserUpdate)
        ensures
            r@ == ProfileChanges::none(),
    {
        UserUpdate::default()
    }
}

impl UserUpdate {
    /// Updates the user's username.
    pub fn username(self, username: String) -> (r: UserUpdate)
        ensures
            r@ == (ProfileChanges { username: Some(username), ..self@ }),
    {
        let mut s = self;
        s.username = Some(username);
        s
    }

    /// Updates the user's first name.
    pub fn first_name(self, first_name: String) -> (r: UserUpdate)
        ensures
            r@ == (ProfileChanges { first_name: Some(first_name), ..self@ }),
    {
        let mut s = self;
        s.first_name = Some(first_name);
        s
    }

    /// Updates the user's last name.
    pub fn last_name(self, last_name: String) -> (r: UserUpdate)
        ensures
            r@ == (ProfileChanges { last_name: Some(last_name), ..self@ }),
    {
        let mut s = self;
        s.last_name = Some(last_name);
        s
    }

    /// Updates the user's email.
    pub fn email(self, email: String) -> (r: UserUpdate)
        ensures
            r@ == (ProfileChanges { email: Some(email), ..self@ }),
    {
        let mut s = self;
        s.email = Some(email);
        s
    }

    /// Updates the user's url.
    pub fn url(self, url: String) -> (r: UserUpdate)
        ensures
            r@ == (ProfileChanges { url: Some(url), ..self@ }),
    {
        let mut s = self;
        s.url = Some(url);
        s
    }

    /// Updates the user's location.
    pub fn location(self, location: String) -> (r: UserUpdate)
        ensures
            r@ == (ProfileChanges { location: Some(location), ..self@ }),
    {
        let mut s = self;
        s.location = Some(location);
        s
    }

    /// Updates the user's bio.
    pub fn bio(self, bio: String) -> (r: UserUpdate)
        ensures
            r@ == (ProfileChanges { bio: Some(bio), ..self@ }),
    {
        let mut s = self;
        s.bio = Some(bio);
        s
    }

    /// Updates the user's Instagram username.
    pub fn instagram_username(self, instagram_username: String) -> (r: UserUpdate)
        ensures
            r@ == (ProfileChanges { instagram_username: Some(instagram_username), ..self@ }),
    {
        let mut s = self;
        s.instagram_username = Some(instagram_username);
        s
    }

    /// The PUT request that updates the profile; `auth` is the value of the
    /// Authorization header.
    pub fn update(self, auth: &str) -> (r: Request)
        ensures
            r.method == Method::Put,
            r.uri@ == me_uri() + encoded_query(self.query_fields_spec()),
            values_escaped(self.query_fields_spec()),
            pairs_view(r.headers@) == request_headers(auth@),
    {
        put_request(&self, auth, me_uri_string().as_str())
    }
}

impl ToQuery for UserUpdate {
    open spec fn query_fields_spec(&self) -> Seq<(Seq<char>, Seq<char>)> {
        opt_field("username"@, opt_text(self@.username))
            + opt_field("first_name"@, opt_text(self@.first_name))
            + opt_field("last_name"@, opt_text(self@.last_name))
            + opt_field("email"@, opt_text(self@.email))
            + opt_field("url"@, opt_text(self@.url))
            + opt_field("location"@, opt_text(self@.location))
            + opt_field("bio"@, opt_text(self@.bio))
            + opt_field("instagram_username"@, opt_text(self@.instagram_username))
    }

    fn query_fields(&self) -> (r: Vec<(String, String)>) {
        let mut v: Vec<(String, String)> = Vec::new();
        proof {
            reveal_strlit("username");
            assert(is_plain_key("username"@));
            reveal_strlit("first_name");
            assert(is_plain_key("first_name"@));
            reveal_strlit("last_name");
            assert(is_plain_key("last_name"@));
            reveal_strlit("email");
            assert(is_plain_key("email"@));
            reveal_strlit("url");
            assert(is_plain_key("url"@));
            reveal_strlit("location");
            assert(is_plain_key("location"@));
            reveal_strlit("bio");
            assert(is_plain_key("bio"@));
            reveal_strlit("instagram_username");
            assert(is_plain_key("instagram_username"@));
        }
        push_field(&mut v, "username", self.username.clone());
        proof {
            assert(pairs_view(v@) =~= opt_field("username"@, opt_text(self@.username)));
        }
        push_field(&mut v, "first_name", self.first_name.clone());
        push_field(&mut v, "last_name", self.last_name.clone());
        push_field(&mut v, "email", self.email.clone());
        push_field(&mut v, "url", self.url.clone());
        push_field(&mut v, "location", self.location.clone());
        push_field(&mut v, "bio", self.bio.clone());
        push_field(&mut v, "instagram_username", self.instagram_username.clone());
        v
    }

    fn to_query(&self) -> (r: String) {
        encode(&self.query_fields())
    }
}


/// A profile update with no change set has an empty query string.
pub proof fn lemma_unset_update_encode_empty(u: UserUpdate)
    requires
        u@ == ProfileChanges::none(),
    ensures
        u.query_fields_spec().len() == 0,
        encoded_query(u.query_fields_spec()) == Seq::<char>::empty(),
{
    assert(u.query_fields_spec() =~= Seq::<(Seq<char>, Seq<char>)>::empty());
}

} // verus!
