//! Photos endpoint: access is through the [Photos] type.

/// Request builder for a list of photos.
pub mod list;
/// Staged request builder for random photos.
pub mod random;

use crate::endpoint::me::User;
use crate::endpoint::query::{all_unreserved, encoded_query, pairs_view};
use crate::endpoint::{get as get_request, request_headers, Method, Request};
use vstd::prelude::*;

pub use self::list::List;
pub use self::random::Random;

verus! {

/// An instant with the UTC offset it was written in.
#[derive(Debug, Clone, Copy, PartialEq, Eq, Structural, Hash)]
pub struct Timestamp {
    /// Seconds since 1970-01-01T00:00:00Z.
    pub seconds: i64,
    /// Nanoseconds past that second.
    pub nanos: u32,
    /// Offset from UTC, in seconds east.
    pub offset_seconds: i32,
}

impl Timestamp {
    /// A timestamp that some date gives: the offset is less than a day either
    /// way, the instant lies between the first second of year -262143 and the
    /// last of year 262142, and nanoseconds of a second or more occur only in
    /// a leap second, the last of a minute.
    pub open spec fn wf(&self) -> bool {
        &&& -86_400 < self.offset_seconds < 86_400
        &&& -8_334_601_315_200 <= self.seconds <= 8_210_266_876_799
        &&& self.nanos < 2_000_000_000
        &&& self.nanos >= 1_000_000_000 ==> self.seconds % 60 == 59
    }
}

/// Access type to Unsplash's Photos endpoint.
#[derive(Debug, Clone, Copy, PartialEq, Eq, Structural, Hash)]
pub struct Photos;

/// A url returned from a photo's download endpoint.
pub struct Url {
    url: String,
}

impl View for Url {
    type V = Seq<char>;

    closed spec fn view(&self) -> Seq<char> {
        self.url@
    }
}

impl Url {
    /// A download url.
    pub fn new(url: String) -> (r: Url)
        ensures
            r@ == url@,
    {
        Url { url }
    }

    /// The url as text.
    pub fn as_str(&self) -> (r: &str)
        ensures
            r@ == self@,
    {
        self.url.as_str()
    }
}

/// A photo from Unsplash; its dates are well formed where it came from a
/// decoded response.
pub struct Photo {
    /// Photo ID.
    pub id: String,
    /// Photo creation date.
    pub created_at: Timestamp,
    /// Last time the photo was updated.
    pub updated_at: Timestamp,
    /// Width of the photo.
    pub width: usize,
    /// Height of the photo.
    pub height: usize,
    /// Photo color.
    pub color: String,
    /// Number of likes the photo has.
    pub likes: usize,
    /// Whether the current user liked the photo (false if not logged in).
    pub liked_by_user: bool,
    /// Description of the photo.
    pub description: Option<String>,
    /// User who posted the photo.
    pub user: User,
    /// Collections the photo is in.
    pub current_user_collections: Vec<Collection>,
    /// Urls to the photo in various sizes.
    pub urls: Urls,
    /// Links to the photo.
    pub links: PhotoLinks,
}

/// A collection of photos on Unsplash.
pub struct Collection {
    /// Collection ID.
    pub id: usize,
    /// Collection's title.
    pub title: String,
    /// Date when the collection was published.
    pub published_at: Timestamp,
    /// Last date when the collection was updated.
    pub updated_at: Timestamp,
    /// Whether the collection is curated.
    pub curated: bool,
}

/// Urls of a photo in various sizes.
pub struct Urls {
    /// URL to the raw photo.
    pub raw: String,
    /// URL to the full size photo.
    pub full: String,
    /// URL to the regular size photo.
    pub regular: String,
    /// URL to the small size photo.
    pub small: String,
    /// URL to the thumbnail size photo.
    pub thumb: String,
}

/// Links to a photo.
pub struct PhotoLinks {
    /// API link to the photo.
    pub self_link: String,
    /// Link to the photo.
    pub html: String,
    /// Link to the photo download.
    pub download: String,
    /// API link to the photo download.
    pub download_location: String,
}

/// Ordering of results from Unsplash.
#[derive(Debug, Clone, Copy, PartialEq, Eq, Structural, Hash)]
pub enum Order {
    /// Latest comes first; the default.
    Latest,
    /// Oldest comes first.
    Oldest,
    /// Most popular comes first.
    Popular,
}

/// Orientation of a photo.
#[derive(Debug, Clone, Copy, PartialEq, Eq, Structural, Hash)]
pub enum Orientation {
    /// Portrait orientation.
    Portrait,
    /// Landscape orientation.
    Landscape,
    /// Squarish shape.
    Squarish,
}

/// The name of an ordering, as sent in a query.
pub open spec fn order_text(o: Order) -> Seq<char> {
    match o {
        Order::Latest => "Latest"@,
        Order::Oldest => "Oldest"@,
        Order::Popular => "Popular"@,
    }
}

/// The name of an orientation, as sent in a query.
pub open spec fn orientation_text(o: Orientation) -> Seq<char> {
    match o {
        Orientation::Portrait => "Portrait"@,
        Orientation::Landscape => "Landscape"@,
        Orientation::Squarish => "Squarish"@,
    }
}

/// The names of orderings and orientations are made of letters, which form
/// encoding leaves as they are.
pub proof fn lemma_names_unreserved(order: Order, orientation: Orientation)
    ensures
        all_unreserved(order_text(order)),
        all_unreserved(orientation_text(orientation)),
{
    reveal_strlit("Latest");
    reveal_strlit("Oldest");
    reveal_strlit("Popular");
    reveal_strlit("Portrait");
    reveal_strlit("Landscape");
    reveal_strlit("Squarish");
}

impl Default for Order {
    fn default() -> (r: Order)
        ensures
            r == Order::Latest,
    {
        Order::Latest
    }
}

impl Order {
    /// The name of the ordering.
    pub fn name(&self) -> (r: String)
        ensures
            r@ == order_text(*self),
            all_unreserved(r@),
    {
        proof {
            lemma_names_unreserved(*self, Orientation::Portrait);
        }
        match self {
            Order::Latest => String::from_str("Latest"),
            Order::Oldest => String::from_str("Oldest"),
            Order::Popular => String::from_str("Popular"),
        }
    }
}

impl Orientation {
    /// The name of the orientation.
    pub fn name(&self) -> (r: String)
        ensures
            r@ == orientation_text(*self),
            all_unreserved(r@),
    {
        proof {
            lemma_names_unreserved(Order::Latest, *self);
        }
        match self {
            Orientation::Portrait => String::from_str("Portrait"),
            Orientation::Landscape => String::from_str("Landscape"),
            Orientation::Squarish => String::from_str("Squarish"),
        }
    }
}

impl Photo {
    /// Both dates are well formed, and so are those of its collections.
    pub open spec fn wf(&self) -> bool {
        &&& self.created_at.wf()
        &&& self.updated_at.wf()
        &&& forall|i: int|
            0 <= i < self.current_user_collections@.len() ==> (
            #[trigger] self.current_user_collections@[i]).wf()
    }

    /// The GET request to the photo's download endpoint, whose answer holds
    /// the URL from which the photo is to be downloaded; `auth` is the value of
    /// the Authorization header.
    pub fn get_download_url(&self, auth: &str) -> (r: Request)
        ensures
            r.method == Method::Get,
            r.uri@ == self.links.download_location@,
            pairs_view(r.headers@) == request_headers(auth@),
    {
        get_request(&(), auth, self.links.download_location.as_str())
    }
}

impl Collection {
    /// Both dates are well formed.
    pub open spec fn wf(&self) -> bool {
        self.published_at.wf() && self.updated_at.wf()
    }
}

impl Photos {
    /// Starts a request for a list of photos, with no parameter set.
    pub fn list() -> (r: List)
        ensures
            r@ == List::none(),
    {
        List::default()
    }

    /// Starts a request for one or more random photos, with no parameter set.
    pub fn random() -> (r: Random)
        ensures
            r@ == self::random::RandomParams::none(),
    {
        Random::default()
    }
}

} // verus!
