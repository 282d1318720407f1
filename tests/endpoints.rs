use unsplash_api::endpoint::photos::list::ListParams;
use unsplash_api::endpoint::me::{ProfileImages, User, UserLinks};
use unsplash_api::endpoint::photos::{Order, Photo, PhotoLinks, Timestamp, Url, Urls};
use unsplash_api::endpoint::{delete, get, post, put, Method, ToQuery};
use unsplash_api::{Me, Photos, API_URL};

#[test]
fn list_parameters_in_order() {
    let l = Photos::list().order_by(Order::Popular).per_page(10).page(2);
    assert_eq!(l.to_query(), "?page=2&per_page=10&order_by=Popular");
    let r = l.get("Client-ID: k");
    assert!(r.method == Method::Get);
    assert_eq!(r.uri, "https://api.unsplash.com/photos?page=2&per_page=10&order_by=Popular");
}

#[test]
fn unset_list_sends_no_query() {
    assert_eq!(Photos::list().to_query(), "");
}

#[test]
fn order_default_is_latest() {
    assert!(Order::default() == Order::Latest);
    assert_eq!(Order::Oldest.name(), "Oldest");
}

#[test]
fn list_params_view() {
    let p = ListParams { page: Some(1), per_page: None, order_by: Some(Order::Latest) };
    assert!(p == p.clone());
}

#[test]
fn me_get_has_no_query() {
    let r = Me.get("Bearer t");
    assert!(r.method == Method::Get);
    assert_eq!(r.uri, "https://api.unsplash.com/me");
    assert_eq!(r.headers[2], ("Authorization".to_string(), "Bearer t".to_string()));
}

#[test]
fn profile_update_is_a_put_with_the_changes() {
    let u = Me
        .update()
        .bio("hi there".to_string())
        .username("new".to_string())
        .instagram_username("ig".to_string());
    let r = u.update("Bearer t");
    assert!(r.method == Method::Put);
    assert_eq!(r.uri, "https://api.unsplash.com/me?username=new&bio=hi+there&instagram_username=ig");
}

#[test]
fn profile_update_every_field() {
    let u = Me
        .update()
        .username("a".to_string())
        .first_name("b".to_string())
        .last_name("c".to_string())
        .email("d@e".to_string())
        .url("f".to_string())
        .location("g".to_string())
        .bio("h".to_string())
        .instagram_username("i".to_string());
    assert_eq!(
        u.to_query(),
        "?username=a&first_name=b&last_name=c&email=d%40e&url=f&location=g&bio=h&instagram_username=i"
    );
}

#[test]
fn empty_profile_update_sends_no_query() {
    assert_eq!(Me.update().to_query(), "");
}

#[test]
fn method_specializations() {
    let l = Photos::list().page(3);
    assert!(get(&l, "a", "u").method == Method::Get);
    assert!(put(&l, "a", "u").method == Method::Put);
    assert!(post(&l, "a", "u").method == Method::Post);
    let d = delete(&l, "a", "u");
    assert!(d.method == Method::Delete);
    assert_eq!(d.uri, "u?page=3");
}

#[test]
fn download_url_text() {
    let u = Url::new("https://x/y".to_string());
    assert_eq!(u.as_str(), "https://x/y");
    assert_eq!(API_URL, "https://api.unsplash.com/");
}

#[test]
fn download_url_request_goes_to_the_download_location() {
    let s = |t: &str| t.to_string();
    let when = Timestamp { seconds: 1_500_000_000, nanos: 0, offset_seconds: 3600 };
    let photo = Photo {
        id: s("p"),
        created_at: when,
        updated_at: when,
        width: 10,
        height: 20,
        color: s("#fff"),
        likes: 0,
        liked_by_user: false,
        description: None,
        user: User {
            id: s("u"),
            username: s("jo"),
            name: s("Jo"),
            portfolio_url: None,
            email: None,
            bio: None,
            location: None,
            total_likes: 0,
            total_photos: 1,
            total_collections: 0,
            instagram_username: None,
            twitter_username: None,
            profile_image: ProfileImages { small: s("s"), medium: s("m"), large: s("l") },
            links: UserLinks {
                self_link: s("a"),
                html: s("b"),
                photos: s("c"),
                likes: s("d"),
                portfolio: s("e"),
            },
            updated_at: None,
            followed_by_user: None,
        },
        current_user_collections: Vec::new(),
        urls: Urls { raw: s("r"), full: s("f"), regular: s("g"), small: s("h"), thumb: s("t") },
        links: PhotoLinks {
            self_link: s("x"),
            html: s("y"),
            download: s("z"),
            download_location: s("https://api.unsplash.com/photos/p/download"),
        },
    };
    let r = photo.get_download_url("Client-ID: k");
    assert!(r.method == Method::Get);
    assert_eq!(r.uri, "https://api.unsplash.com/photos/p/download");
    assert_eq!(r.headers.len(), 3);
}

#[test]
fn profile_update_follows_declaration_order() {
    let u = Me.update().bio("b".to_string()).username("u".to_string());
    assert_eq!(u.to_query(), "?username=u&bio=b");
}
