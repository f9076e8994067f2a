use url_shortener::routes::{CREATE_RANK, HOME_PAGE_RANK, SHORT_KEY_RANK, STATIC_FILES_RANK};
use url_shortener::{rocket, serve_home_page, Handler, Mount};

fn path(segments: &[&str]) -> Vec<String> {
    segments.iter().map(|segment| String::from(*segment)).collect()
}

#[test]
fn directory_is_served_by_its_index() {
    assert_eq!(serve_home_page(path(&["docs"]), true), path(&["docs", "index.html"]));
    assert_eq!(serve_home_page(path(&["a", "b", "c"]), true), path(&["a", "b", "c", "index.html"]));
}

#[test]
fn file_is_served_as_it_is() {
    assert_eq!(serve_home_page(path(&["style.css"]), false), path(&["style.css"]));
    assert_eq!(serve_home_page(path(&["img", "logo.png"]), false), path(&["img", "logo.png"]));
}

#[test]
fn static_root_is_served_by_its_index() {
    assert_eq!(serve_home_page(path(&[]), true), path(&["index.html"]));
    assert_eq!(serve_home_page(path(&[]), false), path(&[]));
}

#[test]
fn index_of_a_directory_named_like_the_index() {
    assert_eq!(serve_home_page(path(&["index.html"]), true), path(&["index.html", "index.html"]));
}

#[test]
fn mounts_are_the_four_handlers_in_order() {
    let mounts = rocket();
    let expected = vec![
        Mount { base: String::from("/"), handler: Handler::ServeHomePage, rank: -5 },
        Mount { base: String::from("/"), handler: Handler::GetUrl, rank: 11 },
        Mount { base: String::from("/"), handler: Handler::CreateUrl, rank: -9 },
        Mount { base: String::from("/"), handler: Handler::StaticFiles, rank: 10 },
    ];
    assert_eq!(mounts, expected);
}

#[test]
fn ranks_have_their_names() {
    assert_eq!(SHORT_KEY_RANK, 11);
    assert_eq!(STATIC_FILES_RANK, 10);
    assert_eq!(HOME_PAGE_RANK, -5);
    assert_eq!(CREATE_RANK, -9);
}

#[test]
fn short_keys_are_tried_last() {
    let mounts = rocket();
    let short_key = mounts.iter().find(|mount| mount.handler == Handler::GetUrl).unwrap();
    for mount in mounts.iter().filter(|mount| mount.handler != Handler::GetUrl) {
        assert!(mount.rank < short_key.rank);
    }
}

#[test]
fn each_handler_is_mounted_once_at_the_root() {
    let mounts = rocket();
    for handler in [Handler::ServeHomePage, Handler::GetUrl, Handler::CreateUrl, Handler::StaticFiles] {
        assert_eq!(mounts.iter().filter(|mount| mount.handler == handler).count(), 1);
    }
    assert!(mounts.iter().all(|mount| mount.base == "/"));
}
