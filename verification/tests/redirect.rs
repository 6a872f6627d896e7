use ancile::redirect::{path_matches, Redirect};

#[test]
fn absolute_redirects() {
    let redirector = Redirect::from("/one").to_absolute("/two");

    let res = redirector.evaluate("/one");
    assert_eq!(res.status_code, 308);
    assert_eq!(res.location, "/two");

    let res = redirector.evaluate("/scoped/one");
    assert_eq!(res.status_code, 308);
    assert_eq!(res.location, "/two");
}

#[test]
fn relative_redirects() {
    let redirector = Redirect::from("/one").to_relative("/two");

    let res = redirector.evaluate("/one");
    assert_eq!(res.status_code, 308);
    assert_eq!(res.location, "/two");

    let res = redirector.evaluate("/scoped/one");
    assert_eq!(res.status_code, 308);
    assert_eq!(res.location, "/scoped/two");
}

#[test]
fn temporary_redirects() {
    let external_service = Redirect::from("/external")
        .to_absolute("https://duck.com")
        .temporary();

    let res = external_service.evaluate("/external");
    assert_eq!(res.status_code, 307);
    assert_eq!(res.location, "https://duck.com");
}

#[test]
fn default_target_and_status() {
    let rule = Redirect::from("/old");

    let res = rule.evaluate("/old");
    assert_eq!(res.status_code, 308);
    assert_eq!(res.location, "/");
}

#[test]
fn custom_status_codes() {
    let rule = Redirect::from("/old").to_relative("/new").using_status_code(301);
    let res = rule.evaluate("/old");
    assert_eq!(res.status_code, 301);
    assert_eq!(res.location, "/new");

    let rule = Redirect::from("/old").to_relative("/new").using_status_code(302);
    let res = rule.evaluate("/old");
    assert_eq!(res.status_code, 302);
    assert_eq!(res.location, "/new");
}

#[test]
fn evaluation_is_idempotent() {
    let rule = Redirect::from("/one").to_relative("/two");

    let first = rule.evaluate("/scoped/one");
    let second = rule.evaluate("/scoped/one");
    assert_eq!(first.status_code, second.status_code);
    assert_eq!(first.location, second.location);
}

#[test]
fn source_path_is_kept() {
    let rule = Redirect::from("/one").to_absolute("/two").temporary();
    assert_eq!(rule.source_path(), "/one");
}

#[test]
fn path_match_decisions() {
    assert!(path_matches("/one", "/one"));
    assert!(path_matches("/scoped/one", "/one"));
    assert!(!path_matches("/one", "/two"));
    assert!(!path_matches("/on", "/one"));
    assert!(!path_matches("/one/tail", "/one"));
    assert!(path_matches("/anything", ""));
}
