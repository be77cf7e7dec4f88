use totoro::envelope::Status;
use totoro::routes::{health_check, serve, Method, Served};

#[test]
fn health_check_ok() {
    let served = serve(Method::Get, "/health_check", false);
    assert_eq!(served, Served::Alive);
    assert_eq!(served.status(), Some(Status::Success));
    assert_eq!(Status::Success.code(), 200);
    assert_eq!(Some(health_check().to_string()), Some("OK".into()));
}

#[test]
fn health_check_body_is_exact() {
    assert_eq!(health_check(), "OK");
    assert_eq!(health_check().len(), 2);
}

#[test]
fn health_check_ignores_json_announcement() {
    assert_eq!(serve(Method::Get, "/health_check", true), Served::Alive);
}

#[test]
fn other_paths_are_not_found() {
    for path in ["/", "", "/health", "/health_check/", "/health_check2", "/HEALTH_CHECK", "health_check"] {
        let served = serve(Method::Get, path, false);
        assert_eq!(served, Served::NotFound, "path {:?}", path);
        assert_eq!(served.status(), Some(Status::NotFound));
    }
    assert_eq!(Status::NotFound.code(), 404);
}

#[test]
fn health_check_takes_get_only() {
    assert_eq!(serve(Method::Post, "/health_check", true), Served::NotFound);
    assert_eq!(serve(Method::Post, "/health_check", false), Served::NotFound);
    assert_eq!(serve(Method::Other, "/health_check", false), Served::NotFound);
}

#[test]
fn relay_takes_json_posts() {
    let served = serve(Method::Post, "/post_mailchimp_stats", true);
    assert_eq!(served, Served::Relay);
    assert_eq!(served.status(), None);
}

#[test]
fn relay_refuses_other_requests() {
    assert_eq!(serve(Method::Post, "/post_mailchimp_stats", false), Served::NotFound);
    assert_eq!(serve(Method::Get, "/post_mailchimp_stats", true), Served::NotFound);
    assert_eq!(serve(Method::Other, "/post_mailchimp_stats", true), Served::NotFound);
    assert_eq!(serve(Method::Post, "/post_mailchimp_stats/", true), Served::NotFound);
}

#[test]
fn status_codes() {
    assert_eq!(Status::Success.code(), 200);
    assert_eq!(Status::NotFound.code(), 404);
    assert_eq!(Status::InternalServerError.code(), 500);
}
