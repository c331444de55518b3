//! End-to-end flows through the dispatcher and the middleware, against an
//! in-memory credential store seeded with alice/wonderland.

use session_auth::handlers::{dispatch, handle_request, Route, RequestContext, TokenAction};
use session_auth::session::SessionCodec;
use session_auth::store::{Credential, CredentialStore};

fn seeded_store() -> CredentialStore {
    CredentialStore::from_rows(vec![Credential {
        username: String::from("alice"),
        password: String::from("wonderland"),
    }])
}

fn codec() -> SessionCodec {
    SessionCodec::new(b"secret1secret2secret3secret4abcd".to_vec())
}

fn login_route(user: &str, pass: &str) -> Route {
    Route::LoginPost {
        username: Some(String::from(user)),
        password: Some(String::from(pass)),
    }
}

#[test]
fn login_with_seeded_pair_redirects_home_and_signs_in() {
    let store = seeded_store();
    let mut ctx = RequestContext { identity: None };
    let r = dispatch(&store, "css", &mut ctx, &login_route("alice", "wonderland"));
    assert_eq!(r.status, 302);
    assert_eq!(r.location.as_deref(), Some("/"));
    assert_eq!(ctx.identity.as_ref().map(|i| i.username.as_str()), Some("alice"));
}

#[test]
fn home_after_login_serves_page_with_username() {
    let store = seeded_store();
    let mut ctx = RequestContext { identity: None };
    let _ = dispatch(&store, "css", &mut ctx, &login_route("alice", "wonderland"));
    let r = dispatch(&store, "css", &mut ctx, &Route::Home);
    assert_eq!(r.status, 200);
    assert!(r.body.contains("alice"));
    assert!(r.location.is_none());
}

#[test]
fn login_with_absent_pair_renders_invalid_and_stays_anonymous() {
    let store = seeded_store();
    let mut ctx = RequestContext { identity: None };
    let r = dispatch(&store, "css", &mut ctx, &login_route("alice", "wrong"));
    assert_eq!(r.status, 200);
    assert!(r.body.contains("Invalid username/password"));
    assert!(ctx.identity.is_none());
    let r2 = dispatch(&store, "css", &mut ctx, &Route::Home);
    assert_eq!(r2.status, 302);
    assert_eq!(r2.location.as_deref(), Some("/login"));
}

#[test]
fn unknown_username_gets_same_message_as_wrong_password() {
    let store = seeded_store();
    let mut ctx = RequestContext { identity: None };
    let wrong_pass = dispatch(&store, "css", &mut ctx, &login_route("alice", "x"));
    let wrong_user = dispatch(&store, "css", &mut ctx, &login_route("bob", "wonderland"));
    assert_eq!(wrong_pass.body, wrong_user.body);
    assert!(wrong_user.body.contains("Invalid username/password"));
}

#[test]
fn missing_field_renders_invalid() {
    let store = seeded_store();
    let mut ctx = RequestContext { identity: None };
    let r = dispatch(
        &store,
        "css",
        &mut ctx,
        &Route::LoginPost { username: Some(String::from("alice")), password: None },
    );
    assert_eq!(r.status, 200);
    assert!(r.body.contains("Invalid username/password"));
    assert!(ctx.identity.is_none());
}

#[test]
fn logout_then_home_always_redirects_to_login() {
    let store = seeded_store();
    let mut ctx = RequestContext { identity: None };
    let _ = dispatch(&store, "css", &mut ctx, &login_route("alice", "wonderland"));
    let r1 = dispatch(&store, "css", &mut ctx, &Route::Logout);
    assert_eq!(r1.status, 302);
    assert_eq!(r1.location.as_deref(), Some("/login"));
    assert!(ctx.identity.is_none());
    let r2 = dispatch(&store, "css", &mut ctx, &Route::Home);
    assert_eq!(r2.status, 302);
    assert_eq!(r2.location.as_deref(), Some("/login"));
}

#[test]
fn injection_shaped_fields_do_not_authenticate() {
    let store = seeded_store();
    let mut ctx = RequestContext { identity: None };
    let r = dispatch(&store, "css", &mut ctx, &login_route("' OR '1'='1", "' OR '1'='1"));
    assert_eq!(r.status, 200);
    assert!(r.body.contains("Invalid username/password"));
    assert!(ctx.identity.is_none());

    let r2 = dispatch(
        &store,
        "css",
        &mut ctx,
        &login_route("alice", "wonderland' OR 'a'='a"),
    );
    assert!(r2.body.contains("Invalid username/password"));
    assert!(ctx.identity.is_none());
}

#[test]
fn injection_shaped_literal_pair_matches_only_itself() {
    let store = CredentialStore::from_rows(vec![Credential {
        username: String::from("' OR '1'='1"),
        password: String::from("p"),
    }]);
    assert_eq!(store.verify(&String::from("' OR '1'='1"), &String::from("p")).as_deref(), Some("' OR '1'='1"));
    assert!(store.verify(&String::from("x"), &String::from("p")).is_none());
}

#[test]
fn first_matching_row_wins() {
    let store = CredentialStore::from_rows(vec![
        Credential { username: String::from("a"), password: String::from("p") },
        Credential { username: String::from("a"), password: String::from("p") },
    ]);
    assert_eq!(store.verify(&String::from("a"), &String::from("p")).as_deref(), Some("a"));
}

#[test]
fn empty_store_rejects_everything() {
    let store = CredentialStore::from_rows(vec![]);
    assert!(store.verify(&String::from(""), &String::from("")).is_none());
}

#[test]
fn style_route_serves_stylesheet_as_css() {
    let store = seeded_store();
    let mut ctx = RequestContext { identity: None };
    let r = dispatch(&store, "body { color: black; }", &mut ctx, &Route::Style);
    assert_eq!(r.status, 200);
    assert_eq!(r.body, "body { color: black; }");
}

#[test]
fn login_form_renders_without_error_text() {
    let store = seeded_store();
    let mut ctx = RequestContext { identity: None };
    let r = dispatch(&store, "css", &mut ctx, &Route::LoginForm);
    assert_eq!(r.status, 200);
    assert!(r.body.contains("form"));
    assert!(!r.body.contains("Invalid username/password"));
}

#[test]
fn middleware_issues_token_on_login_and_reads_it_back() {
    let store = seeded_store();
    let codec = codec();
    let (r, action) = handle_request(
        &codec,
        &store,
        "css",
        None,
        &login_route("alice", "wonderland"),
    );
    assert_eq!(r.status, 302);
    let token = match action {
        TokenAction::Issue(t) => t,
        _ => panic!("login must issue a fresh token"),
    };
    let (r2, action2) = handle_request(&codec, &store, "css", Some(token), &Route::Home);
    assert_eq!(r2.status, 200);
    assert!(r2.body.contains("alice"));
    assert!(matches!(action2, TokenAction::Unchanged));
}

#[test]
fn middleware_clears_token_on_logout() {
    let store = seeded_store();
    let codec = codec();
    let (_, action) = handle_request(
        &codec,
        &store,
        "css",
        None,
        &login_route("alice", "wonderland"),
    );
    let token = match action {
        TokenAction::Issue(t) => t,
        _ => panic!("login must issue a fresh token"),
    };
    let (r, action2) = handle_request(&codec, &store, "css", Some(token), &Route::Logout);
    assert_eq!(r.status, 302);
    assert_eq!(r.location.as_deref(), Some("/login"));
    assert!(matches!(action2, TokenAction::Clear));
}

#[test]
fn anonymous_home_through_middleware_redirects_and_leaves_token() {
    let store = seeded_store();
    let codec = codec();
    let (r, action) = handle_request(&codec, &store, "css", None, &Route::Home);
    assert_eq!(r.status, 302);
    assert_eq!(r.location.as_deref(), Some("/login"));
    assert!(matches!(action, TokenAction::Unchanged));
}

#[test]
fn garbage_token_counts_as_anonymous() {
    let store = seeded_store();
    let codec = codec();
    let (r, _) = handle_request(
        &codec,
        &store,
        "css",
        Some(vec![7u8; 64]),
        &Route::Home,
    );
    assert_eq!(r.status, 302);
    assert_eq!(r.location.as_deref(), Some("/login"));
}
