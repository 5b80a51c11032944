use sn_client::{Authenticator, Method, OAuth, Request, SNClient, TokenAuth};

#[test]
fn new_keeps_url_and_budget() {
    let client = SNClient::new("https://api.example.com", 3);
    assert_eq!(client.url(), "https://api.example.com");
    assert_eq!(client.max_retries(), 3);
}

#[test]
fn new_accepts_any_budget() {
    assert_eq!(SNClient::new("", 0).max_retries(), 0);
    assert_eq!(SNClient::new("", 0).url(), "");
    assert_eq!(SNClient::new("x", usize::MAX).max_retries(), usize::MAX);
}

#[test]
fn endpoint_is_joined_with_a_slash() {
    let client = SNClient::new("https://api.example.com", 3);
    let request = client.get("users/7");
    assert_eq!(request.url, "https://api.example.com/users/7");
}

#[test]
fn slashes_are_not_normalized() {
    let client = SNClient::new("https://api.example.com/", 3);
    assert_eq!(client.get("/users").url, "https://api.example.com///users");
    assert_eq!(client.get("").url, "https://api.example.com//");
    assert_eq!(SNClient::new("", 0).get("").url, "/");
}

#[test]
fn url_join_keeps_non_ascii() {
    let client = SNClient::new("http://h\u{e9}te", 1);
    assert_eq!(client.get("caf\u{e9}/\u{4e16}").url, "http://h\u{e9}te/caf\u{e9}/\u{4e16}");
}

#[test]
fn each_verb_has_its_method() {
    let client = SNClient::new("http://h", 1);
    assert_eq!(client.get("e").method, Method::Get);
    assert_eq!(client.post("e").method, Method::Post);
    assert_eq!(client.put("e").method, Method::Put);
    assert_eq!(client.patch("e").method, Method::Patch);
    assert_eq!(client.delete("e").method, Method::Delete);
}

#[test]
fn verbs_build_whole_descriptors() {
    let client = SNClient::new("http://h", 1);
    let expected = |method| Request { method, url: String::from("http://h/e"), bearer_token: None };
    assert_eq!(client.get("e"), expected(Method::Get));
    assert_eq!(client.post("e"), expected(Method::Post));
    assert_eq!(client.put("e"), expected(Method::Put));
    assert_eq!(client.patch("e"), expected(Method::Patch));
    assert_eq!(client.delete("e"), expected(Method::Delete));
}

#[test]
fn a_descriptor_is_made_anew_every_time() {
    let client = SNClient::new("http://h", 1);
    assert_eq!(client.get("e"), client.get("e"));
    assert_eq!(client.url(), "http://h");
}

#[test]
fn only_post_put_patch_carry_a_body() {
    assert!(!Method::Get.carries_body());
    assert!(Method::Post.carries_body());
    assert!(Method::Put.carries_body());
    assert!(Method::Patch.carries_body());
    assert!(!Method::Delete.carries_body());
}

#[test]
fn token_auth_sets_the_bearer_token() {
    let auth = TokenAuth { token: String::from("s3cr3t") };
    let client = SNClient::new("http://h", 1);
    let request = auth.authenticate(client.post("e"));
    assert_eq!(
        request,
        Request {
            method: Method::Post,
            url: String::from("http://h/e"),
            bearer_token: Some(String::from("s3cr3t")),
        }
    );
    assert_eq!(auth.token, "s3cr3t");
}

#[test]
fn token_auth_replaces_an_earlier_token() {
    let first = TokenAuth { token: String::from("old") };
    let second = TokenAuth { token: String::from("new") };
    let client = SNClient::new("http://h", 1);
    let request = second.authenticate(first.authenticate(client.get("e")));
    assert_eq!(request.bearer_token, Some(String::from("new")));
    assert_eq!(request.url, "http://h/e");
    assert_eq!(request.method, Method::Get);
}

#[test]
fn token_auth_twice_is_token_auth_once() {
    let auth = TokenAuth { token: String::from("t") };
    let client = SNClient::new("http://h", 1);
    let once = auth.authenticate(client.get("e"));
    let twice = auth.authenticate(auth.authenticate(client.get("e")));
    assert_eq!(once, twice);
}

#[test]
fn token_auth_with_empty_token() {
    let auth = TokenAuth { token: String::new() };
    let request = auth.authenticate(SNClient::new("http://h", 1).get("e"));
    assert_eq!(request.bearer_token, Some(String::new()));
}

#[test]
fn clone_copies_every_field() {
    let request = Request {
        method: Method::Patch,
        url: String::from("http://h/e"),
        bearer_token: Some(String::from("t")),
    };
    let copy = request.clone();
    assert_eq!(copy, request);
    let bare = Request { method: Method::Get, url: String::from("u"), bearer_token: None };
    assert_eq!(bare.clone(), bare);
}

#[test]
fn oauth_holds_its_access_token() {
    let oauth = OAuth { access_token: String::from("abc") };
    assert_eq!(oauth.access_token, "abc");
}
