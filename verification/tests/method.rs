use dcr::method::{Guard, Method};

#[test]
fn method_tokens_are_told_apart() {
    assert_eq!(Method::from_name("GET"), Method::Get);
    assert_eq!(Method::from_name("PUT"), Method::Put);
    assert_eq!(Method::from_name("POST"), Method::Post);
    assert_eq!(Method::from_name("HEAD"), Method::Other);
    assert_eq!(Method::from_name("DELETE"), Method::Other);
    assert_eq!(Method::from_name("OPTIONS"), Method::Other);
    assert_eq!(Method::from_name("PATCH"), Method::Other);
    assert_eq!(Method::from_name(""), Method::Other);
}

#[test]
fn method_tokens_are_case_sensitive() {
    assert_eq!(Method::from_name("get"), Method::Other);
    assert_eq!(Method::from_name("Post"), Method::Other);
    assert_eq!(Method::from_name("GET "), Method::Other);
}

#[test]
fn a_guard_accepts_its_own_method_only() {
    let methods = [Method::Get, Method::Put, Method::Post, Method::Other];
    for method in methods {
        assert_eq!(Guard::Get.admits(method), method == Method::Get);
        assert_eq!(Guard::Put.admits(method), method == Method::Put);
        assert_eq!(Guard::Post.admits(method), method == Method::Post);
        assert!(Guard::Any.admits(method));
    }
}
