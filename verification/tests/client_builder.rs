use spotnowplay::ClientBuilder;

#[test]
fn handlers_keep_their_order() {
    let client = ClientBuilder::new("token").handler(3u8).handler(1u8).handler(2u8).build();
    assert_eq!(client.token(), "token");
    assert_eq!(client.handlers(), &vec![3u8, 1u8, 2u8]);
}

#[test]
fn builder_without_handlers() {
    let client = ClientBuilder::<u8>::new("").build();
    assert_eq!(client.token(), "");
    assert!(client.handlers().is_empty());
    let shared = client.clone();
    assert_eq!(shared.token(), client.token());
}

#[test]
fn builder_clone_keeps_token_and_handler_order() {
    let builder = ClientBuilder::new("t").handler(7u8).handler(9u8);
    let copy = builder.clone();
    let a = builder.build();
    let b = copy.build();
    assert_eq!(a.token(), b.token());
    assert_eq!(a.handlers(), b.handlers());
    assert_eq!(b.handlers(), &vec![7u8, 9u8]);
}

#[test]
fn client_clone_shares_token_and_handlers() {
    let client = ClientBuilder::new("abc").handler("h1").handler("h2").build();
    let shared = client.clone();
    assert_eq!(shared.token(), "abc");
    assert_eq!(shared.handlers(), &vec!["h1", "h2"]);
}
