use github_client::repository::sha::Sha;

#[test]
fn sha_orders_as_its_text() {
    assert!(Sha::new("a") < Sha::new("b"));
    assert!(Sha::new("x") == Sha::new("x"));
    assert!(Sha::new("ab") > Sha::new("a"));
    assert!(Sha::new("") < Sha::new("0"));
    assert!(Sha::new("a") != Sha::new("b"));
    assert_eq!(Sha::new("abc").to_string(), "abc");
}

#[test]
fn sha_order_agrees_with_string_order_on_many_pairs() {
    let texts = ["", "0", "00", "a", "aa", "ab", "b", "é", "z", "Z", "aaa111", "aaa112"];
    for left in texts.iter() {
        for right in texts.iter() {
            let a = Sha::new(left);
            let b = Sha::new(right);
            assert_eq!(a.partial_cmp(&b), left.partial_cmp(right));
            assert_eq!(a.cmp(&b), left.cmp(right));
            assert_eq!(a == b, left == right);
        }
    }
}

#[test]
fn sha_accepts_any_text() {
    assert_eq!(Sha::new("not a hash at all").as_ref(), "not a hash at all");
    assert_eq!(Sha::from(String::from("abc")), Sha::new("abc"));
    assert_eq!(Sha::default().as_ref(), "");
    let sha = Sha::new("aaa111");
    assert_eq!(sha.to_owned(), sha);
    assert_eq!(sha.clone(), sha);
}
