use github_client::client::{ClientError, ClientResponseError};
use github_client::repository::blob::{
    deserialize, serialize, strip_white_space, white_space, Blob, BlobContent, BlobError,
};
use github_client::repository::sha::Sha;

#[test]
fn bytes_are_written_as_standard_base64() {
    assert_eq!(serialize(b""), "");
    assert_eq!(serialize(b"f"), "Zg==");
    assert_eq!(serialize(b"fo"), "Zm8=");
    assert_eq!(serialize(b"foo"), "Zm9v");
    assert_eq!(serialize(b"hello"), "aGVsbG8=");
    assert_eq!(serialize(&[0xfb, 0xff]), "+/8=");
}

#[test]
fn base64_is_read_into_bytes() {
    assert_eq!(deserialize("aGVsbG8="), Ok(b"hello".to_vec()));
    assert_eq!(deserialize(""), Ok(Vec::new()));
    assert_eq!(deserialize("+/8="), Ok(vec![0xfb, 0xff]));
}

#[test]
fn binary_content_round_trips() {
    let mut all: Vec<u8> = Vec::new();
    for length in 0..70usize {
        let text = serialize(all.as_slice());
        assert_eq!(deserialize(text.as_str()), Ok(all.clone()), "{}", length);
        all.push((length * 37 % 256) as u8);
    }
    let every: Vec<u8> = (0..=255u8).collect();
    assert_eq!(deserialize(serialize(every.as_slice()).as_str()), Ok(every));
}

#[test]
fn white_space_in_content_is_ignored() {
    assert_eq!(deserialize("aGVs\nbG8=\n"), Ok(b"hello".to_vec()));
    assert_eq!(deserialize(" a G\tV s\r\nb G 8 = "), Ok(b"hello".to_vec()));
    assert_eq!(deserialize("aGVs\u{a0}bG8=\u{2028}"), Ok(b"hello".to_vec()));
    assert_eq!(deserialize(" \n "), Ok(Vec::new()));
}

#[test]
fn white_space_is_what_unicode_calls_so() {
    let mut code = 0u32;
    while code <= 0x3100 {
        if let Some(c) = char::from_u32(code) {
            assert_eq!(white_space(c), c.is_whitespace(), "{:x}", code);
        }
        code += 1;
    }
    assert_eq!(strip_white_space(" a\tb\nc\u{3000}"), "abc");
    assert_eq!(strip_white_space(""), "");
}

#[test]
fn malformed_content_is_refused() {
    for text in ["a", "aGVsbG8", "aGVsbG8==", "****", "aGVs-G8=", "Zh=="] {
        assert!(
            matches!(deserialize(text), Err(ClientResponseError::Malformed { .. })),
            "{}",
            text
        );
    }
}

#[test]
fn a_fetched_blob_is_read_by_its_encoding() {
    let binary = Blob::try_fetch(Ok(BlobContent {
        encoding: "base64".to_string(),
        content: "aGVs\nbG8=\n".to_string(),
        sha: Sha::new("aaa111"),
    }));
    assert_eq!(binary, Ok(Blob::Binary { content: b"hello".to_vec(), sha: Sha::new("aaa111") }));

    let text = Blob::try_fetch(Ok(BlobContent {
        encoding: "utf-8".to_string(),
        content: "aGVsbG8=".to_string(),
        sha: Sha::new("bbb222"),
    }));
    assert_eq!(text, Ok(Blob::Text { content: "aGVsbG8=".to_string(), sha: Sha::new("bbb222") }));

    let unknown = Blob::try_fetch(Ok(BlobContent {
        encoding: "utf-16".to_string(),
        content: String::new(),
        sha: Sha::new("ccc333"),
    }));
    assert!(matches!(
        unknown,
        Err(BlobError::Client(ClientError::Response(ClientResponseError::Malformed { .. })))
    ));

    let broken = Blob::try_fetch(Ok(BlobContent {
        encoding: "base64".to_string(),
        content: "a".to_string(),
        sha: Sha::new("ddd444"),
    }));
    assert!(matches!(
        broken,
        Err(BlobError::Client(ClientError::Response(ClientResponseError::Malformed { .. })))
    ));

    assert_eq!(
        Blob::try_fetch(Err(ClientError::Initialize)),
        Err(BlobError::Client(ClientError::Initialize))
    );
}

#[test]
fn a_created_blob_keeps_what_was_given() {
    let text = Blob::try_create_text_blob("hello", Ok(Sha::new("aaa111"))).unwrap();
    assert_eq!(text, Blob::Text { content: "hello".to_string(), sha: Sha::new("aaa111") });
    assert_eq!(text.get_sha(), Sha::new("aaa111"));
    let binary = Blob::try_create_binary_blob(&[1, 2, 3], Ok(Sha::new("bbb222"))).unwrap();
    assert_eq!(binary, Blob::Binary { content: vec![1, 2, 3], sha: Sha::new("bbb222") });
    assert_eq!(binary.get_sha(), Sha::new("bbb222"));
    assert_eq!(
        Blob::try_create_text_blob("hello", Err(ClientError::Initialize)),
        Err(BlobError::Client(ClientError::Initialize))
    );
}
