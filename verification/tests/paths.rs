use qdrant_dump::client::QdrantClient;

#[test]
fn new_strips_trailing_slashes() {
    let c = QdrantClient::new(b"http://localhost:6333///".to_vec(), Vec::new());
    assert_eq!(c.base_url, b"http://localhost:6333".to_vec());
    let c2 = QdrantClient::new(b"http://localhost:6333".to_vec(), Vec::new());
    assert_eq!(c2.base_url, b"http://localhost:6333".to_vec());
}

#[test]
fn collections_url_is_base_plus_segment() {
    let c = QdrantClient::new(b"http://h:1/".to_vec(), Vec::new());
    assert_eq!(c.collections_url(), b"http://h:1/collections".to_vec());
}

#[test]
fn create_snapshot_url_percent_encodes_the_name() {
    let c = QdrantClient::new(b"http://h".to_vec(), Vec::new());
    let url = c.create_snapshot_url(b"my col/1");
    assert_eq!(
        url,
        b"http://h/collections/my%20col%2F1/snapshots".to_vec()
    );
}

#[test]
fn create_snapshot_url_matches_the_encoder() {
    let c = QdrantClient::new(b"http://h".to_vec(), Vec::new());
    let name: &[u8] = "sp\u{e4}ter #7".as_bytes();
    let url = c.create_snapshot_url(name);
    let expected: Vec<u8> = [
        b"http://h/collections/".as_slice(),
        urlencoding::encode_binary(name).as_bytes(),
        b"/snapshots".as_slice(),
    ]
    .concat();
    assert_eq!(url, expected);
}

#[test]
fn encoded_path_segment_decodes_back_to_the_name() {
    let c = QdrantClient::new(b"http://h".to_vec(), Vec::new());
    let name: &[u8] = b"a name/with?odd&bytes %";
    let url = c.create_snapshot_url(name);
    let prefix = b"http://h/collections/".len();
    let suffix = b"/snapshots".len();
    let segment = &url[prefix..url.len() - suffix];
    let decoded = urlencoding::decode_binary(segment);
    assert_eq!(decoded.as_ref(), name);
}

#[test]
fn download_snapshot_url_encodes_both_names() {
    let c = QdrantClient::new(b"http://h".to_vec(), Vec::new());
    let url = c.download_snapshot_url(b"a b", b"s/1");
    assert_eq!(
        url,
        b"http://h/collections/a%20b/snapshots/s%2F1".to_vec()
    );
}

#[test]
fn unreserved_names_pass_through_unchanged() {
    let c = QdrantClient::new(b"http://h".to_vec(), Vec::new());
    let url = c.create_snapshot_url(b"Azaz09-._~");
    assert_eq!(
        url,
        b"http://h/collections/Azaz09-._~/snapshots".to_vec()
    );
}

#[test]
fn auth_header_sent_only_with_a_key() {
    let with_key = QdrantClient::new(b"http://h".to_vec(), b"k1".to_vec());
    assert_eq!(with_key.auth_header_name(), b"api-key".to_vec());
    assert_eq!(
        with_key.auth_header_value(),
        Some(b"k1".to_vec())
    );
    let without = QdrantClient::new(b"http://h".to_vec(), Vec::new());
    assert_eq!(without.auth_header_value(), None);
}
