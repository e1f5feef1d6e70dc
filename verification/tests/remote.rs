use pixoo_bridge::remote::check_declared_length;
use pixoo_bridge::remote::check_remote_status;
use pixoo_bridge::remote::ingest_chunk;
use pixoo_bridge::remote::normalize_content_type;
use pixoo_bridge::remote::validate_remote_link;
use pixoo_bridge::remote::RemoteFetchConfig;
use pixoo_bridge::remote::RemoteFetchError;

#[test]
fn remote_fetch_config_keeps_its_values() {
    let config = RemoteFetchConfig::new(5_000, 100);
    assert_eq!(config.timeout_ms, 5_000);
    assert_eq!(config.max_image_size, 100);
}

#[test]
fn remote_status_accepts_exactly_2xx() {
    assert!(check_remote_status(200).is_ok());
    assert!(check_remote_status(204).is_ok());
    assert_eq!(check_remote_status(500), Err(RemoteFetchError::Status(500)));
    assert_eq!(check_remote_status(301), Err(RemoteFetchError::Status(301)));
}

#[test]
fn honest_oversized_content_length_fails_early() {
    assert_eq!(
        check_declared_length(Some(200), 100),
        Err(RemoteFetchError::TooLarge {
            limit: 100,
            actual: 200
        })
    );
    assert!(check_declared_length(Some(100), 100).is_ok());
    assert!(check_declared_length(None, 100).is_ok());
}

#[test]
fn oversized_download_aborts_mid_stream_without_content_length() {
    // No declared length at all: the running total still stops the
    // download on the chunk that crosses the ceiling.
    let limit = 100;
    assert!(check_declared_length(None, limit).is_ok());

    let mut body = Vec::new();
    assert!(ingest_chunk(&mut body, &[1u8; 60], limit).is_ok());
    assert_eq!(body.len(), 60);
    let err = ingest_chunk(&mut body, &[1u8; 60], limit).expect_err("expected too large");
    assert_eq!(
        err,
        RemoteFetchError::TooLarge {
            limit: 100,
            actual: 120
        }
    );
    // The body is left as it stood before the crossing chunk.
    assert_eq!(body.len(), 60);
}

#[test]
fn dishonestly_small_content_length_does_not_help() {
    // The header claims 10 bytes; the stream delivers 200. The check
    // on the running total catches it regardless.
    let limit = 100;
    assert!(check_declared_length(Some(10), limit).is_ok());

    let mut body = Vec::new();
    let err = ingest_chunk(&mut body, &[0u8; 200], limit).expect_err("expected too large");
    assert_eq!(
        err,
        RemoteFetchError::TooLarge {
            limit: 100,
            actual: 200
        }
    );
    assert!(body.is_empty());
}

#[test]
fn chunks_within_the_ceiling_accumulate() {
    let mut body = Vec::new();
    assert!(ingest_chunk(&mut body, &[1, 2], 5).is_ok());
    assert!(ingest_chunk(&mut body, &[3], 5).is_ok());
    assert!(ingest_chunk(&mut body, &[4, 5], 5).is_ok());
    assert_eq!(body, vec![1, 2, 3, 4, 5]);
    assert!(ingest_chunk(&mut body, &[6], 5).is_err());
    assert_eq!(body, vec![1, 2, 3, 4, 5]);
}

#[test]
fn remote_links_must_be_absolute_http_or_https() {
    assert!(validate_remote_link("http://example.com/logo.png").is_ok());
    assert!(validate_remote_link("https://example.com/logo.png").is_ok());

    let err = validate_remote_link("ftp://example.com/logo.png").expect_err("bad scheme");
    assert_eq!(err, "link must be an absolute http or https url");
    assert!(validate_remote_link("/relative/path.png").is_err());
    assert!(validate_remote_link("not a url").is_err());
    // An absolute URL without a host is refused too.
    assert!(validate_remote_link("data:text/plain,hello").is_err());
}

#[test]
fn content_type_is_normalized_to_the_media_type() {
    assert_eq!(normalize_content_type("image/png"), "image/png");
    assert_eq!(
        normalize_content_type("image/png; charset=binary"),
        "image/png"
    );
    assert_eq!(normalize_content_type("  image/gif ; q=1"), "image/gif");
    assert_eq!(normalize_content_type(""), "");
}
