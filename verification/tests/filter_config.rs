use publisher_model_rewrite::{
    default_max_body_bytes, BodyAccess, BodyMode, FilterAction, PublisherModelRewriteConfig,
    PublisherModelRewriteFilter, DEFAULT_JSON_BODY_MAX_BYTES, FILTER_NAME,
};

#[test]
fn default_config_parses() {
    let filter =
        PublisherModelRewriteFilter::from_config(&PublisherModelRewriteConfig::default()).unwrap();
    assert_eq!(filter.name(), FILTER_NAME);
}

#[test]
fn custom_max_body_bytes_parses() {
    let config = PublisherModelRewriteConfig { max_body_bytes: 1048576 };
    let filter = PublisherModelRewriteFilter::from_config(&config).unwrap();
    assert_eq!(filter.name(), FILTER_NAME);
    assert_eq!(
        filter.request_body_mode(),
        BodyMode::StreamBuffer { max_bytes: Some(1048576) }
    );
}

#[test]
fn zero_max_body_bytes_rejected() {
    let config = PublisherModelRewriteConfig { max_body_bytes: 0 };
    assert!(PublisherModelRewriteFilter::from_config(&config).is_err());
}

#[test]
fn zero_max_body_bytes_error_message() {
    let config = PublisherModelRewriteConfig { max_body_bytes: 0 };
    let err = PublisherModelRewriteFilter::from_config(&config).err().unwrap();
    assert_eq!(
        err.message(),
        "publisher_model_rewrite: max_body_bytes must be greater than 0"
    );
}

#[test]
fn one_byte_limit_accepted() {
    let config = PublisherModelRewriteConfig { max_body_bytes: 1 };
    let filter = PublisherModelRewriteFilter::from_config(&config).unwrap();
    assert_eq!(filter.request_body_mode(), BodyMode::StreamBuffer { max_bytes: Some(1) });
}

#[test]
fn default_limit_is_ten_mebibytes() {
    assert_eq!(DEFAULT_JSON_BODY_MAX_BYTES, 10 * 1024 * 1024);
    assert_eq!(default_max_body_bytes(), 10485760);
    assert_eq!(PublisherModelRewriteConfig::default().max_body_bytes, 10485760);
}

#[test]
fn filter_name_is_publisher_model_rewrite() {
    assert_eq!(FILTER_NAME, "publisher_model_rewrite");
}

#[test]
fn body_access_is_read_write() {
    let filter =
        PublisherModelRewriteFilter::from_config(&PublisherModelRewriteConfig::default()).unwrap();
    assert_eq!(filter.request_body_access(), BodyAccess::ReadWrite);
}

#[test]
fn body_mode_is_stream_buffer() {
    let filter =
        PublisherModelRewriteFilter::from_config(&PublisherModelRewriteConfig::default()).unwrap();
    assert!(matches!(
        filter.request_body_mode(),
        BodyMode::StreamBuffer { max_bytes: Some(_) }
    ));
    assert_eq!(
        filter.request_body_mode(),
        BodyMode::StreamBuffer { max_bytes: Some(10485760) }
    );
}

#[test]
fn on_request_is_noop() {
    let filter =
        PublisherModelRewriteFilter::from_config(&PublisherModelRewriteConfig::default()).unwrap();
    let action = filter.on_request().unwrap();
    assert!(matches!(action, FilterAction::Continue));
}
