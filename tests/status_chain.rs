use status_chain::{
    to_status, ErrorChain, MetadataMap, Status, ToTonicStatus, TonicStatusWrapper, ERROR_KEY,
};

fn outer_inner() -> ErrorChain {
    let inner = ErrorChain::new("inner".to_string());
    ErrorChain::caused_by("outer".to_string(), &inner)
}

/// What the receiving side sees: code, message and metadata, without the
/// record attached in the sending process.
fn over_the_wire(status: &Status) -> Status {
    let mut metadata = MetadataMap::new();
    for i in 0..status.metadata().len() {
        let (key, value) = status.metadata().entry(i);
        metadata.insert_bin(key.clone(), value.clone());
    }
    Status::with_metadata(status.code(), status.message().clone(), metadata)
}

fn status_with_entry(message: &str, entry: Option<Vec<u8>>) -> Status {
    let mut metadata = MetadataMap::new();
    metadata.insert_bin("other-bin".to_string(), vec![9, 9]);
    if let Some(bytes) = entry {
        metadata.insert_bin(ERROR_KEY.to_string(), bytes);
    }
    Status::with_metadata(tonic::Code::Internal as i32, message.to_string(), metadata)
}

#[test]
fn test_source_chain_preserved() {
    let error = outer_inner();
    let server_status = error.to_status(tonic::Code::Internal as i32, "test".to_string());
    let client_status = over_the_wire(&server_status);
    assert!(client_status.source().is_none());

    let wrapper = TonicStatusWrapper::new(client_status);
    assert_eq!(
        wrapper.to_string(),
        "remote call to test service failed: Internal error: outer"
    );

    let source = wrapper.inner().source().unwrap();
    assert_eq!(source.error.display(), "outer");
    assert_eq!(source.error.cause().unwrap().display(), "inner");
    assert!(source.error.cause().unwrap().cause().is_none());
    assert!(!wrapper.decode_failed());
}

#[test]
fn round_trip_keeps_every_link_in_order() {
    let c = ErrorChain::caused_by("c".to_string(), &ErrorChain::new("d".to_string()));
    let b = ErrorChain::caused_by("b".to_string(), &c);
    let a = ErrorChain::caused_by("a".to_string(), &b);
    assert_eq!(a.displays(), vec!["a", "b", "c", "d"]);
    let status = a.to_status(tonic::Code::Unavailable as i32, "storage".to_string());
    let wrapper = TonicStatusWrapper::new(over_the_wire(&status));
    assert_eq!(wrapper.source_chain(), vec!["a", "b", "c", "d"]);
    assert_eq!(
        wrapper.inner().source().unwrap().service_name.as_deref(),
        Some("storage")
    );
}

#[test]
fn round_trip_of_a_single_error() {
    let e = ErrorChain::new("lonely".to_string());
    let status = e.to_status_unnamed(tonic::Code::Unknown as i32);
    let wrapper = TonicStatusWrapper::new(over_the_wire(&status));
    assert_eq!(wrapper.source_chain(), vec!["lonely"]);
    assert!(wrapper.inner().source().unwrap().service_name.is_none());
}

#[test]
fn missing_entry_falls_back_to_message() {
    let wrapper = TonicStatusWrapper::new(status_with_entry("plain message", None));
    assert!(wrapper.source_chain().is_empty());
    assert!(!wrapper.decode_failed());
    assert!(wrapper.to_string().ends_with("plain message"));
    assert_eq!(
        wrapper.to_string(),
        "remote call failed: Internal error: plain message"
    );
}

#[test]
fn corrupt_entry_falls_back_and_warns_once() {
    let wrapper = TonicStatusWrapper::new(status_with_entry("plain message", Some(vec![1, 2, 3])));
    assert!(wrapper.source_chain().is_empty());
    assert!(wrapper.decode_failed());
    assert_eq!(
        wrapper.to_string(),
        "remote call failed: Internal error: plain message"
    );
    assert_eq!(wrapper.inner().message(), "plain message");
}

#[test]
fn empty_entry_is_corrupt() {
    let wrapper = TonicStatusWrapper::new(status_with_entry("m", Some(Vec::new())));
    assert!(wrapper.decode_failed());
    assert!(wrapper.source_chain().is_empty());
}

#[test]
fn wrapping_twice_does_not_duplicate() {
    let status = outer_inner().to_status(tonic::Code::Internal as i32, "test".to_string());
    let once = TonicStatusWrapper::new(over_the_wire(&status));
    let chain = once.source_chain();
    let twice = TonicStatusWrapper::new(once.into_inner());
    assert_eq!(twice.source_chain(), chain);
    assert_eq!(chain, vec!["outer", "inner"]);

    let first = TonicStatusWrapper::new(over_the_wire(&status));
    let second = TonicStatusWrapper::new(over_the_wire(&status));
    assert_eq!(first.source_chain(), second.source_chain());
}

#[test]
fn wrapping_in_process_keeps_the_attached_record() {
    let status = outer_inner().to_status(tonic::Code::Internal as i32, "test".to_string());
    let wrapper = TonicStatusWrapper::new(status);
    assert_eq!(wrapper.source_chain(), vec!["outer", "inner"]);
    assert_eq!(
        wrapper.to_string(),
        "remote call to test service failed: Internal error: outer"
    );
}

#[test]
fn service_name_is_named_in_display() {
    let status = outer_inner().to_status(tonic::Code::Internal as i32, "catalog".to_string());
    let wrapper = TonicStatusWrapper::new(over_the_wire(&status));
    assert!(wrapper.to_string().contains("to catalog service"));
}

#[test]
fn unnamed_status_has_no_service_clause() {
    let status = outer_inner().to_status_unnamed(tonic::Code::Internal as i32);
    let wrapper = TonicStatusWrapper::new(over_the_wire(&status));
    assert!(!wrapper.to_string().contains(" service"));
    assert_eq!(wrapper.to_string(), "remote call failed: Internal error: outer");
}

#[test]
fn message_is_the_outermost_display_alone() {
    let status = outer_inner().to_status(tonic::Code::Internal as i32, "test".to_string());
    assert_eq!(status.message(), "outer");
    assert_eq!(over_the_wire(&status).message(), "outer");
    assert_eq!(status.code(), 13);
}

#[test]
fn code_text_follows_the_code() {
    let status = ErrorChain::new("gone".to_string()).to_status_unnamed(tonic::Code::NotFound as i32);
    let wrapper = TonicStatusWrapper::new(over_the_wire(&status));
    assert_eq!(
        wrapper.to_string(),
        "remote call failed: Some requested entity was not found: gone"
    );
}

#[test]
fn free_encoder_matches_methods() {
    let e = outer_inner();
    let a = to_status(&e, 13, Some("x".to_string()));
    let b = e.to_status(13, "x".to_string());
    assert_eq!(a.metadata().get_bin(&ERROR_KEY.to_string()), b.metadata().get_bin(&ERROR_KEY.to_string()));
    assert_eq!(a.metadata().len(), 1);
    let (key, _) = a.metadata().entry(0);
    assert_eq!(key, ERROR_KEY);
}

#[test]
fn insert_replaces_earlier_value() {
    let mut m = MetadataMap::new();
    m.insert_bin("a-bin".to_string(), vec![1]);
    m.insert_bin("b-bin".to_string(), vec![2]);
    m.insert_bin("a-bin".to_string(), vec![3]);
    assert_eq!(m.len(), 2);
    assert_eq!(m.get_bin(&"a-bin".to_string()), Some(&vec![3]));
    assert_eq!(m.get_bin(&"b-bin".to_string()), Some(&vec![2]));
    assert_eq!(m.get_bin(&"c-bin".to_string()), None);
    assert_eq!(m.entry(0).0, "b-bin");
}

#[test]
fn chain_links_walk_outermost_first() {
    let e = outer_inner();
    assert_eq!(e.display(), "outer");
    let next = e.cause().unwrap();
    assert_eq!(next.displays(), vec!["inner"]);
    assert!(next.cause().is_none());
    assert_eq!(e.duplicate().displays(), e.displays());
}

#[test]
fn from_wraps_like_new() {
    let status = outer_inner().to_status(tonic::Code::Internal as i32, "test".to_string());
    let wrapper: TonicStatusWrapper = over_the_wire(&status).into();
    assert_eq!(wrapper.source_chain(), vec!["outer", "inner"]);
    let corrupt = TonicStatusWrapper::from(status_with_entry("m", Some(vec![7])));
    assert!(corrupt.decode_failed());
}

#[test]
fn encoding_is_deterministic() {
    let a = outer_inner().to_status(tonic::Code::Aborted as i32, "s".to_string());
    let b = outer_inner().to_status(tonic::Code::Aborted as i32, "s".to_string());
    assert_eq!(a.metadata().len(), 1);
    assert_eq!(a.metadata().entry(0), b.metadata().entry(0));
    assert_eq!(a.message(), b.message());
}
