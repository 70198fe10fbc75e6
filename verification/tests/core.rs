use media_cache::cache::{Cache, CacheError, EventType, FileAction, Packet, TIMEOUT_SECS};
use media_cache::res::{Res, ResError};

fn store() -> Res {
    Res::init(b"cache".to_vec())
}

#[test]
fn test() {
    let res = store();
    assert_eq!(res.directory, b"cache".to_vec());
}

#[test]
fn encode_known_value() {
    assert_eq!(media_cache::b64::encode(&vec![1, 2, 3]), b"AQID".to_vec());
    assert_eq!(media_cache::b64::encode(&Vec::new()), Vec::<u8>::new());
}

#[test]
fn encode_matches_reference() {
    let cases: Vec<Vec<u8>> = vec![
        vec![],
        vec![0],
        vec![0xfb],
        vec![0xff, 0xfe],
        vec![1, 2, 3],
        vec![9, 9],
        vec![0xde, 0xad, 0xbe, 0xef, 0x00, 0x11, 0x22, 0x33, 0x44],
        (0u8..=255).collect::<Vec<u8>>(),
    ];
    for c in cases {
        assert_eq!(
            media_cache::b64::encode(&c),
            base64_url::encode(&c).into_bytes(),
            "encoding of {:?}",
            c
        );
    }
}

#[test]
fn encoded_names_have_no_dot() {
    let all: Vec<u8> = (0u8..=255).collect();
    let name = media_cache::b64::encode(&all);
    assert!(!name.contains(&b'.'));
}

#[test]
fn paths_are_deterministic() {
    let res = store();
    assert_eq!(res.path(&b"AQID".to_vec()), b"cache/AQID".to_vec());
    assert_eq!(res.tmp_path(&b"AQID".to_vec()), b"cache/AQID.tmp".to_vec());
}

#[test]
fn cache_hit_purity() {
    let res = store();
    let cache = Cache {};
    cache.init();
    let id = vec![1u8, 2, 3];
    let url = b"http://example/y.jpg".to_vec();
    let address = b"peer-A".to_vec();
    let expect = FileAction::UseCached { path: b"cache/AQID".to_vec() };
    assert_eq!(cache.file_by_url(&res, &id, &url, true, false), expect);
    assert_eq!(cache.file_by_url(&res, &id, &url, true, true), expect);
    assert_eq!(cache.file_by_uid(&res, &id, &address, true, false), expect);
    assert_eq!(cache.file(&res, &id, &Some(url.clone()), &address, true, false), expect);
    assert_eq!(cache.file(&res, &id, &None, &address, true, false), expect);
}

#[test]
fn put_file_idempotent() {
    let res = store();
    let cache = Cache {};
    let id = vec![1u8, 2, 3];
    let placed = cache.put_file(&res, &id);
    assert_eq!(placed, b"cache/AQID".to_vec());
    match cache.file(&res, &id, &None, &b"peer-A".to_vec(), true, false) {
        FileAction::UseCached { path } => assert_eq!(path, placed),
        other => panic!("expected a cache hit, got {:?}", other),
    }
}

#[test]
fn single_waiter_delivery() {
    let mut res = store();
    let name = b"AQID".to_vec();
    res.wait_for(&name, 1);
    res.wait_for(&name, 2);
    res.wait_for(&name, 3);
    match res.on_create_event(&name) {
        Some((path, waiters)) => {
            assert_eq!(path, b"cache/AQID".to_vec());
            assert_eq!(waiters, vec![1, 2, 3]);
        },
        None => panic!("waiters were registered but not delivered"),
    }
    assert!(res.on_create_event(&name).is_none());
}

#[test]
fn marker_event_wakes_nobody() {
    let mut res = store();
    let name = b"AQID".to_vec();
    res.wait_for(&name, 7);
    assert!(res.on_create_event(&b"AQID.tmp".to_vec()).is_none());
    match res.on_create_event(&name) {
        Some((_, waiters)) => assert_eq!(waiters, vec![7]),
        None => panic!("the marker event must not have drained the waiter"),
    }
}

#[test]
fn in_progress_download_is_awaited() {
    let res = store();
    let cache = Cache {};
    let id = vec![1u8, 2, 3];
    let url = b"http://example/y.jpg".to_vec();
    let expect = FileAction::AwaitDownload { key: b"AQID".to_vec(), timeout_secs: 5 };
    assert_eq!(cache.file_by_url(&res, &id, &url, false, true), expect);
    assert_eq!(cache.file_by_uid(&res, &id, &b"peer-A".to_vec(), false, true), expect);
    assert_eq!(cache.file(&res, &id, &None, &b"peer-A".to_vec(), false, true), expect);
}

#[test]
fn timeout_surfaces() {
    let cache = Cache {};
    assert_eq!(cache.wait_outcome(None), Err(CacheError::TimeoutError));
    assert_eq!(cache.wait_outcome(Some(b"cache/AQID".to_vec())), Ok(b"cache/AQID".to_vec()));
    assert_eq!(TIMEOUT_SECS, 5);
}

#[test]
fn url_fetch_scenario() {
    let res = store();
    let cache = Cache {};
    let id = vec![1u8, 2, 3];
    let url = b"http://example/y.jpg".to_vec();
    match cache.file_by_url(&res, &id, &url, false, false) {
        FileAction::FetchUrl { url: u, tmp, dest } => {
            assert_eq!(u, url);
            assert_eq!(tmp, b"cache/AQID.tmp".to_vec());
            assert_eq!(dest, b"cache/AQID".to_vec());
            assert_ne!(tmp, dest);
        },
        other => panic!("an empty cache must fetch, got {:?}", other),
    }
    // After the fetch and rename the final file exists and the marker is gone:
    // every later call serves the renamed path.
    match cache.file_by_url(&res, &id, &url, true, false) {
        FileAction::UseCached { path } => assert_eq!(path, b"cache/AQID".to_vec()),
        other => panic!("expected a cache hit, got {:?}", other),
    }
}

#[test]
fn peer_resolution_scenario() {
    let res = store();
    let cache = Cache {};
    let id = vec![9u8, 9];
    let address = b"peer-A".to_vec();
    let url = b"http://x/y.jpg".to_vec();
    match cache.file(&res, &id, &None, &address, false, false) {
        FileAction::AskPeer { address: ad, request, timeout_secs } => {
            assert_eq!(ad, address);
            assert_eq!(request, EventType::RequestImage { id: id.clone() });
            assert_eq!(timeout_secs, 5);
        },
        other => panic!("an unknown URL must ask the peer, got {:?}", other),
    }
    let response = Packet::Event(EventType::RespondImage { id: id.clone(), url: url.clone() });
    let (rid, rurl) = cache.handle_peer_response(response).expect("a well-shaped response");
    assert_eq!(rid, id);
    assert_eq!(rurl, url);
    // Recursing with the resolved URL behaves exactly as a direct URL fetch
    // for that id/url pair would.
    assert_eq!(
        cache.file_by_url(&res, &rid, &rurl, false, false),
        cache.file(&res, &id, &Some(url), &address, false, false)
    );
}

#[test]
fn protocol_violation() {
    let cache = Cache {};
    let wrong_kind = Packet::Event(EventType::RequestImage { id: vec![9, 9] });
    assert_eq!(cache.handle_peer_response(wrong_kind), Err(CacheError::UnexpectedResponse));
    assert_eq!(cache.handle_peer_response(Packet::Other), Err(CacheError::UnexpectedResponse));
}

#[test]
fn photo_url_resolution() {
    let mut res = store();
    let uid = b"upload-17".to_vec();
    // No stored file id: no URL, and no resolver is consulted.
    assert_eq!(res.get_photo_url(&uid, &None), Ok(None));
    // A stored file id but no configured resolver: a configuration error.
    let file_id = b"file-17".to_vec();
    assert_eq!(res.get_photo_url(&uid, &Some(file_id.clone())), Err(ResError::ResolverUnset));
    // Once configured, the resolver is invoked on the pair.
    res.resolve_photo_url();
    assert_eq!(res.get_photo_url(&uid, &Some(file_id.clone())), Ok(Some((uid.clone(), file_id))));
}

#[test]
fn fresh_ids_differ() {
    assert_ne!(media_cache::res::new_id(), media_cache::res::new_id());
}
