use lineproto::{complete_insecure, complete_secure, TransportHandle};

#[test]
fn plain_wrap_is_not_secure() {
    let h: TransportHandle<u32, u64> = TransportHandle::plain(7);
    assert!(!h.is_secure());
    assert!(matches!(h, TransportHandle::Plain(7)));
}

#[test]
fn secure_wrap_is_secure() {
    let h: TransportHandle<u32, u64> = TransportHandle::secure(9);
    assert!(h.is_secure());
    assert!(matches!(h, TransportHandle::Secure(9)));
}

#[test]
fn insecure_completion_wraps_the_raw_stream() {
    let r: Result<TransportHandle<u32, u64>, String> = complete_insecure(Ok(7));
    assert!(matches!(r, Ok(TransportHandle::Plain(7))));
}

#[test]
fn insecure_completion_passes_the_failure_through() {
    let r: Result<TransportHandle<u32, u64>, String> =
        complete_insecure(Err(String::from("connection refused")));
    match r {
        Err(e) => assert_eq!(e, "connection refused"),
        Ok(_) => panic!("a failed connect must never yield a handle"),
    }
}

#[test]
fn secure_completion_wraps_the_encrypted_stream() {
    let r: Result<TransportHandle<u32, u64>, String> = complete_secure(Ok(9));
    match r {
        Ok(h) => assert!(h.is_secure()),
        Err(e) => panic!("unexpected failure: {}", e),
    }
}

#[test]
fn secure_completion_passes_the_failure_through() {
    let r: Result<TransportHandle<u32, u64>, String> =
        complete_secure(Err(String::from("handshake broke off")));
    match r {
        Err(e) => assert_eq!(e, "handshake broke off"),
        Ok(_) => panic!("a failed handshake must never yield a handle"),
    }
}
