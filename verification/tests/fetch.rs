use ddnsrs::ip::{provider_url, resolve, trim_ws, FetchError, IpFetch, PROVIDER_COUNT};

#[test]
fn provider_order_is_deterministic() {
    assert_eq!(PROVIDER_COUNT, 5);
    assert_eq!(provider_url(0), "https://ifconfig.me/ip");
    assert_eq!(provider_url(1), "https://icanhazip.com");
    assert_eq!(provider_url(2), "https://myip.dnsomatic.com");
    assert_eq!(provider_url(3), "https://myexternalip.com/raw");
    assert_eq!(provider_url(4), "https://api.ipify.org");
}

#[test]
fn trim_strips_surrounding_whitespace() {
    assert_eq!(trim_ws("\n1.2.3.4\r\n"), "1.2.3.4");
    assert_eq!(trim_ws("  5.6.7.8"), "5.6.7.8");
    assert_eq!(trim_ws("9.9.9.9\t"), "9.9.9.9");
    assert_eq!(trim_ws("1.2.3.4"), "1.2.3.4");
}

#[test]
fn trim_keeps_inner_whitespace() {
    assert_eq!(trim_ws(" a b "), "a b");
}

#[test]
fn trim_of_blank_is_empty() {
    assert_eq!(trim_ws(""), "");
    assert_eq!(trim_ws(" \n\t\r"), "");
}

#[test]
fn first_provider_success_wins() {
    let mut fetch = IpFetch::new();
    assert_eq!(fetch.pending_provider(), Some(0));
    let verdict = fetch.absorb(Some(" 1.2.3.4\n"));
    assert_eq!(verdict, Some(Ok(String::from("1.2.3.4"))));
}

#[test]
fn failures_move_to_the_next_provider_in_order() {
    let mut fetch = IpFetch::new();
    assert_eq!(fetch.pending_provider(), Some(0));
    assert_eq!(fetch.absorb(None), None);
    assert_eq!(fetch.pending_provider(), Some(1));
    assert_eq!(fetch.absorb(None), None);
    assert_eq!(fetch.pending_provider(), Some(2));
    let verdict = fetch.absorb(Some("5.6.7.8"));
    assert_eq!(verdict, Some(Ok(String::from("5.6.7.8"))));
}

#[test]
fn all_providers_failing_is_the_distinguished_error() {
    let mut fetch = IpFetch::new();
    let mut verdict = None;
    for _ in 0..PROVIDER_COUNT {
        assert!(verdict.is_none());
        verdict = fetch.absorb(None);
    }
    assert_eq!(verdict, Some(Err(FetchError::AllProvidersFailed)));
    assert_eq!(fetch.pending_provider(), None);
}

#[test]
fn total_failure_is_never_an_empty_success() {
    let mut fetch = IpFetch::new();
    let mut verdict = None;
    for _ in 0..PROVIDER_COUNT {
        verdict = fetch.absorb(None);
    }
    match verdict {
        Some(Err(FetchError::AllProvidersFailed)) => {}
        other => panic!("expected the distinguished failure, got {:?}", other),
    }
}

#[test]
fn resolve_picks_the_first_address() {
    let addrs = vec![String::from("9.9.9.9"), String::from("1.1.1.1")];
    assert_eq!(resolve(&addrs), "9.9.9.9");
}
