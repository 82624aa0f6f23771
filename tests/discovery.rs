use acap_vapix::{AuthKind, Scheme, Search, Step, AUTH_KIND_COUNT, SCHEME_COUNT};

/// Drives a search with a probe stub; returns the probed positions and the last step.
fn drive(count: usize, mut probe: impl FnMut(usize) -> bool) -> (Vec<usize>, Step) {
    let mut search = Search::new(count);
    let mut probed = Vec::new();
    loop {
        match search.next() {
            Step::Probe(i) => {
                probed.push(i);
                search = search.record(probe(i));
            }
            step => return (probed, step),
        }
    }
}

#[test]
fn scheme_order_is_encrypted_first() {
    assert_eq!(Scheme::at(0), Scheme::Https);
    assert_eq!(Scheme::at(1), Scheme::Http);
    assert_eq!(Scheme::Https.name(), "https");
    assert_eq!(Scheme::Http.name(), "http");
}

#[test]
fn scheme_search_gives_up_after_both_fail() {
    let (probed, step) = drive(SCHEME_COUNT, |_| false);
    assert_eq!(probed, vec![0, 1]);
    assert_eq!(step, Step::GiveUp);
}

#[test]
fn scheme_search_stops_at_encrypted() {
    let (probed, step) = drive(SCHEME_COUNT, |_| true);
    assert_eq!(probed, vec![0]);
    assert_eq!(step, Step::Accept(0));
}

#[test]
fn plaintext_only_stub_selects_http() {
    let (probed, step) = drive(SCHEME_COUNT, |i| Scheme::at(i) == Scheme::Http);
    assert_eq!(probed, vec![0, 1]);
    assert_eq!(step, Step::Accept(1));
    assert_eq!(Scheme::at(1), Scheme::Http);
}

#[test]
fn auth_order_is_digest_basic_anonymous() {
    assert_eq!(AuthKind::at(0), AuthKind::Digest);
    assert_eq!(AuthKind::at(1), AuthKind::Basic);
    assert_eq!(AuthKind::at(2), AuthKind::Anonymous);
}

#[test]
fn basic_only_credentials_select_basic() {
    let (probed, step) = drive(AUTH_KIND_COUNT, |i| AuthKind::at(i) == AuthKind::Basic);
    assert_eq!(probed, vec![0, 1]);
    assert_eq!(step, Step::Accept(1));
}

#[test]
fn auth_search_gives_up_after_three_failures() {
    let (probed, step) = drive(AUTH_KIND_COUNT, |_| false);
    assert_eq!(probed, vec![0, 1, 2]);
    assert_eq!(step, Step::GiveUp);
}

#[test]
fn anonymous_selected_last() {
    let (probed, step) = drive(AUTH_KIND_COUNT, |i| AuthKind::at(i) == AuthKind::Anonymous);
    assert_eq!(probed, vec![0, 1, 2]);
    assert_eq!(step, Step::Accept(2));
}

#[test]
fn empty_search_gives_up_at_once() {
    let (probed, step) = drive(0, |_| true);
    assert!(probed.is_empty());
    assert_eq!(step, Step::GiveUp);
}
