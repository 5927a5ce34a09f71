use paperless_client::schema::const_true;
use paperless_client::{ImapSecurity, MatchingAlgorithm};

#[test]
fn flag_default_is_set() {
    assert!(const_true());
}

#[test]
fn imap_security_codes_round_trip() {
    for s in [ImapSecurity::NoEncryption, ImapSecurity::UseSSL, ImapSecurity::UseSTARTTLS] {
        assert_eq!(ImapSecurity::from_code(s.code()), Some(s));
    }
    assert_eq!(ImapSecurity::NoEncryption.code(), 1);
    assert_eq!(ImapSecurity::UseSSL.code(), 2);
    assert_eq!(ImapSecurity::UseSTARTTLS.code(), 3);
    assert_eq!(ImapSecurity::from_code(0), None);
    assert_eq!(ImapSecurity::from_code(4), None);
}

#[test]
fn matching_algorithm_codes_round_trip() {
    let all = [
        MatchingAlgorithm::NoMatch,
        MatchingAlgorithm::Any,
        MatchingAlgorithm::All,
        MatchingAlgorithm::Literal,
        MatchingAlgorithm::Regex,
        MatchingAlgorithm::Fuzzy,
        MatchingAlgorithm::Auto,
    ];
    for (i, m) in all.iter().enumerate() {
        assert_eq!(m.code() as usize, i);
        assert_eq!(MatchingAlgorithm::from_code(m.code()), Some(*m));
    }
    assert_eq!(MatchingAlgorithm::from_code(7), None);
}
