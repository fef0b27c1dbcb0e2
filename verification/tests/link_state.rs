use random_test_cli::link_state::{extract_state, LinkStateError};

#[test]
fn extracts_state_from_full_url() {
    let input = "https://manabeai.github.io/cp-ast-ecosystems/?state=H4sIAAAAAAAA_6tWKi5JLCktVrIy1FFQyslPzk7JTM7WAwA_JkA_FwAAAA";
    assert_eq!(
        extract_state(input).unwrap(),
        "H4sIAAAAAAAA_6tWKi5JLCktVrIy1FFQyslPzk7JTM7WAwA_JkA_FwAAAA"
    );
}

#[test]
fn accepts_state_value_directly() {
    assert_eq!(extract_state("abc").unwrap(), "abc");
}

#[test]
fn trims_and_decodes() {
    assert_eq!(extract_state("  abc \n").unwrap(), "abc");
    assert_eq!(extract_state("https://x.io/?a=1&state=a%2Bb+c").unwrap(), "a+b c");
}

#[test]
fn missing_state_cases() {
    assert_eq!(extract_state(""), Err(LinkStateError::MissingState));
    assert_eq!(extract_state("   "), Err(LinkStateError::MissingState));
    assert_eq!(
        extract_state("https://x.io/?other=1"),
        Err(LinkStateError::MissingState)
    );
}

#[test]
fn bare_query_strings() {
    assert_eq!(extract_state("page?x=1&state=S%2B").unwrap(), "S%2B");
    assert_eq!(extract_state("page?flag&state=v=w").unwrap(), "v=w");
    assert_eq!(extract_state("page?x=1").unwrap(), "page?x=1");
    assert_eq!(extract_state("?state=").unwrap(), "");
}

#[test]
fn share_link_and_bare_state_agree() {
    for v in ["H4sIAAAAAAAA_6tWKi5J", "a-b_c", "Z"] {
        assert_eq!(extract_state(v).unwrap(), v);
        assert_eq!(extract_state(&format!(" {} ", v)).unwrap(), v);
        assert_eq!(
            extract_state(&format!(
                "https://manabeai.github.io/cp-ast-ecosystems/?state={}",
                v
            ))
            .unwrap(),
            v
        );
    }
}
