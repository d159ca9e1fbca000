use org_node::decimal::{parse_decimal, write_decimal, DecimalError};
use org_node::feed::{feed_request, Anchor, Org, QueryDocument};

fn decode(ts: &str) -> Result<Anchor, org_node::feed::AnchorError> {
    Anchor::decode(
        "a1".to_string(),
        "0xhash".to_string(),
        ts.to_string(),
        Org { id: "0xorg".to_string() },
    )
}

#[test]
fn anchor_timestamp_is_decoded() {
    let a = decode("1617000000").unwrap();
    assert_eq!(a.timestamp, 1_617_000_000);
    assert_eq!(a.id, "a1");
    assert_eq!(a.object_id, "0xhash");
    assert_eq!(a.org.id, "0xorg");
}

#[test]
fn bad_anchor_timestamp_reports_raw_text() {
    let e = decode("12ab").unwrap_err();
    assert_eq!(e.raw, "12ab");
    assert_eq!(e.reason, DecimalError::InvalidDigit);
    assert!(e.message().contains("12ab"));
    assert_eq!(decode("").unwrap_err().reason, DecimalError::Empty);
    assert_eq!(decode("-1").unwrap_err().reason, DecimalError::InvalidDigit);
    assert_eq!(
        decode("99999999999999999999").unwrap_err().reason,
        DecimalError::Overflow
    );
}

#[test]
fn decimal_parsing() {
    assert_eq!(parse_decimal(b"0"), Ok(0));
    assert_eq!(parse_decimal(b"+17"), Ok(17));
    assert_eq!(parse_decimal(b"007"), Ok(7));
    assert_eq!(parse_decimal(b"18446744073709551615"), Ok(u64::MAX));
    assert_eq!(parse_decimal(b"18446744073709551616"), Err(DecimalError::Overflow));
    assert_eq!(parse_decimal(b""), Err(DecimalError::Empty));
    assert_eq!(parse_decimal(b"+"), Err(DecimalError::InvalidDigit));
    assert_eq!(parse_decimal(b" 1"), Err(DecimalError::InvalidDigit));
}

#[test]
fn decimal_writing() {
    let mut out = b"t=".to_vec();
    write_decimal(1024, &mut out);
    assert_eq!(out, b"t=1024".to_vec());
}

#[test]
fn unfiltered_request_has_no_orgs() {
    let r = feed_request(77, &vec![]);
    assert_eq!(r.document, QueryDocument::AllAnchors);
    assert_eq!(r.timestamp, 77);
    assert_eq!(r.orgs, None);
}

#[test]
fn filtered_request_carries_orgs() {
    let orgs = vec!["0x1".to_string(), "0x2".to_string()];
    let r = feed_request(5, &orgs);
    assert_eq!(r.document, QueryDocument::OrgAnchors);
    assert_eq!(r.orgs, Some(orgs));
}
