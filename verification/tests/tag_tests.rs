use anonymizer::{parse_tag, CustomTag};

#[test]
fn parse_tags_in_the_right_format() {
    match parse_tag("0x0001-0x0001") {
        Ok(tag) => assert_eq!(tag, CustomTag::new(1, 1)),
        Err(_) => assert!(false),
    };
    match parse_tag("0x00FF-0x0012") {
        Ok(tag) => assert_eq!(tag, CustomTag::new(255, 18)),
        Err(_) => assert!(false),
    };
}

#[test]
fn parse_errors() {
    match parse_tag("0x0001-0x0001-0x001") {
        Ok(_) => assert!(false),
        Err(err) => {
            assert_eq!(err.message(), "Error while parsing tags, has to be 0x____-0x____ but received 0x0001-0x0001-0x001");
        }
    };
    match parse_tag("0x001G-0x001") {
        Ok(_) => assert!(false),
        Err(err) => {
            assert_eq!(err.message(), "Error while parsing input as hex number");
        }
    };
    match parse_tag("0x001F-0x001P") {
        Ok(_) => assert!(false),
        Err(err) => {
            assert_eq!(err.message(), "Error while parsing input as hex number");
        }
    };
}

#[test]
fn parse_without_prefix_and_any_case() {
    assert_eq!(parse_tag("10-20").unwrap(), CustomTag::new(0x10, 0x20));
    assert_eq!(parse_tag("0xabcd-0xEf01").unwrap(), CustomTag::new(0xABCD, 0xEF01));
}

#[test]
fn parse_rejects_empty_and_overflowing_tokens() {
    assert!(parse_tag("-0x0010").is_err());
    assert!(parse_tag("0x0010-").is_err());
    assert!(parse_tag("0x10000-0x0001").is_err());
    assert!(parse_tag("").is_err());
    assert!(parse_tag("0x0010").is_err());
}

#[test]
fn from_vec_converts_pairs() {
    let tags = CustomTag::from_vec(vec![(1, 2), (0x0010, 0x0020)]);
    assert_eq!(tags, vec![CustomTag::new(1, 2), CustomTag::new(0x0010, 0x0020)]);
}

#[test]
fn to_text_is_canonical() {
    let tag = CustomTag::new(0xABCD, 0x0001);
    assert_eq!(tag.to_text(), "0xABCD-0x0001");
    assert_eq!(CustomTag::new(0, 0x10).to_text(), "0x0000-0x0010");
}

#[test]
fn parse_to_text_round_trip() {
    for text in ["0x0010-0x0020", "0xffee-0x1", "10-20", "0xABCD-0xEF01"] {
        let tag = parse_tag(text).unwrap();
        let canonical = tag.to_text();
        assert_eq!(parse_tag(&canonical).unwrap(), tag);
    }
}
