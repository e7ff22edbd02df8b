use notifier::{SourceRepository, SourceType, Timestamp};

#[test]
fn from_str_accepts_the_two_known_tags() {
    assert!(matches!(SourceType::from_str("rss"), Ok(SourceType::RSS)));
    assert!(matches!(SourceType::from_str("html"), Ok(SourceType::HTML)));
}

#[test]
fn from_str_rejects_unknown_tags() {
    assert_eq!(SourceType::from_str("xml"), Err("no match"));
    assert_eq!(SourceType::from_str(""), Err("no match"));
    assert_eq!(SourceType::from_str("RSS"), Err("no match"));
}

#[test]
fn unknown_tag_at_add_time_leaves_registry_unchanged() {
    let mut repo = SourceRepository::new();
    let typ = SourceType::from_str("xml");
    if let Ok(typ) = typ {
        let s = notifier::Source::new(
            "bad".to_owned(),
            "https://example.org".to_owned(),
            "https://example.org/feed".to_owned(),
            typ,
            "%F %T".to_owned(),
            0,
        );
        repo.save(&s);
    }
    assert_eq!(repo.list().len(), 0);
}

#[test]
fn tags_round_trip_through_to_string() {
    assert_eq!(SourceType::RSS.to_string(), "rss");
    assert_eq!(SourceType::HTML.to_string(), "html");
    assert!(matches!(
        SourceType::from_str(&SourceType::RSS.to_string()),
        Ok(SourceType::RSS)
    ));
    assert!(matches!(
        SourceType::from_str(&SourceType::HTML.to_string()),
        Ok(SourceType::HTML)
    ));
}

#[test]
fn from_converts_known_tags() {
    assert!(matches!(SourceType::from("rss"), SourceType::RSS));
    assert!(matches!(SourceType::from("html"), SourceType::HTML));
}

#[test]
fn from_folds_letter_case() {
    assert!(matches!(SourceType::from("RSS"), SourceType::RSS));
    assert!(matches!(SourceType::from("Html"), SourceType::HTML));
}

#[test]
fn from_folded_accepts_tags_up_to_case_and_rejects_the_rest() {
    assert!(matches!(SourceType::from_folded("rss"), Some(SourceType::RSS)));
    assert!(matches!(SourceType::from_folded("RSS"), Some(SourceType::RSS)));
    assert!(matches!(SourceType::from_folded("Html"), Some(SourceType::HTML)));
    assert!(SourceType::from_folded("xml").is_none());
    assert!(SourceType::from_folded("").is_none());
}

#[test]
fn timestamp_comparison_is_strict() {
    let early = Timestamp::new(100);
    let late = Timestamp::new(200);
    assert!(early.lt(&late));
    assert!(!late.lt(&early));
    assert!(!early.lt(&early));
}
