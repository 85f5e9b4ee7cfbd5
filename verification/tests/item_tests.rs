use hncat::item::{classify, FetchError, Item, ItemVariant, RawItem};

fn empty_raw() -> RawItem {
    RawItem {
        id: None,
        deleted: None,
        time: None,
        type_: None,
        by: None,
        dead: false,
        descendants: None,
        kids: Vec::new(),
        score: None,
        title: None,
        url: None,
        text: None,
        parent: None,
        parts: Vec::new(),
        poll: None,
    }
}

fn raw_from_json(v: &serde_json::Value) -> RawItem {
    let ints = |k: &str| v.get(k).and_then(|x| x.as_i64());
    let strs = |k: &str| v.get(k).and_then(|x| x.as_str()).map(|s| s.to_string());
    let list = |k: &str| -> Vec<u32> {
        v.get(k)
            .and_then(|x| x.as_array())
            .map(|a| a.iter().filter_map(|x| x.as_u64()).map(|x| x as u32).collect())
            .unwrap_or_default()
    };
    RawItem {
        id: ints("id").map(|x| x as u32),
        deleted: v.get("deleted").and_then(|x| x.as_bool()),
        time: ints("time"),
        type_: strs("type"),
        by: strs("by"),
        dead: v.get("dead").and_then(|x| x.as_bool()).unwrap_or(false),
        descendants: ints("descendants").map(|x| x as i32),
        kids: list("kids"),
        score: ints("score").map(|x| x as i32),
        title: strs("title"),
        url: strs("url"),
        text: strs("text"),
        parent: ints("parent").map(|x| x as u32),
        parts: list("parts"),
        poll: ints("poll").map(|x| x as u32),
    }
}

#[test]
fn test_simple_parse() {
    let json = r#"
    {
      "by": "gzer0",
      "dead": false,
      "id": 27164354,
      "time": 1620568471,
      "type": "comment",
      "kids": [],
      "parent": 27164095,
      "text": "A message goes here"
    }
    "#;
    let value: serde_json::Value = serde_json::from_str(json).unwrap();
    let raw = raw_from_json(&value);
    assert!(matches!(classify(raw), Ok(Item::LiveItem { .. })));
}

#[test]
fn classify_tombstone_wins_over_live() {
    let raw = RawItem {
        id: Some(7),
        deleted: Some(true),
        time: Some(1000),
        type_: Some("comment".to_string()),
        by: Some("someone".to_string()),
        parent: Some(3),
        text: Some("gone".to_string()),
        ..empty_raw()
    };
    match classify(raw) {
        Ok(Item::DeletedItem { id, deleted, time, type_ }) => {
            assert_eq!(id, 7);
            assert!(deleted);
            assert_eq!(time, 1000);
            assert_eq!(type_, "comment");
        },
        other => panic!("expected a tombstone, got {:?}", other),
    }
}

#[test]
fn classify_story_defaults() {
    let raw = RawItem {
        id: Some(11),
        time: Some(500),
        type_: Some("story".to_string()),
        by: Some("author".to_string()),
        score: Some(42),
        title: Some("a title".to_string()),
        ..empty_raw()
    };
    match classify(raw) {
        Ok(Item::LiveItem { by, dead, id, time, variant }) => {
            assert_eq!(by, "author");
            assert!(!dead);
            assert_eq!(id, 11);
            assert_eq!(time, 500);
            match variant {
                ItemVariant::Story { descendants, kids, score, title, url, text } => {
                    assert_eq!(descendants, 0);
                    assert!(kids.is_empty());
                    assert_eq!(score, 42);
                    assert_eq!(title, "a title");
                    assert!(url.is_none());
                    assert!(text.is_none());
                },
                other => panic!("expected a story, got {:?}", other),
            }
        },
        other => panic!("expected a live record, got {:?}", other),
    }
}

#[test]
fn classify_poll_and_pollopt() {
    let poll = RawItem {
        id: Some(20),
        time: Some(600),
        type_: Some("poll".to_string()),
        by: Some("asker".to_string()),
        descendants: Some(3),
        score: Some(10),
        title: Some("which?".to_string()),
        parts: vec![21, 22],
        ..empty_raw()
    };
    assert!(matches!(
        classify(poll),
        Ok(Item::LiveItem { variant: ItemVariant::Poll { .. }, .. })
    ));
    let opt = RawItem {
        id: Some(21),
        time: Some(601),
        type_: Some("pollopt".to_string()),
        by: Some("asker".to_string()),
        poll: Some(20),
        score: Some(4),
        text: Some("this one".to_string()),
        ..empty_raw()
    };
    assert!(matches!(
        classify(opt),
        Ok(Item::LiveItem { variant: ItemVariant::PollOpt { .. }, .. })
    ));
}

#[test]
fn classify_job_needs_title_and_score() {
    let job = RawItem {
        id: Some(30),
        time: Some(700),
        type_: Some("job".to_string()),
        by: Some("recruiter".to_string()),
        score: Some(1),
        title: Some("hiring".to_string()),
        ..empty_raw()
    };
    assert!(matches!(
        classify(job),
        Ok(Item::LiveItem { variant: ItemVariant::Job { .. }, .. })
    ));
    let broken = RawItem {
        id: Some(30),
        time: Some(700),
        type_: Some("job".to_string()),
        by: Some("recruiter".to_string()),
        score: Some(1),
        ..empty_raw()
    };
    assert!(matches!(classify(broken), Err(FetchError::SchemaMismatch)));
}

#[test]
fn classify_rejects_unknown_shape() {
    let unknown_type = RawItem {
        id: Some(40),
        time: Some(800),
        type_: Some("widget".to_string()),
        by: Some("who".to_string()),
        ..empty_raw()
    };
    assert!(matches!(classify(unknown_type), Err(FetchError::SchemaMismatch)));
    let no_author = RawItem {
        id: Some(41),
        time: Some(801),
        type_: Some("comment".to_string()),
        parent: Some(1),
        text: Some("hello".to_string()),
        ..empty_raw()
    };
    assert!(matches!(classify(no_author), Err(FetchError::SchemaMismatch)));
    assert!(matches!(classify(empty_raw()), Err(FetchError::SchemaMismatch)));
}

#[test]
fn time_is_shared_by_both_shapes() {
    let tomb = Item::DeletedItem {
        id: 1,
        deleted: true,
        time: 77,
        type_: "story".to_string(),
    };
    assert_eq!(tomb.time(), 77);
    let live = Item::LiveItem {
        by: "a".to_string(),
        dead: false,
        id: 2,
        time: 88,
        variant: ItemVariant::Comment { kids: vec![], parent: 1, text: "t".to_string() },
    };
    assert_eq!(live.time(), 88);
}
