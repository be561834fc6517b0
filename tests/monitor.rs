use clipbox::{
    classify, ClipboardItem, ClipboardSample, ClipboardState, Classification, ItemKind,
    PortError, CAPACITY,
};

fn text(s: &str) -> Result<ClipboardSample, PortError> {
    Ok(ClipboardSample::Text(s.to_string()))
}

fn contents(state: &ClipboardState) -> Vec<String> {
    state.get_history().into_iter().map(|i| i.content).collect()
}

#[test]
fn repeated_then_new_read_records_two_entries() {
    let mut st = ClipboardState::new();
    let mut notices = Vec::new();
    for (k, r) in ["hello", "hello", "world"].iter().enumerate() {
        if let Some(c) = st.record_read(text(r), format!("{}", k), k as u64) {
            notices.push(c);
        }
    }
    assert_eq!(contents(&st), vec!["world".to_string(), "hello".to_string()]);
    assert_eq!(notices, vec!["hello".to_string(), "world".to_string()]);
    let h = st.get_history();
    assert_eq!(h[0].id, "2");
    assert_eq!(h[1].id, "0");
    assert_eq!(h[0].item_type, ItemKind::Text);
    assert_eq!(h[0].timestamp, 2);
    assert!(h[0].image_path.is_none());
}

#[test]
fn noise_then_hello_records_only_hello() {
    let mut st = ClipboardState::new();
    let n = st.record_read(text("execution error: Can't make data into type"), "1".into(), 1);
    assert!(n.is_none());
    let n = st.record_read(text("hello"), "2".into(), 2);
    assert_eq!(n, Some("hello".to_string()));
    assert_eq!(contents(&st), vec!["hello".to_string()]);
}

#[test]
fn osascript_output_noise_is_ignored() {
    let mut st = ClipboardState::new();
    let n = st.record_read(text("osascript 输出: Ok(Output { status: 0 })"), "1".into(), 1);
    assert!(n.is_none());
    assert!(st.get_history().is_empty());
    assert_eq!(st.last_content, "");
}

#[test]
fn pushing_101_distinct_entries_keeps_100() {
    let mut st = ClipboardState::new();
    for k in 0..101u64 {
        let n = st.record_read(text(&format!("entry {}", k)), format!("{}", k), k);
        assert!(n.is_some());
    }
    let c = contents(&st);
    assert_eq!(c.len(), 100);
    assert_eq!(CAPACITY, 100);
    assert!(!c.contains(&"entry 0".to_string()));
    assert_eq!(c[0], "entry 100");
    assert_eq!(c[99], "entry 1");
}

#[test]
fn identical_reads_announce_once() {
    let mut st = ClipboardState::new();
    assert!(st.record_read(text("a"), "1".into(), 1).is_some());
    for k in 2..10u64 {
        assert!(st.record_read(text("a"), format!("{}", k), k).is_none());
    }
    assert_eq!(contents(&st), vec!["a".to_string()]);
}

#[test]
fn failed_and_empty_reads_change_nothing() {
    let mut st = ClipboardState::new();
    st.record_read(text("x"), "1".into(), 1);
    let e = st.record_read(Err(PortError::ExecutionFailed("boom".into())), "2".into(), 2);
    assert!(e.is_none());
    let e = st.record_read(Ok(ClipboardSample::Empty), "3".into(), 3);
    assert!(e.is_none());
    assert_eq!(contents(&st), vec!["x".to_string()]);
    assert_eq!(st.last_content, "x");
}

#[test]
fn data_uri_text_is_recorded_as_image() {
    let mut st = ClipboardState::new();
    let uri = "data:image/png;base64,aGVsbG8=";
    assert_eq!(st.record_read(text(uri), "1".into(), 1), Some(uri.to_string()));
    let h = st.get_history();
    assert_eq!(h[0].item_type, ItemKind::Image);
    assert!(st.record_read(text(uri), "2".into(), 2).is_none());
}

#[test]
fn image_sample_is_recorded_as_image() {
    let mut st = ClipboardState::new();
    let uri = "data:image/png;base64,AAAA".to_string();
    let n = st.record_read(Ok(ClipboardSample::Image(uri.clone())), "1".into(), 1);
    assert_eq!(n, Some(uri));
    assert_eq!(st.get_history()[0].item_type, ItemKind::Image);
}

#[test]
fn classify_outcomes() {
    let last = "seen".to_string();
    let t = |s: &str| ClipboardSample::Text(s.to_string());
    assert_eq!(classify(&ClipboardSample::Empty, &last), Classification::Ignore);
    assert_eq!(classify(&t("seen"), &last), Classification::Ignore);
    assert_eq!(classify(&t("new"), &last), Classification::NovelText);
    assert_eq!(classify(&t("log: execution error"), &last), Classification::Ignore);
    assert_eq!(classify(&t("data:image/gif;base64,R0lG"), &last), Classification::PassThrough);
    assert_eq!(classify(&t("data:image/png,raw"), &last), Classification::NovelText);
    assert_eq!(
        classify(&ClipboardSample::Image("data:image/png;base64,AA==".into()), &last),
        Classification::NovelImage
    );
    assert_eq!(classify(&ClipboardSample::Image("seen".into()), &last), Classification::Ignore);
}

#[test]
fn replace_then_get_returns_same_order() {
    let mut st = ClipboardState::new();
    st.record_read(text("old"), "0".into(), 0);
    let items: Vec<ClipboardItem> = (0..3)
        .map(|k| ClipboardItem {
            id: format!("id{}", k),
            content: format!("c{}", k),
            timestamp: k,
            item_type: if k == 1 { ItemKind::Image } else { ItemKind::Text },
            image_path: if k == 2 { Some("/tmp/x.png".into()) } else { None },
        })
        .collect();
    st.replace_history(items);
    let h = st.get_history();
    assert_eq!(h.len(), 3);
    for (k, it) in h.iter().enumerate() {
        assert_eq!(it.id, format!("id{}", k));
        assert_eq!(it.content, format!("c{}", k));
        assert_eq!(it.timestamp, k as u64);
    }
    assert_eq!(h[1].item_type, ItemKind::Image);
    assert_eq!(h[2].image_path.as_deref(), Some("/tmp/x.png"));
    assert_eq!(st.last_content, "old");
}

#[test]
fn replace_with_empty_history() {
    let mut st = ClipboardState::new();
    st.record_read(text("a"), "0".into(), 0);
    st.replace_history(Vec::new());
    assert!(st.get_history().is_empty());
}

#[test]
fn new_state_is_empty() {
    let st = ClipboardState::new();
    assert!(st.get_history().is_empty());
    assert_eq!(st.last_content, "");
}

#[test]
fn has_id_finds_recorded_ids() {
    let mut st = ClipboardState::new();
    assert!(!st.has_id(&"7".to_string()));
    st.record_read(text("a"), "7".into(), 1);
    st.record_read(text("b"), "8".into(), 2);
    assert!(st.has_id(&"7".to_string()));
    assert!(st.has_id(&"8".to_string()));
    assert!(!st.has_id(&"9".to_string()));
}
