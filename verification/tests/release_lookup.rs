use llama_rgui::version::{choose_release, choose_tag, latest_step, release_from_json, tag_from_json, LatestStep};

#[test]
fn latest_release_reply_with_tag() {
    let text = r#"{"tag_name":"b4500","html_url":"https://github.com/ggml-org/llama.cpp/releases/tag/b4500","published_at":"2025-01-02T03:04:05Z","draft":false}"#;
    let r = release_from_json(text).unwrap().unwrap();
    assert_eq!(r.0, "b4500");
    assert_eq!(r.1, "https://github.com/ggml-org/llama.cpp/releases/tag/b4500");
    assert_eq!(r.2, Some("2025-01-02T03:04:05Z".to_string()));
}

#[test]
fn latest_release_reply_without_page_or_time() {
    let r = release_from_json(r#"{"tag_name":"b7","published_at":null}"#).unwrap().unwrap();
    assert_eq!(r, ("b7".to_string(), String::new(), None));
}

#[test]
fn latest_release_reply_without_tag_falls_back() {
    assert_eq!(release_from_json(r#"{"message":"Not Found"}"#), Ok(None));
    assert_eq!(release_from_json(r#"{"tag_name":""}"#), Ok(None));
    assert_eq!(release_from_json(r#"{"tag_name":42}"#), Ok(None));
    assert_eq!(release_from_json("[1, 2]"), Ok(None));
}

#[test]
fn latest_release_reply_not_json() {
    let r = release_from_json("<html>rate limited</html>");
    assert!(r.is_err());
    assert!(!r.unwrap_err().is_empty());
}

#[test]
fn tag_list_reply() {
    let r = tag_from_json(r#"[{"name":"b4501","commit":{"sha":"abc"}},{"name":"b4499"}]"#).unwrap();
    assert_eq!(r.0, "b4501");
    assert_eq!(r.1, "https://github.com/ggml-org/llama.cpp/releases/tag/b4501");
    assert_eq!(r.2, None);
}

#[test]
fn tag_list_reply_empty_or_broken() {
    assert_eq!(tag_from_json("[]"), Err("未找到任何版本标签".to_string()));
    assert_eq!(tag_from_json(r#"{"name":"b1"}"#), Err("未找到任何版本标签".to_string()));
    let broken = tag_from_json("[{");
    assert!(broken.is_err());
    assert_ne!(broken.unwrap_err(), "未找到任何版本标签");
}

#[test]
fn release_choice_order_of_errors() {
    let r = choose_release(Ok(Some("b1".into())), Err("bad".into()), Ok(None));
    assert_eq!(r, Err("bad".to_string()));
    let r = choose_release(Err("first".into()), Err("second".into()), Err("third".into()));
    assert_eq!(r, Err("first".to_string()));
    let r = choose_release(Ok(Some("b9".into())), Ok(None), Ok(Some("t".into())));
    assert_eq!(r, Ok(Some(("b9".to_string(), String::new(), Some("t".to_string())))));
    assert_eq!(choose_release(Ok(None), Ok(Some("u".into())), Ok(None)), Ok(None));
}

#[test]
fn tag_choice() {
    assert_eq!(choose_tag(Err("e".into())), Err("e".to_string()));
    assert_eq!(choose_tag(Ok(None)), Err("未找到任何版本标签".to_string()));
    let r = choose_tag(Ok(Some("b3".into()))).unwrap();
    assert_eq!(r.1, "https://github.com/ggml-org/llama.cpp/releases/tag/b3");
}

#[test]
fn latest_step_choices() {
    assert!(matches!(latest_step(None), LatestStep::AskTags));
    assert!(matches!(latest_step(Some(r#"{"message":"Not Found"}"#)), LatestStep::AskTags));
    match latest_step(Some(r#"{"tag_name":"b6000","html_url":"https://h","published_at":"2025"}"#)) {
        LatestStep::Found((t, u, p)) => {
            assert_eq!(t, "b6000");
            assert_eq!(u, "https://h");
            assert_eq!(p, Some("2025".to_string()));
        }
        _ => panic!("expected a release"),
    }
    match latest_step(Some("not json")) {
        LatestStep::Failed(m) => assert!(!m.is_empty()),
        _ => panic!("expected a parse failure"),
    }
}
