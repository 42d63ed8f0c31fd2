use blog_api::chat::apply_chat_event;
use blog_api::chat::chat_query;
use blog_api::chat::chat_simple_response;
use blog_api::chat::extract_data_payload;
use blog_api::chat::split_stream_chunk;
use blog_api::chat::ChatAccum;
use blog_api::chat::ChatEvent;

#[test]
fn the_query_is_trimmed_and_required() {
    assert_eq!(chat_query(Some("  hi there ".to_string())), Some("hi there".to_string()));
    assert_eq!(chat_query(Some("   ".to_string())), None);
    assert_eq!(chat_query(None), None);
}

#[test]
fn chunks_are_cut_at_newlines_with_a_carried_tail() {
    let (buf, lines) = split_stream_chunk("data: a\nda".to_string(), "ta: b\npartial");
    assert_eq!(lines, vec!["data: a".to_string(), "data: b".to_string()]);
    assert_eq!(buf, "partial");

    let (buf, lines) = split_stream_chunk(String::new(), "no newline");
    assert!(lines.is_empty());
    assert_eq!(buf, "no newline");

    let (buf, lines) = split_stream_chunk("x".to_string(), "\n");
    assert_eq!(lines, vec!["x".to_string()]);
    assert_eq!(buf, "");
}

#[test]
fn data_lines_yield_their_payload() {
    assert_eq!(extract_data_payload("data: {\"a\":1} "), Some("{\"a\":1}".to_string()));
    assert_eq!(extract_data_payload("data: "), None);
    assert_eq!(extract_data_payload("data:  [DONE] "), None);
    assert_eq!(extract_data_payload("event: x"), None);
    assert_eq!(extract_data_payload(""), None);
}

#[test]
fn events_fold_into_the_answer() {
    let mut accum = ChatAccum::new();
    apply_chat_event(&mut accum, ChatEvent::Sources { count: 3 });
    apply_chat_event(&mut accum, ChatEvent::Content { text: "Hello".to_string() });
    apply_chat_event(&mut accum, ChatEvent::Other);
    apply_chat_event(&mut accum, ChatEvent::Content { text: ", world".to_string() });
    apply_chat_event(&mut accum, ChatEvent::Done);
    assert_eq!(accum.response, "Hello, world");
    assert_eq!(accum.source_count, 3);
    assert!(accum.done);

    let resp = chat_simple_response(accum);
    assert_eq!(resp.response, "Hello, world");
    assert!(resp.has_context);
    assert_eq!(resp.source_count, 3);
}

#[test]
fn no_sources_means_no_context() {
    let resp = chat_simple_response(ChatAccum::new());
    assert!(!resp.has_context);
    assert_eq!(resp.source_count, 0);
    assert_eq!(resp.response, "");
}
