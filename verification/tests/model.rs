use sandman::domain::message::{AssistantBody, Message, NonEmpty, Reply, ToolCall};
use sandman::domain::time::Cost;
use sandman::model::{reply_from, usage_from, WireMessage};

fn call(id: &str) -> ToolCall {
    ToolCall { id: id.to_string(), name: "web_search".to_string(), arguments: "{\"query\":\"x\"}".to_string() }
}

#[test]
fn the_wire_carries_no_reasoning() {
    let m = Message::Assistant { body: AssistantBody::Text("hi".to_string()), reasoning: Some("secret".to_string()) };
    let w = WireMessage::from(&m);
    assert_eq!(w.role, "assistant");
    assert_eq!(w.content, Some("hi".to_string()));
    assert!(w.tool_calls.is_none());
    assert!(w.tool_call_id.is_none());
}

#[test]
fn tool_calls_and_answers_keep_their_ids() {
    let calls = NonEmpty::new(call("a"), vec![call("b")]);
    let m = Message::Assistant { body: AssistantBody::Calls { preamble: None, calls }, reasoning: None };
    let w = WireMessage::from(&m);
    let ids: Vec<String> = w.tool_calls.unwrap().iter().map(|c| c.id.clone()).collect();
    assert_eq!(ids, vec!["a".to_string(), "b".to_string()]);
    assert_eq!(w.content, None);
    let answer = WireMessage::from(&Message::Tool { tool_call_id: "a".to_string(), content: "done".to_string() });
    assert_eq!(answer.role, "tool");
    assert_eq!(answer.tool_call_id, Some("a".to_string()));
    assert_eq!(WireMessage::from(&Message::System { content: "s".to_string() }).role, "system");
    assert_eq!(WireMessage::from(&Message::User { content: "u".to_string() }).role, "user");
}

#[test]
fn an_answer_with_calls_is_calls_and_otherwise_text() {
    match reply_from(Some("thinking".to_string()), Some(vec![call("a")])) {
        Reply::Calls { preamble, calls } => {
            assert_eq!(preamble, Some("thinking".to_string()));
            assert_eq!(calls.len(), 1);
            assert_eq!(calls.first().id, "a");
        },
        other => panic!("expected calls, got {other:?}"),
    }
    assert_eq!(reply_from(Some("hello".to_string()), Some(Vec::new())), Reply::Text("hello".to_string()));
    assert_eq!(reply_from(None, None), Reply::Text(String::new()));
}

#[test]
fn cached_tokens_are_not_counted_as_work() {
    let u = usage_from(1_000, 50, 800, 1_234);
    assert_eq!(u.cached, 800);
    assert_eq!(u.prefill, 200);
    assert_eq!(u.produced, 50);
    assert_eq!(u.cost, Cost(1_234));
    assert_eq!(usage_from(10, 0, 20, 0).prefill, 0);
}
