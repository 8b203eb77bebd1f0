use llama_chat::local_llm::LocalLlama;
use llama_chat::message::{Content, Message, Role, Token};

fn end(role: Role, text: &str) -> Message {
    Message { role, token: Token::End(text.to_string()) }
}

fn content(role: Role, text: &str) -> Content {
    Content { role, message: text.to_string() }
}

#[test]
fn scenario_d_fragments_stream_as_one_turn() {
    let mut llm = LocalLlama::new(vec![content(Role::System, "be brief")]);
    let input = LocalLlama::take_input(end(Role::User, "hi")).unwrap();
    let mut seen = vec![llm.begin_turn(input)];
    for fragment in ["he", "llo"] {
        seen.push(llm.next_chunk(fragment.to_string()));
    }
    seen.push(llm.finish_turn("hello".to_string()));
    let assistant = |token| Message { role: Role::Assistant, token };
    assert_eq!(
        seen,
        vec![
            assistant(Token::Start),
            assistant(Token::Chunk("he".to_string())),
            assistant(Token::Chunk("llo".to_string())),
            assistant(Token::End("hello".to_string())),
        ]
    );
    assert_eq!(
        llm.prompts(),
        &vec![
            content(Role::System, "be brief"),
            content(Role::User, "hi"),
            content(Role::Assistant, "hello"),
        ]
    );
    assert!(!llm.is_generating());
}

#[test]
fn turn_without_chunks_is_start_then_end() {
    let mut llm = LocalLlama::new(Vec::new());
    let input = LocalLlama::take_input(end(Role::Tool, "{\"a\":1}")).unwrap();
    assert_eq!(llm.begin_turn(input).token, Token::Start);
    assert!(llm.is_generating());
    assert_eq!(llm.finish_turn("done".to_string()), end(Role::Assistant, "done"));
    assert_eq!(llm.prompts(), &vec![content(Role::Tool, "{\"a\":1}"), content(Role::Assistant, "done")]);
}

#[test]
fn adapter_ignores_its_own_output() {
    assert_eq!(LocalLlama::filter(&end(Role::Assistant, "x")), None);
    assert_eq!(LocalLlama::filter(&Message { role: Role::User, token: Token::Start }), None);
    assert_eq!(LocalLlama::filter(&end(Role::System, "x")), None);
    assert_eq!(LocalLlama::filter(&end(Role::User, "x")), Some(end(Role::User, "x")));
    assert_eq!(LocalLlama::filter(&end(Role::Tool, "x")), Some(end(Role::Tool, "x")));
    assert_eq!(LocalLlama::take_input(end(Role::Assistant, "x")), None);
    assert_eq!(
        LocalLlama::take_input(Message { role: Role::Tool, token: Token::Chunk("x".into()) }),
        None
    );
}
