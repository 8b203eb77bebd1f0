use llama_chat::debug_tool::{console_line, echo_reply};
use llama_chat::message::{Message, Role, Token};

#[test]
fn echo_repeats_user_turns() {
    let input = Message { role: Role::User, token: Token::End("hello".into()) };
    assert_eq!(
        echo_reply(input),
        vec![
            Message { role: Role::Assistant, token: Token::Start },
            Message { role: Role::Assistant, token: Token::End("hello".into()) },
        ]
    );
    assert!(echo_reply(Message { role: Role::Tool, token: Token::End("x".into()) }).is_empty());
    assert!(echo_reply(Message { role: Role::User, token: Token::Chunk("x".into()) }).is_empty());
}

#[test]
fn console_exit_ends_the_session() {
    assert_eq!(console_line("exit!\n".to_string()), None);
    assert_eq!(console_line("exit!now".to_string()), None);
    assert_eq!(
        console_line("exit\n".to_string()),
        Some(Message { role: Role::User, token: Token::End("exit\n".into()) })
    );
    assert_eq!(
        console_line(String::new()),
        Some(Message { role: Role::User, token: Token::End(String::new()) })
    );
}

