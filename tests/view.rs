use llama_chat::config::RunOptions;
use llama_chat::message::{Content, Message, Role, Token};
use llama_chat::presentation::{filter, ChatAction, ChatComponent, Input, Key, MessagesComponent, UiEvent};

fn content(role: Role, text: &str) -> Content {
    Content { role, message: text.to_string() }
}

fn assistant(token: Token) -> Input {
    Input::Message(Message { role: Role::Assistant, token })
}

#[test]
fn streamed_turn_builds_one_transcript_entry() {
    let mut view = MessagesComponent::new(vec![content(Role::User, "hi")]);
    view.handler_input(assistant(Token::Start));
    assert!(view.is_waiting());
    view.handler_input(assistant(Token::Chunk("he".into())));
    view.handler_input(assistant(Token::Chunk("llo".into())));
    assert_eq!(view.contents(), &vec![content(Role::User, "hi"), content(Role::Assistant, "hello")]);
    view.handler_input(assistant(Token::End("hello!".into())));
    assert!(!view.is_waiting());
    assert_eq!(view.contents(), &vec![content(Role::User, "hi"), content(Role::Assistant, "hello!")]);
    view.handler_input(Input::Message(Message { role: Role::Tool, token: Token::End("2".into()) }));
    assert_eq!(view.contents().last(), Some(&content(Role::Tool, "2")));
}

#[test]
fn chunk_without_turn_is_ignored() {
    let mut view = MessagesComponent::new(Vec::new());
    view.handler_input(assistant(Token::Chunk("x".into())));
    view.handler_input(assistant(Token::End("x".into())));
    assert!(view.contents().is_empty());
}

#[test]
fn wheel_moves_the_cursor() {
    let mut view = MessagesComponent::new(Vec::new());
    view.handler_input(Input::Event(UiEvent::ScrollDown { sideways: false }));
    view.handler_input(Input::Event(UiEvent::ScrollDown { sideways: false }));
    view.handler_input(Input::Event(UiEvent::ScrollDown { sideways: true }));
    assert_eq!(view.cursor(), (2, 1));
    view.handler_input(Input::Event(UiEvent::ScrollUp { sideways: true }));
    view.handler_input(Input::Event(UiEvent::ScrollUp { sideways: true }));
    assert_eq!(view.cursor(), (2, 0));
    view.handler_input(Input::Event(UiEvent::ScrollUp { sideways: false }));
    assert_eq!(view.cursor(), (1, 0));
}

#[test]
fn scroll_follows_the_bottom_until_scrolled_up() {
    let mut view = MessagesComponent::new(Vec::new());
    view.fit_scroll(50, 13);
    assert_eq!(view.cursor(), (40, 0));
    view.handler_input(Input::Event(UiEvent::ScrollUp { sideways: false }));
    view.fit_scroll(60, 13);
    assert_eq!(view.cursor(), (39, 0));
    for _ in 0..11 {
        view.handler_input(Input::Event(UiEvent::ScrollDown { sideways: false }));
    }
    view.fit_scroll(60, 13);
    assert_eq!(view.cursor(), (50, 0));
    view.fit_scroll(5, 13);
    assert_eq!(view.cursor(), (0, 0));
    view.fit_scroll(4, 1);
    assert_eq!(view.cursor(), (4, 0));
}

#[test]
fn escape_twice_closes_the_chat() {
    let mut chat = ChatComponent::new(Vec::new());
    assert_eq!(chat.handler_input(Input::Event(UiEvent::Key(Key::Escape))), ChatAction::Continue);
    assert_eq!(chat.handler_input(Input::Event(UiEvent::Key(Key::Other))), ChatAction::Edit);
    assert_eq!(chat.handler_input(Input::Event(UiEvent::Key(Key::Escape))), ChatAction::Continue);
    assert_eq!(chat.handler_input(Input::Event(UiEvent::Key(Key::Escape))), ChatAction::Exit);
}

#[test]
fn submit_waits_for_the_turn_to_end() {
    let mut chat = ChatComponent::new(Vec::new());
    assert_eq!(chat.handler_input(Input::Event(UiEvent::Key(Key::Refresh))), ChatAction::ClearScreen);
    assert_eq!(chat.handler_input(Input::Event(UiEvent::Key(Key::Submit))), ChatAction::Submit);
    let sent = chat.submit_message("hi".to_string());
    assert_eq!(sent, Message { role: Role::User, token: Token::End("hi".into()) });
    assert_eq!(chat.handler_input(assistant(Token::Start)), ChatAction::Continue);
    assert_eq!(chat.handler_input(Input::Event(UiEvent::Key(Key::Submit))), ChatAction::Continue);
    chat.handler_input(assistant(Token::End("hello".into())));
    assert_eq!(chat.handler_input(Input::Event(UiEvent::Key(Key::Submit))), ChatAction::Submit);
    assert_eq!(
        chat.messages().contents(),
        &vec![content(Role::User, "hi"), content(Role::Assistant, "hello")]
    );
}

#[test]
fn presentation_drops_user_messages() {
    let typed = Message { role: Role::User, token: Token::End("x".into()) };
    assert_eq!(filter(&typed), None);
    let system = Message { role: Role::System, token: Token::End("x".into()) };
    assert_eq!(filter(&system), Some(system.clone()));
}

#[test]
fn run_options_fill_only_missing_values() {
    let mut o = RunOptions { ctx_size: 0, n_batch: 64, n_gpu_layers: 0 };
    o.fill_default_value();
    assert_eq!(o, RunOptions { ctx_size: 1024, n_batch: 64, n_gpu_layers: 100 });
    let mut d = RunOptions::default();
    d.fill_default_value();
    assert_eq!(d, RunOptions { ctx_size: 1024, n_batch: 512, n_gpu_layers: 100 });
}
