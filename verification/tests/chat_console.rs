use rebornmp::chat::{Chat, MAX_MESSAGES};
use rebornmp::console::Console;

#[test]
fn chat_starts_closed_and_empty() {
    let chat = Chat::new();
    assert!(!chat.is_open());
    assert_eq!(chat.get_current_input(), "");
    assert_eq!(chat.last_message(), None);
}

#[test]
fn chat_add_message_formats_line() {
    let mut chat = Chat::new();
    chat.add_message("12:34:56", "Alice", "hello");
    assert_eq!(chat.last_message(), Some("[12:34:56] Alice: hello".to_string()));
}

#[test]
fn chat_history_keeps_newest_twenty() {
    let mut chat = Chat::new();
    for i in 0..25 {
        chat.add_message("00:00:00", "p", &format!("m{}", i));
    }
    assert_eq!(chat.last_message(), Some("[00:00:00] p: m24".to_string()));
    let mut c2 = Chat::new();
    for i in 0..25 {
        c2.add_message("00:00:00", "p", &format!("m{}", i));
        c2.toggle();
    }
    assert_eq!(c2.last_message(), Some("[00:00:00] p: m24".to_string()));
    assert_eq!(MAX_MESSAGES, 20);
}

#[test]
fn chat_closed_ignores_keys() {
    let mut chat = Chat::new();
    assert!(!chat.handle_input('a'));
    assert!(!chat.handle_input('\r'));
    assert_eq!(chat.get_current_input(), "");
    assert!(!chat.is_open());
}

#[test]
fn chat_typing_and_sending() {
    let mut chat = Chat::new();
    chat.toggle();
    assert!(chat.is_open());
    for c in "hi you".chars() {
        assert!(!chat.handle_input(c));
    }
    assert_eq!(chat.get_current_input(), "hi you");
    assert!(chat.handle_input('\r'));
    assert!(!chat.is_open());
    assert_eq!(chat.get_current_input(), "");
}

#[test]
fn chat_enter_on_empty_line_closes_without_sending() {
    let mut chat = Chat::new();
    chat.toggle();
    assert!(!chat.handle_input('\r'));
    assert!(!chat.is_open());
}

#[test]
fn chat_backspace_undoes_typing() {
    let mut chat = Chat::new();
    chat.toggle();
    chat.handle_input('a');
    chat.handle_input('b');
    chat.handle_input('\x08');
    assert_eq!(chat.get_current_input(), "a");
    chat.handle_input('\x08');
    chat.handle_input('\x08');
    assert_eq!(chat.get_current_input(), "");
    assert!(chat.is_open());
}

#[test]
fn chat_escape_drops_line() {
    let mut chat = Chat::new();
    chat.toggle();
    chat.handle_input('x');
    assert!(!chat.handle_input('\x1B'));
    assert!(!chat.is_open());
    assert_eq!(chat.get_current_input(), "");
}

#[test]
fn chat_rejects_unprintable_and_non_ascii() {
    let mut chat = Chat::new();
    chat.toggle();
    chat.handle_input('\t');
    chat.handle_input('é');
    chat.handle_input('~');
    chat.handle_input(' ');
    assert_eq!(chat.get_current_input(), "~ ");
}

#[test]
fn chat_toggle_twice_clears_line() {
    let mut chat = Chat::new();
    chat.toggle();
    chat.handle_input('q');
    chat.toggle();
    assert!(!chat.is_open());
    assert_eq!(chat.get_current_input(), "q");
    chat.toggle();
    assert!(chat.is_open());
    assert_eq!(chat.get_current_input(), "");
}

#[test]
fn console_starts_with_greeting() {
    let console = Console::new();
    assert!(!console.visible);
    assert_eq!(
        console.messages(),
        vec!["[RebornMP] Console ready. Press F8 to toggle.".to_string()]
    );
}

#[test]
fn console_toggle_and_add() {
    let mut console = Console::new();
    console.toggle();
    assert!(console.visible);
    console.add_message("hello");
    console.render();
    assert_eq!(console.messages().len(), 2);
    assert_eq!(console.messages()[1], "hello");
    console.toggle();
    assert!(!console.visible);
}

#[test]
fn chat_line_only_holds_typeable_characters() {
    let mut chat = Chat::new();
    chat.toggle();
    for c in ['a', '\u{7f}', '\n', 'ж', ' ', '~', '\x00', 'Z'] {
        chat.handle_input(c);
    }
    assert_eq!(chat.get_current_input(), "a ~Z");
    assert!(chat.get_current_input().chars().all(|c| (' '..='~').contains(&c)));
}
