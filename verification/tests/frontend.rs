use zenocode::ui::centered_rect;
use zenocode::ui::App;
use zenocode::ui::KeyInput;
use zenocode::ui::Rect;
use zenocode::ui::Tab;

#[test]
fn tab_titles() {
    assert_eq!(Tab::Chat.title(), "Chat");
    assert_eq!(Tab::Files.title(), "Files");
    assert_eq!(Tab::Tasks.title(), "Tasks");
    assert_eq!(Tab::Settings.title(), "Settings");
}

#[test]
fn new_app_defaults() {
    let app = App::new();
    assert_eq!(app.active_tab, 0);
    assert_eq!(app.editor_text, "// Start typing…");
    assert_eq!(
        app.console_lines,
        vec!["boot: ok".to_string(), "lsp: connected".to_string()]
    );
    assert_eq!(app.model_name, "gpt‑4.1‑mini");
    assert_eq!(app.branch, "feat/lsp-wire");
    assert_eq!(app.latency_ms, 42);
    assert!(app.show_help);
}

#[test]
fn tab_navigation_wraps() {
    let mut app = App::new();
    app.next_tab();
    assert_eq!(app.active_tab, 1);
    app.next_tab();
    app.next_tab();
    app.next_tab();
    assert_eq!(app.active_tab, 0);
    app.prev_tab();
    assert_eq!(app.active_tab, 3);
    assert_eq!(app.current_tab(), Tab::Settings);
}

#[test]
fn key_handling() {
    let mut app = App::new();
    assert!(app.handle_key(KeyInput::Esc));
    assert!(app.handle_key(KeyInput::Char('c', true)));
    assert!(!app.handle_key(KeyInput::TabKey));
    assert_eq!(app.active_tab, 1);
    assert!(!app.handle_key(KeyInput::BackTabKey));
    assert_eq!(app.active_tab, 0);
    assert!(!app.handle_key(KeyInput::Char('h', true)));
    assert!(!app.show_help);
    assert!(!app.handle_key(KeyInput::Char('j', true)));
    assert_eq!(app.console_lines.last().unwrap(), "job queued");
    assert!(!app.handle_key(KeyInput::Char('l', true)));
    assert!(app.console_lines.is_empty());
    assert!(!app.handle_key(KeyInput::Char('c', false)));
    assert!(!app.handle_key(KeyInput::Other));
}

#[test]
fn latency_ticker_formula() {
    let mut app = App::new();
    app.tick(0);
    assert_eq!(app.latency_ms, 30);
    app.tick(251);
    assert_eq!(app.latency_ms, 31);
    app.tick(250 * 40);
    assert_eq!(app.latency_ms, 30);
    app.tick(250 * 39 + 10);
    assert_eq!(app.latency_ms, 69);
}

#[test]
fn header_texts() {
    let mut app = App::new();
    assert_eq!(app.header_left_text(), " Zenocode ▸ Chat ");
    app.next_tab();
    assert_eq!(app.header_left_text(), " Zenocode ▸ Files ");
    assert_eq!(
        app.header_right_text(),
        " model:gpt‑4.1‑mini  branch:feat/lsp-wire  latency:42ms "
    );
}

#[test]
fn main_pane_text_follows_the_active_tab() {
    let mut app = App::new();
    assert_eq!(app.main_text(), "Assistant: How can I help?\n> You: ");
    app.next_tab();
    assert_eq!(app.main_text(), "// Start typing…");
    app.next_tab();
    assert_eq!(
        app.main_text(),
        "- [ ] Index repo\n- [ ] Generate types\n- [ ] Run tests"
    );
}

#[test]
fn console_shows_newest_lines_first() {
    let mut app = App::new();
    app.console_lines = vec![
        "one".to_string(),
        "two".to_string(),
        "three".to_string(),
    ];
    assert_eq!(
        app.visible_console_lines(2),
        vec!["three".to_string(), "two".to_string()]
    );
    assert_eq!(
        app.visible_console_lines(10),
        vec!["three".to_string(), "two".to_string(), "one".to_string()]
    );
    let none: Vec<String> = Vec::new();
    assert_eq!(app.visible_console_lines(0), none);
}

#[test]
fn centered_rect_is_centered_and_contained() {
    let outer = Rect { x: 0, y: 0, width: 100, height: 50 };
    let c = centered_rect(60, 40, outer);
    assert_eq!(c, Rect { x: 20, y: 15, width: 60, height: 20 });
    let outer2 = Rect { x: 10, y: 5, width: 7, height: 3 };
    let c2 = centered_rect(100, 100, outer2);
    assert_eq!(c2, outer2);
    let c3 = centered_rect(0, 0, outer2);
    assert_eq!(c3.width, 0);
    assert_eq!(c3.height, 0);
    assert!(c3.x >= outer2.x && c3.y >= outer2.y);
}
