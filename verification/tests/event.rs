use airev::event::{
    event_for, AppEvent, KeyCode, KeyInput, KeyKind, MouseInput, MouseKind, Ready, TerminalEvent,
};

fn key(code: KeyCode, kind: KeyKind) -> KeyInput {
    KeyInput { code, control: false, kind }
}

#[test]
fn timers_give_their_events() {
    assert!(matches!(event_for(Ready::LogicTimer), Some(AppEvent::Tick)));
    assert!(matches!(event_for(Ready::RenderTimer), Some(AppEvent::Render)));
}

#[test]
fn only_key_presses_pass() {
    let press = key(KeyCode::Char('j'), KeyKind::Press);
    match event_for(Ready::Terminal(Some(TerminalEvent::Key(press)))) {
        Some(AppEvent::Key(k)) => assert_eq!(k, press),
        other => panic!("unexpected {:?}", other),
    }
    let release = key(KeyCode::Char('j'), KeyKind::Release);
    assert!(event_for(Ready::Terminal(Some(TerminalEvent::Key(release)))).is_none());
    let repeat = key(KeyCode::Enter, KeyKind::Repeat);
    assert!(event_for(Ready::Terminal(Some(TerminalEvent::Key(repeat)))).is_none());
}

#[test]
fn mouse_and_resize_pass_and_nothing_else() {
    let mouse = MouseInput { kind: MouseKind::ScrollUp, column: 3, row: 4 };
    match event_for(Ready::Terminal(Some(TerminalEvent::Mouse(mouse)))) {
        Some(AppEvent::Mouse(m)) => assert_eq!(m, mouse),
        other => panic!("unexpected {:?}", other),
    }
    assert!(matches!(
        event_for(Ready::Terminal(Some(TerminalEvent::Resize(80, 24)))),
        Some(AppEvent::Resize(80, 24))
    ));
    assert!(event_for(Ready::Terminal(Some(TerminalEvent::Other))).is_none());
    assert!(event_for(Ready::Terminal(None)).is_none());
}
