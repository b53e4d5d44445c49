use prompt_enhancer::footer::{
    build_columns, default_prompt_enhancement_footer_state, esc_hint_mode, footer_height,
    footer_lines, prompt_enhancer_shortcut_lines, reset_mode_after_activity,
    shortcut_overlay_lines, shortcuts, toggle_shortcut_mode, FooterMode, FooterProps,
    PromptEnhancementFooterState, ShortcutsState, TextTone,
};
use prompt_enhancer::key_hint::{ctrl, plain, shift, KeyCode};
use prompt_enhancer::footer::{FooterLine, FooterSpan};

fn props(mode: FooterMode) -> FooterProps {
    FooterProps {
        mode,
        esc_backtrack_hint: false,
        use_shift_enter_hint: false,
        is_task_running: false,
        context_window_percent: None,
        prompt_enhancement: None,
        prompt_enhancer_enabled: false,
        prompt_enhancement_history_available: false,
    }
}

fn state() -> ShortcutsState {
    ShortcutsState {
        use_shift_enter_hint: false,
        esc_backtrack_hint: false,
        prompt_enhancer_enabled: false,
        prompt_enhancement_history_available: false,
    }
}

fn line_text(line: &FooterLine) -> String {
    let mut s = String::new();
    for span in &line.spans {
        s.push_str(&span.text);
    }
    s
}

#[test]
fn toggle_shortcut_mode_cases() {
    assert_eq!(
        toggle_shortcut_mode(FooterMode::CtrlCReminder, true),
        FooterMode::CtrlCReminder
    );
    assert_eq!(
        toggle_shortcut_mode(FooterMode::CtrlCReminder, false),
        FooterMode::ShortcutPrompt
    );
    assert_eq!(
        toggle_shortcut_mode(FooterMode::ShortcutOverlay, false),
        FooterMode::ShortcutPrompt
    );
    assert_eq!(toggle_shortcut_mode(FooterMode::Enhancing, false), FooterMode::Enhancing);
    assert_eq!(
        toggle_shortcut_mode(FooterMode::ShortcutPrompt, false),
        FooterMode::ShortcutOverlay
    );
    assert_eq!(toggle_shortcut_mode(FooterMode::Empty, true), FooterMode::ShortcutOverlay);
}

#[test]
fn esc_hint_mode_cases() {
    assert_eq!(esc_hint_mode(FooterMode::ShortcutPrompt, true), FooterMode::ShortcutPrompt);
    assert_eq!(esc_hint_mode(FooterMode::ShortcutPrompt, false), FooterMode::EscHint);
}

#[test]
fn reset_mode_after_activity_cases() {
    assert_eq!(reset_mode_after_activity(FooterMode::EscHint), FooterMode::ShortcutPrompt);
    assert_eq!(reset_mode_after_activity(FooterMode::ShortcutOverlay), FooterMode::ShortcutPrompt);
    assert_eq!(reset_mode_after_activity(FooterMode::CtrlCReminder), FooterMode::ShortcutPrompt);
    assert_eq!(reset_mode_after_activity(FooterMode::Empty), FooterMode::ShortcutPrompt);
    assert_eq!(reset_mode_after_activity(FooterMode::Enhancing), FooterMode::Enhancing);
    assert_eq!(reset_mode_after_activity(FooterMode::ShortcutPrompt), FooterMode::ShortcutPrompt);
}

#[test]
fn default_state_is_fresh() {
    let s = default_prompt_enhancement_footer_state();
    assert_eq!(s.elapsed_ms, 0);
    assert!(s.timeout_ms.is_none());
}

#[test]
fn footer_heights_by_mode() {
    assert_eq!(footer_height(props(FooterMode::Empty)), 0);
    assert_eq!(footer_height(props(FooterMode::CtrlCReminder)), 1);
    assert_eq!(footer_height(props(FooterMode::ShortcutPrompt)), 1);
    assert_eq!(footer_height(props(FooterMode::EscHint)), 1);
    assert_eq!(footer_height(props(FooterMode::Enhancing)), 1);
    assert_eq!(footer_height(props(FooterMode::ShortcutOverlay)), 4);

    let mut p = props(FooterMode::ShortcutOverlay);
    p.prompt_enhancer_enabled = true;
    assert_eq!(footer_height(p), 8);
}

#[test]
fn binding_for_honors_shift_hint() {
    let table = shortcuts();
    let newline = &table[1];
    let mut s = state();
    let b = newline.binding_for(s).expect("always one matches");
    assert_eq!(b.key, ctrl(KeyCode::Char('j')));
    s.use_shift_enter_hint = true;
    let b = newline.binding_for(s).expect("always one matches");
    assert_eq!(b.key, shift(KeyCode::Enter));
}

#[test]
fn key_labels() {
    assert_eq!(plain(KeyCode::Char('?')).label(), "?");
    assert_eq!(plain(KeyCode::Esc).label(), "esc");
    assert_eq!(ctrl(KeyCode::Char('c')).label(), "ctrl + c");
    assert_eq!(shift(KeyCode::Enter).label(), "shift + enter");
}

#[test]
fn ctrl_c_reminder_text() {
    let mut p = props(FooterMode::CtrlCReminder);
    let lines = footer_lines(p);
    assert_eq!(line_text(&lines[0]), "ctrl + c again to quit");
    assert!(lines[0].dim);
    p.is_task_running = true;
    let lines = footer_lines(p);
    assert_eq!(line_text(&lines[0]), "ctrl + c again to interrupt");
}

#[test]
fn shortcut_prompt_and_context_text() {
    let mut p = props(FooterMode::ShortcutPrompt);
    let lines = footer_lines(p);
    assert_eq!(line_text(&lines[0]), "? for shortcuts");
    p.is_task_running = true;
    p.context_window_percent = Some(72);
    let lines = footer_lines(p);
    assert_eq!(line_text(&lines[0]), "72% context left");
}

#[test]
fn esc_hint_text() {
    let mut p = props(FooterMode::EscHint);
    let lines = footer_lines(p);
    assert_eq!(line_text(&lines[0]), "esc esc to edit previous message");
    p.esc_backtrack_hint = true;
    let lines = footer_lines(p);
    assert_eq!(line_text(&lines[0]), "esc again to edit previous message");
}

#[test]
fn enhancing_line_text() {
    let mut p = props(FooterMode::Enhancing);
    p.prompt_enhancement = Some(PromptEnhancementFooterState {
        elapsed_ms: 2300,
        timeout_ms: Some(8000),
    });
    let lines = footer_lines(p);
    assert_eq!(
        line_text(&lines[0]),
        "\\ Enhancing prompt… 2.3s elapsed / 8.0s max  ·  Esc to cancel"
    );

    p.prompt_enhancement = Some(PromptEnhancementFooterState {
        elapsed_ms: 10000,
        timeout_ms: Some(8000),
    });
    let lines = footer_lines(p);
    assert_eq!(
        line_text(&lines[0]),
        "| Enhancing prompt… 10.0s elapsed / 8.0s max  ·  Timed out!  ·  Esc to cancel"
    );
    let alert = lines[0]
        .spans
        .iter()
        .find(|s| s.text == "Timed out!")
        .expect("alert span");
    assert_eq!(alert.tone, TextTone::Alert);

    p.prompt_enhancement = None;
    let lines = footer_lines(p);
    assert_eq!(
        line_text(&lines[0]),
        "| Enhancing prompt… 0.0s elapsed / -- max  ·  Esc to cancel"
    );
}

#[test]
fn overlay_lists_all_shortcuts_in_two_columns() {
    let lines = shortcut_overlay_lines(state());
    assert_eq!(lines.len(), 4);
    assert!(lines.iter().all(|l| l.dim));
    let texts: Vec<String> = lines.iter().map(line_text).collect();
    assert!(texts[0].starts_with("/ for commands"));
    assert!(texts[0].trim_end().ends_with("ctrl + j for newline"));
    assert!(texts[1].starts_with("@ for file paths"));
    assert!(texts[1].trim_end().ends_with("ctrl + v to paste images"));
    assert!(texts[2].starts_with("esc esc to edit previous message"));
    assert!(texts[2].trim_end().ends_with("ctrl + c to exit"));
    assert!(texts[3].trim_end().ends_with("ctrl + t to view transcript"));
}

#[test]
fn overlay_appends_enhancer_hints_when_enabled() {
    let mut s = state();
    s.prompt_enhancer_enabled = true;
    s.prompt_enhancement_history_available = true;
    let lines = shortcut_overlay_lines(s);
    assert_eq!(lines.len(), 8);
    assert_eq!(line_text(&lines[4]), "");
    assert_eq!(line_text(&lines[5]), "ctrl + p enhance prompt");
    assert_eq!(line_text(&lines[6]), "ctrl + r restore original (available now)");
    assert_eq!(line_text(&lines[7]), "ctrl + u clear composer");

    s.prompt_enhancement_history_available = false;
    let lines = shortcut_overlay_lines(s);
    assert_eq!(
        line_text(&lines[6]),
        "ctrl + r restore original (after enhancement completes)"
    );
}

#[test]
fn enhancer_hints_absent_when_disabled() {
    let lines = prompt_enhancer_shortcut_lines(state());
    assert!(lines.is_empty());
}

#[test]
fn columns_align_left_column() {
    let entry = |t: &str| FooterLine {
        spans: vec![FooterSpan { text: t.to_string(), tone: TextTone::Plain }],
        dim: false,
    };
    let rows = build_columns(vec![entry("ab"), entry("x"), entry("a"), entry("y")]);
    assert_eq!(rows.len(), 2);
    // left column width is 2, plus padding 4 and gap 4
    assert_eq!(line_text(&rows[0]), format!("ab{}x", " ".repeat(8)));
    assert_eq!(line_text(&rows[1]), format!("a{}y", " ".repeat(9)));

    // an odd entry count gets one empty line appended
    let rows = build_columns(vec![entry("ab"), entry("x"), entry("c")]);
    assert_eq!(rows.len(), 2);
    assert_eq!(line_text(&rows[1]), format!("c{}", " ".repeat(9)));
}
