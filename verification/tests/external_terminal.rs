use mini_term::dock::{DockSide, DockState, WindowRect};
use mini_term::external_terminal::{
    companion_window_name, find_companion_window_info, find_companion_window_rect, focus_tab_args,
    list_companion_tab_titles, new_tab_args, now_ms, select_companion_window, ActivationStep,
    ExternalTerminalState, TerminalWindowInfo,
};

fn strings(v: &[&str]) -> Vec<String> {
    v.iter().map(|s| s.to_string()).collect()
}

fn rect(l: i32, t: i32, r: i32, b: i32) -> WindowRect {
    WindowRect { left: l, top: t, right: r, bottom: b }
}

fn window(name: &str, titles: &[&str], hwnd: usize) -> TerminalWindowInfo {
    TerminalWindowInfo {
        name: name.to_string(),
        titles: strings(titles),
        rect: rect(hwnd as i32, 0, hwnd as i32 + 100, 100),
        hwnd,
    }
}

#[test]
fn companion_name_constant() {
    assert_eq!(companion_window_name(), "mini-term-companion");
}

#[test]
fn no_windows_no_companion() {
    assert_eq!(select_companion_window(&[], &strings(&["a"])), None);
    assert_eq!(list_companion_tab_titles(&[], &[]), Vec::<String>::new());
    assert_eq!(find_companion_window_rect(&[], &[]), None);
}

#[test]
fn named_window_wins() {
    let ws = vec![
        window("Windows Terminal", &["a", "b"], 1),
        window("x - mini-term-companion - y", &["c"], 2),
        window("mini-term-companion", &["d"], 3),
    ];
    let pref = strings(&["a", "b"]);
    assert_eq!(select_companion_window(&ws, &pref), Some(1));
    assert_eq!(list_companion_tab_titles(&ws, &pref), strings(&["c"]));
    assert_eq!(find_companion_window_rect(&ws, &pref), Some(rect(2, 0, 102, 100)));
    assert_eq!(find_companion_window_info(&ws, &pref), Some((rect(2, 0, 102, 100), 2)));
}

#[test]
fn best_scoring_window_wins_first_on_ties() {
    let ws = vec![
        window("t1", &["a", "z"], 1),
        window("t2", &["a", "b", "b"], 2),
        window("t3", &["b", "a", "q"], 3),
    ];
    // t2 scores 3 (b counted twice), t3 scores 2
    assert_eq!(select_companion_window(&ws, &strings(&["a", "b"])), Some(1));
    let ws2 = vec![window("t1", &["x", "a"], 1), window("t2", &["a", "y"], 2)];
    assert_eq!(select_companion_window(&ws2, &strings(&["a"])), Some(0));
}

#[test]
fn single_window_is_fallback() {
    let ws = vec![window("Terminal", &["q"], 5)];
    assert_eq!(select_companion_window(&ws, &strings(&["a"])), Some(0));
    assert_eq!(select_companion_window(&ws, &[]), Some(0));
    let two = vec![window("T1", &["q"], 5), window("T2", &["r"], 6)];
    assert_eq!(select_companion_window(&two, &strings(&["a"])), None);
    assert_eq!(select_companion_window(&two, &[]), None);
    assert_eq!(list_companion_tab_titles(&two, &[]), Vec::<String>::new());
    assert_eq!(find_companion_window_info(&two, &[]), None);
}

#[test]
fn activation_with_no_open_tabs_forgets_titles() {
    let mut s = ExternalTerminalState::new();
    s.finish_activation("p1".to_string(), "one".to_string());
    s.finish_activation("p2".to_string(), "two".to_string());
    match s.begin_activation("p1", "proj", &[]) {
        ActivationStep::OpenTab { title } => assert_eq!(title, "proj"),
        other => panic!("unexpected {other:?}"),
    }
    assert!(s.preferred_titles().is_empty());
}

#[test]
fn activation_focuses_open_tab() {
    let mut s = ExternalTerminalState::new();
    s.finish_activation("p1".to_string(), "one".to_string());
    let open = strings(&["zero", "one", "one"]);
    match s.begin_activation("p1", "proj", &open) {
        ActivationStep::FocusTab { index, title } => {
            assert_eq!(index, 1);
            assert_eq!(title, "one");
        }
        other => panic!("unexpected {other:?}"),
    }
    assert_eq!(s.preferred_titles(), strings(&["one"]));
}

#[test]
fn activation_reopens_closed_tab() {
    let mut s = ExternalTerminalState::new();
    s.finish_activation("p1".to_string(), "one".to_string());
    let open = strings(&["proj", "x"]);
    match s.begin_activation("p1", "proj", &open) {
        ActivationStep::OpenTab { title } => assert_eq!(title, "proj(1)"),
        other => panic!("unexpected {other:?}"),
    }
    assert!(s.preferred_titles().is_empty());
    s.finish_activation("p1".to_string(), "proj(1)".to_string());
    assert_eq!(s.preferred_titles(), strings(&["proj(1)"]));
}

#[test]
fn preferred_titles_one_per_project() {
    let mut s = ExternalTerminalState::new();
    s.finish_activation("p1".to_string(), "same".to_string());
    s.finish_activation("p2".to_string(), "same".to_string());
    s.finish_activation("p1".to_string(), "same".to_string());
    assert_eq!(s.preferred_titles(), strings(&["same", "same"]));
}

#[test]
fn activation_of_new_project() {
    let mut s = ExternalTerminalState::new();
    match s.begin_activation("p9", "app", &strings(&["app", "app(1)"])) {
        ActivationStep::OpenTab { title } => assert_eq!(title, "app(2)"),
        other => panic!("unexpected {other:?}"),
    }
}

#[test]
fn dock_state_set_and_cleared() {
    let mut s = ExternalTerminalState::new();
    assert_eq!(s.dock_state(), None);
    let d = DockState {
        side: DockSide::Left,
        wt_hwnd: 42,
        last_wt_rect: rect(0, 0, 10, 10),
        last_app_rect: rect(0, 0, 10, 10),
        ignore_app_moves_until_ms: 1_500,
    };
    s.set_dock_state(Some(d));
    assert_eq!(s.dock_state(), Some(d));
    assert_eq!(s.follow_target_at(1_499), None);
    assert_eq!(s.follow_target_at(1_500), Some(d));
    s.clear_companion_dock();
    assert_eq!(s.dock_state(), None);
    assert_eq!(s.follow_target_at(10_000), None);
}

#[test]
fn terminal_command_arguments() {
    assert_eq!(
        new_tab_args("C:\\work\\proj", "proj(1)"),
        strings(&[
            "-w",
            "mini-term-companion",
            "nt",
            "-d",
            "C:\\work\\proj",
            "--title",
            "proj(1)",
            "--suppressApplicationTitle"
        ])
    );
    assert_eq!(focus_tab_args(0), strings(&["-w", "mini-term-companion", "focus-tab", "-t", "0"]));
    assert_eq!(focus_tab_args(12), strings(&["-w", "mini-term-companion", "focus-tab", "-t", "12"]));
}

#[test]
fn system_clock_reads_after_2020() {
    let a = now_ms();
    assert!(a > 1_577_836_800_000);
    let b = now_ms();
    assert!(b + 60_000 > a);
}
