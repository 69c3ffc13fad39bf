use league_config_manager::fs::FileOp;
use league_config_manager::game_settings::GameSettings;
use league_config_manager::ini_file::without_resolution;
use league_config_manager::ini_file::IniError;
use league_config_manager::ini_file::LineEnd;

fn lines(bytes: &[u8]) -> Vec<String> {
    String::from_utf8(bytes.to_vec())
        .unwrap()
        .lines()
        .map(|line| line.to_string())
        .filter(|line| !line.is_empty())
        .collect()
}

#[test]
fn window_size_is_taken_out() {
    let text = "[General]\nWidth=1920\nHeight=1080\nWindowMode=1\n[HUD]\nWidth=5\n";
    let reset = without_resolution(text, LineEnd::Lf).unwrap();
    assert_eq!(lines(&reset), vec!["[General]", "WindowMode=1", "[HUD]", "Width=5"]);
}

#[test]
fn text_without_window_size_keeps_its_keys() {
    let text = "[General]\nWindowMode=1\n";
    let reset = without_resolution(text, LineEnd::Lf).unwrap();
    assert_eq!(lines(&reset), vec!["[General]", "WindowMode=1"]);
    assert!(lines(&without_resolution("", LineEnd::Lf).unwrap()).is_empty());
}

#[test]
fn text_that_is_no_document_is_refused() {
    assert_eq!(without_resolution("[General\nWidth=1\n", LineEnd::Lf), Err(IniError::Parse));
}

#[test]
fn rewrite_unlocks_writes_and_locks_again() {
    let files = GameSettings::located("/c");
    let unlock_game = FileOp::SetReadonly { path: "/c/game.cfg".to_string(), value: false };
    let unlock_settings =
        FileOp::SetReadonly { path: "/c/PersistedSettings.json".to_string(), value: false };
    assert_eq!(
        files.rewrite(b"new".to_vec(), true),
        vec![
            unlock_game.clone(),
            unlock_settings.clone(),
            FileOp::Write { path: "/c/game.cfg".to_string(), content: b"new".to_vec() },
            FileOp::SetReadonly { path: "/c/game.cfg".to_string(), value: true },
            FileOp::SetReadonly { path: "/c/PersistedSettings.json".to_string(), value: true },
        ]
    );
    assert_eq!(
        files.rewrite(vec![], false),
        vec![
            unlock_game.clone(),
            unlock_settings.clone(),
            FileOp::Write { path: "/c/game.cfg".to_string(), content: vec![] },
            unlock_game,
            unlock_settings,
        ]
    );
}

#[test]
fn reset_resolution_rewrites_the_primary_file() {
    let files = GameSettings::located("/c");
    let text = "[General]\nWidth=1920\nHeight=1080\nWindowMode=1\n";
    let ops = files.reset_resolution(text, true, LineEnd::Lf).unwrap();
    assert_eq!(ops.len(), 5);
    assert_eq!(ops, files.rewrite(without_resolution(text, LineEnd::Lf).unwrap(), true));
    match &ops[2] {
        FileOp::Write { path, content } => {
            assert_eq!(path, "/c/game.cfg");
            assert_eq!(lines(content), vec!["[General]", "WindowMode=1"]);
        }
        other => panic!("unexpected operation {:?}", other),
    }
    assert_eq!(files.reset_resolution("[General\n", false, LineEnd::CrLf), Err(IniError::Parse));
}

#[test]
fn reset_text_is_exact() {
    let text = "[General]\nWidth=1920\nHeight=1080\nWindowMode=1\n[HUD]\nWidth=5\nHeight=6\n";
    assert_eq!(
        without_resolution(text, LineEnd::Lf).unwrap(),
        b"[General]\nWindowMode=1\n\n[HUD]\nWidth=5\nHeight=6\n".to_vec()
    );
    assert_eq!(
        without_resolution(text, LineEnd::CrLf).unwrap(),
        b"[General]\r\nWindowMode=1\r\n\r\n[HUD]\r\nWidth=5\r\nHeight=6\r\n".to_vec()
    );
}

#[test]
fn only_the_first_general_section_loses_the_window_size() {
    let text = "[General]\nWidth=1\nWidth=2\nA=1\n[Other]\nHeight=3\n[General]\nHeight=4\n";
    let reset = without_resolution(text, LineEnd::Lf).unwrap();
    let kept = lines(&reset);
    assert!(kept.contains(&"A=1".to_string()));
    assert!(kept.contains(&"Height=3".to_string()));
    assert!(!kept.iter().any(|line| line.starts_with("Width")));
}
