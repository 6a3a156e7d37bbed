use u2secure::i18n::{en, tr, translate, zh_cn, zh_tw, Lang, LanguageSetting};

#[test]
fn test_lang_list_and_labels() {
    assert_eq!(Lang::all(), &[Lang::ZhCn, Lang::ZhTw, Lang::En]);
    assert_eq!(Lang::En.label(), "English");
    assert_eq!(Lang::ZhCn.label(), "简体中文");
    assert_eq!(Lang::ZhTw.label(), "繁體中文");
}

#[test]
fn test_translate_known_keys() {
    assert_eq!(translate(Lang::ZhCn, "cli_confirm"), "是否继续？");
    assert_eq!(translate(Lang::En, "lang_zh_tw"), "繁體中文");
    assert_eq!(tr(Lang::ZhTw, "err_user_aborted"), "用戶取消操作");
}

#[test]
fn test_unknown_key_falls_back_to_key() {
    assert_eq!(translate(Lang::En, "no_such_key"), "no_such_key");
    assert_eq!(translate(Lang::ZhTw, "no_such_key"), "no_such_key");
    assert_eq!(zh_cn("no_such_key"), None);
}

#[test]
fn test_tables_cover_keys() {
    assert_eq!(zh_cn("err_setup_signal").is_some(), true);
    assert_eq!(en("err_setup_signal"), None);
    assert_eq!(translate(Lang::En, "err_setup_signal"), "err_setup_signal");
    assert_eq!(zh_tw("log_interrupted"), Some("用戶中斷"));
}

#[test]
fn test_tables_share_keys_examples() {
    assert!(zh_cn("err_setup_signal").is_some());
    assert!(en("err_setup_signal").is_none());
    assert!(zh_tw("err_setup_signal").is_none());
    for key in ["cli_welcome", "err_cmd_failed", "undo_pkg_remove", "tui_exec_done"] {
        assert!(en(key).is_some() && zh_cn(key).is_some() && zh_tw(key).is_some());
    }
    assert!(en("no_such_key").is_none() && zh_tw("no_such_key").is_none() && zh_cn("no_such_key").is_none());
}

#[test]
fn test_language_setting_is_set_once() {
    let mut s = LanguageSetting::new();
    assert_eq!(s.current(), Lang::ZhCn);
    s.init(Lang::En);
    assert_eq!(s.current(), Lang::En);
    s.init(Lang::ZhTw);
    assert_eq!(s.current(), Lang::En);
}
