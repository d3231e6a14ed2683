use bigecho::catalog::{open_path_in_file_manager, open_session_folder, ExitReport};
use bigecho::clock::{build_session_relative_dir, format_hms, LocalTime};
use bigecho::json::{
    message_flag, parse_recording_flag, recording_flag, JsonDocument, JsonMember,
};
use bigecho::levels::{LevelQuestion, LevelRound, LevelTask};
use bigecho::menu::{
    about_metadata, build_macos_app_menu, build_tray_menu, on_app_menu, on_tray_menu, MenuEntry,
    SubmenuRole,
};
use bigecho::pipeline::{
    should_schedule_retry, PipelineInvocation, RETRY_JOBS_PER_PASS, RETRY_WORKER_POLL_SECONDS,
};
use bigecho::script::{Goal, Step};
use bigecho::secrets::{get_api_secret, set_api_secret};
use bigecho::session::{audio_duration_hms, SessionMeta};
use bigecho::settings::{
    device_if_set, probe_device, recordings_root, root_recordings_dir, session_dir,
    should_auto_run_pipeline_after_stop, PublicSettings,
};
use bigecho::text::{blank, decimal_text, signed_decimal_text, trimmed_string};
use bigecho::text_editors::default_text_editor_id;
use bigecho::windows::{
    app_icon_bytes, apply_app_icons_for_theme, choose_tray_icon_variant, focus_main_window,
    on_main_window_event, on_recording_message, on_shortcut, on_tray_click, on_tray_window_event,
    open_settings_window_internal, open_tray_window_internal, position_tray_popover,
    resolve_system_theme, set_tray_indicator, should_hide_tray_popover_on_focus_lost,
    should_intercept_close_to_tray, should_show_context_menu_on_left_click,
    should_start_hidden_on_launch, should_toggle_tray_popover_on_left_click, starts_hidden,
    toggle_main_window_visibility, toggle_tray_window_visibility, tray_icon_bytes, tray_tooltip,
    window_spec, AppWindow, IconFiles, ShellScript, ShellTask, Theme, TrayEvent, TrayIconVariant,
    WindowEvent, RECORDING_STATUS_EVENT, REC_HOTKEY, START_HIDDEN_VARIABLE, STOP_HOTKEY,
    UI_RECORDING_EVENT,
};

fn tasks(script: &ShellScript) -> Vec<(ShellTask, bool)> {
    script.steps.iter().map(|s: &Step<ShellTask>| (s.task, s.required)).collect()
}

#[test]
fn close_to_tray_intercepts_only_main_window() {
    assert!(should_intercept_close_to_tray("main"));
    assert!(!should_intercept_close_to_tray("settings"));
}

#[test]
fn start_hidden_env_policy_respects_debug_default() {
    assert!(!should_start_hidden_on_launch(None, false));
    assert!(should_start_hidden_on_launch(None, true));
    assert!(should_start_hidden_on_launch(Some("1"), false));
    assert!(should_start_hidden_on_launch(Some("true"), false));
    assert!(!should_start_hidden_on_launch(Some("0"), true));
    assert!(!should_start_hidden_on_launch(Some("false"), true));
}

#[test]
fn a_no_in_any_case_shows_the_window() {
    for word in [" OFF ", "No", "\tFALSE\n", "0"] {
        assert!(!should_start_hidden_on_launch(Some(word), true));
    }
    for word in ["", "yes", "offf", "n o"] {
        assert!(should_start_hidden_on_launch(Some(word), false));
    }
}

#[test]
fn tray_variant_depends_on_theme_and_recording_status() {
    assert_eq!(choose_tray_icon_variant(Theme::Light, false), TrayIconVariant::IdleLight);
    assert_eq!(choose_tray_icon_variant(Theme::Dark, false), TrayIconVariant::IdleDark);
    assert_eq!(choose_tray_icon_variant(Theme::Light, true), TrayIconVariant::RecDark);
    assert_eq!(choose_tray_icon_variant(Theme::Dark, true), TrayIconVariant::RecDark);
}

#[test]
fn tray_popover_autoclose_policy_is_platform_specific() {
    assert!(should_hide_tray_popover_on_focus_lost("macos", false));
    assert!(!should_hide_tray_popover_on_focus_lost("macos", true));
    assert!(!should_hide_tray_popover_on_focus_lost("windows", false));
}

#[test]
fn parse_recording_flag_supports_object_and_nested_json_string() {
    assert!(parse_recording_flag(r#"{"recording":true}"#));
    assert!(parse_recording_flag(r#""{\"recording\":true}""#));
    assert!(!parse_recording_flag(r#"{"recording":false}"#));
}

#[test]
fn the_program_starts_hidden_unless_told_otherwise() {
    assert_eq!(START_HIDDEN_VARIABLE, "BIGECHO_START_HIDDEN");
    assert!(starts_hidden(None));
    assert!(starts_hidden(Some("yes")));
    assert!(!starts_hidden(Some("false")));
    assert!(!starts_hidden(Some(" Off ")));
}

#[test]
fn messages_of_the_windows_reach_the_tray() {
    assert_eq!((RECORDING_STATUS_EVENT, UI_RECORDING_EVENT), ("recording:status", "ui:recording"));
    for event in [RECORDING_STATUS_EVENT, UI_RECORDING_EVENT] {
        for on in [true, false] {
            assert_eq!(
                tasks(&on_recording_message(event, &format!("{{\"recording\":{on}}}"))),
                vec![(ShellTask::ShowRecording(on), false)]
            );
        }
    }
    assert!(tasks(&on_recording_message("other", r#"{"recording":true}"#)).is_empty());
}

#[test]
fn a_pass_is_limited() {
    assert_eq!((RETRY_JOBS_PER_PASS, RETRY_WORKER_POLL_SECONDS), (10, 20));
}

#[test]
fn messages_that_say_nothing_of_a_recording_mean_none() {
    for payload in [
        "",
        "nonsense",
        "true",
        "null",
        "[true]",
        "{}",
        r#"{"recording":"true"}"#,
        r#"{"recording":1}"#,
        r#"{"other":true}"#,
        r#""text""#,
        r#""[1]""#,
        r#""\"{\\\"recording\\\":true}\"""#,
        r#"{"recording":true,"recording":false}"#,
    ] {
        assert!(!parse_recording_flag(payload), "{payload}");
    }
    assert!(parse_recording_flag(r#" {"a":[{}], "recording" : true, "z":false} "#));
    assert!(parse_recording_flag(r#"{"recording":false,"recording":true}"#));
}

#[test]
fn a_document_is_searched_for_the_flag() {
    let member = |name: &str, flag: Option<bool>| JsonMember { name: name.to_string(), flag };
    let on = JsonDocument::Object(vec![
        member("other", Some(false)),
        member("recording", Some(true)),
        member("more", None),
    ]);
    let unclear = JsonDocument::Object(vec![member("recording", None)]);
    assert!(recording_flag(&on));
    assert!(!recording_flag(&unclear));
    assert!(!recording_flag(&JsonDocument::Object(vec![])));
    assert!(!recording_flag(&JsonDocument::Text("recording".to_string())));
    let text = JsonDocument::Text("...".to_string());
    assert!(message_flag(&text, &on));
    assert!(message_flag(&on, &JsonDocument::Invalid));
    assert!(!message_flag(&JsonDocument::Other, &on));
    assert!(!message_flag(&JsonDocument::Invalid, &on));
    assert!(!message_flag(&unclear, &on));
}

#[test]
fn audio_duration_is_formatted_as_hh_mm_ss() {
    let mut meta = SessionMeta::new(
        "s-duration".to_string(),
        vec!["slack".to_string()],
        "".to_string(),
        vec![],
    );
    meta.started_at_iso = "2026-03-11T10:00:00+03:00".to_string();
    meta.ended_at_iso = Some("2026-03-11T11:02:03+03:00".to_string());
    assert_eq!(audio_duration_hms(&meta), "01:02:03");
}

#[test]
fn durations_across_offsets_and_without_an_end() {
    let mut meta = SessionMeta::new("s".to_string(), vec![], "".to_string(), vec![]);
    assert_eq!(audio_duration_hms(&meta), "00:00:00");
    meta.started_at_iso = "2026-03-11T10:00:00+03:00".to_string();
    meta.ended_at_iso = Some("2026-03-11T08:00:00.999Z".to_string());
    assert_eq!(audio_duration_hms(&meta), "01:00:00");
    meta.ended_at_iso = Some("2026-03-11T06:00:00Z".to_string());
    assert_eq!(audio_duration_hms(&meta), "00:00:00");
    meta.ended_at_iso = Some("soon".to_string());
    assert_eq!(audio_duration_hms(&meta), "00:00:00");
    meta.started_at_iso = "2016-12-31T23:59:60Z".to_string();
    meta.ended_at_iso = Some("2017-01-01T00:00:01Z".to_string());
    assert_eq!(audio_duration_hms(&meta), "00:00:01");
    meta.started_at_iso = "2015-06-30T23:59:59Z".to_string();
    meta.ended_at_iso = Some("2015-07-01T00:00:00Z".to_string());
    assert_eq!(audio_duration_hms(&meta), "00:00:01");
    meta.started_at_iso = "0000-01-01T00:00:00+23:59".to_string();
    meta.ended_at_iso = Some("9999-12-31T23:59:59-23:59".to_string());
    assert_eq!(audio_duration_hms(&meta), "87658247:57:59");
}

#[test]
fn seconds_are_written_as_hours_minutes_and_seconds() {
    assert_eq!(format_hms(0), "00:00:00");
    assert_eq!(format_hms(-5), "00:00:00");
    assert_eq!(format_hms(59), "00:00:59");
    assert_eq!(format_hms(3_600 * 123 + 61), "123:01:01");
    assert_eq!(format_hms(i64::MAX), "2562047788015215:30:07");
}

#[test]
fn session_directories_are_named_after_their_start() {
    let at = LocalTime { year: 2026, month: 3, day: 1, hour: 0, minute: 9, second: 59 };
    assert_eq!(build_session_relative_dir("slack", at), "slack/01.03.2026/meeting_00-09-59");
    let other = LocalTime { second: 58, ..at };
    assert_ne!(build_session_relative_dir("slack", at), build_session_relative_dir("slack", other));
    let early = LocalTime { year: 33, ..at };
    assert_eq!(build_session_relative_dir("x", early), "x/01.03.0033/meeting_00-09-59");
}

#[test]
fn tray_left_click_policy_is_platform_specific() {
    assert!(should_show_context_menu_on_left_click("windows"));
    assert!(!should_show_context_menu_on_left_click("macos"));
    assert!(should_toggle_tray_popover_on_left_click("macos"));
    assert!(!should_toggle_tray_popover_on_left_click("windows"));
    assert!(!should_toggle_tray_popover_on_left_click("linux"));
}

#[test]
fn auto_pipeline_after_stop_requires_toggle_and_urls() {
    let disabled = PublicSettings::default();
    assert!(!should_auto_run_pipeline_after_stop(&disabled));

    let no_urls = PublicSettings { auto_run_pipeline_on_stop: true, ..Default::default() };
    assert!(!should_auto_run_pipeline_after_stop(&no_urls));

    let ready = PublicSettings {
        transcription_url: "https://example.com/transcribe".to_string(),
        summary_url: "https://example.com/summary".to_string(),
        summary_prompt: "Есть стенограмма встречи. Подготовь краткое саммари.".to_string(),
        auto_run_pipeline_on_stop: true,
        ..Default::default()
    };
    assert!(should_auto_run_pipeline_after_stop(&ready));
}

#[test]
fn returns_default_for_supported_platforms() {
    assert_eq!(default_text_editor_id("macos"), Some("textedit"));
    assert_eq!(default_text_editor_id("windows"), Some("notepad"));
    assert_eq!(default_text_editor_id("linux"), None);
}

#[test]
fn recordings_go_below_the_data_unless_their_root_is_absolute() {
    let settings = PublicSettings::default();
    let dir = |data: &str, settings: &PublicSettings| {
        root_recordings_dir(data, settings).expect("a directory")
    };
    assert_eq!(dir("/data", &settings), "/data/recordings");
    assert_eq!(dir("/data/", &settings), "/data/recordings");
    assert_eq!(dir("", &settings), "recordings");
    assert_eq!(recordings_root("/abs", true, "/data/abs".to_string()), "/abs");
    assert_eq!(recordings_root("rel", false, "/data/rel".to_string()), "/data/rel");
    let absolute = PublicSettings { recording_root: "/abs".to_string(), ..Default::default() };
    assert_eq!(dir("/data", &absolute), "/abs");
    let empty = PublicSettings { recording_root: "".to_string(), ..Default::default() };
    assert_eq!(dir("/data", &empty), "/data/");
    let nested = PublicSettings { recording_root: "a/b".to_string(), ..Default::default() };
    assert_eq!(dir("/data", &nested), "/data/a/b");
}

#[test]
fn sessions_lie_below_the_root_of_the_recordings() {
    assert_eq!(session_dir("/r", "zoom/01.03.2026/meeting_00-09-59"), "/r/zoom/01.03.2026/meeting_00-09-59");
    assert_eq!(session_dir("/r", "/01.03.2026/meeting_00-09-59"), "/01.03.2026/meeting_00-09-59");
}

#[test]
fn devices_are_named_or_left_to_the_system() {
    assert_eq!(device_if_set(" \t"), None);
    assert_eq!(device_if_set(" Mic "), Some(" Mic ".to_string()));
    assert_eq!(probe_device(" \t"), None);
    assert_eq!(probe_device(" Mic "), Some("Mic".to_string()));
}

#[test]
fn white_space_of_every_kind_is_trimmed() {
    assert_eq!(trimmed_string("\u{a0}\u{2003}\u{85} a b \u{3000}\r\n"), "a b");
    assert_eq!(trimmed_string("\u{200b}x\u{200b}"), "\u{200b}x\u{200b}");
    assert_eq!(trimmed_string(&trimmed_string(" x ")), "x");
    assert!(blank("\u{1680}\u{2028}\u{2029}\u{202f}\u{205f}\u{b}\u{c}"));
    assert!(blank(""));
    assert!(!blank(" . "));
}

#[test]
fn numbers_are_written_in_decimal() {
    assert_eq!(decimal_text(0), "0");
    assert_eq!(decimal_text(u64::MAX), u64::MAX.to_string());
    assert_eq!(signed_decimal_text(-10), "-10");
    assert_eq!(signed_decimal_text(i64::MIN), i64::MIN.to_string());
}

#[test]
fn only_whole_runs_are_tried_again() {
    assert!(should_schedule_retry(PipelineInvocation::Run));
    assert!(should_schedule_retry(PipelineInvocation::Retry));
    assert!(!should_schedule_retry(PipelineInvocation::Manual));
    assert!(!should_schedule_retry(PipelineInvocation::WorkerRetry));
}

#[test]
fn folders_are_opened_by_the_file_manager() {
    let open = |platform: &str| open_path_in_file_manager(" /r/s ", platform).expect("a command");
    assert_eq!(open("macos").program, "open");
    assert_eq!(open("windows").program, "explorer");
    assert_eq!(open("linux").program, "xdg-open");
    assert_eq!(open("linux").argument, "/r/s");
    assert_eq!(
        open_path_in_file_manager(" \n", "macos"),
        Err("Session directory is empty".to_string())
    );
    let report = |success: bool| {
        Ok(ExitReport { success, status: "exit status: 1".to_string() })
    };
    assert_eq!(open_session_folder(report(true)), Ok("opened".to_string()));
    assert_eq!(
        open_session_folder(report(false)),
        Err("failed to open session folder: exit status exit status: 1".to_string())
    );
    assert_eq!(open_session_folder(Err("no program".to_string())), Err("no program".to_string()));
}

#[test]
fn secrets_need_a_name() {
    let error = "Secret name must not be empty".to_string();
    assert_eq!(get_api_secret("  "), Err(error.clone()));
    assert_eq!(get_api_secret(" KEY "), Ok("KEY".to_string()));
    assert_eq!(set_api_secret("", "v").map(|_| ()), Err(error));
    let secret = set_api_secret(" KEY ", " value ").expect("a secret");
    assert_eq!((secret.name.as_str(), secret.value.as_str()), ("KEY", "value"));
    let empty = set_api_secret("KEY", " ").expect("a secret");
    assert_eq!(empty.value, "");
}

#[test]
fn pictures_follow_the_theme() {
    let icons = IconFiles {
        app_light: &[1],
        app_dark: &[2],
        tray_idle_light: &[3],
        tray_idle_dark: &[4],
        tray_rec_dark: &[5],
    };
    assert_eq!(app_icon_bytes(&icons, Theme::Light), &[1]);
    assert_eq!(app_icon_bytes(&icons, Theme::Dark), &[2]);
    assert_eq!(tray_icon_bytes(&icons, TrayIconVariant::IdleLight), &[3]);
    assert_eq!(tray_icon_bytes(&icons, TrayIconVariant::IdleDark), &[4]);
    assert_eq!(tray_icon_bytes(&icons, TrayIconVariant::RecDark), &[5]);
    assert_eq!(resolve_system_theme(None, None, None), Theme::Light);
    assert_eq!(resolve_system_theme(None, Some(Theme::Dark), Some(Theme::Light)), Theme::Dark);
    assert_eq!(resolve_system_theme(Some(Theme::Light), Some(Theme::Dark), None), Theme::Light);
    assert_eq!(resolve_system_theme(None, None, Some(Theme::Dark)), Theme::Dark);
    assert_eq!(
        tasks(&apply_app_icons_for_theme(Theme::Dark, true, false, true)),
        vec![
            (ShellTask::LoadAppIcon(Theme::Dark), true),
            (ShellTask::SetWindowIcon(AppWindow::Main), true),
            (ShellTask::SetWindowIcon(AppWindow::Settings), true),
        ]
    );
}

#[test]
fn the_tray_shows_a_recording() {
    assert_eq!(tray_tooltip(true), "BigEcho REC");
    assert_eq!(tray_tooltip(false), "BigEcho IDLE");
    assert!(tasks(&set_tray_indicator(false, true, Theme::Dark, "macos")).is_empty());
    assert_eq!(
        tasks(&set_tray_indicator(true, true, Theme::Light, "macos")),
        vec![
            (ShellTask::SetTooltip { recording: true }, true),
            (ShellTask::SetTrayIcon(TrayIconVariant::RecDark), true),
            (ShellTask::KeepTrayColors, true),
        ]
    );
    assert_eq!(tasks(&set_tray_indicator(true, false, Theme::Dark, "windows")).len(), 2);
}

#[test]
fn windows_are_shown_and_hidden_by_turns() {
    let show = vec![
        (ShellTask::Show(AppWindow::Main), true),
        (ShellTask::Focus(AppWindow::Main), true),
    ];
    assert_eq!(tasks(&focus_main_window(true)), show);
    assert!(tasks(&focus_main_window(false)).is_empty());
    assert_eq!(tasks(&toggle_main_window_visibility(true, Ok(false))), show);
    assert_eq!(
        tasks(&toggle_main_window_visibility(true, Ok(true))),
        vec![(ShellTask::Hide(AppWindow::Main), true)]
    );
    assert!(tasks(&toggle_main_window_visibility(false, Ok(true))).is_empty());
    let broken = toggle_main_window_visibility(true, Err("gone".to_string()));
    assert!(matches!(broken.goal, Goal::Finish(Err(e)) if e == "gone"));
    assert_eq!(
        tasks(&toggle_tray_window_visibility(true, Ok(false), true)),
        vec![
            (ShellTask::PlacePopover, false),
            (ShellTask::Show(AppWindow::Tray), true),
            (ShellTask::Focus(AppWindow::Tray), true),
        ]
    );
    assert_eq!(
        tasks(&toggle_tray_window_visibility(false, Ok(false), true)),
        vec![
            (ShellTask::Build(AppWindow::Tray), true),
            (ShellTask::ApplySystemIcons, false),
            (ShellTask::Show(AppWindow::Tray), true),
            (ShellTask::Focus(AppWindow::Tray), true),
            (ShellTask::PlacePopover, false),
        ]
    );
    assert_eq!(tasks(&open_settings_window_internal(true)).len(), 3);
    assert_eq!(
        tasks(&open_settings_window_internal(false))[0],
        (ShellTask::Build(AppWindow::Settings), true)
    );
    assert_eq!(tasks(&open_tray_window_internal(true))[0], (ShellTask::ApplySystemIcons, false));
}

#[test]
fn windows_are_made_to_measure() {
    assert_eq!(window_spec(AppWindow::Main, "macos"), None);
    let settings = window_spec(AppWindow::Settings, "macos").expect("a window");
    assert_eq!(settings.label, AppWindow::Settings.label());
    assert_eq!((settings.width, settings.height), (720, 620));
    assert!(settings.resizable && !settings.bare && !settings.always_on_top);
    let tray = window_spec(AppWindow::Tray, "macos").expect("a window");
    assert_eq!(tray.title, "BigEcho Recorder");
    assert_eq!((tray.width, tray.height), (460, 244));
    assert!(!tray.resizable && tray.always_on_top && tray.skip_taskbar && tray.bare);
    assert!(!window_spec(AppWindow::Tray, "windows").expect("a window").bare);
}

#[test]
fn the_popover_is_centred_below_the_click() {
    assert_eq!(position_tray_popover(1000, 20, 460), (770, 32));
    assert_eq!(position_tray_popover(0, -12, 461), (-230, 0));
    assert_eq!(position_tray_popover(0, 0, u32::MAX), (0, 12));
    assert_eq!(position_tray_popover(0, 0, u32::MAX - 3), (2, 12));
}

#[test]
fn events_of_windows_lead_to_tasks() {
    assert_eq!(
        tasks(&on_main_window_event("main", WindowEvent::ThemeChanged(Theme::Dark), true)),
        vec![
            (ShellTask::ApplyIcons(Theme::Dark), false),
            (ShellTask::ShowRecording(true), false),
        ]
    );
    assert_eq!(
        tasks(&on_main_window_event("main", WindowEvent::CloseRequested, false)),
        vec![(ShellTask::PreventClose, false), (ShellTask::Hide(AppWindow::Main), false)]
    );
    assert!(tasks(&on_main_window_event("settings", WindowEvent::CloseRequested, false)).is_empty());
    assert!(tasks(&on_main_window_event("main", WindowEvent::Other, false)).is_empty());
    assert_eq!(
        tasks(&on_tray_window_event(WindowEvent::Focused(false), "macos")),
        vec![(ShellTask::Hide(AppWindow::Tray), false)]
    );
    assert!(tasks(&on_tray_window_event(WindowEvent::Focused(true), "macos")).is_empty());
    assert!(tasks(&on_tray_window_event(WindowEvent::Focused(false), "linux")).is_empty());
    assert_eq!(
        tasks(&on_tray_click(true, true, "macos")),
        vec![(ShellTask::TogglePopover, false)]
    );
    assert!(tasks(&on_tray_click(true, false, "macos")).is_empty());
    assert!(tasks(&on_tray_click(false, true, "macos")).is_empty());
    assert!(tasks(&on_tray_click(true, true, "windows")).is_empty());
}

#[test]
fn shortcuts_start_and_stop() {
    assert_eq!((REC_HOTKEY, STOP_HOTKEY), ("CmdOrCtrl+Shift+R", "CmdOrCtrl+Shift+S"));
    assert_eq!(
        tasks(&on_shortcut(REC_HOTKEY, true)),
        vec![(ShellTask::Emit(TrayEvent::Start), false)]
    );
    assert_eq!(
        tasks(&on_shortcut(STOP_HOTKEY, true)),
        vec![(ShellTask::Emit(TrayEvent::Stop), false), (ShellTask::StopActiveRecording, false)]
    );
    assert!(tasks(&on_shortcut(STOP_HOTKEY, false)).is_empty());
    assert!(tasks(&on_shortcut("CmdOrCtrl+Q", true)).is_empty());
    assert_eq!(TrayEvent::Start.name(), "tray:start");
    assert_eq!(TrayEvent::Stop.name(), "tray:stop");
}

#[test]
fn menus_have_their_items() {
    let bar = build_macos_app_menu("BigEcho");
    let titles: Vec<&str> = bar.iter().map(|m| m.title.as_str()).collect();
    assert_eq!(titles, vec!["BigEcho", "File", "Edit", "View", "Window", "Help"]);
    assert_eq!(bar[0].entries.len(), 10);
    assert_eq!(
        bar[0].entries[2],
        MenuEntry::Item {
            id: "app_settings".to_string(),
            label: "Settings".to_string(),
            accelerator: Some("CmdOrCtrl+,".to_string()),
        }
    );
    assert_eq!(bar[4].role, SubmenuRole::Window);
    assert_eq!(bar[5].role, SubmenuRole::Help);
    assert!(bar[5].entries.is_empty());
    assert_eq!(tasks(&on_app_menu("app_settings")), vec![(ShellTask::OpenSettings, false)]);
    assert!(tasks(&on_app_menu("other")).is_empty());

    let tray = build_tray_menu();
    assert_eq!(tray.len(), 7);
    for entry in &tray {
        match entry {
            MenuEntry::Item { id, .. } => assert!(!tasks(&on_tray_menu(id)).is_empty()),
            other => panic!("unexpected entry {other:?}"),
        }
    }
    assert_eq!(
        tasks(&on_tray_menu("start")),
        vec![(ShellTask::FocusMain, false), (ShellTask::Emit(TrayEvent::Start), false)]
    );
    assert_eq!(tasks(&on_tray_menu("quit")), vec![(ShellTask::Exit, false)]);
    assert!(tasks(&on_tray_menu("unknown")).is_empty());

    let about = about_metadata(
        "BigEcho".to_string(),
        "1.0".to_string(),
        None,
        Some("Publisher".to_string()),
    );
    assert_eq!(about.authors, Some(vec!["Publisher".to_string()]));
    assert_eq!(about_metadata("b".to_string(), "1".to_string(), None, None).authors, None);
}

#[test]
fn levels_are_measured_while_nothing_is_recorded() {
    let round = LevelRound::begin(true);
    assert_eq!(round.script.steps.len(), 1);
    assert_eq!(round.script.steps[0].task, LevelTask::Sleep(260));

    let mut round = LevelRound::begin(false);
    assert!(matches!(round.script.goal, Goal::Ask(LevelQuestion::Settings)));
    round.settings_loaded(Ok(PublicSettings {
        mic_device_name: " Mic ".to_string(),
        ..Default::default()
    }));
    match &round.script.goal {
        Goal::Ask(LevelQuestion::Probe { mic, system }) => {
            assert_eq!(mic, &Some("Mic".to_string()));
            assert_eq!(system, &None);
        }
        other => panic!("unexpected goal {other:?}"),
    }
    round.probed(true);
    assert_eq!(round.script.steps[0].task, LevelTask::ShowMeasured);
    round.settle(Ok(()));
    assert_eq!(round.script.steps[0].task, LevelTask::Sleep(260));

    let mut round = LevelRound::begin(false);
    round.settings_loaded(Err("unreadable".to_string()));
    assert!(matches!(
        &round.script.goal,
        Goal::Ask(LevelQuestion::Probe { mic: None, system: None })
    ));
    round.probed(false);
    assert_eq!(round.script.steps[0].task, LevelTask::Reset);
}
