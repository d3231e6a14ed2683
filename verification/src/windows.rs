//! The windows, the tray icon and the shortcuts: what they do, and when.
use crate::json::{
    document_within, json_document, message_says_recording, parse_recording_flag,
};
use crate::script::{
    a_script_that_goes_through_reaches_its_goal, attempt, may, must, require, steps_model, Goal,
    GoalModel, Script, ScriptModel, Step, StepModel,
};
use crate::text::{ascii_lowered, trimmed};
use vstd::prelude::*;

verus! {

/// The windows of the program.
#[derive(Clone, Copy, Debug, PartialEq, Eq, Structural)]
pub enum AppWindow {
    Main,
    Tray,
    Settings,
}

impl AppWindow {
    /// The label of the window.
    pub open spec fn text(self) -> Seq<char> {
        match self {
            AppWindow::Main => "main"@,
            AppWindow::Tray => "tray"@,
            AppWindow::Settings => "settings"@,
        }
    }

    /// The label of the window.
    pub fn label(self) -> (r: &'static str)
        ensures
            r@ == self.text(),
    {
        match self {
            AppWindow::Main => "main",
            AppWindow::Tray => "tray",
            AppWindow::Settings => "settings",
        }
    }
}

/// How the system colours its windows.
#[derive(Clone, Copy, Debug, PartialEq, Eq, Structural)]
pub enum Theme {
    Light,
    Dark,
}

/// The pictures for the tray.
#[derive(Clone, Copy, Debug, PartialEq, Eq, Structural)]
pub enum TrayIconVariant {
    IdleLight,
    IdleDark,
    RecDark,
}

/// What the windows are told of the tray and the shortcuts.
#[derive(Clone, Copy, Debug, PartialEq, Eq, Structural)]
pub enum TrayEvent {
    Start,
    Stop,
}

impl TrayEvent {
    /// The name of the event.
    pub open spec fn text(self) -> Seq<char> {
        match self {
            TrayEvent::Start => "tray:start"@,
            TrayEvent::Stop => "tray:stop"@,
        }
    }

    /// The name of the event.
    pub fn name(self) -> (r: &'static str)
        ensures
            r@ == self.text(),
    {
        match self {
            TrayEvent::Start => "tray:start",
            TrayEvent::Stop => "tray:stop",
        }
    }
}

/// Something that is done to the windows or the tray icon.
#[derive(Clone, Copy, Debug, PartialEq, Eq, Structural)]
pub enum ShellTask {
    Show(AppWindow),
    Hide(AppWindow),
    Focus(AppWindow),
    /// Make a window as [`window_spec`] says.
    Build(AppWindow),
    /// Put the tray window at the place where the tray icon was clicked.
    PlacePopover,
    /// Give the windows the icon for the theme of the system.
    ApplySystemIcons,
    /// Give the windows the icon for a theme.
    ApplyIcons(Theme),
    /// Read the icon of the program for a theme.
    LoadAppIcon(Theme),
    /// Give a window the icon that was read.
    SetWindowIcon(AppWindow),
    /// Set the words that the tray icon shows.
    SetTooltip { recording: bool },
    /// Read a picture and give it to the tray icon.
    SetTrayIcon(TrayIconVariant),
    /// Let the tray icon keep its colours.
    KeepTrayColors,
    /// Show in the tray whether a recording runs.
    ShowRecording(bool),
    /// Do not close the window that is about to close.
    PreventClose,
    FocusMain,
    ToggleMain,
    OpenTray,
    OpenSettings,
    TogglePopover,
    /// Tell the windows of an event.
    Emit(TrayEvent),
    StopActiveRecording,
    Exit,
}

impl View for ShellTask {
    type V = ShellTask;

    open spec fn view(&self) -> ShellTask {
        *self
    }
}

/// What is done to the windows or the tray icon, one thing after the other.
pub type ShellScript = Script<ShellTask, (), ()>;

/// What a [`ShellScript`] says.
pub type ShellModel = ScriptModel<ShellTask, (), ()>;

/// A script of steps alone.
pub open spec fn doing(steps: Seq<StepModel<ShellTask>>) -> ShellModel {
    ScriptModel::finishing(steps, Ok(()))
}

/// A script that does nothing.
pub open spec fn idle() -> ShellModel {
    doing(Seq::empty())
}

fn script(steps: Vec<Step<ShellTask>>) -> (r: ShellScript)
    ensures
        r@ == doing(steps_model(steps@)),
{
    Script { steps, goal: Goal::Finish(Ok(())) }
}

fn nothing() -> (r: ShellScript)
    ensures
        r@ == idle(),
{
    let steps: Vec<Step<ShellTask>> = Vec::new();
    assert(steps_model(steps@) =~= Seq::<StepModel<ShellTask>>::empty());
    script(steps)
}

/// Whether a window hides in the tray in place of closing.
pub fn should_intercept_close_to_tray(window_label: &str) -> (r: bool)
    ensures
        r == (window_label@ == "main"@),
{
    *window_label == *"main"
}

/// Whether a word says no.
pub open spec fn says_no(word: Seq<char>) -> bool {
    word == "0"@ || word == "false"@ || word == "no"@ || word == "off"@
}

/// Whether the program starts hidden: as the word in the environment says, or by default where there
/// is none. Every word but a no, in upper or lower case, is a yes.
pub fn should_start_hidden_on_launch(value: Option<&str>, default_hidden: bool) -> (r: bool)
    ensures
        r == match value {
            None => default_hidden,
            Some(raw) => !says_no(ascii_lowered(trimmed(raw@))),
        },
{
    match value {
        None => default_hidden,
        Some(raw) => {
            let word = raw.trim().to_ascii_lowercase();
            let word = word.as_str();
            !(*word == *"0" || *word == *"false" || *word == *"no" || *word == *"off")
        },
    }
}

/// The variable of the environment that says whether the program starts hidden.
pub const START_HIDDEN_VARIABLE: &'static str = "BIGECHO_START_HIDDEN";

/// Whether the program starts hidden, as it does unless the word in the environment is a no.
pub fn starts_hidden(value: Option<&str>) -> (r: bool)
    ensures
        r == match value {
            None => true,
            Some(raw) => !says_no(ascii_lowered(trimmed(raw@))),
        },
{
    should_start_hidden_on_launch(value, true)
}

/// Whether a left click on the tray icon shows its menu.
pub fn should_show_context_menu_on_left_click(platform: &str) -> (r: bool)
    ensures
        r == (platform@ == "windows"@),
{
    *platform == *"windows"
}

/// Whether a left click on the tray icon shows or hides the tray window.
pub fn should_toggle_tray_popover_on_left_click(platform: &str) -> (r: bool)
    ensures
        r == (platform@ == "macos"@),
{
    *platform == *"macos"
}

/// Whether the tray window hides when its focus changes.
pub fn should_hide_tray_popover_on_focus_lost(platform: &str, focused: bool) -> (r: bool)
    ensures
        r == (platform@ == "macos"@ && !focused),
{
    *platform == *"macos" && !focused
}

/// The picture for the tray: while a recording runs it is the same for every theme.
pub open spec fn tray_variant(theme: Theme, is_recording: bool) -> TrayIconVariant {
    if is_recording {
        TrayIconVariant::RecDark
    } else if theme is Dark {
        TrayIconVariant::IdleDark
    } else {
        TrayIconVariant::IdleLight
    }
}

/// The picture for the tray.
pub fn choose_tray_icon_variant(theme: Theme, is_recording: bool) -> (r: TrayIconVariant)
    ensures
        r == tray_variant(theme, is_recording),
{
    if is_recording {
        return TrayIconVariant::RecDark;
    }
    match theme {
        Theme::Dark => TrayIconVariant::IdleDark,
        Theme::Light => TrayIconVariant::IdleLight,
    }
}

/// The pictures of the program, as the bytes of their files.
#[derive(Clone, Copy, Debug)]
pub struct IconFiles<'a> {
    pub app_light: &'a [u8],
    pub app_dark: &'a [u8],
    pub tray_idle_light: &'a [u8],
    pub tray_idle_dark: &'a [u8],
    pub tray_rec_dark: &'a [u8],
}

/// The bytes of a picture for the tray.
pub fn tray_icon_bytes<'a>(icons: &IconFiles<'a>, variant: TrayIconVariant) -> (r: &'a [u8])
    ensures
        r@ == match variant {
            TrayIconVariant::IdleLight => icons.tray_idle_light@,
            TrayIconVariant::IdleDark => icons.tray_idle_dark@,
            TrayIconVariant::RecDark => icons.tray_rec_dark@,
        },
{
    match variant {
        TrayIconVariant::IdleLight => icons.tray_idle_light,
        TrayIconVariant::IdleDark => icons.tray_idle_dark,
        TrayIconVariant::RecDark => icons.tray_rec_dark,
    }
}

/// The bytes of the icon of the program.
pub fn app_icon_bytes<'a>(icons: &IconFiles<'a>, theme: Theme) -> (r: &'a [u8])
    ensures
        r@ == match theme {
            Theme::Dark => icons.app_dark@,
            Theme::Light => icons.app_light@,
        },
{
    match theme {
        Theme::Dark => icons.app_dark,
        Theme::Light => icons.app_light,
    }
}

/// The theme of the system: that of the first window that knows it, else the light one.
pub fn resolve_system_theme(main: Option<Theme>, tray: Option<Theme>, settings: Option<Theme>) -> (r:
    Theme)
    ensures
        r == match (main, tray, settings) {
            (Some(t), _, _) => t,
            (None, Some(t), _) => t,
            (None, None, Some(t)) => t,
            (None, None, None) => Theme::Light,
        },
{
    match main {
        Some(t) => t,
        None => match tray {
            Some(t) => t,
            None => match settings {
                Some(t) => t,
                None => Theme::Light,
            },
        },
    }
}

/// The steps that give the icon that was read to each of the windows that are open.
pub open spec fn icon_steps(main: bool, tray: bool, settings: bool) -> Seq<StepModel<ShellTask>> {
    let none = Seq::<StepModel<ShellTask>>::empty();
    let a = if main {
        none.push(must(ShellTask::SetWindowIcon(AppWindow::Main)))
    } else {
        none
    };
    let b = if tray {
        a.push(must(ShellTask::SetWindowIcon(AppWindow::Tray)))
    } else {
        a
    };
    if settings {
        b.push(must(ShellTask::SetWindowIcon(AppWindow::Settings)))
    } else {
        b
    }
}

/// Gives the windows that are open the icon for a theme.
pub fn apply_app_icons_for_theme(theme: Theme, main: bool, tray: bool, settings: bool) -> (r:
    ShellScript)
    ensures
        r@ == doing(
            seq![must(ShellTask::LoadAppIcon(theme))] + icon_steps(main, tray, settings),
        ),
{
    let mut steps: Vec<Step<ShellTask>> = Vec::new();
    require(&mut steps, ShellTask::LoadAppIcon(theme));
    if main {
        require(&mut steps, ShellTask::SetWindowIcon(AppWindow::Main));
    }
    if tray {
        require(&mut steps, ShellTask::SetWindowIcon(AppWindow::Tray));
    }
    if settings {
        require(&mut steps, ShellTask::SetWindowIcon(AppWindow::Settings));
    }
    assert(steps_model(steps@) =~= seq![must(ShellTask::LoadAppIcon(theme))] + icon_steps(
        main,
        tray,
        settings,
    ));
    script(steps)
}

/// The words that the tray icon shows.
pub open spec fn tooltip(recording: bool) -> Seq<char> {
    if recording {
        "BigEcho REC"@
    } else {
        "BigEcho IDLE"@
    }
}

/// The words that the tray icon shows.
pub fn tray_tooltip(recording: bool) -> (r: &'static str)
    ensures
        r@ == tooltip(recording),
{
    if recording {
        "BigEcho REC"
    } else {
        "BigEcho IDLE"
    }
}

/// The steps that show in the tray whether a recording runs.
pub open spec fn indicator_steps(is_recording: bool, theme: Theme, platform: Seq<char>) -> Seq<
    StepModel<ShellTask>,
> {
    let steps = seq![
        must(ShellTask::SetTooltip { recording: is_recording }),
        must(ShellTask::SetTrayIcon(tray_variant(theme, is_recording))),
    ];
    if platform == "macos"@ {
        steps.push(must(ShellTask::KeepTrayColors))
    } else {
        steps
    }
}

/// Shows in the tray, where there is one, whether a recording runs.
pub fn set_tray_indicator(tray_is_there: bool, is_recording: bool, theme: Theme, platform: &str) -> (r:
    ShellScript)
    ensures
        r@ == if tray_is_there {
            doing(indicator_steps(is_recording, theme, platform@))
        } else {
            idle()
        },
{
    if !tray_is_there {
        return nothing();
    }
    let mut steps: Vec<Step<ShellTask>> = Vec::new();
    require(&mut steps, ShellTask::SetTooltip { recording: is_recording });
    require(&mut steps, ShellTask::SetTrayIcon(choose_tray_icon_variant(theme, is_recording)));
    if *platform == *"macos" {
        require(&mut steps, ShellTask::KeepTrayColors);
    }
    assert(steps_model(steps@) =~= indicator_steps(is_recording, theme, platform@));
    script(steps)
}

/// The steps that bring a window to the front.
pub open spec fn raising(window: AppWindow) -> Seq<StepModel<ShellTask>> {
    seq![must(ShellTask::Show(window)), must(ShellTask::Focus(window))]
}

fn raise(steps: &mut Vec<Step<ShellTask>>, window: AppWindow)
    ensures
        steps_model(final(steps)@) == steps_model(old(steps)@) + raising(window),
{
    require(steps, ShellTask::Show(window));
    require(steps, ShellTask::Focus(window));
    assert(steps_model(steps@) =~= steps_model(old(steps)@) + raising(window));
}

/// Brings the main window to the front, where it is open.
pub fn focus_main_window(open: bool) -> (r: ShellScript)
    ensures
        r@ == if open {
            doing(raising(AppWindow::Main))
        } else {
            idle()
        },
{
    if !open {
        return nothing();
    }
    let mut steps: Vec<Step<ShellTask>> = Vec::new();
    raise(&mut steps, AppWindow::Main);
    assert(steps_model(steps@) =~= raising(AppWindow::Main));
    script(steps)
}

/// Whether a window is there to be seen, or why that is not known.
pub open spec fn visible_model(visible: Result<bool, String>) -> Result<bool, Seq<char>> {
    match visible {
        Ok(v) => Ok(v),
        Err(e) => Err(e@),
    }
}

/// What happens to a window that is open when it is shown or hidden by turns: `before` comes before
/// it is shown.
pub open spec fn toggling(
    window: AppWindow,
    visible: Result<bool, Seq<char>>,
    before: Seq<StepModel<ShellTask>>,
) -> ShellModel {
    match visible {
        Err(e) => ScriptModel::finishing(Seq::empty(), Err(e)),
        Ok(true) => doing(seq![must(ShellTask::Hide(window))]),
        Ok(false) => doing(before + raising(window)),
    }
}

fn toggle(window: AppWindow, visible: Result<bool, String>, place: bool) -> (r: ShellScript)
    ensures
        r@ == toggling(window, visible_model(visible), placing(place)),
{
    let mut steps: Vec<Step<ShellTask>> = Vec::new();
    match visible {
        Err(e) => {
            assert(steps_model(steps@) =~= Seq::<StepModel<ShellTask>>::empty());
            Script { steps, goal: Goal::Finish(Err(e)) }
        },
        Ok(true) => {
            require(&mut steps, ShellTask::Hide(window));
            assert(steps_model(steps@) =~= seq![must(ShellTask::Hide(window))]);
            script(steps)
        },
        Ok(false) => {
            if place {
                attempt(&mut steps, ShellTask::PlacePopover);
            }
            assert(steps_model(steps@) =~= placing(place));
            raise(&mut steps, window);
            script(steps)
        },
    }
}

/// Shows the main window where it is hidden, and hides it where it is shown.
pub fn toggle_main_window_visibility(open: bool, visible: Result<bool, String>) -> (r: ShellScript)
    ensures
        r@ == if open {
            toggling(AppWindow::Main, visible_model(visible), placing(false))
        } else {
            idle()
        },
{
    if open {
        toggle(AppWindow::Main, visible, false)
    } else {
        nothing()
    }
}

/// The step that puts the tray window in its place, where that is known.
pub open spec fn placing(place: bool) -> Seq<StepModel<ShellTask>> {
    if place {
        seq![may(ShellTask::PlacePopover)]
    } else {
        Seq::empty()
    }
}

/// The steps that open a window: it is made where it is not open yet, gets the icon of the
/// program, and comes to the front.
pub open spec fn opening(window: AppWindow, open: bool) -> Seq<StepModel<ShellTask>> {
    (if open {
        Seq::empty()
    } else {
        seq![must(ShellTask::Build(window))]
    }) + seq![may(ShellTask::ApplySystemIcons)] + raising(window)
}

fn open_steps(window: AppWindow, open: bool) -> (r: Vec<Step<ShellTask>>)
    ensures
        steps_model(r@) == opening(window, open),
{
    let mut steps: Vec<Step<ShellTask>> = Vec::new();
    if !open {
        require(&mut steps, ShellTask::Build(window));
    }
    attempt(&mut steps, ShellTask::ApplySystemIcons);
    raise(&mut steps, window);
    assert(steps_model(steps@) =~= opening(window, open));
    steps
}

/// Opens the settings.
pub fn open_settings_window_internal(open: bool) -> (r: ShellScript)
    ensures
        r@ == doing(opening(AppWindow::Settings, open)),
{
    script(open_steps(AppWindow::Settings, open))
}

/// Opens the tray window.
pub fn open_tray_window_internal(open: bool) -> (r: ShellScript)
    ensures
        r@ == doing(opening(AppWindow::Tray, open)),
{
    script(open_steps(AppWindow::Tray, open))
}

/// Shows the tray window where it is hidden or not open, and hides it where it is shown. Where the
/// icon was clicked somewhere, the window is put there: before it is shown where it was open, and
/// once it is made where it was not.
pub fn toggle_tray_window_visibility(open: bool, visible: Result<bool, String>, anchored: bool) -> (r:
    ShellScript)
    ensures
        r@ == if open {
            toggling(AppWindow::Tray, visible_model(visible), placing(anchored))
        } else {
            doing(opening(AppWindow::Tray, false) + placing(anchored))
        },
{
    if open {
        return toggle(AppWindow::Tray, visible, anchored);
    }
    let mut steps = open_steps(AppWindow::Tray, false);
    if anchored {
        attempt(&mut steps, ShellTask::PlacePopover);
    }
    assert(steps_model(steps@) =~= opening(AppWindow::Tray, false) + placing(anchored));
    script(steps)
}

/// How a window is made.
#[derive(Clone, Copy, Debug, PartialEq, Eq)]
pub struct WindowSpec {
    pub label: &'static str,
    pub page: &'static str,
    pub title: &'static str,
    pub width: u32,
    pub height: u32,
    pub resizable: bool,
    pub always_on_top: bool,
    pub skip_taskbar: bool,
    /// Without a frame and a shadow, see-through, and on every workspace.
    pub bare: bool,
}

/// How a window that is not there from the start is made on a platform.
pub fn window_spec(window: AppWindow, platform: &str) -> (r: Option<WindowSpec>)
    ensures
        match r {
            None => window is Main,
            Some(s) => {
                let tray = window is Tray;
                &&& !(window is Main)
                &&& s.label@ == window.text()
                &&& s.page@ == "index.html"@
                &&& s.title@ == if tray {
                    "BigEcho Recorder"@
                } else {
                    "BigEcho Settings"@
                }
                &&& s.width == if tray {
                    460u32
                } else {
                    720u32
                }
                &&& s.height == if tray {
                    244u32
                } else {
                    620u32
                }
                &&& s.resizable == !tray
                &&& s.always_on_top == tray
                &&& s.skip_taskbar == tray
                &&& s.bare == (tray && platform@ == "macos"@)
            },
        },
{
    match window {
        AppWindow::Main => None,
        AppWindow::Settings => Some(
            WindowSpec {
                label: "settings",
                page: "index.html",
                title: "BigEcho Settings",
                width: 720,
                height: 620,
                resizable: true,
                always_on_top: false,
                skip_taskbar: false,
                bare: false,
            },
        ),
        AppWindow::Tray => Some(
            WindowSpec {
                label: "tray",
                page: "index.html",
                title: "BigEcho Recorder",
                width: 460,
                height: 244,
                resizable: false,
                always_on_top: true,
                skip_taskbar: true,
                bare: *platform == *"macos",
            },
        ),
    }
}

/// The number of 32 bits with a sign that has the same bits as `n`.
pub open spec fn as_signed(n: u32) -> int {
    if n < 0x8000_0000 {
        n as int
    } else {
        n - 0x1_0000_0000
    }
}

/// Half of a number, rounded towards zero.
pub open spec fn half(n: int) -> int {
    if n >= 0 {
        n / 2
    } else {
        -((-n) / 2)
    }
}

/// Where the tray window stands for a click at a place: centred on it, and a little below.
pub open spec fn popover_place(anchor_x: i32, anchor_y: i32, width: u32) -> (int, int) {
    (anchor_x - half(as_signed(width)), anchor_y + 12)
}

/// Where the tray window stands for a click at a place.
pub fn position_tray_popover(anchor_x: i32, anchor_y: i32, width: u32) -> (r: (i32, i32))
    requires
        i32::MIN <= popover_place(anchor_x, anchor_y, width).0 <= i32::MAX,
        i32::MIN <= popover_place(anchor_x, anchor_y, width).1 <= i32::MAX,
    ensures
        (r.0 as int, r.1 as int) == popover_place(anchor_x, anchor_y, width),
{
    let half: i32 = if width < 0x8000_0000 {
        (width / 2) as i32
    } else {
        -(((0x1_0000_0000u64 - width as u64) / 2) as i32)
    };
    (anchor_x - half, anchor_y + 12)
}

/// What happens to a window.
#[derive(Clone, Copy, Debug, PartialEq, Eq, Structural)]
pub enum WindowEvent {
    ThemeChanged(Theme),
    CloseRequested,
    Focused(bool),
    Other,
}

/// What follows on an event of the main window: it takes over a new theme, and hides in place of
/// closing.
pub fn on_main_window_event(label: &str, event: WindowEvent, recording_active: bool) -> (r:
    ShellScript)
    ensures
        r@ == match event {
            WindowEvent::ThemeChanged(theme) => doing(
                seq![
                    may(ShellTask::ApplyIcons(theme)),
                    may(ShellTask::ShowRecording(recording_active)),
                ],
            ),
            WindowEvent::CloseRequested => if label@ == "main"@ {
                doing(seq![may(ShellTask::PreventClose), may(ShellTask::Hide(AppWindow::Main))])
            } else {
                idle()
            },
            _ => idle(),
        },
{
    let mut steps: Vec<Step<ShellTask>> = Vec::new();
    match event {
        WindowEvent::ThemeChanged(theme) => {
            attempt(&mut steps, ShellTask::ApplyIcons(theme));
            attempt(&mut steps, ShellTask::ShowRecording(recording_active));
            assert(steps_model(steps@) =~= seq![
                may(ShellTask::ApplyIcons(theme)),
                may(ShellTask::ShowRecording(recording_active)),
            ]);
            script(steps)
        },
        WindowEvent::CloseRequested => {
            if should_intercept_close_to_tray(label) {
                attempt(&mut steps, ShellTask::PreventClose);
                attempt(&mut steps, ShellTask::Hide(AppWindow::Main));
                assert(steps_model(steps@) =~= seq![
                    may(ShellTask::PreventClose),
                    may(ShellTask::Hide(AppWindow::Main)),
                ]);
                script(steps)
            } else {
                nothing()
            }
        },
        _ => nothing(),
    }
}

/// What follows on an event of the tray window: it hides where it loses the focus, on the platforms
/// where it stands at the icon.
pub fn on_tray_window_event(event: WindowEvent, platform: &str) -> (r: ShellScript)
    ensures
        r@ == if event == WindowEvent::Focused(false) && platform@ == "macos"@ {
            doing(seq![may(ShellTask::Hide(AppWindow::Tray))])
        } else {
            idle()
        },
{
    if let WindowEvent::Focused(focused) = event {
        if should_hide_tray_popover_on_focus_lost(platform, focused) {
            let mut steps: Vec<Step<ShellTask>> = Vec::new();
            attempt(&mut steps, ShellTask::Hide(AppWindow::Tray));
            assert(steps_model(steps@) =~= seq![may(ShellTask::Hide(AppWindow::Tray))]);
            return script(steps);
        }
    }
    nothing()
}

/// What follows on a click on the tray icon.
pub fn on_tray_click(left_button: bool, released: bool, platform: &str) -> (r: ShellScript)
    ensures
        r@ == if left_button && released && platform@ == "macos"@ {
            doing(seq![may(ShellTask::TogglePopover)])
        } else {
            idle()
        },
{
    if left_button && released && should_toggle_tray_popover_on_left_click(platform) {
        let mut steps: Vec<Step<ShellTask>> = Vec::new();
        attempt(&mut steps, ShellTask::TogglePopover);
        assert(steps_model(steps@) =~= seq![may(ShellTask::TogglePopover)]);
        script(steps)
    } else {
        nothing()
    }
}

/// The keys that start a recording.
pub const REC_HOTKEY: &'static str = "CmdOrCtrl+Shift+R";

/// The keys that stop a recording.
pub const STOP_HOTKEY: &'static str = "CmdOrCtrl+Shift+S";

/// The steps that stop the active recording from outside the windows, which are told of it first.
pub open spec fn stopping_steps() -> Seq<StepModel<ShellTask>> {
    seq![may(ShellTask::Emit(TrayEvent::Stop)), may(ShellTask::StopActiveRecording)]
}

/// What follows on a shortcut.
pub fn on_shortcut(shortcut: &str, pressed: bool) -> (r: ShellScript)
    ensures
        r@ == if !pressed {
            idle()
        } else if shortcut@ == REC_HOTKEY@ {
            doing(seq![may(ShellTask::Emit(TrayEvent::Start))])
        } else if shortcut@ == STOP_HOTKEY@ {
            doing(stopping_steps())
        } else {
            idle()
        },
{
    if !pressed {
        return nothing();
    }
    let mut steps: Vec<Step<ShellTask>> = Vec::new();
    if *shortcut == *REC_HOTKEY {
        attempt(&mut steps, ShellTask::Emit(TrayEvent::Start));
        assert(steps_model(steps@) =~= seq![may(ShellTask::Emit(TrayEvent::Start))]);
        script(steps)
    } else if *shortcut == *STOP_HOTKEY {
        attempt(&mut steps, ShellTask::Emit(TrayEvent::Stop));
        attempt(&mut steps, ShellTask::StopActiveRecording);
        assert(steps_model(steps@) =~= stopping_steps());
        script(steps)
    } else {
        nothing()
    }
}

/// The identifier of the tray icon.
pub const TRAY_ICON_ID: &'static str = "bigecho-tray";

/// The event by which a window says that a recording was started or stopped.
pub const RECORDING_STATUS_EVENT: &'static str = "recording:status";

/// The event by which a window says that it shows a recording, or none.
pub const UI_RECORDING_EVENT: &'static str = "ui:recording";

/// What follows on a message about a recording: the tray shows what it says. Other events say
/// nothing of a recording.
pub fn on_recording_message(event: &str, payload: &str) -> (r: ShellScript)
    ensures
        r@ == if event@ == RECORDING_STATUS_EVENT@ || event@ == UI_RECORDING_EVENT@ {
            doing(
                seq![
                    may(
                        ShellTask::ShowRecording(
                            message_says_recording(
                                json_document(payload@),
                                document_within(json_document(payload@)),
                            ),
                        ),
                    ),
                ],
            )
        } else {
            idle()
        },
{
    if *event == *RECORDING_STATUS_EVENT || *event == *UI_RECORDING_EVENT {
        let recording = parse_recording_flag(payload);
        let mut steps: Vec<Step<ShellTask>> = Vec::new();
        attempt(&mut steps, ShellTask::ShowRecording(recording));
        assert(steps_model(steps@) =~= seq![may(ShellTask::ShowRecording(recording))]);
        script(steps)
    } else {
        nothing()
    }
}

/// While a recording runs, the tray shows the same picture whatever the theme, and shows it at no
/// other time.
pub proof fn the_tray_shows_a_recording_whatever_the_theme(a: Theme, b: Theme, is_recording: bool)
    ensures
        tray_variant(a, is_recording) == TrayIconVariant::RecDark <==> is_recording,
        is_recording ==> tray_variant(a, is_recording) == tray_variant(b, is_recording),
        !is_recording && tray_variant(a, false) == tray_variant(b, false) ==> a == b,
{
}

/// A window that was hidden is shown by a toggle, one that was shown is hidden, whether or not it is
/// put in its place before it is shown.
pub proof fn toggling_shows_or_hides(window: AppWindow, visible: bool, place: bool)
    ensures
        ({
            let tasks = toggling(window, Ok(visible), placing(place)).tasks();
            &&& tasks.contains(ShellTask::Hide(window)) <==> visible
            &&& tasks.contains(ShellTask::Show(window)) <==> !visible
            &&& tasks.contains(ShellTask::Focus(window)) <==> !visible
            &&& tasks.contains(ShellTask::PlacePopover) <==> !visible && place
        }),
{
    let tasks = toggling(window, Ok(visible), placing(place)).tasks();
    if visible {
        assert(tasks =~= seq![ShellTask::Hide(window)]);
        assert(tasks[0] == ShellTask::Hide(window));
    } else if place {
        assert(tasks =~= seq![
            ShellTask::PlacePopover,
            ShellTask::Show(window),
            ShellTask::Focus(window),
        ]);
        assert(tasks[0] == ShellTask::PlacePopover);
        assert(tasks[1] == ShellTask::Show(window));
        assert(tasks[2] == ShellTask::Focus(window));
    } else {
        assert(tasks =~= seq![ShellTask::Show(window), ShellTask::Focus(window)]);
        assert(tasks[0] == ShellTask::Show(window));
        assert(tasks[1] == ShellTask::Focus(window));
    }
}

/// A window that is opened is made where it is not open yet, gets the icon of the program, is shown
/// and gets the focus, in this order; all but the icon has to succeed.
pub proof fn an_opened_window_comes_to_the_front(window: AppWindow, open: bool)
    ensures
        ({
            let script = doing(opening(window, open));
            &&& script.tasks() == if open {
                seq![
                    ShellTask::ApplySystemIcons,
                    ShellTask::Show(window),
                    ShellTask::Focus(window),
                ]
            } else {
                seq![
                    ShellTask::Build(window),
                    ShellTask::ApplySystemIcons,
                    ShellTask::Show(window),
                    ShellTask::Focus(window),
                ]
            }
            &&& forall|i: int|
                0 <= i < script.steps.len() ==> (#[trigger] script.steps[i]).required
                    == !(script.steps[i].task is ApplySystemIcons)
            &&& script.goal == GoalModel::<(), ()>::Finish(Ok(()))
        }),
{
    let script = doing(opening(window, open));
    assert(script.tasks() =~= if open {
        seq![ShellTask::ApplySystemIcons, ShellTask::Show(window), ShellTask::Focus(window)]
    } else {
        seq![
            ShellTask::Build(window),
            ShellTask::ApplySystemIcons,
            ShellTask::Show(window),
            ShellTask::Focus(window),
        ]
    });
}

/// A window that is raised is shown before it gets the focus, and both have to succeed.
pub proof fn a_raised_window_is_shown_and_focused(window: AppWindow)
    ensures
        doing(raising(window)).tasks() == seq![ShellTask::Show(window), ShellTask::Focus(window)],
        forall|i: int| 0 <= i < 2 ==> (#[trigger] raising(window)[i]).required,
        doing(raising(window)).goal == GoalModel::<(), ()>::Finish(Ok(())),
        idle().tasks() == Seq::<ShellTask>::empty(),
        idle().goal == GoalModel::<(), ()>::Finish(Ok(())),
{
    assert(doing(raising(window)).tasks() =~= seq![
        ShellTask::Show(window),
        ShellTask::Focus(window),
    ]);
    assert(idle().tasks() =~= Seq::<ShellTask>::empty());
}

/// A toggle does one thing or the other: it hides a window that is shown; it puts one that is hidden
/// in its place, where that is known, and brings it to the front; and where it is not known which
/// of them it is, it fails with that and does nothing. Only the place may be missed.
pub proof fn a_toggle_hides_or_raises(window: AppWindow, visible: Result<bool, String>, place: bool)
    ensures
        ({
            let script = toggling(window, visible_model(visible), placing(place));
            match visible {
                Err(e) => script.is_over(Err(e@)),
                Ok(shown) => {
                    &&& script.tasks() == if shown {
                        seq![ShellTask::Hide(window)]
                    } else if place {
                        seq![
                            ShellTask::PlacePopover,
                            ShellTask::Show(window),
                            ShellTask::Focus(window),
                        ]
                    } else {
                        seq![ShellTask::Show(window), ShellTask::Focus(window)]
                    }
                    &&& forall|i: int|
                        0 <= i < script.steps.len() ==> (#[trigger] script.steps[i]).required
                            == !(script.steps[i].task is PlacePopover)
                    &&& script.goal == GoalModel::<(), ()>::Finish(Ok(()))
                },
            }
        }),
{
    let script = toggling(window, visible_model(visible), placing(place));
    if let Ok(shown) = visible {
        assert(script.tasks() =~= if shown {
            seq![ShellTask::Hide(window)]
        } else if place {
            seq![ShellTask::PlacePopover, ShellTask::Show(window), ShellTask::Focus(window)]
        } else {
            seq![ShellTask::Show(window), ShellTask::Focus(window)]
        });
    }
}

/// A tray window that is made by a toggle is opened as any other, and put in its place behind that
/// where it is known; only the place and the icon may be missed.
pub proof fn a_new_popover_is_opened_and_placed(place: bool)
    ensures
        ({
            let script = doing(opening(AppWindow::Tray, false) + placing(place));
            let opened = seq![
                ShellTask::Build(AppWindow::Tray),
                ShellTask::ApplySystemIcons,
                ShellTask::Show(AppWindow::Tray),
                ShellTask::Focus(AppWindow::Tray),
            ];
            &&& script.tasks() == if place {
                opened.push(ShellTask::PlacePopover)
            } else {
                opened
            }
            &&& forall|i: int|
                0 <= i < script.steps.len() ==> (#[trigger] script.steps[i]).required
                    == !(script.steps[i].task is PlacePopover || script.steps[i].task
                    is ApplySystemIcons)
        }),
{
    let script = doing(opening(AppWindow::Tray, false) + placing(place));
    let opened = seq![
        ShellTask::Build(AppWindow::Tray),
        ShellTask::ApplySystemIcons,
        ShellTask::Show(AppWindow::Tray),
        ShellTask::Focus(AppWindow::Tray),
    ];
    assert(script.tasks() =~= if place {
        opened.push(ShellTask::PlacePopover)
    } else {
        opened
    });
}

/// The icon is read for the theme and then given to the windows that are open and to no others, the
/// main window first and the settings last; each has to succeed.
pub proof fn every_open_window_gets_the_icon(theme: Theme, main: bool, tray: bool, settings: bool)
    ensures
        ({
            let script = doing(
                seq![must(ShellTask::LoadAppIcon(theme))] + icon_steps(main, tray, settings),
            );
            let given = |window: AppWindow, open: bool|
                if open {
                    seq![ShellTask::SetWindowIcon(window)]
                } else {
                    Seq::<ShellTask>::empty()
                };
            &&& script.tasks() == seq![ShellTask::LoadAppIcon(theme)] + given(
                AppWindow::Main,
                main,
            ) + given(AppWindow::Tray, tray) + given(AppWindow::Settings, settings)
            &&& forall|i: int|
                0 <= i < script.steps.len() ==> (#[trigger] script.steps[i]).required
        }),
{
    let script = doing(
        seq![must(ShellTask::LoadAppIcon(theme))] + icon_steps(main, tray, settings),
    );
    let given = |window: AppWindow, open: bool|
        if open {
            seq![ShellTask::SetWindowIcon(window)]
        } else {
            Seq::<ShellTask>::empty()
        };
    assert(script.tasks() =~= seq![ShellTask::LoadAppIcon(theme)] + given(AppWindow::Main, main)
        + given(AppWindow::Tray, tray) + given(AppWindow::Settings, settings));
}

/// The tray shows whether a recording runs by its words and its picture, and keeps its colours on
/// macOS; each has to succeed. The picture goes by the theme only while none runs.
pub proof fn the_tray_shows_whether_a_recording_runs(
    is_recording: bool,
    theme: Theme,
    platform: Seq<char>,
)
    ensures
        ({
            let script = doing(indicator_steps(is_recording, theme, platform));
            let picture = if is_recording {
                TrayIconVariant::RecDark
            } else {
                match theme {
                    Theme::Light => TrayIconVariant::IdleLight,
                    Theme::Dark => TrayIconVariant::IdleDark,
                }
            };
            &&& script.tasks() == if platform == "macos"@ {
                seq![
                    ShellTask::SetTooltip { recording: is_recording },
                    ShellTask::SetTrayIcon(picture),
                    ShellTask::KeepTrayColors,
                ]
            } else {
                seq![
                    ShellTask::SetTooltip { recording: is_recording },
                    ShellTask::SetTrayIcon(picture),
                ]
            }
            &&& forall|i: int|
                0 <= i < script.steps.len() ==> (#[trigger] script.steps[i]).required
        }),
        tooltip(is_recording) == if is_recording {
            "BigEcho REC"@
        } else {
            "BigEcho IDLE"@
        },
{
    let script = doing(indicator_steps(is_recording, theme, platform));
    let picture = tray_variant(theme, is_recording);
    assert(script.tasks() =~= if platform == "macos"@ {
        seq![
            ShellTask::SetTooltip { recording: is_recording },
            ShellTask::SetTrayIcon(picture),
            ShellTask::KeepTrayColors,
        ]
    } else {
        seq![ShellTask::SetTooltip { recording: is_recording }, ShellTask::SetTrayIcon(picture)]
    });
}

/// To stop a recording from outside the windows, they are told first, and then it is stopped; neither
/// keeps the other from happening.
pub proof fn the_windows_are_told_before_a_stop(
    answer: spec_fn(ShellTask) -> Result<(), Seq<char>>,
)
    ensures
        doing(stopping_steps()).attempted(answer) == seq![
            ShellTask::Emit(TrayEvent::Stop),
            ShellTask::StopActiveRecording,
        ],
        doing(stopping_steps()).carried_out(answer).is_over(Ok(())),
{
    a_script_that_goes_through_reaches_its_goal(doing(stopping_steps()), answer);
    assert(doing(stopping_steps()).tasks() =~= seq![
        ShellTask::Emit(TrayEvent::Stop),
        ShellTask::StopActiveRecording,
    ]);
}

/// The tray window is centred on the click, to the pixel, and stands twelve pixels below it, whatever
/// the click. A width beyond the numbers with a sign counts as the negative number with its bits.
pub proof fn the_popover_is_centred_below_the_click(anchor_x: i32, anchor_y: i32, width: u32)
    ensures
        ({
            let (x, y) = popover_place(anchor_x, anchor_y, width);
            &&& y == anchor_y + 12
            &&& width < 0x8000_0000 ==> 0 <= width - 2 * (anchor_x - x) <= 1
            &&& width >= 0x8000_0000 ==> 0 <= 2 * (anchor_x - x) - (width - 0x1_0000_0000) <= 1
        }),
{
}

/// Every window has its label, and every event of the tray its name.
pub proof fn every_window_and_event_has_its_name(window: AppWindow, event: TrayEvent)
    ensures
        window.text() == match window {
            AppWindow::Main => "main"@,
            AppWindow::Tray => "tray"@,
            AppWindow::Settings => "settings"@,
        },
        event.text() == match event {
            TrayEvent::Start => "tray:start"@,
            TrayEvent::Stop => "tray:stop"@,
        },
{
}

/// A word says no where it is one of four.
pub proof fn four_words_say_no(word: Seq<char>)
    ensures
        says_no(word) <==> word == "0"@ || word == "false"@ || word == "no"@ || word == "off"@,
{
}

} // verus!
