//! The settings of the recorder, and what follows from them.
use crate::text::{blank, is_blank, trimmed, trimmed_string};
use std::path::Path;
use vstd::prelude::*;

verus! {

/// The settings that are kept in the open; secrets are kept elsewhere.
#[derive(Debug, PartialEq, Eq)]
pub struct PublicSettings {
    pub recording_root: String,
    pub transcription_url: String,
    pub transcription_task: String,
    pub transcription_diarization_setting: String,
    pub summary_url: String,
    pub summary_prompt: String,
    pub openai_model: String,
    pub opus_bitrate_kbps: u32,
    pub mic_device_name: String,
    pub system_device_name: String,
    pub auto_run_pipeline_on_stop: bool,
    pub api_call_logging_enabled: bool,
}

/// What the [`PublicSettings`] say.
pub struct SettingsModel {
    pub recording_root: Seq<char>,
    pub transcription_url: Seq<char>,
    pub transcription_task: Seq<char>,
    pub transcription_diarization_setting: Seq<char>,
    pub summary_url: Seq<char>,
    pub summary_prompt: Seq<char>,
    pub openai_model: Seq<char>,
    pub opus_bitrate_kbps: u32,
    pub mic_device_name: Seq<char>,
    pub system_device_name: Seq<char>,
    pub auto_run_pipeline_on_stop: bool,
    pub api_call_logging_enabled: bool,
}

impl View for PublicSettings {
    type V = SettingsModel;

    open spec fn view(&self) -> SettingsModel {
        SettingsModel {
            recording_root: self.recording_root@,
            transcription_url: self.transcription_url@,
            transcription_task: self.transcription_task@,
            transcription_diarization_setting: self.transcription_diarization_setting@,
            summary_url: self.summary_url@,
            summary_prompt: self.summary_prompt@,
            openai_model: self.openai_model@,
            opus_bitrate_kbps: self.opus_bitrate_kbps,
            mic_device_name: self.mic_device_name@,
            system_device_name: self.system_device_name@,
            auto_run_pipeline_on_stop: self.auto_run_pipeline_on_stop,
            api_call_logging_enabled: self.api_call_logging_enabled,
        }
    }
}

impl SettingsModel {
    /// The settings before anything was set: recordings go below the data of the program, no
    /// service is known and nothing runs by itself.
    pub open spec fn initial() -> SettingsModel {
        SettingsModel {
            recording_root: "recordings"@,
            transcription_url: ""@,
            transcription_task: ""@,
            transcription_diarization_setting: ""@,
            summary_url: ""@,
            summary_prompt: ""@,
            openai_model: ""@,
            opus_bitrate_kbps: 24,
            mic_device_name: ""@,
            system_device_name: ""@,
            auto_run_pipeline_on_stop: false,
            api_call_logging_enabled: false,
        }
    }

    /// Whether a finished recording is handed to the pipeline by itself.
    pub open spec fn runs_pipeline_by_itself(self) -> bool {
        &&& self.auto_run_pipeline_on_stop
        &&& !is_blank(self.transcription_url)
        &&& !is_blank(self.summary_url)
    }
}

impl Default for PublicSettings {
    fn default() -> (r: PublicSettings)
        ensures
            r@ == SettingsModel::initial(),
    {
        PublicSettings {
            recording_root: "recordings".to_owned(),
            transcription_url: "".to_owned(),
            transcription_task: "".to_owned(),
            transcription_diarization_setting: "".to_owned(),
            summary_url: "".to_owned(),
            summary_prompt: "".to_owned(),
            openai_model: "".to_owned(),
            opus_bitrate_kbps: 24,
            mic_device_name: "".to_owned(),
            system_device_name: "".to_owned(),
            auto_run_pipeline_on_stop: false,
            api_call_logging_enabled: false,
        }
    }
}

/// Whether a finished recording is handed to the pipeline by itself: the switch is on, and
/// both services have an address.
pub fn should_auto_run_pipeline_after_stop(settings: &PublicSettings) -> (r: bool)
    ensures
        r == settings@.runs_pipeline_by_itself(),
{
    settings.auto_run_pipeline_on_stop && !blank(settings.transcription_url.as_str()) && !blank(
        settings.summary_url.as_str(),
    )
}

/// A name that is set, as it is written; none where it is blank.
pub open spec fn name_if_set(name: Seq<char>) -> Option<Seq<char>> {
    if is_blank(name) {
        None
    } else {
        Some(name)
    }
}

/// A name that is set, without the white space around it; none where it is blank.
pub open spec fn trimmed_if_set(name: Seq<char>) -> Option<Seq<char>> {
    if is_blank(name) {
        None
    } else {
        Some(trimmed(name))
    }
}

/// The name of a device to record from, as it is written in the settings; none where it is
/// blank.
pub fn device_if_set(name: &str) -> (r: Option<String>)
    ensures
        crate::text::optional_text(r) == name_if_set(name@),
{
    if blank(name) {
        None
    } else {
        Some(name.to_owned())
    }
}

/// The name of a device to listen to, without the white space around it; none where it is
/// blank.
pub fn probe_device(name: &str) -> (r: Option<String>)
    ensures
        crate::text::optional_text(r) == trimmed_if_set(name@),
{
    let name = trimmed_string(name);
    if name.as_str().is_empty() {
        None
    } else {
        Some(name)
    }
}

/// Whether a character parts the names in a path on one platform.
pub open spec fn is_separator(c: char) -> bool {
    c == '/' || c == '\\'
}

/// Whether every platform takes a text for a path below another directory: it does not begin with a
/// separator and names no drive.
pub open spec fn is_plainly_relative(s: Seq<char>) -> bool {
    &&& s.len() > 0 ==> !is_separator(s[0])
    &&& s.len() > 1 ==> s[1] != ':'
}

/// Whether every platform takes a text for a path that begins at a root.
pub open spec fn is_rooted(s: Seq<char>) -> bool {
    s.len() > 0 && s[0] == '/'
}

/// Whether a path may begin with a drive or with the name of a machine.
pub open spec fn has_prefix(s: Seq<char>) -> bool {
    s.len() > 1 && (s[1] == ':' || is_separator(s[0]) && is_separator(s[1]))
}

/// Whether a path begins with `\\?\`, which one platform takes for a path to be read word for word.
pub open spec fn is_verbatim(s: Seq<char>) -> bool {
    s.len() > 3 && s[0] == '\\' && s[1] == '\\' && s[2] == '?' && s[3] == '\\'
}

/// `std::path::Path::is_absolute`. Which paths are absolute rests on the platform; on each an
/// absolute path starts at a root, so a plainly relative one is not absolute.
#[verifier::external_body]
fn is_absolute(path: &str) -> (r: bool)
    ensures
        r ==> !is_plainly_relative(path@),
{
    Path::new(path).is_absolute()
}

/// Whether `path` is `tail` put behind `base`. A separator stands between them, unless `base` is
/// empty, ends in one, or is a drive.
pub open spec fn directly_below(base: Seq<char>, tail: Seq<char>, path: Seq<char>) -> bool {
    ||| path == base + tail && (base.len() == 0 || is_separator(base.last()) || base.last() == ':')
    ||| path == base + seq!['/'] + tail
    ||| path == base + seq!['\\'] + tail
}

/// Whether `path` is `tail` put in the place of `base`, or of all of it but the drive or the machine
/// that it begins with.
pub open spec fn in_place(base: Seq<char>, tail: Seq<char>, path: Seq<char>) -> bool {
    ||| path == tail
    ||| has_prefix(base) && exists|n: int|
        0 < n <= base.len() && path == #[trigger] base.take(n) + tail
}

/// Whether every part of a path between separators is a name that does not begin with a dot.
pub open spec fn has_plain_parts(s: Seq<char>) -> bool {
    forall|i: int|
        0 <= i < s.len() && is_separator(#[trigger] s[i]) ==> i + 1 < s.len() && !is_separator(
            s[i + 1],
        ) && s[i + 1] != '.'
}

/// Whether a path is a row of names: it begins with one, and so does every part of it.
pub open spec fn is_row_of_names(s: Seq<char>) -> bool {
    &&& s.len() > 0
    &&& s[0] != '.'
    &&& is_plainly_relative(s)
    &&& has_plain_parts(s)
}

/// Whether a path that is to be read word for word holds no part that might be left out: what
/// follows on the first separators is a row of names with one kind of separator between them.
pub open spec fn is_tidy_verbatim(s: Seq<char>) -> bool {
    &&& is_verbatim(s)
    &&& forall|i: int| 0 <= i < s.len() ==> s[i] != '/'
    &&& s.len() > 4
    &&& !is_separator(s[4]) && s[4] != '.'
    &&& has_plain_parts(s.skip(4))
}

/// A path with every separator written in one way.
pub open spec fn with_backslashes(s: Seq<char>) -> Seq<char> {
    s.map_values(
        |c: char|
            if c == '/' {
                '\\'
            } else {
                c
            },
    )
}

/// Whether `path` is `base` and `tail` put together: behind each other where `tail` is plainly
/// relative, in the place of `base` where it is rooted, and one or the other where that rests on the
/// platform. Where `base` is to be read word for word, this is said of a row of names, which may have
/// its separators rewritten, behind a tidy path.
pub open spec fn joined(base: Seq<char>, tail: Seq<char>, path: Seq<char>) -> bool {
    if is_verbatim(base) {
        is_tidy_verbatim(base) && is_row_of_names(tail) ==> directly_below(base, tail, path)
            || directly_below(base, with_backslashes(tail), path)
    } else if is_plainly_relative(tail) {
        directly_below(base, tail, path)
    } else if is_rooted(tail) {
        in_place(base, tail, path)
    } else {
        directly_below(base, tail, path) || in_place(base, tail, path)
    }
}

/// `std::path::Path::join`, as text. The second path is put behind the first, with a separator where
/// one is needed; where it is absolute, or has a drive or a root of its own, it replaces the first
/// one, or all of it but its drive. Which of these it has rests on the platform where it is neither
/// plainly relative nor rooted. Behind a first path that is to be read word for word one platform
/// brings what follows into a normal form; this is said of paths that are in it but for their
/// separators, and nothing of others.
#[verifier::external_body]
fn join(base: &str, tail: &str) -> (r: String)
    ensures
        joined(base@, tail@, r@),
{
    Path::new(base).join(tail).to_string_lossy().into_owned()
}

/// The directory for recordings where it is known whether the configured one is absolute, and
/// what it becomes below the data of the program.
pub fn recordings_root(recording_root: &str, absolute: bool, below_app_data: String) -> (r: String)
    ensures
        r@ == if absolute {
            recording_root@
        } else {
            below_app_data@
        },
{
    if absolute {
        recording_root.to_owned()
    } else {
        below_app_data
    }
}

/// Whether `root` is the directory for recordings: what the settings name, taken as it is or put
/// together with the directory for the data of the program.
pub open spec fn is_root_of(
    app_data_dir: Seq<char>,
    settings: SettingsModel,
    root: Seq<char>,
) -> bool {
    &&& joined(app_data_dir, settings.recording_root, root) || !is_plainly_relative(
        settings.recording_root,
    ) && root == settings.recording_root
    &&& is_rooted(settings.recording_root) && !has_prefix(app_data_dir) ==> root
        == settings.recording_root
}

/// The directory for recordings: the configured one where it is absolute, else the one of that
/// name below the data of the program. There is always one. A rooted one is taken as it is, and a
/// plainly relative one is put below the data of the program; whether another one is absolute rests
/// on the platform.
pub fn root_recordings_dir(app_data_dir: &str, settings: &PublicSettings) -> (r: Result<
    String,
    String,
>)
    ensures
        r is Ok,
        is_root_of(app_data_dir@, settings@, r->Ok_0@),
{
    let root = settings.recording_root.as_str();
    Ok(recordings_root(root, is_absolute(root), join(app_data_dir, root)))
}

/// The directory of a session: its place among the recordings, below their root.
pub fn session_dir(root: &str, relative_dir: &str) -> (r: String)
    ensures
        joined(root@, relative_dir@, r@),
{
    join(root, relative_dir)
}

/// Where the data of the program lies below a root, so do the recordings, wherever they are put.
pub proof fn recordings_are_rooted_where_the_data_is(
    app_data_dir: Seq<char>,
    recording_root: Seq<char>,
    root: Seq<char>,
)
    requires
        is_rooted(app_data_dir),
        !has_prefix(app_data_dir),
        is_rooted(recording_root) || is_plainly_relative(recording_root),
        joined(app_data_dir, recording_root, root),
    ensures
        is_rooted(root),
{
    if is_plainly_relative(recording_root) {
        assert(root[0] == app_data_dir[0]);
    }
}

/// A rooted directory for recordings does not depend on where the data of the program lies.
pub proof fn a_rooted_directory_does_not_depend_on_the_data(
    here: Seq<char>,
    there: Seq<char>,
    recording_root: Seq<char>,
    root_here: Seq<char>,
    root_there: Seq<char>,
)
    requires
        is_rooted(recording_root),
        !has_prefix(here),
        !has_prefix(there),
        joined(here, recording_root, root_here),
        joined(there, recording_root, root_there),
    ensures
        root_here == root_there,
{
}

/// Before anything was set, recordings go to the directory `recordings`, at 24 kilobits a second; no
/// service, device or prompt is named, and nothing runs or is logged by itself.
pub proof fn nothing_is_set_at_first()
    ensures
        ({
            let s = SettingsModel::initial();
            &&& s.recording_root == "recordings"@
            &&& s.opus_bitrate_kbps == 24
            &&& s.transcription_url == ""@
            &&& s.transcription_task == ""@
            &&& s.transcription_diarization_setting == ""@
            &&& s.summary_url == ""@
            &&& s.summary_prompt == ""@
            &&& s.openai_model == ""@
            &&& s.mic_device_name == ""@
            &&& s.system_device_name == ""@
            &&& !s.auto_run_pipeline_on_stop
            &&& !s.api_call_logging_enabled
            &&& !s.runs_pipeline_by_itself()
        }),
{
}

/// A finished recording is handed to the pipeline by itself where the switch is on and both services
/// have an address, and nothing else counts.
pub proof fn only_the_switch_and_the_addresses_count(settings: SettingsModel)
    ensures
        settings.runs_pipeline_by_itself() <==> settings.auto_run_pipeline_on_stop && !is_blank(
            settings.transcription_url,
        ) && !is_blank(settings.summary_url),
{
}

/// The name of a device is none where it is blank. Otherwise a recording takes it as it is written,
/// and a look at the levels without the white space around it.
pub proof fn a_device_is_named_unless_the_name_is_blank(name: Seq<char>)
    ensures
        is_blank(name) ==> name_if_set(name) is None && trimmed_if_set(name) is None,
        !is_blank(name) ==> name_if_set(name) == Some(name) && trimmed_if_set(name) == Some(
            trimmed(name),
        ),
{
}

/// The recordings lie where the settings say: a plainly relative directory is put behind that for the
/// data of the program, with one separator between them at most, where that is not to be read
/// word for word; and a rooted one is taken as it is, where the data are on no drive or machine of
/// their own.
pub proof fn recordings_lie_where_the_settings_say(
    app_data_dir: Seq<char>,
    settings: SettingsModel,
    root: Seq<char>,
)
    requires
        is_root_of(app_data_dir, settings, root),
    ensures
        is_plainly_relative(settings.recording_root) && !is_verbatim(app_data_dir) ==> {
            ||| root == app_data_dir + settings.recording_root
            ||| root == app_data_dir + seq!['/'] + settings.recording_root
            ||| root == app_data_dir + seq!['\\'] + settings.recording_root
        },
        is_rooted(settings.recording_root) && !has_prefix(app_data_dir) ==> root
            == settings.recording_root,
{
}

} // verus!
