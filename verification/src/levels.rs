//! The input levels that are shown while nothing is recorded.
use crate::script::{
    a_script_that_goes_through_reaches_its_goal, attempt, may, outcome_model, steps_model, Goal,
    GoalModel, Script, ScriptModel, Step, StepModel,
};
use crate::settings::{probe_device, trimmed_if_set, PublicSettings, SettingsModel};
use crate::text::{is_blank, optional_text, trimmed};
use vstd::prelude::*;

verus! {

/// The milliseconds between two looks at the input levels.
pub const LIVE_LEVELS_IDLE_POLL_MS: u64 = 260;

/// Something that is done for the input levels.
#[derive(Clone, Copy, Debug, PartialEq, Eq, Structural)]
pub enum LevelTask {
    /// Show the levels that were measured.
    ShowMeasured,
    /// Show no levels.
    Reset,
    /// Wait for so many milliseconds.
    Sleep(u64),
}

impl View for LevelTask {
    type V = LevelTask;

    open spec fn view(&self) -> LevelTask {
        *self
    }
}

/// What a look at the input levels has to know to go on.
#[derive(Debug)]
pub enum LevelQuestion {
    /// What are the settings?
    Settings,
    /// Can the levels of the devices be measured?
    Probe { mic: Option<String>, system: Option<String> },
}

/// What a [`LevelQuestion`] says.
pub enum LevelQuestionModel {
    Settings,
    Probe { mic: Option<Seq<char>>, system: Option<Seq<char>> },
}

impl View for LevelQuestion {
    type V = LevelQuestionModel;

    open spec fn view(&self) -> LevelQuestionModel {
        match self {
            LevelQuestion::Settings => LevelQuestionModel::Settings,
            LevelQuestion::Probe { mic, system } => LevelQuestionModel::Probe {
                mic: optional_text(*mic),
                system: optional_text(*system),
            },
        }
    }
}

/// A look at the input levels.
#[derive(Debug)]
pub struct LevelRound {
    pub script: Script<LevelTask, LevelQuestion, ()>,
}

/// What a [`LevelRound`] says.
pub type LevelModel = ScriptModel<LevelTask, LevelQuestionModel, ()>;

impl View for LevelRound {
    type V = LevelModel;

    open spec fn view(&self) -> LevelModel {
        self.script@
    }
}

/// The step that comes last in every look.
pub open spec fn pause() -> StepModel<LevelTask> {
    may(LevelTask::Sleep(LIVE_LEVELS_IDLE_POLL_MS))
}

/// A look at its start: while a recording runs, the levels are left to it.
pub open spec fn level_round(recording_active: bool) -> LevelModel {
    if recording_active {
        ScriptModel::finishing(seq![pause()], Ok(()))
    } else {
        ScriptModel::asking(Seq::empty(), LevelQuestionModel::Settings)
    }
}

/// A look once the settings are known, or cannot be read: then no device is named.
pub open spec fn probing(settings: Option<SettingsModel>) -> LevelModel {
    ScriptModel::asking(
        Seq::empty(),
        match settings {
            Some(s) => LevelQuestionModel::Probe {
                mic: trimmed_if_set(s.mic_device_name),
                system: trimmed_if_set(s.system_device_name),
            },
            None => LevelQuestionModel::Probe { mic: None, system: None },
        },
    )
}

/// A look once the levels are measured, or could not be.
pub open spec fn measured(ok: bool) -> LevelModel {
    ScriptModel::finishing(
        seq![
            may(
                if ok {
                    LevelTask::ShowMeasured
                } else {
                    LevelTask::Reset
                },
            ),
            pause(),
        ],
        Ok(()),
    )
}

/// The settings that could be read.
pub open spec fn readable(settings: Result<PublicSettings, String>) -> Option<SettingsModel> {
    match settings {
        Ok(s) => Some(s@),
        Err(_) => None,
    }
}

impl LevelRound {
    /// Begins a look at the input levels.
    pub fn begin(recording_active: bool) -> (r: LevelRound)
        ensures
            r@ == level_round(recording_active),
    {
        let mut steps: Vec<Step<LevelTask>> = Vec::new();
        let goal = if recording_active {
            attempt(&mut steps, LevelTask::Sleep(LIVE_LEVELS_IDLE_POLL_MS));
            Goal::Finish(Ok(()))
        } else {
            Goal::Ask(LevelQuestion::Settings)
        };
        assert(steps_model(steps@) =~= level_round(recording_active).steps);
        LevelRound { script: Script { steps, goal } }
    }

    /// Takes note of what came of the first task of the script.
    pub fn settle(&mut self, outcome: Result<(), String>)
        requires
            old(self).script.steps@.len() > 0,
        ensures
            final(self)@ == old(self)@.settled(outcome_model(outcome)),
    {
        self.script.settle(outcome);
    }

    /// Goes on with the settings.
    pub fn settings_loaded(&mut self, settings: Result<PublicSettings, String>)
        requires
            old(self).script.steps@.len() == 0,
            old(self)@.goal matches GoalModel::Ask(LevelQuestionModel::Settings),
        ensures
            final(self)@ == probing(readable(settings)),
    {
        let steps: Vec<Step<LevelTask>> = Vec::new();
        assert(steps_model(steps@) =~= Seq::<StepModel<LevelTask>>::empty());
        let question = match settings {
            Ok(s) => LevelQuestion::Probe {
                mic: probe_device(s.mic_device_name.as_str()),
                system: probe_device(s.system_device_name.as_str()),
            },
            Err(_) => LevelQuestion::Probe { mic: None, system: None },
        };
        self.script = Script { steps, goal: Goal::Ask(question) };
    }

    /// Goes on once the levels are measured, or could not be.
    pub fn probed(&mut self, ok: bool)
        requires
            old(self).script.steps@.len() == 0,
            old(self)@.goal matches GoalModel::Ask(LevelQuestionModel::Probe { .. }),
        ensures
            final(self)@ == measured(ok),
    {
        let mut steps: Vec<Step<LevelTask>> = Vec::new();
        attempt(
            &mut steps,
            if ok {
                LevelTask::ShowMeasured
            } else {
                LevelTask::Reset
            },
        );
        attempt(&mut steps, LevelTask::Sleep(LIVE_LEVELS_IDLE_POLL_MS));
        assert(steps_model(steps@) =~= measured(ok).steps);
        self.script = Script { steps, goal: Goal::Finish(Ok(())) };
    }
}

/// Every look ends with a pause, and while a recording runs it does nothing else.
pub proof fn every_look_ends_with_a_pause(recording_active: bool, ok: bool)
    ensures
        measured(ok).tasks().last() == LevelTask::Sleep(LIVE_LEVELS_IDLE_POLL_MS),
        recording_active ==> level_round(recording_active).tasks() == seq![
            LevelTask::Sleep(LIVE_LEVELS_IDLE_POLL_MS),
        ],
{
    assert(level_round(true).tasks() =~= seq![LevelTask::Sleep(LIVE_LEVELS_IDLE_POLL_MS)]);
}

/// While no recording runs, a look asks for the settings, and then for the levels of the devices that
/// they name, without the white space around the names: of a microphone and of a source of the
/// sound of the system, each by itself, and of none where its name is blank or the settings
/// cannot be read.
pub proof fn a_look_is_at_the_devices_of_the_settings(settings: Result<PublicSettings, String>)
    ensures
        level_round(false).awaits(LevelQuestionModel::Settings),
        match settings {
            Err(_) => probing(readable(settings)).awaits(
                LevelQuestionModel::Probe { mic: None, system: None },
            ),
            Ok(s) => probing(readable(settings)).awaits(
                LevelQuestionModel::Probe {
                    mic: if is_blank(s.mic_device_name@) {
                        None
                    } else {
                        Some(trimmed(s.mic_device_name@))
                    },
                    system: if is_blank(s.system_device_name@) {
                        None
                    } else {
                        Some(trimmed(s.system_device_name@))
                    },
                },
            ),
        },
{
}

/// A look shows the levels that were measured, or none where they could not be, and then pauses for
/// 260 milliseconds; while a recording runs it only pauses. It comes to a good end whatever comes
/// of its tasks.
pub proof fn a_look_shows_what_was_measured(
    ok: bool,
    answer: spec_fn(LevelTask) -> Result<(), Seq<char>>,
)
    ensures
        measured(ok).attempted(answer) == seq![
            if ok {
                LevelTask::ShowMeasured
            } else {
                LevelTask::Reset
            },
            LevelTask::Sleep(260),
        ],
        measured(ok).carried_out(answer).is_over(Ok(())),
        level_round(true).attempted(answer) == seq![LevelTask::Sleep(260)],
        level_round(true).carried_out(answer).is_over(Ok(())),
{
    a_script_that_goes_through_reaches_its_goal(measured(ok), answer);
    a_script_that_goes_through_reaches_its_goal(level_round(true), answer);
    assert(measured(ok).tasks() =~= seq![
        if ok {
            LevelTask::ShowMeasured
        } else {
            LevelTask::Reset
        },
        LevelTask::Sleep(260),
    ]);
    assert(level_round(true).tasks() =~= seq![LevelTask::Sleep(260)]);
}

} // verus!
