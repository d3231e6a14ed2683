//! What the windows share: the source and the topic in the form, and whether a recording runs.
use crate::session::SessionMeta;
use crate::text::{blank, is_blank, optional_text, trimmed, trimmed_string};
use vstd::prelude::*;

verus! {

/// The form for the next recording.
#[derive(Debug, PartialEq, Eq)]
pub struct UiSyncState {
    pub source: String,
    pub topic: String,
}

/// What a [`UiSyncState`] says.
pub struct UiModel {
    pub source: Seq<char>,
    pub topic: Seq<char>,
}

impl View for UiSyncState {
    type V = UiModel;

    open spec fn view(&self) -> UiModel {
        UiModel { source: self.source@, topic: self.topic@ }
    }
}

impl Default for UiSyncState {
    fn default() -> (r: UiSyncState)
        ensures
            r@ == (UiModel { source: "slack"@, topic: ""@ }),
    {
        UiSyncState { source: "slack".to_owned(), topic: "".to_owned() }
    }
}

impl Clone for UiSyncState {
    fn clone(&self) -> (r: UiSyncState)
        ensures
            r@ == self@,
    {
        UiSyncState { source: self.source.clone(), topic: self.topic.clone() }
    }
}

impl UiModel {
    /// The form after an edit: a blank source leaves the one that is there.
    pub open spec fn edited(self, source: Seq<char>, topic: Seq<char>) -> UiModel {
        UiModel {
            source: if is_blank(source) {
                self.source
            } else {
                trimmed(source)
            },
            topic,
        }
    }
}

/// Takes over an edit of the form. A blank source leaves the one that is there; the topic is taken
/// as it is.
pub fn set_ui_sync_state(ui: &mut UiSyncState, source: String, topic: String) -> (r: Result<
    String,
    String,
>)
    ensures
        final(ui)@ == old(ui)@.edited(source@, topic@),
        r is Ok && r->Ok_0@ == "updated"@,
{
    if !blank(source.as_str()) {
        ui.source = trimmed_string(source.as_str());
    }
    ui.topic = topic;
    Ok("updated".to_owned())
}

/// What a window is told.
#[derive(Debug, PartialEq, Eq)]
pub struct UiSyncStateView {
    pub source: String,
    pub topic: String,
    pub is_recording: bool,
    pub active_session_id: Option<String>,
}

/// Tells a window what is in the form, and which session is being recorded.
pub fn get_ui_sync_state(ui: &UiSyncState, active: &Option<SessionMeta>) -> (r: UiSyncStateView)
    ensures
        r.source@ == ui@.source,
        r.topic@ == ui@.topic,
        r.is_recording == (active is Some),
        optional_text(r.active_session_id) == match *active {
            Some(m) => Some(m@.session_id),
            None => None,
        },
{
    let active_session_id = match active {
        Some(meta) => Some(meta.session_id.clone()),
        None => None,
    };
    UiSyncStateView {
        source: ui.source.clone(),
        topic: ui.topic.clone(),
        is_recording: is_recording_active(active),
        active_session_id,
    }
}

/// Whether a recording runs.
pub fn is_recording_active(active: &Option<SessionMeta>) -> (r: bool)
    ensures
        r == (active is Some),
{
    active.is_some()
}

/// An edit that is made twice is made once.
pub proof fn editing_twice_is_editing_once(ui: UiModel, source: Seq<char>, topic: Seq<char>)
    ensures
        ui.edited(source, topic).edited(source, topic) == ui.edited(source, topic),
{
}

/// An edit takes over the topic as it is, whatever the source, and the source without the white
/// space around it, whatever the topic; a blank source leaves the one that was there.
pub proof fn an_edit_takes_each_field_by_itself(ui: UiModel, source: Seq<char>, topic: Seq<char>)
    ensures
        ui.edited(source, topic).topic == topic,
        is_blank(source) ==> ui.edited(source, topic).source == ui.source,
        !is_blank(source) ==> ui.edited(source, topic).source == trimmed(source),
{
}

} // verus!
