//! The details of a session: how they are shown and edited.
use crate::script::{steps_model, Goal, GoalModel, Script, ScriptModel, Step, StepModel};
use crate::session::{
    open_for_writing, open_meta, opened_for_writing, opened_meta, FoundSession, SessionMeta,
    SessionModel,
};
use crate::task::{publish, published, EventKind, Task, TaskModel};
use crate::text::{
    blank, is_blank, texts, trimmed, trimmed_string, trimming_twice_is_trimming_once,
};
use vstd::prelude::*;

verus! {

/// The details of a session as they are shown.
#[derive(Debug, PartialEq, Eq)]
pub struct SessionMetaView {
    pub session_id: String,
    pub source: String,
    pub custom_tag: String,
    pub topic: String,
    pub participants: Vec<String>,
}

/// The details of a session as they are wanted.
#[derive(Debug, PartialEq, Eq)]
pub struct UpdateSessionDetailsRequest {
    pub session_id: String,
    pub source: String,
    pub custom_tag: String,
    pub topic: String,
    pub participants: Vec<String>,
}

/// What the details of a session say.
pub struct DetailsModel {
    pub session_id: Seq<char>,
    pub source: Seq<char>,
    pub custom_tag: Seq<char>,
    pub topic: Seq<char>,
    pub participants: Seq<Seq<char>>,
}

impl View for SessionMetaView {
    type V = DetailsModel;

    open spec fn view(&self) -> DetailsModel {
        DetailsModel {
            session_id: self.session_id@,
            source: self.source@,
            custom_tag: self.custom_tag@,
            topic: self.topic@,
            participants: texts(self.participants@),
        }
    }
}

impl View for UpdateSessionDetailsRequest {
    type V = DetailsModel;

    open spec fn view(&self) -> DetailsModel {
        DetailsModel {
            session_id: self.session_id@,
            source: self.source@,
            custom_tag: self.custom_tag@,
            topic: self.topic@,
            participants: texts(self.participants@),
        }
    }
}

/// The first tag that is not blank, or nothing.
pub open spec fn first_named(tags: Seq<Seq<char>>) -> Seq<char>
    decreases tags.len(),
{
    if tags.len() == 0 {
        ""@
    } else if is_blank(tags.first()) {
        first_named(tags.drop_first())
    } else {
        tags.first()
    }
}

/// The tags behind the source.
pub open spec fn tags_of_the_user(tags: Seq<Seq<char>>) -> Seq<Seq<char>> {
    if tags.len() == 0 {
        Seq::empty()
    } else {
        tags.drop_first()
    }
}

/// The names in a list, without the white space around them; blank ones are left out.
pub open spec fn names_in(list: Seq<Seq<char>>) -> Seq<Seq<char>> {
    list.map_values(|s: Seq<char>| trimmed(s)).filter(|s: Seq<char>| s.len() > 0)
}

impl SessionModel {
    /// The details to show: the tag of the user is the first one behind the source that is not
    /// blank.
    pub open spec fn details(self) -> DetailsModel {
        DetailsModel {
            session_id: self.session_id,
            source: self.primary_tag,
            custom_tag: first_named(tags_of_the_user(self.tags)),
            topic: self.topic,
            participants: self.participants,
        }
    }

    /// The session with other details: a blank source leaves the one that is there, a blank tag of
    /// the user is none, and blank participants are left out.
    pub open spec fn edited(self, wanted: DetailsModel) -> SessionModel {
        let source = if is_blank(wanted.source) {
            self.primary_tag
        } else {
            trimmed(wanted.source)
        };
        SessionModel {
            primary_tag: source,
            tags: if is_blank(wanted.custom_tag) {
                seq![source]
            } else {
                seq![source, trimmed(wanted.custom_tag)]
            },
            topic: trimmed(wanted.topic),
            participants: names_in(wanted.participants),
            ..self
        }
    }
}

fn custom_tag(tags: &Vec<String>) -> (r: String)
    ensures
        r@ == first_named(tags_of_the_user(texts(tags@))),
{
    let ghost all = texts(tags@);
    if tags.len() == 0 {
        return "".to_owned();
    }
    let mut i: usize = 1;
    assert(tags_of_the_user(all) =~= all.skip(1));
    while i < tags.len()
        invariant
            all == texts(tags@),
            1 <= i <= tags@.len(),
            first_named(tags_of_the_user(all)) == first_named(all.skip(i as int)),
        decreases tags@.len() - i,
    {
        assert(all.skip(i as int).first() == tags@[i as int]@);
        assert(all.skip(i as int).drop_first() =~= all.skip(i + 1));
        if !blank(tags[i].as_str()) {
            return tags[i].clone();
        }
        i = i + 1;
    }
    "".to_owned()
}

/// What came of asking for the details of a session.
pub open spec fn shown_details(
    found: Result<Option<FoundSession>, String>,
    meta: Result<SessionMeta, String>,
) -> Result<DetailsModel, Seq<char>> {
    match opened_meta(found, meta) {
        Ok(m) => Ok(m.details()),
        Err(e) => Err(e),
    }
}

/// Shows the details of a session that the index was asked for.
pub fn get_session_meta(
    found: Result<Option<FoundSession>, String>,
    meta: Result<SessionMeta, String>,
) -> (r: Result<SessionMetaView, String>)
    ensures
        match r {
            Ok(v) => shown_details(found, meta) == Ok::<DetailsModel, Seq<char>>(v@),
            Err(e) => shown_details(found, meta) == Err::<DetailsModel, Seq<char>>(e@),
        },
{
    match open_meta(found, meta) {
        Err(e) => Err(e),
        Ok(meta) => {
            let custom_tag = custom_tag(&meta.tags);
            Ok(
                SessionMetaView {
                    session_id: meta.session_id,
                    source: meta.primary_tag,
                    custom_tag,
                    topic: meta.topic,
                    participants: meta.participants,
                },
            )
        },
    }
}

proof fn lemma_names_step(list: Seq<Seq<char>>, name: Seq<char>)
    ensures
        names_in(list.push(name)) == if is_blank(name) {
            names_in(list)
        } else {
            names_in(list).push(trimmed(name))
        },
{
    reveal(Seq::filter);
    let f = |s: Seq<char>| trimmed(s);
    let longer = list.push(name).map_values(f);
    assert(longer.drop_last() =~= list.map_values(f));
    assert(longer.last() == trimmed(name));
}

fn names(list: &Vec<String>) -> (r: Vec<String>)
    ensures
        texts(r@) == names_in(texts(list@)),
{
    let mut kept: Vec<String> = Vec::new();
    assert(texts(kept@) =~= names_in(texts(list@).take(0))) by {
        reveal(Seq::filter);
    }
    for i in 0..list.len()
        invariant
            texts(kept@) == names_in(texts(list@).take(i as int)),
    {
        let name = trimmed_string(list[i].as_str());
        proof {
            lemma_names_step(texts(list@).take(i as int), list@[i as int]@);
            assert(texts(list@).take(i + 1) =~= texts(list@).take(i as int).push(
                list@[i as int]@,
            ));
        }
        if !name.as_str().is_empty() {
            let ghost before = kept@;
            kept.push(name);
            assert(texts(kept@) =~= texts(before).push(name@));
        }
    }
    assert(texts(list@).take(list@.len() as int) =~= texts(list@));
    kept
}

fn edit(meta: &mut SessionMeta, wanted: &UpdateSessionDetailsRequest)
    ensures
        final(meta)@ == old(meta)@.edited(wanted@),
{
    let source = if blank(wanted.source.as_str()) {
        meta.primary_tag.clone()
    } else {
        trimmed_string(wanted.source.as_str())
    };
    let custom_tag = trimmed_string(wanted.custom_tag.as_str());
    let mut tags: Vec<String> = Vec::new();
    tags.push(source.clone());
    if !custom_tag.as_str().is_empty() {
        tags.push(custom_tag);
    }
    assert(texts(tags@) =~= old(meta)@.edited(wanted@).tags);
    meta.primary_tag = source;
    meta.tags = tags;
    meta.topic = trimmed_string(wanted.topic.as_str());
    meta.participants = names(&wanted.participants);
}

/// What an update of the details of a session does, where it is known what is kept of the session:
/// the change is made known, or nothing is done.
pub open spec fn details_update(
    wanted: DetailsModel,
    opened: Result<SessionModel, Seq<char>>,
) -> ScriptModel<TaskModel, (), Seq<char>> {
    match opened {
        Err(e) => ScriptModel::finishing(Seq::empty(), Err(e)),
        Ok(m) => ScriptModel::finishing(
            published(
                m.edited(wanted),
                EventKind::SessionDetailsUpdated,
                "Source/topic/participants updated"@,
            ),
            Ok("updated"@),
        ),
    }
}

/// Updates the details of a session.
pub fn update_session_details(
    wanted: &UpdateSessionDetailsRequest,
    found: Result<Option<FoundSession>, String>,
    meta: Result<SessionMeta, String>,
) -> (r: Script<Task, (), String>)
    ensures
        r@ == details_update(wanted@, opened_for_writing(found, meta)),
{
    let mut steps: Vec<Step<Task>> = Vec::new();
    match open_for_writing(found, meta) {
        Err(e) => {
            assert(steps_model(steps@) =~= Seq::<StepModel<TaskModel>>::empty());
            Script { steps, goal: Goal::Finish(Err(e)) }
        },
        Ok(opened) => {
            let mut meta = opened;
            edit(&mut meta, wanted);
            publish(
                &mut steps,
                &meta,
                EventKind::SessionDetailsUpdated,
                "Source/topic/participants updated",
            );
            assert(steps_model(steps@) =~= published(
                meta@,
                EventKind::SessionDetailsUpdated,
                "Source/topic/participants updated"@,
            ));
            Script { steps, goal: Goal::Finish(Ok("updated".to_owned())) }
        },
    }
}

proof fn lemma_names_are_trimmed(list: Seq<Seq<char>>)
    ensures
        forall|i: int|
            0 <= i < names_in(list).len() ==> (#[trigger] names_in(list)[i]).len() > 0 && trimmed(
                names_in(list)[i],
            ) == names_in(list)[i],
    decreases list.len(),
{
    if list.len() == 0 {
        reveal(Seq::filter);
    } else {
        let rest = list.drop_last();
        lemma_names_are_trimmed(rest);
        assert(list =~= rest.push(list.last()));
        lemma_names_step(rest, list.last());
        trimming_twice_is_trimming_once(list.last());
        assert forall|i: int| 0 <= i < names_in(list).len() implies (#[trigger] names_in(
            list,
        )[i]).len() > 0 && trimmed(names_in(list)[i]) == names_in(list)[i] by {
            if i < names_in(rest).len() {
                assert(names_in(list)[i] == names_in(rest)[i]);
            }
        }
    }
}

proof fn lemma_trimmed_names_stay(list: Seq<Seq<char>>)
    requires
        forall|i: int|
            0 <= i < list.len() ==> (#[trigger] list[i]).len() > 0 && trimmed(list[i]) == list[i],
    ensures
        names_in(list) == list,
    decreases list.len(),
{
    if list.len() == 0 {
        reveal(Seq::filter);
        assert(names_in(list) =~= list);
    } else {
        let rest = list.drop_last();
        assert forall|i: int| 0 <= i < rest.len() implies (#[trigger] rest[i]).len() > 0 && trimmed(
            rest[i],
        ) == rest[i] by {
            assert(rest[i] == list[i]);
        }
        lemma_trimmed_names_stay(rest);
        assert(list =~= rest.push(list.last()));
        assert(list.last() == list[list.len() - 1]);
        lemma_names_step(rest, list.last());
    }
}

/// What is shown after an update is what was wanted, without the white space around it.
pub proof fn an_update_is_read_back(meta: SessionModel, wanted: DetailsModel)
    ensures
        meta.edited(wanted).details() == (DetailsModel {
            session_id: meta.session_id,
            source: if is_blank(wanted.source) {
                meta.primary_tag
            } else {
                trimmed(wanted.source)
            },
            custom_tag: trimmed(wanted.custom_tag),
            topic: trimmed(wanted.topic),
            participants: names_in(wanted.participants),
        }),
{
    let edited = meta.edited(wanted);
    let behind = tags_of_the_user(edited.tags);
    reveal_strlit("");
    if is_blank(wanted.custom_tag) {
        assert(behind.len() == 0);
        assert(first_named(behind) =~= trimmed(wanted.custom_tag));
    } else {
        assert(behind =~= seq![trimmed(wanted.custom_tag)]);
        trimming_twice_is_trimming_once(wanted.custom_tag);
    }
}

/// An update that is made twice is made once.
pub proof fn updating_twice_is_updating_once(meta: SessionModel, wanted: DetailsModel)
    ensures
        meta.edited(wanted).edited(wanted) == meta.edited(wanted),
{
}

/// An update leaves the session itself as it is: its identifier, its times, its status and its
/// files.
pub proof fn an_update_touches_the_details_only(meta: SessionModel, wanted: DetailsModel)
    ensures
        meta.edited(wanted).session_id == meta.session_id,
        meta.edited(wanted).started_at_iso == meta.started_at_iso,
        meta.edited(wanted).ended_at_iso == meta.ended_at_iso,
        meta.edited(wanted).status == meta.status,
        meta.edited(wanted).artifacts == meta.artifacts,
        meta.edited(wanted).duration() == meta.duration(),
{
}

/// Saving the details that are shown after an update, unchanged, changes nothing. A source that was
/// kept has to be free of white space around it.
pub proof fn saving_what_is_shown_changes_nothing(meta: SessionModel, wanted: DetailsModel)
    requires
        is_blank(wanted.source) ==> is_blank(meta.primary_tag) || trimmed(meta.primary_tag)
            == meta.primary_tag,
    ensures
        ({
            let edited = meta.edited(wanted);
            edited.edited(edited.details()) == edited
        }),
{
    let edited = meta.edited(wanted);
    an_update_is_read_back(meta, wanted);
    trimming_twice_is_trimming_once(wanted.source);
    trimming_twice_is_trimming_once(wanted.custom_tag);
    trimming_twice_is_trimming_once(wanted.topic);
    lemma_names_are_trimmed(wanted.participants);
    lemma_trimmed_names_stay(names_in(wanted.participants));
    assert(edited.edited(edited.details()).tags =~= edited.tags);
}

/// The names in a list are those of its parts one after the other; a name by itself stays, without
/// the white space around it, unless it is blank.
pub proof fn names_are_taken_one_by_one(a: Seq<Seq<char>>, b: Seq<Seq<char>>, name: Seq<char>)
    ensures
        names_in(a + b) == names_in(a) + names_in(b),
        names_in(seq![name]) == if is_blank(name) {
            Seq::<Seq<char>>::empty()
        } else {
            seq![trimmed(name)]
        },
    decreases b.len(),
{
    let none = Seq::<Seq<char>>::empty();
    assert(names_in(none) =~= none) by {
        reveal(Seq::filter);
    }
    lemma_names_step(none, name);
    assert(none.push(name) =~= seq![name]);
    assert(none.push(trimmed(name)) =~= seq![trimmed(name)]);
    if b.len() == 0 {
        assert(b =~= none);
        assert(a + b =~= a);
        assert(names_in(a) + names_in(b) =~= names_in(a));
    } else {
        let rest = b.drop_last();
        assert(b =~= rest.push(b.last()));
        assert(a + b =~= (a + rest).push(b.last()));
        lemma_names_step(rest, b.last());
        lemma_names_step(a + rest, b.last());
        names_are_taken_one_by_one(a, rest, name);
        assert(names_in(a + b) =~= names_in(a) + names_in(b));
    }
}

proof fn lemma_first_named(tags: Seq<Seq<char>>, k: int)
    requires
        0 <= k <= tags.len(),
        forall|i: int| 0 <= i < k ==> is_blank(#[trigger] tags[i]),
    ensures
        k == tags.len() ==> first_named(tags) == ""@,
        k < tags.len() && !is_blank(tags[k]) ==> first_named(tags) == tags[k],
    decreases k,
{
    if k > 0 {
        assert(is_blank(tags[0]));
        lemma_first_named(tags.drop_first(), k - 1);
    }
}

/// The details that are shown of a session are its own: its identifier, its source, its topic and
/// its participants as they are; the tag of the user is the first tag behind the source that is not
/// blank, where `k` counts the blank ones, and empty where there is none.
pub proof fn details_are_shown_as_they_are(meta: SessionModel, k: int)
    requires
        0 <= k,
        forall|i: int| 1 <= i <= k && i < meta.tags.len() ==> is_blank(#[trigger] meta.tags[i]),
    ensures
        ({
            let shown = meta.details();
            &&& shown.session_id == meta.session_id
            &&& shown.source == meta.primary_tag
            &&& shown.topic == meta.topic
            &&& shown.participants == meta.participants
            &&& meta.tags.len() <= k + 1 ==> shown.custom_tag == ""@
            &&& meta.tags.len() > k + 1 && !is_blank(meta.tags[k + 1]) ==> shown.custom_tag
                == meta.tags[k + 1]
        }),
{
    let behind = tags_of_the_user(meta.tags);
    let blank = if k < behind.len() {
        k
    } else {
        behind.len() as int
    };
    assert forall|i: int| 0 <= i < blank implies is_blank(#[trigger] behind[i]) by {
        assert(behind[i] == meta.tags[i + 1]);
    }
    lemma_first_named(behind, blank);
}

/// After an update the tags of a session are its source, which is the first of them, and the tag of
/// the user behind it where there is one. A blank source leaves the one that was there.
pub proof fn an_update_sets_the_tags(meta: SessionModel, wanted: DetailsModel)
    ensures
        ({
            let edited = meta.edited(wanted);
            &&& edited.primary_tag == if is_blank(wanted.source) {
                meta.primary_tag
            } else {
                trimmed(wanted.source)
            }
            &&& edited.tags == if is_blank(wanted.custom_tag) {
                seq![edited.primary_tag]
            } else {
                seq![edited.primary_tag, trimmed(wanted.custom_tag)]
            }
        }),
{
}

/// An update of a session that could be opened saves the session with its new details, brings its
/// entry in the index up to date and logs that, in this order; if any of that fails the update
/// fails. Of a session that could not be opened nothing is done, and the update fails.
pub proof fn an_update_is_made_known(
    wanted: DetailsModel,
    opened: Result<SessionModel, Seq<char>>,
)
    ensures
        ({
            let update = details_update(wanted, opened);
            match opened {
                Err(e) => update.is_over(Err(e)),
                Ok(meta) => {
                    let edited = meta.edited(wanted);
                    &&& update.tasks() == seq![
                        TaskModel::SaveMeta(edited),
                        TaskModel::UpsertSession(edited),
                        TaskModel::AddEvent {
                            session_id: meta.session_id,
                            kind: EventKind::SessionDetailsUpdated,
                            detail: "Source/topic/participants updated"@,
                        },
                    ]
                    &&& forall|i: int|
                        0 <= i < update.steps.len() ==> (#[trigger] update.steps[i]).required
                    &&& update.goal == GoalModel::<(), Seq<char>>::Finish(Ok("updated"@))
                },
            }
        }),
{
    let update = details_update(wanted, opened);
    if let Ok(meta) = opened {
        let edited = meta.edited(wanted);
        assert(update.tasks() =~= seq![
            TaskModel::SaveMeta(edited),
            TaskModel::UpsertSession(edited),
            TaskModel::AddEvent {
                session_id: meta.session_id,
                kind: EventKind::SessionDetailsUpdated,
                detail: "Source/topic/participants updated"@,
            },
        ]);
    }
}

} // verus!
