//! The save coordinator: what a save request has to do, one step at a time.
//!
//! The steps that need the outside world (asking the user for a path, writing
//! a file) are named by [`SaveStep`]; whoever drives the save performs them and
//! reports back with a [`SaveEvent`]. An I/O failure ends the save with no
//! outcome, so the session is never touched on that path.
use vstd::prelude::*;
use crate::identity::{DocumentIdentity, IdentityModel};

verus! {

/// How a completed save ended.
pub enum SaveAction {
    /// A fresh path was chosen and written; this is the identity of the new file.
    New(DocumentIdentity),
    /// The current file was overwritten.
    Saved,
    /// The user abandoned the path prompt.
    Canceled,
}

/// The mathematical model of a [`SaveAction`].
pub ghost enum ActionModel {
    New(IdentityModel),
    Saved,
    Canceled,
}

impl View for SaveAction {
    type V = ActionModel;

    open spec fn view(&self) -> ActionModel {
        match self {
            SaveAction::New(id) => ActionModel::New(id@),
            SaveAction::Saved => ActionModel::Saved,
            SaveAction::Canceled => ActionModel::Canceled,
        }
    }
}

/// Where a save stands, and what has to happen next.
pub enum SaveStep {
    /// Truncate the file at this path and write the content to it.
    Overwrite(String),
    /// Ask the user where to save.
    PromptForPath,
    /// Open the file at this path, creating it if absent but not truncating it,
    /// and write the content to it.
    WriteNew(String),
    /// The save is over.
    Done(SaveAction),
}

/// The mathematical model of a [`SaveStep`].
pub ghost enum StepModel {
    Overwrite(Seq<char>),
    PromptForPath,
    WriteNew(Seq<char>),
    Done(ActionModel),
}

impl View for SaveStep {
    type V = StepModel;

    open spec fn view(&self) -> StepModel {
        match self {
            SaveStep::Overwrite(p) => StepModel::Overwrite(p@),
            SaveStep::PromptForPath => StepModel::PromptForPath,
            SaveStep::WriteNew(p) => StepModel::WriteNew(p@),
            SaveStep::Done(a) => StepModel::Done(a@),
        }
    }
}

/// What the driver of a save reports after performing a step.
pub enum SaveEvent {
    /// The path prompt closed, with the chosen path or with none when canceled.
    PathChosen(Option<String>),
    /// The content was written in full.
    Written,
}

/// The mathematical model of a [`SaveEvent`].
pub ghost enum EventModel {
    PathChosen(Option<Seq<char>>),
    Written,
}

impl View for SaveEvent {
    type V = EventModel;

    open spec fn view(&self) -> EventModel {
        match self {
            SaveEvent::PathChosen(Some(p)) => EventModel::PathChosen(Some(p@)),
            SaveEvent::PathChosen(None) => EventModel::PathChosen(None),
            SaveEvent::Written => EventModel::Written,
        }
    }
}

/// The model of an optional borrowed identity.
pub open spec fn current_model(current: Option<&DocumentIdentity>) -> Option<IdentityModel> {
    match current {
        Some(id) => Some(id@),
        None => None,
    }
}

/// The first step of a save: a save-as, or a save with no open file, asks for
/// a path; otherwise the open file is overwritten.
pub open spec fn planned(current: Option<IdentityModel>, save_as: bool) -> StepModel {
    if save_as {
        StepModel::PromptForPath
    } else {
        match current {
            Some(id) => StepModel::Overwrite(id.path),
            None => StepModel::PromptForPath,
        }
    }
}

/// The step that follows `step` once `event` is reported, `data` being the
/// content under save. An event that does not answer the step leaves it as it is.
pub open spec fn advanced(step: StepModel, event: EventModel, data: Seq<u8>) -> StepModel {
    match (step, event) {
        (StepModel::PromptForPath, EventModel::PathChosen(Some(p))) => StepModel::WriteNew(p),
        (StepModel::PromptForPath, EventModel::PathChosen(None)) => StepModel::Done(
            ActionModel::Canceled,
        ),
        (StepModel::Overwrite(_), EventModel::Written) => StepModel::Done(ActionModel::Saved),
        (StepModel::WriteNew(p), EventModel::Written) => StepModel::Done(
            ActionModel::New(IdentityModel::created(p, data)),
        ),
        _ => step,
    }
}

/// Decides how a save request starts.
pub fn begin_save(current: Option<&DocumentIdentity>, save_as: bool) -> (r: SaveStep)
    ensures
        r@ == planned(current_model(current), save_as),
{
    if save_as {
        return SaveStep::PromptForPath;
    }
    match current {
        Some(id) => SaveStep::Overwrite(id.get_path().to_owned()),
        None => SaveStep::PromptForPath,
    }
}

/// Moves a save on by one step once the driver reports `event`; `data` is the
/// content under save.
pub fn advance(step: SaveStep, event: SaveEvent, data: &[u8]) -> (r: SaveStep)
    ensures
        r@ == advanced(step@, event@, data@),
{
    match step {
        SaveStep::PromptForPath => match event {
            SaveEvent::PathChosen(Some(p)) => SaveStep::WriteNew(p),
            SaveEvent::PathChosen(None) => SaveStep::Done(SaveAction::Canceled),
            SaveEvent::Written => SaveStep::PromptForPath,
        },
        SaveStep::Overwrite(p) => match event {
            SaveEvent::Written => SaveStep::Done(SaveAction::Saved),
            SaveEvent::PathChosen(_) => SaveStep::Overwrite(p),
        },
        SaveStep::WriteNew(p) => match event {
            SaveEvent::Written => SaveStep::Done(SaveAction::New(DocumentIdentity::new(p, data))),
            SaveEvent::PathChosen(_) => SaveStep::WriteNew(p),
        },
        SaveStep::Done(a) => SaveStep::Done(a),
    }
}

/// A plain save of an open file never asks for a path: it overwrites that file.
pub proof fn lemma_plain_save_never_prompts(id: IdentityModel)
    ensures
        planned(Some(id), false) != StepModel::PromptForPath,
        planned(Some(id), false) == StepModel::Overwrite(id.path),
{
}

/// A save-as always asks for a path, whether or not a file is open.
pub proof fn lemma_save_as_always_prompts(current: Option<IdentityModel>)
    ensures
        planned(current, true) == StepModel::PromptForPath,
{
}

/// With no open file, a plain save starts exactly as a save-as does.
pub proof fn lemma_save_without_file_is_save_as()
    ensures
        planned(None, false) == planned(None, true),
        planned(None, false) == StepModel::PromptForPath,
{
}

/// Choosing a path and writing to it ends the save with a new identity whose
/// path is the chosen one and whose fingerprint is that of the written content.
pub proof fn lemma_new_path_save(path: Seq<char>, data: Seq<u8>)
    ensures
        ({
            let chosen = advanced(StepModel::PromptForPath, EventModel::PathChosen(Some(path)), data);
            &&& chosen == StepModel::WriteNew(path)
            &&& advanced(chosen, EventModel::Written, data) == StepModel::Done(
                ActionModel::New(IdentityModel::created(path, data)),
            )
            &&& IdentityModel::created(path, data).path == path
            &&& IdentityModel::created(path, data).same_as(data)
        }),
{
}

} // verus!
