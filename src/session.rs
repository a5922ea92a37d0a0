//! The session's single slot for the open document, and how the outcome of a
//! save, an open or an edit is applied to it.
//!
//! Every change goes through `&mut self`, so writers exclude each other and a
//! reader never sees a half-made change; a driver that shares the session
//! between handlers wraps it in a lock of its choice.
use vstd::prelude::*;
use crate::identity::{
    file_name_of, parent_of, path_file_name, text_of, DocumentIdentity, IdentityModel,
};
use crate::save::{advanced, current_model, ActionModel, EventModel, SaveAction, StepModel};

verus! {

/// What the window's header shows for an open file.
pub struct HeaderText {
    /// The file's name, if the path has one.
    pub title: Option<String>,
    /// The directory holding the file, if the path has one.
    pub subtitle: Option<String>,
}

/// What the user interface does once a save is over.
pub struct SaveFeedback {
    /// New header text, when the open file changed.
    pub header: Option<HeaderText>,
    /// Whether the save control is to be disabled.
    pub disable_save: bool,
}

/// The header text for the file at `path`.
pub open spec fn header_matches(h: HeaderText, path: Seq<char>) -> bool {
    &&& text_of(h.title) == file_name_of(path)
    &&& text_of(h.subtitle) == parent_of(path)
}

/// The header that names the file of `id`.
pub fn header_text(id: &DocumentIdentity) -> (r: HeaderText)
    ensures
        header_matches(r, id@.path),
{
    HeaderText { title: path_file_name(id.get_path()), subtitle: id.get_dir() }
}

/// The slot after a save ended with `action`, `data` being the saved content:
/// a new file replaces the slot, an overwrite refreshes the fingerprint of the
/// open file, a cancel changes nothing.
pub open spec fn applied(
    slot: Option<IdentityModel>,
    action: ActionModel,
    data: Seq<u8>,
) -> Option<IdentityModel> {
    match action {
        ActionModel::New(id) => Some(id),
        ActionModel::Saved => match slot {
            Some(id) => Some(id.with_sum(data)),
            None => None,
        },
        ActionModel::Canceled => slot,
    }
}

/// The open document, if any. Empty means that nothing has been opened or
/// saved yet in this session.
pub struct SharedSession {
    current: Option<DocumentIdentity>,
}

impl View for SharedSession {
    type V = Option<IdentityModel>;

    closed spec fn view(&self) -> Option<IdentityModel> {
        match self.current {
            Some(id) => Some(id@),
            None => None,
        }
    }
}

impl SharedSession {
    /// A session with no open document.
    pub fn new() -> (r: SharedSession)
        ensures
            r@ is None,
    {
        SharedSession { current: None }
    }

    /// The open document, if any.
    pub fn read(&self) -> (r: Option<&DocumentIdentity>)
        ensures
            current_model(r) == self@,
    {
        match &self.current {
            Some(id) => Some(id),
            None => None,
        }
    }

    /// Replaces the open document.
    pub fn write(&mut self, value: Option<DocumentIdentity>)
        ensures
            final(self)@ == (match value {
                Some(id) => Some(id@),
                None => None::<IdentityModel>,
            }),
    {
        self.current = value;
    }

    /// Refreshes the fingerprint of the open document, in place, from the
    /// content just written; tells whether there was a document to refresh.
    pub fn refresh_sum(&mut self, data: &[u8]) -> (r: bool)
        ensures
            r == old(self)@ is Some,
            final(self)@ == (match old(self)@ {
                Some(id) => Some(id.with_sum(data@)),
                None => None::<IdentityModel>,
            }),
    {
        match &mut self.current {
            Some(id) => {
                id.set_sum(data);
                true
            },
            None => false,
        }
    }

    /// Applies the outcome of a save of `data`: records the new or refreshed
    /// identity and says what the user interface shows next.
    pub fn apply_save(&mut self, action: SaveAction, data: &[u8]) -> (r: SaveFeedback)
        ensures
            final(self)@ == applied(old(self)@, action@, data@),
            r.disable_save == (match action@ {
                ActionModel::New(_) => true,
                ActionModel::Saved => old(self)@ is Some,
                ActionModel::Canceled => false,
            }),
            match action@ {
                ActionModel::New(id) => r.header is Some && header_matches(
                    r.header->Some_0,
                    id.path,
                ),
                _ => r.header is None,
            },
    {
        match action {
            SaveAction::New(id) => {
                let header = header_text(&id);
                self.current = Some(id);
                SaveFeedback { header: Some(header), disable_save: true }
            },
            SaveAction::Saved => {
                let refreshed = self.refresh_sum(data);
                SaveFeedback { header: None, disable_save: refreshed }
            },
            SaveAction::Canceled => SaveFeedback { header: None, disable_save: false },
        }
    }

    /// Records that the file at `path` was opened with content `data`, and
    /// gives the header that names it.
    pub fn open_document(&mut self, path: String, data: &[u8]) -> (r: HeaderText)
        ensures
            final(self)@ == Some(IdentityModel::created(path@, data@)),
            header_matches(r, path@),
    {
        let id = DocumentIdentity::new(path, data);
        let header = header_text(&id);
        self.current = Some(id);
        header
    }

    /// The directory a file dialog starts in: that of the open document.
    pub fn dialog_dir(&self) -> (r: Option<String>)
        ensures
            text_of(r) == (match self@ {
                Some(id) => parent_of(id.path),
                None => None,
            }),
    {
        match &self.current {
            Some(id) => id.get_dir(),
            None => None,
        }
    }

    /// Whether the save control is enabled after the editor's content became
    /// `data`: enabled exactly when it differs from the last synchronised
    /// content; nothing is decided while no document is open.
    pub fn save_enabled_after_edit(&self, data: &[u8]) -> (r: Option<bool>)
        ensures
            r == (match self@ {
                Some(id) => Some(!id.same_as(data@)),
                None => None,
            }),
    {
        match &self.current {
            Some(id) => Some(!id.is_same_as(data)),
            None => None,
        }
    }
}

/// Canceling the path prompt ends the save as canceled, and applying that
/// outcome leaves the session's slot as it was.
pub proof fn lemma_cancel_leaves_session(slot: Option<IdentityModel>, data: Seq<u8>)
    ensures
        advanced(StepModel::PromptForPath, EventModel::PathChosen(None), data) == StepModel::Done(
            ActionModel::Canceled,
        ),
        applied(slot, ActionModel::Canceled, data) == slot,
{
}

} // verus!
