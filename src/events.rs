use vstd::prelude::*;

verus! {

/// The kind of a filesystem change notification.
#[derive(Clone, Copy, PartialEq, Eq, Structural, Debug)]
pub enum EventClass {
    Create,
    Remove,
    /// The contents of the file changed.
    DataModify,
    /// The file's metadata (times, permissions) changed.
    MetadataModify,
    Access,
    /// The file was renamed, with no sign that its contents changed.
    Rename,
    /// A notification the backend could not classify.
    Other,
}

/// A notification from a watch backend: its kind and the paths it concerns.
pub struct RawChangeEvent {
    pub class: EventClass,
    pub paths: Vec<String>,
}

/// Only a change of contents or of metadata calls for a new render; all
/// other notifications are noise.
pub open spec fn triggers_render(c: EventClass) -> bool {
    c == EventClass::DataModify || c == EventClass::MetadataModify
}

impl RawChangeEvent {
    /// Whether this notification calls for a new render.
    pub fn accepted(&self) -> (r: bool)
        ensures
            r == triggers_render(self.class),
    {
        match self.class {
            EventClass::DataModify | EventClass::MetadataModify => true,
            _ => false,
        }
    }
}

} // verus!
