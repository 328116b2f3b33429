use vstd::prelude::*;

use crate::errors::StoreError;

verus! {

/// A note drafted for the next meeting. Kept only for the lifetime of the
/// application; never written to disk.
#[derive(Clone, Debug)]
pub struct NewMeetingNote {
    pub note: String,
    pub title: String,
}

/// State valid for the whole application session.
pub struct InnerSessionState {
    pub new_meeting_note: NewMeetingNote,
}

impl InnerSessionState {
    /// A fresh session: the drafted note and title start empty.
    pub fn new() -> (s: Self)
        ensures
            s.new_meeting_note.note@ == Seq::<char>::empty(),
            s.new_meeting_note.title@ == Seq::<char>::empty(),
    {
        InnerSessionState {
            new_meeting_note: NewMeetingNote { note: String::new(), title: String::new() },
        }
    }

    /// Replaces the drafted note; never fails.
    pub fn update_new_meeting_note(&mut self, new_meeting_note: NewMeetingNote) -> (r: Result<
        (),
        StoreError,
    >)
        ensures
            r is Ok,
            final(self).new_meeting_note.note@ == new_meeting_note.note@,
            final(self).new_meeting_note.title@ == new_meeting_note.title@,
    {
        self.new_meeting_note = new_meeting_note;
        Ok(())
    }

    /// Returns the drafted note; never fails.
    pub fn get_new_meeting_note(&self) -> (r: Result<NewMeetingNote, StoreError>)
        ensures
            r matches Ok(n) && n.note@ == self.new_meeting_note.note@ && n.title@
                == self.new_meeting_note.title@,
    {
        Ok(
            NewMeetingNote {
                note: self.new_meeting_note.note.clone(),
                title: self.new_meeting_note.title.clone(),
            },
        )
    }
}

} // verus!
