use vstd::prelude::*;
use vstd::string::StringExecFns;

use crate::errors::{MeetingOpError, StoreError, SummarizeError};
use crate::ipc::ModelMutateResultData;
use crate::ids::new_session_id;
use crate::strutil::string_is_empty;
use crate::timefmt::{export_stamp_of, format_export_stamp, format_rfc3339, rfc3339_of,
    MAX_TIMESTAMP};

verus! {

/// One chapter of a transcribed recording.
#[derive(Clone, Debug)]
pub struct Chapter {
    pub summary: String,
    pub gist: String,
    pub headline: String,
    pub start: i32,
    pub end: i32,
}

/// One recorded meeting: identity, captured audio, transcript, and the
/// notes and summaries derived from it.
#[derive(Clone, Debug)]
pub struct Meeting {
    pub uuid: String,
    pub title: String,
    pub company_name: String,
    pub company_id: String,
    pub prompt: String,
    pub summary: String,
    pub note: String,
    pub transcript: String,
    pub datetime: String,
    pub audio_path: String,
    pub published: bool,
    pub publish_with_note: Option<bool>,
    pub chapters: Vec<Chapter>,
}

/// The payload of a meeting update request.
pub struct MeetingForUpdate {
    pub meeting: Meeting,
}

/// The fields of a meeting that carry no content yet when it is created.
pub open spec fn spec_blank_meeting_fields(m: Meeting) -> bool {
    &&& m.company_name@ == Seq::<char>::empty()
    &&& m.company_id@ == Seq::<char>::empty()
    &&& m.prompt@ == Seq::<char>::empty()
    &&& m.summary@ == Seq::<char>::empty()
    &&& m.note@ == Seq::<char>::empty()
    &&& m.transcript@ == Seq::<char>::empty()
    &&& m.published == false
    &&& m.publish_with_note == Some(false)
    &&& m.chapters@.len() == 0
}

impl Meeting {
    /// A fresh meeting record: a given or newly generated id, the given
    /// title, the timestamp rendered as RFC 3339, the merged audio path,
    /// and every derived field still blank.
    pub fn new(uuid: Option<String>, title: String, datetime_secs: i64, audio_path: String) -> (m:
        Meeting)
        requires
            0 <= datetime_secs < MAX_TIMESTAMP,
        ensures
            match uuid {
                Some(u) => m.uuid == u,
                None => m.uuid@.len() == 36,
            },
            m.title == title,
            m.datetime@ == rfc3339_of(datetime_secs as int),
            m.audio_path == audio_path,
            spec_blank_meeting_fields(m),
    {
        let id = match uuid {
            Some(u) => u,
            None => new_session_id(),
        };
        Meeting {
            uuid: id,
            title,
            company_name: String::new(),
            company_id: String::new(),
            prompt: String::new(),
            summary: String::new(),
            note: String::new(),
            transcript: String::new(),
            datetime: format_rfc3339(datetime_secs),
            audio_path,
            published: false,
            publish_with_note: Some(false),
            chapters: Vec::new(),
        }
    }

    /// The meeting's id.
    pub fn get_uuid(&self) -> (r: String)
        ensures
            r == self.uuid,
    {
        self.uuid.clone()
    }

    /// The custom instruction handed to the summarizer: the meeting's own
    /// prompt when one is set, none otherwise; an error when there is no
    /// transcript to summarize.
    pub fn summarize_prompt(&self) -> (r: Result<Option<String>, SummarizeError>)
        ensures
            self.transcript@.len() == 0 ==> r == Err::<Option<String>, SummarizeError>(
                SummarizeError::NoTranscript,
            ),
            self.transcript@.len() > 0 && self.prompt@.len() == 0 ==> r == Ok::<
                Option<String>,
                SummarizeError,
            >(None),
            self.transcript@.len() > 0 && self.prompt@.len() > 0 ==> (r matches Ok(p) && p matches
                Some(q) && q@ == self.prompt@),
    {
        if string_is_empty(&self.transcript) {
            Err(SummarizeError::NoTranscript)
        } else if string_is_empty(&self.prompt) {
            Ok(None)
        } else {
            Ok(Some(self.prompt.clone()))
        }
    }

    /// Applies the summarizer's reply: a successful reply becomes the
    /// stored summary; a failure leaves the meeting unchanged. With no
    /// transcript there is nothing to summarize and the call fails.
    pub fn summarize(&mut self, reply: Result<String, SummarizeError>) -> (r: Result<
        (),
        SummarizeError,
    >)
        ensures
            old(self).transcript@.len() == 0 ==> r == Err::<(), SummarizeError>(
                SummarizeError::NoTranscript,
            ) && *final(self) == *old(self),
            old(self).transcript@.len() > 0 ==> (match reply {
                Ok(s) => r is Ok && *final(self) == (Meeting { summary: s, ..*old(self) }),
                Err(e) => r == Err::<(), SummarizeError>(e) && *final(self) == *old(self),
            }),
    {
        if string_is_empty(&self.transcript) {
            return Err(SummarizeError::NoTranscript);
        }
        match reply {
            Ok(s) => {
                self.summary = s;
                Ok(())
            },
            Err(e) => Err(e),
        }
    }

    /// The instruction handed to the summarizer to refine the meeting's
    /// note; an error when there is no note to improve.
    pub fn improve_note_prompt(&self) -> (r: Result<String, SummarizeError>)
        ensures
            self.note@.len() == 0 ==> r == Err::<String, SummarizeError>(SummarizeError::NoNote),
            self.note@.len() > 0 ==> (r matches Ok(p) && p@
                == "Refine and complete the note with missing information, maintaining a similar structure in HTML format. This is crucial for accurate documentation. <note>"@
                + self.note@ + "</note>"@),
    {
        if string_is_empty(&self.note) {
            return Err(SummarizeError::NoNote);
        }
        let p = String::from_str(
            "Refine and complete the note with missing information, maintaining a similar structure in HTML format. This is crucial for accurate documentation. <note>",
        );
        let p = p.concat(self.note.as_str());
        let p = p.concat("</note>");
        Ok(p)
    }

    /// Applies the note-improvement reply: a successful reply becomes the
    /// stored summary (the refined note is surfaced there); a failure
    /// leaves the meeting unchanged. With no note the call fails.
    pub fn improve_note(&mut self, reply: Result<String, SummarizeError>) -> (r: Result<
        (),
        SummarizeError,
    >)
        ensures
            old(self).note@.len() == 0 ==> r == Err::<(), SummarizeError>(SummarizeError::NoNote)
                && *final(self) == *old(self),
            old(self).note@.len() > 0 ==> (match reply {
                Ok(s) => r is Ok && *final(self) == (Meeting { summary: s, ..*old(self) }),
                Err(e) => r == Err::<(), SummarizeError>(e) && *final(self) == *old(self),
            }),
    {
        if string_is_empty(&self.note) {
            return Err(SummarizeError::NoNote);
        }
        match reply {
            Ok(s) => {
                self.summary = s;
                Ok(())
            },
            Err(e) => Err(e),
        }
    }
}

/// The serde default for the async-operation counter of records saved
/// before the counter existed.
pub fn default_number_ops() -> (r: i32)
    ensures
        r == 0,
{
    0
}

/// The index entry kept for one meeting: its title, its timestamp, and
/// how many background operations currently work on it.
#[derive(Clone, Debug)]
pub struct MeetingInfo {
    pub title: String,
    pub datetime: String,
    pub number_ops: i32,
}

/// One row of the meeting list as shown to a caller.
#[derive(Clone, Debug)]
pub struct MeetingsRef {
    pub uuid: String,
    pub title: String,
    pub datetime: String,
    pub number_ops: i32,
}

impl MeetingInfo {
    /// A fresh index entry with no background operation running.
    pub fn new(title: String, datetime: String) -> (r: MeetingInfo)
        ensures
            r.title == title,
            r.datetime == datetime,
            r.number_ops == 0,
    {
        MeetingInfo { title, datetime, number_ops: 0 }
    }

    /// One more background operation works on this meeting. The counter
    /// stops at its machine maximum rather than wrapping.
    pub fn incremeent_async_ops(&mut self)
        ensures
            final(self).number_ops == (if old(self).number_ops < i32::MAX {
                old(self).number_ops + 1
            } else {
                old(self).number_ops as int
            }),
            final(self).title == old(self).title,
            final(self).datetime == old(self).datetime,
    {
        if self.number_ops < i32::MAX {
            self.number_ops = self.number_ops + 1;
        }
    }

    /// One background operation finished; the counter never goes below
    /// zero.
    pub fn decremeent_async_ops(&mut self)
        ensures
            final(self).number_ops == (if old(self).number_ops > 0 {
                old(self).number_ops - 1
            } else {
                0
            }),
            final(self).title == old(self).title,
            final(self).datetime == old(self).datetime,
    {
        if self.number_ops > 0 {
            self.number_ops = self.number_ops - 1;
        } else {
            self.number_ops = 0;
        }
    }
}

/// Whether an entry with this id stands in the index.
pub open spec fn has_key(s: Seq<(String, MeetingInfo)>, k: Seq<char>) -> bool {
    exists|i: int| 0 <= i < s.len() && s[i].0@ == k
}

/// The position of the entry with this id.
pub open spec fn key_index(s: Seq<(String, MeetingInfo)>, k: Seq<char>) -> int {
    choose|i: int| 0 <= i < s.len() && s[i].0@ == k
}

/// No two entries share an id.
pub open spec fn unique_keys(s: Seq<(String, MeetingInfo)>) -> bool {
    forall|i: int, j: int| 0 <= i < j < s.len() ==> s[i].0@ != s[j].0@
}

/// Inserting a saved entry into the index: an entry with the same id is
/// replaced, a new id is appended.
pub open spec fn upsert(s: Seq<(String, MeetingInfo)>, key: String, info: MeetingInfo) -> Seq<
    (String, MeetingInfo),
> {
    if has_key(s, key@) {
        s.update(key_index(s, key@), (key, info))
    } else {
        s.push((key, info))
    }
}

/// The index built from the saved entries, in order, with every
/// async-operation counter reset to zero: no background task survives a
/// restart.
pub open spec fn load_entries(
    s: Seq<(String, MeetingInfo)>,
    saved: Seq<(String, MeetingInfo)>,
) -> Seq<(String, MeetingInfo)>
    decreases saved.len(),
{
    if saved.len() == 0 {
        s
    } else {
        load_entries(
            upsert(s, saved[0].0, MeetingInfo { number_ops: 0, ..saved[0].1 }),
            saved.drop_first(),
        )
    }
}

/// Upserting keeps ids unique.
pub proof fn lemma_upsert_unique(s: Seq<(String, MeetingInfo)>, key: String, info: MeetingInfo)
    requires
        unique_keys(s),
    ensures
        unique_keys(upsert(s, key, info)),
{
    if has_key(s, key@) {
        let idx = key_index(s, key@);
        assert(0 <= idx < s.len() && s[idx].0@ == key@);
        let t = s.update(idx, (key, info));
        assert forall|i: int, j: int| 0 <= i < j < t.len() implies t[i].0@ != t[j].0@ by {
            assert(s[i].0@ != s[j].0@);
        }
    }
}

/// The position the exec search finds is the position the spec names.
pub proof fn lemma_found_is_key_index(s: Seq<(String, MeetingInfo)>, k: Seq<char>, i: int)
    requires
        unique_keys(s),
        0 <= i < s.len(),
        s[i].0@ == k,
    ensures
        key_index(s, k) == i,
{
    let j = key_index(s, k);
    assert(0 <= j < s.len() && s[j].0@ == k);
}

/// Finds the entry with this id in the index, if any.
#[verifier::loop_isolation(false)]
fn find_key(v: &Vec<(String, MeetingInfo)>, uuid: &String) -> (r: Option<usize>)
    ensures
        match r {
            Some(i) => 0 <= i < v@.len() && v@[i as int].0@ == uuid@,
            None => !has_key(v@, uuid@),
        },
{
    let n = v.len();
    let mut i: usize = 0;
    while i < n
        invariant
            0 <= i <= n,
            forall|j: int| 0 <= j < i ==> v@[j].0@ != uuid@,
        decreases n - i,
    {
        if v[i].0.eq(uuid) {
            return Some(i);
        }
        i = i + 1;
    }
    None
}

/// The in-memory index of all recorded meetings, keyed by meeting id.
pub struct MeetingController {
    pub meetings: Vec<(String, MeetingInfo)>,
}

impl MeetingController {
    /// Well-formedness: ids are unique.
    pub open spec fn wf(&self) -> bool {
        unique_keys(self.meetings@)
    }

    /// An empty index.
    pub fn new() -> (c: MeetingController)
        ensures
            c.meetings@.len() == 0,
            c.wf(),
    {
        MeetingController { meetings: Vec::new() }
    }

    /// Rebuilds the index from the saved entries: entries are taken in
    /// order, a repeated id replaces the earlier entry, and every
    /// async-operation counter is reset to zero at startup.
    #[verifier::loop_isolation(false)]
    pub fn from_saved(entries: Vec<(String, MeetingInfo)>) -> (c: MeetingController)
        ensures
            c.meetings@ == load_entries(Seq::<(String, MeetingInfo)>::empty(), entries@),
            c.wf(),
    {
        let mut c = MeetingController { meetings: Vec::new() };
        proof {
            assert(c.meetings@ =~= Seq::<(String, MeetingInfo)>::empty());
            assert(entries@.skip(0) =~= entries@);
        }
        let n = entries.len();
        let mut i: usize = 0;
        while i < n
            invariant
                0 <= i <= n,
                c.wf(),
                load_entries(c.meetings@, entries@.skip(i as int)) == load_entries(
                    Seq::<(String, MeetingInfo)>::empty(),
                    entries@,
                ),
            decreases n - i,
        {
            let ghost s0 = c.meetings@;
            let ghost rest = entries@.skip(i as int);
            let key = entries[i].0.clone();
            let info = MeetingInfo {
                title: entries[i].1.title.clone(),
                datetime: entries[i].1.datetime.clone(),
                number_ops: 0,
            };
            proof {
                assert(rest[0] == entries@[i as int]);
                assert(rest.drop_first() =~= entries@.skip(i + 1));
                assert((key, info) == (entries@[i as int].0, MeetingInfo {
                    number_ops: 0,
                    ..entries@[i as int].1
                }));
                lemma_upsert_unique(s0, entries@[i as int].0, MeetingInfo {
                    number_ops: 0,
                    ..entries@[i as int].1
                });
            }
            match find_key(&c.meetings, &key) {
                Some(idx) => {
                    proof {
                        lemma_found_is_key_index(s0, key@, idx as int);
                    }
                    self_update_entry(&mut c.meetings, idx, key, info);
                },
                None => {
                    c.meetings.push((key, info));
                },
            }
            i = i + 1;
        }
        proof {
            assert(entries@.skip(n as int) =~= Seq::<(String, MeetingInfo)>::empty());
        }
        c
    }

    /// Every meeting in the index, as list rows, in index order; never
    /// fails.
    #[verifier::loop_isolation(false)]
    pub fn list(&self) -> (r: Result<Vec<MeetingsRef>, StoreError>)
        ensures
            r matches Ok(l) && l@.len() == self.meetings@.len() && (forall|i: int|
                0 <= i < l@.len() ==> {
                    &&& (#[trigger] l@[i]).uuid == self.meetings@[i].0
                    &&& l@[i].title == self.meetings@[i].1.title
                    &&& l@[i].datetime == self.meetings@[i].1.datetime
                    &&& l@[i].number_ops == self.meetings@[i].1.number_ops
                }),
    {
        let n = self.meetings.len();
        let mut l: Vec<MeetingsRef> = Vec::new();
        let mut i: usize = 0;
        while i < n
            invariant
                0 <= i <= n,
                l@.len() == i,
                forall|j: int|
                    0 <= j < i ==> {
                        &&& (#[trigger] l@[j]).uuid == self.meetings@[j].0
                        &&& l@[j].title == self.meetings@[j].1.title
                        &&& l@[j].datetime == self.meetings@[j].1.datetime
                        &&& l@[j].number_ops == self.meetings@[j].1.number_ops
                    },
            decreases n - i,
        {
            l.push(
                MeetingsRef {
                    uuid: self.meetings[i].0.clone(),
                    title: self.meetings[i].1.title.clone(),
                    datetime: self.meetings[i].1.datetime.clone(),
                    number_ops: self.meetings[i].1.number_ops,
                },
            );
            i = i + 1;
        }
        Ok(l)
    }

    /// Replaces the stored title and timestamp of an existing meeting,
    /// keeping its async-operation counter; fails when the id is absent.
    pub fn update(&mut self, meeting: Meeting) -> (r: Result<ModelMutateResultData, StoreError>)
        requires
            old(self).wf(),
        ensures
            final(self).wf(),
            !has_key(old(self).meetings@, meeting.uuid@) ==> r == Err::<
                ModelMutateResultData,
                StoreError,
            >(StoreError::MeetingNotFound) && *final(self) == *old(self),
            has_key(old(self).meetings@, meeting.uuid@) ==> {
                let idx = key_index(old(self).meetings@, meeting.uuid@);
                &&& r matches Ok(d) && d.id == meeting.uuid
                &&& final(self).meetings@.len() == old(self).meetings@.len()
                &&& (forall|j: int|
                    0 <= j < old(self).meetings@.len() && j != idx ==> final(self).meetings@[j]
                        == old(self).meetings@[j])
                &&& final(self).meetings@[idx].0@ == meeting.uuid@
                &&& final(self).meetings@[idx].1.title == meeting.title
                &&& final(self).meetings@[idx].1.datetime == meeting.datetime
                &&& final(self).meetings@[idx].1.number_ops == old(
                    self,
                ).meetings@[idx].1.number_ops
            },
    {
        let ghost s0 = self.meetings@;
        match find_key(&self.meetings, &meeting.uuid) {
            None => Err(StoreError::MeetingNotFound),
            Some(idx) => {
                proof {
                    lemma_found_is_key_index(s0, meeting.uuid@, idx as int);
                }
                let ops = self.meetings[idx].1.number_ops;
                let key = meeting.uuid.clone();
                let info = MeetingInfo {
                    title: meeting.title.clone(),
                    datetime: meeting.datetime.clone(),
                    number_ops: ops,
                };
                self_update_entry(&mut self.meetings, idx, key, info);
                proof {
                    assert forall|i: int, j: int|
                        0 <= i < j < self.meetings@.len() implies self.meetings@[i].0@
                        != self.meetings@[j].0@ by {
                        assert(s0[i].0@ != s0[j].0@);
                    }
                }
                Ok(ModelMutateResultData { id: meeting.uuid })
            },
        }
    }

    /// Adds a new meeting to the index with no background operation
    /// running; fails when the id is already present. The record itself
    /// is handed back for the caller to keep.
    pub fn add(&mut self, meeting: Meeting) -> (r: Result<Meeting, StoreError>)
        requires
            old(self).wf(),
        ensures
            final(self).wf(),
            has_key(old(self).meetings@, meeting.uuid@) ==> r == Err::<Meeting, StoreError>(
                StoreError::MeetingAlreadyExists,
            ) && *final(self) == *old(self),
            !has_key(old(self).meetings@, meeting.uuid@) ==> {
                &&& r matches Ok(m) && m == meeting
                &&& final(self).meetings@.len() == old(self).meetings@.len() + 1
                &&& (forall|j: int|
                    0 <= j < old(self).meetings@.len() ==> final(self).meetings@[j] == old(
                        self,
                    ).meetings@[j])
                &&& final(self).meetings@.last().0@ == meeting.uuid@
                &&& final(self).meetings@.last().1.title == meeting.title
                &&& final(self).meetings@.last().1.datetime == meeting.datetime
                &&& final(self).meetings@.last().1.number_ops == 0
            },
    {
        match find_key(&self.meetings, &meeting.uuid) {
            Some(_) => Err(StoreError::MeetingAlreadyExists),
            None => {
                let key = meeting.uuid.clone();
                let info = MeetingInfo::new(meeting.title.clone(), meeting.datetime.clone());
                self.meetings.push((key, info));
                Ok(meeting)
            },
        }
    }

    /// Removes a meeting from the index; its files on disk are removed
    /// by the caller. Fails when the id is absent.
    pub fn delete(&mut self, uuid: String) -> (r: Result<ModelMutateResultData, StoreError>)
        requires
            old(self).wf(),
        ensures
            final(self).wf(),
            !has_key(old(self).meetings@, uuid@) ==> r == Err::<ModelMutateResultData, StoreError>(
                StoreError::MeetingNotFound,
            ) && *final(self) == *old(self),
            has_key(old(self).meetings@, uuid@) ==> {
                &&& r matches Ok(d) && d.id == uuid
                &&& final(self).meetings@ == old(self).meetings@.remove(
                    key_index(old(self).meetings@, uuid@),
                )
            },
    {
        let ghost s0 = self.meetings@;
        match find_key(&self.meetings, &uuid) {
            None => Err(StoreError::MeetingNotFound),
            Some(idx) => {
                proof {
                    lemma_found_is_key_index(s0, uuid@, idx as int);
                }
                let _ = self.meetings.remove(idx);
                proof {
                    assert forall|i: int, j: int|
                        0 <= i < j < self.meetings@.len() implies self.meetings@[i].0@
                        != self.meetings@[j].0@ by {
                        let pi = if i < idx as int {
                            i
                        } else {
                            i + 1
                        };
                        let pj = if j < idx as int {
                            j
                        } else {
                            j + 1
                        };
                        assert(s0[pi].0@ != s0[pj].0@);
                    }
                }
                Ok(ModelMutateResultData { id: uuid })
            },
        }
    }

    /// Removes every meeting from the index; the files on disk are
    /// removed by the caller. Never fails.
    pub fn delete_all(&mut self) -> (r: Result<(), StoreError>)
        ensures
            r is Ok,
            final(self).meetings@.len() == 0,
            final(self).wf(),
    {
        self.meetings = Vec::new();
        Ok(())
    }

    /// Removes a meeting from the index while its files stay on disk;
    /// fails when the id is absent.
    pub fn archive(&mut self, uuid: String) -> (r: Result<ModelMutateResultData, StoreError>)
        requires
            old(self).wf(),
        ensures
            final(self).wf(),
            !has_key(old(self).meetings@, uuid@) ==> r == Err::<ModelMutateResultData, StoreError>(
                StoreError::MeetingNotFound,
            ) && *final(self) == *old(self),
            has_key(old(self).meetings@, uuid@) ==> {
                &&& r matches Ok(d) && d.id == uuid
                &&& final(self).meetings@ == old(self).meetings@.remove(
                    key_index(old(self).meetings@, uuid@),
                )
            },
    {
        self.delete(uuid)
    }

    /// Empties the index while every file stays on disk; never fails.
    pub fn archive_all(&mut self) -> (r: Result<(), StoreError>)
        ensures
            r is Ok,
            final(self).meetings@.len() == 0,
            final(self).wf(),
    {
        self.meetings = Vec::new();
        Ok(())
    }

    /// Notes one more background operation on a meeting; fails when the
    /// id is absent.
    pub fn increment_async_ops(&mut self, uuid: String) -> (r: Result<
        ModelMutateResultData,
        StoreError,
    >)
        requires
            old(self).wf(),
        ensures
            final(self).wf(),
            !has_key(old(self).meetings@, uuid@) ==> r == Err::<ModelMutateResultData, StoreError>(
                StoreError::MeetingNotFound,
            ) && *final(self) == *old(self),
            has_key(old(self).meetings@, uuid@) ==> {
                let idx = key_index(old(self).meetings@, uuid@);
                let entry = old(self).meetings@[idx];
                &&& r matches Ok(d) && d.id == uuid
                &&& final(self).meetings@ == old(self).meetings@.update(
                    idx,
                    (entry.0, MeetingInfo {
                        number_ops: (if entry.1.number_ops < i32::MAX {
                            entry.1.number_ops + 1
                        } else {
                            entry.1.number_ops as int
                        }) as i32,
                        ..entry.1
                    }),
                )
            },
    {
        let ghost s0 = self.meetings@;
        match find_key(&self.meetings, &uuid) {
            None => Err(StoreError::MeetingNotFound),
            Some(idx) => {
                proof {
                    lemma_found_is_key_index(s0, uuid@, idx as int);
                }
                let key = self.meetings[idx].0.clone();
                let mut info = MeetingInfo {
                    title: self.meetings[idx].1.title.clone(),
                    datetime: self.meetings[idx].1.datetime.clone(),
                    number_ops: self.meetings[idx].1.number_ops,
                };
                info.incremeent_async_ops();
                self_update_entry(&mut self.meetings, idx, key, info);
                proof {
                    assert forall|i: int, j: int|
                        0 <= i < j < self.meetings@.len() implies self.meetings@[i].0@
                        != self.meetings@[j].0@ by {
                        assert(s0[i].0@ != s0[j].0@);
                    }
                }
                Ok(ModelMutateResultData { id: uuid })
            },
        }
    }

    /// Notes that one background operation on a meeting finished; fails
    /// when the id is absent.
    pub fn decrement_async_ops(&mut self, uuid: String) -> (r: Result<
        ModelMutateResultData,
        StoreError,
    >)
        requires
            old(self).wf(),
        ensures
            final(self).wf(),
            !has_key(old(self).meetings@, uuid@) ==> r == Err::<ModelMutateResultData, StoreError>(
                StoreError::MeetingNotFound,
            ) && *final(self) == *old(self),
            has_key(old(self).meetings@, uuid@) ==> {
                let idx = key_index(old(self).meetings@, uuid@);
                let entry = old(self).meetings@[idx];
                &&& r matches Ok(d) && d.id == uuid
                &&& final(self).meetings@ == old(self).meetings@.update(
                    idx,
                    (entry.0, MeetingInfo {
                        number_ops: (if entry.1.number_ops > 0 {
                            entry.1.number_ops - 1
                        } else {
                            0
                        }) as i32,
                        ..entry.1
                    }),
                )
            },
    {
        let ghost s0 = self.meetings@;
        match find_key(&self.meetings, &uuid) {
            None => Err(StoreError::MeetingNotFound),
            Some(idx) => {
                proof {
                    lemma_found_is_key_index(s0, uuid@, idx as int);
                }
                let key = self.meetings[idx].0.clone();
                let mut info = MeetingInfo {
                    title: self.meetings[idx].1.title.clone(),
                    datetime: self.meetings[idx].1.datetime.clone(),
                    number_ops: self.meetings[idx].1.number_ops,
                };
                info.decremeent_async_ops();
                self_update_entry(&mut self.meetings, idx, key, info);
                proof {
                    assert forall|i: int, j: int|
                        0 <= i < j < self.meetings@.len() implies self.meetings@[i].0@
                        != self.meetings@[j].0@ by {
                        assert(s0[i].0@ != s0[j].0@);
                    }
                }
                Ok(ModelMutateResultData { id: uuid })
            },
        }
    }

    /// Applies a summarization reply to a loaded meeting and stores the
    /// updated record in the index: the decision half of the
    /// load-summarize-update flow. The caller loads the record from disk,
    /// makes the backend call, and hands both in.
    pub fn summarize_meeting(&mut self, meeting: Meeting, reply: Result<String, SummarizeError>)
        -> (r: Result<ModelMutateResultData, MeetingOpError>)
        requires
            old(self).wf(),
        ensures
            final(self).wf(),
            meeting.transcript@.len() == 0 ==> r == Err::<ModelMutateResultData, MeetingOpError>(
                MeetingOpError::Summarize(SummarizeError::NoTranscript),
            ) && *final(self) == *old(self),
            meeting.transcript@.len() > 0 ==> (match reply {
                Err(e) => r == Err::<ModelMutateResultData, MeetingOpError>(
                    MeetingOpError::Summarize(e),
                ) && *final(self) == *old(self),
                Ok(_) => {
                    if has_key(old(self).meetings@, meeting.uuid@) {
                        let idx = key_index(old(self).meetings@, meeting.uuid@);
                        &&& r matches Ok(d) && d.id == meeting.uuid
                        &&& final(self).meetings@.len() == old(self).meetings@.len()
                        &&& (forall|j: int|
                            0 <= j < old(self).meetings@.len() && j != idx ==> final(self).meetings@[j]
                                == old(self).meetings@[j])
                        &&& final(self).meetings@[idx].0@ == meeting.uuid@
                        &&& final(self).meetings@[idx].1.title == meeting.title
                        &&& final(self).meetings@[idx].1.datetime == meeting.datetime
                        &&& final(self).meetings@[idx].1.number_ops == old(
                            self,
                        ).meetings@[idx].1.number_ops
                    } else {
                        r == Err::<ModelMutateResultData, MeetingOpError>(
                            MeetingOpError::Store(StoreError::MeetingNotFound),
                        ) && *final(self) == *old(self)
                    }
                },
            }),
    {
        let mut updated = meeting;
        match updated.summarize(reply) {
            Err(e) => Err(MeetingOpError::Summarize(e)),
            Ok(()) => match self.update(updated) {
                Ok(d) => Ok(d),
                Err(e) => Err(MeetingOpError::Store(e)),
            },
        }
    }

    /// Applies a note-improvement reply to a loaded meeting and stores
    /// the updated record in the index, as `summarize_meeting` does for
    /// a summary.
    pub fn improve_note_meeting(&mut self, meeting: Meeting, reply: Result<String, SummarizeError>)
        -> (r: Result<ModelMutateResultData, MeetingOpError>)
        requires
            old(self).wf(),
        ensures
            final(self).wf(),
            meeting.note@.len() == 0 ==> r == Err::<ModelMutateResultData, MeetingOpError>(
                MeetingOpError::Summarize(SummarizeError::NoNote),
            ) && *final(self) == *old(self),
            meeting.note@.len() > 0 ==> (match reply {
                Err(e) => r == Err::<ModelMutateResultData, MeetingOpError>(
                    MeetingOpError::Summarize(e),
                ) && *final(self) == *old(self),
                Ok(_) => {
                    if has_key(old(self).meetings@, meeting.uuid@) {
                        let idx = key_index(old(self).meetings@, meeting.uuid@);
                        &&& r matches Ok(d) && d.id == meeting.uuid
                        &&& final(self).meetings@.len() == old(self).meetings@.len()
                        &&& (forall|j: int|
                            0 <= j < old(self).meetings@.len() && j != idx ==> final(self).meetings@[j]
                                == old(self).meetings@[j])
                        &&& final(self).meetings@[idx].0@ == meeting.uuid@
                        &&& final(self).meetings@[idx].1.title == meeting.title
                        &&& final(self).meetings@[idx].1.datetime == meeting.datetime
                        &&& final(self).meetings@[idx].1.number_ops == old(
                            self,
                        ).meetings@[idx].1.number_ops
                    } else {
                        r == Err::<ModelMutateResultData, MeetingOpError>(
                            MeetingOpError::Store(StoreError::MeetingNotFound),
                        ) && *final(self) == *old(self)
                    }
                },
            }),
    {
        let mut updated = meeting;
        match updated.improve_note(reply) {
            Err(e) => Err(MeetingOpError::Summarize(e)),
            Ok(()) => match self.update(updated) {
                Ok(d) => Ok(d),
                Err(e) => Err(MeetingOpError::Store(e)),
            },
        }
    }

    /// How many background operations currently work on a meeting; fails
    /// when the id is absent.
    pub fn get_nb_async_ops(&self, uuid: String) -> (r: Result<i32, StoreError>)
        requires
            self.wf(),
        ensures
            !has_key(self.meetings@, uuid@) ==> r == Err::<i32, StoreError>(
                StoreError::MeetingNotFound,
            ),
            has_key(self.meetings@, uuid@) ==> r == Ok::<i32, StoreError>(
                self.meetings@[key_index(self.meetings@, uuid@)].1.number_ops,
            ),
    {
        match find_key(&self.meetings, &uuid) {
            None => Err(StoreError::MeetingNotFound),
            Some(idx) => {
                proof {
                    lemma_found_is_key_index(self.meetings@, uuid@, idx as int);
                }
                Ok(self.meetings[idx].1.number_ops)
            },
        }
    }
}

/// Replaces the entry at a position.
fn self_update_entry(
    v: &mut Vec<(String, MeetingInfo)>,
    idx: usize,
    key: String,
    info: MeetingInfo,
)
    requires
        idx < old(v)@.len(),
    ensures
        final(v)@ == old(v)@.update(idx as int, (key, info)),
{
    v.set(idx, (key, info));
}

/// The on-disk location of one meeting's record under the data directory.
pub fn meeting_file_path(base: &str, uuid: &str) -> (r: String)
    ensures
        r@ == base@ + "/meetings/"@ + uuid@ + ".json"@,
{
    String::from_str(base).concat("/meetings/").concat(uuid).concat(".json")
}

/// The on-disk location of the export archive for an export started at
/// the given time.
pub fn export_zip_path(base: &str, now_secs: i64) -> (r: String)
    requires
        0 <= now_secs < MAX_TIMESTAMP,
    ensures
        r@ == base@ + "/export/compressed_meetings_"@ + export_stamp_of(now_secs as int)
            + ".zip"@,
{
    let stamp = format_export_stamp(now_secs);
    String::from_str(base).concat("/export/compressed_meetings_").concat(stamp.as_str()).concat(
        ".zip",
    )
}

} // verus!
