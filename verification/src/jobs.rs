//! The job store behind the web interface's download queue: jobs are created,
//! updated by the download worker, listed newest first, cancelled and removed.
//! The store decides; the caller owns the worker threads, the cancel flags
//! they read and the channels on which a waiting worker is answered.

use crate::clock::now_ms;
use vstd::prelude::*;

verus! {

/// Lifecycle state of a job.
#[derive(Debug, Clone, Copy, PartialEq, Eq, Structural)]
pub enum JobState {
    Queued,
    Running,
    Done,
    Failed,
    Canceled,
}

/// Stage of saving a downloaded book.
#[derive(Debug, Clone, Copy, PartialEq, Eq, Structural)]
pub enum SavePhase {
    Audiobook,
    TextSave,
}

/// A download progress report.
#[derive(Debug, Clone, Copy, PartialEq, Eq, Structural)]
pub struct ProgressSnapshot {
    pub group_done: usize,
    pub group_total: usize,
    pub saved_chapters: usize,
    pub chapter_total: usize,
    pub save_phase: SavePhase,
    pub comment_fetch: usize,
    pub comment_total: usize,
    pub comment_saved: usize,
}

/// One candidate title offered to the user after a download.
#[derive(Debug)]
pub struct BookNameOption {
    pub label: String,
    pub value: String,
}

/// What a client sees of a job.
#[derive(Debug)]
pub struct JobInfo {
    pub id: u64,
    pub book_id: String,
    pub title: Option<String>,
    pub author: Option<String>,
    pub state: JobState,
    pub progress: Option<ProgressSnapshot>,
    pub message: Option<String>,
    pub book_name_options: Option<Vec<BookNameOption>>,
    pub created_ms: u64,
    pub updated_ms: u64,
}

/// What the caller keeps to follow a created job.
#[derive(Debug, Clone, Copy, PartialEq, Eq)]
pub struct JobHandle {
    pub id: u64,
}

/// The answer to a cancel or remove request.
#[derive(Debug, Clone, Copy, PartialEq, Eq, Structural)]
pub struct CancelReply {
    /// Whether the job existed.
    pub found: bool,
    /// Whether a worker waiting for a title choice must be released (sent `None`).
    pub release_waiter: bool,
    /// Whether the job's cancel flag, which its running download watches,
    /// must be raised.
    pub raise_cancel: bool,
}

/// A change the download worker reports for a job.
pub enum JobEdit {
    Running,
    Meta { title: Option<String>, author: Option<String> },
    Progress(ProgressSnapshot),
    Done,
    Failed(String),
}

/// Mathematical view of a title option.
pub open spec fn option_view(o: &BookNameOption) -> (Seq<char>, Seq<char>) {
    (o.label@, o.value@)
}

/// Mathematical view of a list of title options.
pub open spec fn options_view(v: Seq<BookNameOption>) -> Seq<(Seq<char>, Seq<char>)> {
    v.map_values(|o: BookNameOption| option_view(&o))
}

/// Mathematical view of an optional string.
pub open spec fn opt_str(o: Option<String>) -> Option<Seq<char>> {
    match o {
        Some(s) => Some(s@),
        None => None,
    }
}

/// Mathematical view of a job.
pub struct JobInfoView {
    pub id: u64,
    pub book_id: Seq<char>,
    pub title: Option<Seq<char>>,
    pub author: Option<Seq<char>>,
    pub state: JobState,
    pub progress: Option<ProgressSnapshot>,
    pub message: Option<Seq<char>>,
    pub book_name_options: Option<Seq<(Seq<char>, Seq<char>)>>,
    pub created_ms: u64,
    pub updated_ms: u64,
}

/// Mathematical view of a stored job with its control flags.
pub struct JobEntryView {
    pub info: JobInfoView,
    pub cancel_requested: bool,
    pub awaiting_book_name: bool,
}

/// Mathematical view of the store.
pub struct JobStoreView {
    pub next_id: u64,
    pub jobs: Seq<JobEntryView>,
}

impl View for JobInfo {
    type V = JobInfoView;

    open spec fn view(&self) -> JobInfoView {
        JobInfoView {
            id: self.id,
            book_id: self.book_id@,
            title: opt_str(self.title),
            author: opt_str(self.author),
            state: self.state,
            progress: self.progress,
            message: opt_str(self.message),
            book_name_options: match self.book_name_options {
                Some(v) => Some(options_view(v@)),
                None => None,
            },
            created_ms: self.created_ms,
            updated_ms: self.updated_ms,
        }
    }
}

/// A stored job.
pub struct JobEntry {
    pub info: JobInfo,
    pub cancel_requested: bool,
    pub awaiting_book_name: bool,
}

impl View for JobEntry {
    type V = JobEntryView;

    open spec fn view(&self) -> JobEntryView {
        JobEntryView {
            info: self.info@,
            cancel_requested: self.cancel_requested,
            awaiting_book_name: self.awaiting_book_name,
        }
    }
}

/// The views of a list of entries.
pub open spec fn entry_views(s: Seq<JobEntry>) -> Seq<JobEntryView> {
    s.map_values(|e: JobEntry| e@)
}

/// Job ids are pairwise distinct and never above the last id handed out.
pub open spec fn store_wf(v: JobStoreView) -> bool {
    &&& forall|i: int, j: int|
        0 <= i < v.jobs.len() && 0 <= j < v.jobs.len() && i != j ==> #[trigger] v.jobs[i].info.id
            != #[trigger] v.jobs[j].info.id
    &&& forall|i: int| 0 <= i < v.jobs.len() ==> 1 <= #[trigger] v.jobs[i].info.id <= v.next_id
}

/// Whether a job with `id` is stored.
pub open spec fn has_job(jobs: Seq<JobEntryView>, id: u64) -> bool {
    exists|i: int| 0 <= i < jobs.len() && jobs[i].info.id == id
}

/// The stored job with `id`.
pub open spec fn job_of(jobs: Seq<JobEntryView>, id: u64) -> JobEntryView
    recommends
        has_job(jobs, id),
{
    jobs[index_of_job(jobs, id)]
}

/// The job a `create` at time `now` adds.
pub open spec fn new_job_spec(id: u64, book_id: Seq<char>, now: u64) -> JobEntryView {
    JobEntryView {
        info: JobInfoView {
            id,
            book_id,
            title: None,
            author: None,
            state: JobState::Queued,
            progress: None,
            message: None,
            book_name_options: None,
            created_ms: now,
            updated_ms: now,
        },
        cancel_requested: false,
        awaiting_book_name: false,
    }
}

/// A job after a reported change.
pub open spec fn edit_info_spec(i: JobInfoView, edit: JobEditView) -> JobInfoView {
    match edit {
        JobEditView::Running => JobInfoView {
            state: JobState::Running,
            message: None,
            book_name_options: None,
            ..i
        },
        JobEditView::Meta { title, author } => JobInfoView { title, author, ..i },
        JobEditView::Progress(p) => JobInfoView { progress: Some(p), ..i },
        JobEditView::Done => JobInfoView {
            state: JobState::Done,
            message: None,
            book_name_options: None,
            ..i
        },
        JobEditView::Failed(m) => JobInfoView {
            state: JobState::Failed,
            message: Some(m),
            book_name_options: None,
            ..i
        },
    }
}

/// Mathematical view of a reported change.
pub enum JobEditView {
    Running,
    Meta { title: Option<Seq<char>>, author: Option<Seq<char>> },
    Progress(ProgressSnapshot),
    Done,
    Failed(Seq<char>),
}

impl View for JobEdit {
    type V = JobEditView;

    open spec fn view(&self) -> JobEditView {
        match self {
            JobEdit::Running => JobEditView::Running,
            JobEdit::Meta { title, author } => JobEditView::Meta {
                title: opt_str(*title),
                author: opt_str(*author),
            },
            JobEdit::Progress(p) => JobEditView::Progress(*p),
            JobEdit::Done => JobEditView::Done,
            JobEdit::Failed(m) => JobEditView::Failed(m@),
        }
    }
}

/// The store after applying `f` to the job `id` (if stored) at time `now`.
pub open spec fn modify_job(
    jobs: Seq<JobEntryView>,
    id: u64,
    f: spec_fn(JobEntryView) -> JobEntryView,
) -> Seq<JobEntryView> {
    jobs.map_values(|e: JobEntryView| if e.info.id == id { f(e) } else { e })
}

/// A reported change, stamped with `now`.
pub open spec fn edit_entry_spec(edit: JobEditView, now: u64) -> spec_fn(JobEntryView) -> JobEntryView {
    |e: JobEntryView|
        JobEntryView { info: JobInfoView { updated_ms: now, ..edit_info_spec(e.info, edit) }, ..e }
}

/// A cancel request, stamped with `now`.
pub open spec fn cancel_entry_spec(now: u64) -> spec_fn(JobEntryView) -> JobEntryView {
    |e: JobEntryView|
        JobEntryView {
            info: JobInfoView {
                state: JobState::Canceled,
                message: Some("cancel requested"@),
                book_name_options: None,
                updated_ms: now,
                ..e.info
            },
            cancel_requested: true,
            awaiting_book_name: false,
        }
}

/// Offering title options, stamped with `now`.
pub open spec fn offer_entry_spec(
    options: Seq<(Seq<char>, Seq<char>)>,
    now: u64,
) -> spec_fn(JobEntryView) -> JobEntryView {
    |e: JobEntryView|
        JobEntryView {
            info: JobInfoView {
                book_name_options: Some(options),
                message: Some("等待选择书名"@),
                updated_ms: now,
                ..e.info
            },
            awaiting_book_name: true,
            ..e
        }
}

/// A submitted title choice, stamped with `now`.
pub open spec fn choice_entry_spec(now: u64) -> spec_fn(JobEntryView) -> JobEntryView {
    |e: JobEntryView|
        JobEntryView {
            info: JobInfoView { book_name_options: None, message: None, updated_ms: now, ..e.info },
            awaiting_book_name: false,
            ..e
        }
}

/// The position of job `id` in the store.
pub open spec fn index_of_job(jobs: Seq<JobEntryView>, id: u64) -> int {
    choose|i: int| 0 <= i < jobs.len() && jobs[i].info.id == id
}

/// The store without the job `id`.
pub open spec fn without_job(jobs: Seq<JobEntryView>, id: u64) -> Seq<JobEntryView> {
    if has_job(jobs, id) {
        jobs.remove(index_of_job(jobs, id))
    } else {
        jobs
    }
}

/// `a` is listed before `b`: more recently updated first, then the larger id.
pub open spec fn listed_before(a: JobInfoView, b: JobInfoView) -> bool {
    a.updated_ms > b.updated_ms || (a.updated_ms == b.updated_ms && a.id >= b.id)
}

/// `out` lists exactly the stored jobs, each once, ordered by `listed_before`.
pub open spec fn listing_spec(jobs: Seq<JobEntryView>, out: Seq<JobInfoView>) -> bool {
    &&& out.len() == jobs.len()
    &&& forall|i: int, j: int| 0 <= i < j < out.len() ==> listed_before(out[i], out[j])
    &&& forall|k: int| #![trigger jobs[k]] 0 <= k < jobs.len() ==> exists|i: int| 0 <= i < out.len() && #[trigger] out[i] == jobs[k].info
    &&& forall|i: int| #![trigger out[i]] 0 <= i < out.len() ==> exists|k: int| 0 <= k < jobs.len() && out[i] == #[trigger] jobs[k].info
}

/// Mathematical views of a list of jobs.
pub open spec fn info_views(s: Seq<JobInfo>) -> Seq<JobInfoView> {
    s.map_values(|j: JobInfo| j@)
}

/// A copy of an optional string.
fn clone_opt_string(o: &Option<String>) -> (r: Option<String>)
    ensures
        opt_str(r) == opt_str(*o),
{
    match o {
        Some(s) => Some(s.clone()),
        None => None,
    }
}

impl BookNameOption {
    /// A copy of this option.
    pub fn copy(&self) -> (r: BookNameOption)
        ensures
            option_view(&r) == option_view(self),
    {
        BookNameOption { label: self.label.clone(), value: self.value.clone() }
    }
}

/// A copy of a list of title options.
fn clone_options(v: &Vec<BookNameOption>) -> (r: Vec<BookNameOption>)
    ensures
        r@.map_values(|o: BookNameOption| option_view(&o)) == v@.map_values(
            |o: BookNameOption| option_view(&o),
        ),
{
    let mut r: Vec<BookNameOption> = Vec::new();
    for i in 0..v.len()
        invariant
            r@.map_values(|o: BookNameOption| option_view(&o)) == v@.take(i as int).map_values(
                |o: BookNameOption| option_view(&o),
            ),
    {
        r.push(v[i].copy());
        assert(v@.take(i + 1).map_values(|o: BookNameOption| option_view(&o)) =~= v@.take(
            i as int,
        ).map_values(|o: BookNameOption| option_view(&o)).push(option_view(&v@[i as int])));
    }
    assert(v@.take(v@.len() as int) =~= v@);
    r
}

impl JobInfo {
    /// A copy of this job.
    pub fn copy(&self) -> (r: JobInfo)
        ensures
            r@ == self@,
    {
        JobInfo {
            id: self.id,
            book_id: self.book_id.clone(),
            title: clone_opt_string(&self.title),
            author: clone_opt_string(&self.author),
            state: self.state,
            progress: self.progress,
            message: clone_opt_string(&self.message),
            book_name_options: match &self.book_name_options {
                Some(v) => Some(clone_options(v)),
                None => None,
            },
            created_ms: self.created_ms,
            updated_ms: self.updated_ms,
        }
    }
}

/// The job store.
pub struct JobStore {
    next_id: u64,
    entries: Vec<JobEntry>,
}

impl View for JobStore {
    type V = JobStoreView;

    closed spec fn view(&self) -> JobStoreView {
        JobStoreView { next_id: self.next_id, jobs: entry_views(self.entries@) }
    }
}

impl JobStore {
    #[verifier::type_invariant]
    closed spec fn inv(self) -> bool {
        store_wf(self@)
    }

    /// An empty store.
    pub fn new() -> (s: JobStore)
        ensures
            s@.next_id == 0,
            s@.jobs.len() == 0,
            store_wf(s@),
    {
        let s = JobStore { next_id: 0, entries: Vec::new() };
        proof {
            assert(entry_views(s.entries@) =~= Seq::<JobEntryView>::empty());
        }
        s
    }

    /// The id given to the last job created (0 before any); a job can be
    /// created while it is below `u64::MAX`.
    pub fn last_id(&self) -> (r: u64)
        ensures
            r == self@.next_id,
    {
        self.next_id
    }

    /// The index of job `id`, if stored.
    fn find(&self, id: u64) -> (r: Option<usize>)
        ensures
            r matches Some(i) ==> i < self@.jobs.len() && self@.jobs[i as int].info.id == id,
            r is None ==> !has_job(self@.jobs, id),
    {
        for i in 0..self.entries.len()
            invariant
                self@.jobs == entry_views(self.entries@),
                forall|k: int| 0 <= k < i ==> self@.jobs[k].info.id != id,
        {
            if self.entries[i].info.id == id {
                return Some(i);
            }
        }
        None
    }

    /// Adds a queued job for `book_id` at time `now`.
    pub fn create_at(&mut self, book_id: String, now: u64) -> (h: JobHandle)
        requires
            old(self)@.next_id < u64::MAX,
        ensures
            h.id == old(self)@.next_id + 1,
            final(self)@.next_id == h.id,
            final(self)@.jobs == old(self)@.jobs.push(new_job_spec(h.id, book_id@, now)),
            store_wf(final(self)@),
    {
        proof {
            use_type_invariant(&*self);
        }
        let id = self.next_id + 1;
        let info = JobInfo {
            id,
            book_id,
            title: None,
            author: None,
            state: JobState::Queued,
            progress: None,
            message: None,
            book_name_options: None,
            created_ms: now,
            updated_ms: now,
        };
        let entry = JobEntry { info, cancel_requested: false, awaiting_book_name: false };
        let mut entries: Vec<JobEntry> = Vec::new();
        std::mem::swap(&mut entries, &mut self.entries);
        entries.push(entry);
        proof {
            assert(entry_views(entries@) =~= entry_views(old(self).entries@).push(entry@));
            assert(entry@ == new_job_spec(id, book_id@, now));
        }
        self.next_id = id;
        self.entries = entries;
        proof {
            use_type_invariant(&*self);
        }
        JobHandle { id }
    }

    /// Adds a queued job for `book_id` now.
    pub fn create(&mut self, book_id: String) -> (h: JobHandle)
        requires
            old(self)@.next_id < u64::MAX,
        ensures
            h.id == old(self)@.next_id + 1,
            final(self)@.next_id == h.id,
            exists|now: u64| final(self)@.jobs == old(self)@.jobs.push(new_job_spec(h.id, book_id@, now)),
    {
        let now = now_ms();
        self.create_at(book_id, now)
    }


    /// Replaces the stored job at position `i` by `f(stored job)`, where `f`
    /// keeps the id; returns nothing, the change is described by the caller.
    fn take_entry(&mut self, i: usize) -> (r: (JobEntry, Vec<JobEntry>))
        requires
            i < old(self)@.jobs.len(),
        ensures
            r.0@ == old(self)@.jobs[i as int],
            entry_views(r.1@) == old(self)@.jobs.remove(i as int),
            final(self)@.next_id == old(self)@.next_id,
            final(self)@.jobs.len() == 0,
            store_wf(old(self)@),
    {
        proof {
            use_type_invariant(&*self);
        }
        let mut entries: Vec<JobEntry> = Vec::new();
        std::mem::swap(&mut entries, &mut self.entries);
        proof {
            assert(entry_views(self.entries@) =~= Seq::<JobEntryView>::empty());
        }
        let e = entries.remove(i);
        proof {
            assert(entry_views(entries@) =~= old(self)@.jobs.remove(i as int));
        }
        (e, entries)
    }

    /// Puts the entries back with `e` at position `i`.
    fn put_entry(&mut self, i: usize, e: JobEntry, rest: Vec<JobEntry>, Ghost(before): Ghost<JobStoreView>)
        requires
            old(self)@.jobs.len() == 0,
            old(self)@.next_id == before.next_id,
            store_wf(before),
            i < before.jobs.len(),
            entry_views(rest@) == before.jobs.remove(i as int),
            e@.info.id == before.jobs[i as int].info.id,
        ensures
            final(self)@.next_id == before.next_id,
            final(self)@.jobs == before.jobs.update(i as int, e@),
            store_wf(final(self)@),
    {
        let mut rest = rest;
        let ghost ev = e@;
        let ghost r0 = rest@;
        assert(entry_views(r0).len() == r0.len());
        rest.insert(i, e);
        proof {
            assert forall|k: int| 0 <= k < before.jobs.len() implies #[trigger] entry_views(rest@)[k]
                == before.jobs.update(i as int, ev)[k] by {
                if k < i {
                    assert(rest@[k] == r0[k]);
                    assert(entry_views(r0)[k] == before.jobs.remove(i as int)[k]);
                } else if k > i {
                    assert(rest@[k] == r0[k - 1]);
                    assert(entry_views(r0)[k - 1] == before.jobs.remove(i as int)[k - 1]);
                }
            }
            assert(entry_views(rest@) =~= before.jobs.update(i as int, ev));
        }
        self.entries = rest;
        proof {
            use_type_invariant(&*self);
        }
    }

    /// `f(stored job i)` stored back equals mapping `f` over the job with that id.
    proof fn lemma_modify_one(v: JobStoreView, i: int, f: spec_fn(JobEntryView) -> JobEntryView)
        requires
            store_wf(v),
            0 <= i < v.jobs.len(),
        ensures
            modify_job(v.jobs, v.jobs[i].info.id, f) == v.jobs.update(i, f(v.jobs[i])),
    {
        assert(modify_job(v.jobs, v.jobs[i].info.id, f) =~= v.jobs.update(i, f(v.jobs[i])));
    }

    /// Applies a reported change to job `id` at time `now`; nothing when absent.
    pub fn update(&mut self, id: u64, edit: JobEdit, now: u64)
        ensures
            final(self)@.next_id == old(self)@.next_id,
            final(self)@.jobs == modify_job(old(self)@.jobs, id, edit_entry_spec(edit@, now)),
            store_wf(final(self)@),
    {
        proof {
            use_type_invariant(&*self);
        }
        let ghost ev = edit@;
        let ghost before = self@;
        match self.find(id) {
            None => {
                proof {
                    assert(modify_job(self@.jobs, id, edit_entry_spec(ev, now)) =~= self@.jobs);
                }
            },
            Some(i) => {
                let (e, rest) = self.take_entry(i);
                let JobEntry { info, cancel_requested, awaiting_book_name } = e;
                let mut info = info;
                match edit {
                    JobEdit::Running => {
                        info.state = JobState::Running;
                        info.message = None;
                        info.book_name_options = None;
                    },
                    JobEdit::Meta { title, author } => {
                        info.title = title;
                        info.author = author;
                    },
                    JobEdit::Progress(p) => {
                        info.progress = Some(p);
                    },
                    JobEdit::Done => {
                        info.state = JobState::Done;
                        info.message = None;
                        info.book_name_options = None;
                    },
                    JobEdit::Failed(m) => {
                        info.state = JobState::Failed;
                        info.message = Some(m);
                        info.book_name_options = None;
                    },
                }
                info.updated_ms = now;
                let ne = JobEntry { info, cancel_requested, awaiting_book_name };
                proof {
                    assert(ne@ == (edit_entry_spec(ev, now))(before.jobs[i as int]));
                    Self::lemma_modify_one(before, i as int, edit_entry_spec(ev, now));
                }
                self.put_entry(i, ne, rest, Ghost(before));
            },
        }
    }

    /// Marks job `id` running at time `now`.
    pub fn set_running_at(&mut self, id: u64, now: u64)
        ensures
            final(self)@.next_id == old(self)@.next_id,
            final(self)@.jobs == modify_job(old(self)@.jobs, id, edit_entry_spec(JobEditView::Running, now)),
            store_wf(final(self)@),
    {
        self.update(id, JobEdit::Running, now);
    }

    /// Marks job `id` running now.
    pub fn set_running(&mut self, id: u64)
        ensures
            final(self)@.next_id == old(self)@.next_id,
            exists|now: u64|
                final(self)@.jobs == modify_job(old(self)@.jobs, id, edit_entry_spec(JobEditView::Running, now)),
            store_wf(final(self)@),
    {
        let now = now_ms();
        self.set_running_at(id, now);
    }

    /// Records the title and author of job `id` at time `now`.
    pub fn set_meta_at(&mut self, id: u64, title: Option<String>, author: Option<String>, now: u64)
        ensures
            final(self)@.next_id == old(self)@.next_id,
            final(self)@.jobs == modify_job(
                old(self)@.jobs,
                id,
                edit_entry_spec(JobEditView::Meta { title: opt_str(title), author: opt_str(author) }, now),
            ),
            store_wf(final(self)@),
    {
        self.update(id, JobEdit::Meta { title, author }, now);
    }

    /// Records the title and author of job `id` now.
    pub fn set_meta(&mut self, id: u64, title: Option<String>, author: Option<String>)
        ensures
            final(self)@.next_id == old(self)@.next_id,
            exists|now: u64|
                final(self)@.jobs == modify_job(
                    old(self)@.jobs,
                    id,
                    edit_entry_spec(JobEditView::Meta { title: opt_str(title), author: opt_str(author) }, now),
                ),
            store_wf(final(self)@),
    {
        let now = now_ms();
        self.set_meta_at(id, title, author, now);
    }

    /// Records the progress of job `id` at time `now`.
    pub fn set_progress_at(&mut self, id: u64, snap: ProgressSnapshot, now: u64)
        ensures
            final(self)@.next_id == old(self)@.next_id,
            final(self)@.jobs == modify_job(old(self)@.jobs, id, edit_entry_spec(JobEditView::Progress(snap), now)),
            store_wf(final(self)@),
    {
        self.update(id, JobEdit::Progress(snap), now);
    }

    /// Records the progress of job `id` now.
    pub fn set_progress(&mut self, id: u64, snap: ProgressSnapshot)
        ensures
            final(self)@.next_id == old(self)@.next_id,
            exists|now: u64|
                final(self)@.jobs == modify_job(old(self)@.jobs, id, edit_entry_spec(JobEditView::Progress(snap), now)),
            store_wf(final(self)@),
    {
        let now = now_ms();
        self.set_progress_at(id, snap, now);
    }

    /// Marks job `id` done at time `now`.
    pub fn set_done_at(&mut self, id: u64, now: u64)
        ensures
            final(self)@.next_id == old(self)@.next_id,
            final(self)@.jobs == modify_job(old(self)@.jobs, id, edit_entry_spec(JobEditView::Done, now)),
            store_wf(final(self)@),
    {
        self.update(id, JobEdit::Done, now);
    }

    /// Marks job `id` done now.
    pub fn set_done(&mut self, id: u64)
        ensures
            final(self)@.next_id == old(self)@.next_id,
            exists|now: u64|
                final(self)@.jobs == modify_job(old(self)@.jobs, id, edit_entry_spec(JobEditView::Done, now)),
            store_wf(final(self)@),
    {
        let now = now_ms();
        self.set_done_at(id, now);
    }

    /// Marks job `id` failed with `msg` at time `now`.
    pub fn set_failed_at(&mut self, id: u64, msg: String, now: u64)
        ensures
            final(self)@.next_id == old(self)@.next_id,
            final(self)@.jobs == modify_job(old(self)@.jobs, id, edit_entry_spec(JobEditView::Failed(msg@), now)),
            store_wf(final(self)@),
    {
        self.update(id, JobEdit::Failed(msg), now);
    }

    /// Marks job `id` failed with `msg` now.
    pub fn set_failed(&mut self, id: u64, msg: String)
        ensures
            final(self)@.next_id == old(self)@.next_id,
            exists|now: u64|
                final(self)@.jobs == modify_job(old(self)@.jobs, id, edit_entry_spec(JobEditView::Failed(msg@), now)),
            store_wf(final(self)@),
    {
        let now = now_ms();
        self.set_failed_at(id, msg, now);
    }

    /// The found position is the one the specification picks.
    proof fn lemma_index_of(v: JobStoreView, i: int)
        requires
            store_wf(v),
            0 <= i < v.jobs.len(),
        ensures
            has_job(v.jobs, v.jobs[i].info.id),
            index_of_job(v.jobs, v.jobs[i].info.id) == i,
    {
        let id = v.jobs[i].info.id;
        assert(has_job(v.jobs, id));
        let k = index_of_job(v.jobs, id);
        if k != i {
            assert(v.jobs[k].info.id != v.jobs[i].info.id);
        }
    }

    /// Puts back the entries without the one taken out.
    fn put_rest(&mut self, rest: Vec<JobEntry>, Ghost(before): Ghost<JobStoreView>, Ghost(i): Ghost<int>)
        requires
            old(self)@.jobs.len() == 0,
            old(self)@.next_id == before.next_id,
            store_wf(before),
            0 <= i < before.jobs.len(),
            entry_views(rest@) == before.jobs.remove(i),
        ensures
            final(self)@.next_id == before.next_id,
            final(self)@.jobs == before.jobs.remove(i),
            store_wf(final(self)@),
    {
        proof {
            let r = before.jobs.remove(i);
            assert forall|a: int| 0 <= a < r.len() implies #[trigger] r[a] == before.jobs[if a < i {
                a
            } else {
                a + 1
            }] by {}
        }
        self.entries = rest;
        proof {
            use_type_invariant(&*self);
        }
    }

    /// Requests cancellation of job `id` at time `now`: the job stays listed as
    /// cancelled, its cancel flag is raised and a worker waiting for a title
    /// choice is released.
    pub fn request_cancel_at(&mut self, id: u64, now: u64) -> (r: CancelReply)
        ensures
            r.found == has_job(old(self)@.jobs, id),
            r.release_waiter == (r.found && job_of(old(self)@.jobs, id).awaiting_book_name),
            r.raise_cancel == r.found,
            final(self)@.next_id == old(self)@.next_id,
            final(self)@.jobs == modify_job(old(self)@.jobs, id, cancel_entry_spec(now)),
            store_wf(final(self)@),
    {
        proof {
            use_type_invariant(&*self);
        }
        let ghost before = self@;
        match self.find(id) {
            None => {
                proof {
                    assert(modify_job(self@.jobs, id, cancel_entry_spec(now)) =~= self@.jobs);
                }
                CancelReply { found: false, release_waiter: false, raise_cancel: false }
            },
            Some(i) => {
                let (e, rest) = self.take_entry(i);
                let JobEntry { info, cancel_requested: _, awaiting_book_name } = e;
                let mut info = info;
                info.state = JobState::Canceled;
                info.message = Some(String::from_str("cancel requested"));
                info.book_name_options = None;
                info.updated_ms = now;
                let ne = JobEntry { info, cancel_requested: true, awaiting_book_name: false };
                proof {
                    assert(ne@ == (cancel_entry_spec(now))(before.jobs[i as int]));
                    Self::lemma_modify_one(before, i as int, cancel_entry_spec(now));
                    Self::lemma_index_of(before, i as int);
                }
                self.put_entry(i, ne, rest, Ghost(before));
                CancelReply { found: true, release_waiter: awaiting_book_name, raise_cancel: true }
            },
        }
    }

    /// Requests cancellation of job `id` now.
    pub fn request_cancel(&mut self, id: u64) -> (r: CancelReply)
        ensures
            r.found == has_job(old(self)@.jobs, id),
            r.release_waiter == (r.found && job_of(old(self)@.jobs, id).awaiting_book_name),
            r.raise_cancel == r.found,
            final(self)@.next_id == old(self)@.next_id,
            exists|now: u64| final(self)@.jobs == modify_job(old(self)@.jobs, id, cancel_entry_spec(now)),
            store_wf(final(self)@),
    {
        let now = now_ms();
        self.request_cancel_at(id, now)
    }

    /// Takes job `id` out of the store.
    fn take_out(&mut self, id: u64) -> (r: Option<bool>)
        ensures
            r is Some == has_job(old(self)@.jobs, id),
            r matches Some(w) ==> w == job_of(old(self)@.jobs, id).awaiting_book_name,
            final(self)@.next_id == old(self)@.next_id,
            final(self)@.jobs == without_job(old(self)@.jobs, id),
            store_wf(final(self)@),
    {
        proof {
            use_type_invariant(&*self);
        }
        let ghost before = self@;
        match self.find(id) {
            None => None,
            Some(i) => {
                let (e, rest) = self.take_entry(i);
                proof {
                    Self::lemma_index_of(before, i as int);
                }
                self.put_rest(rest, Ghost(before), Ghost(i as int));
                Some(e.awaiting_book_name)
            },
        }
    }

    /// Cancels job `id` and removes it from the store: when the job was
    /// there, the reply says to raise its cancel flag, so that its running
    /// download stops, and to release a worker waiting for a title choice.
    pub fn request_cancel_and_remove(&mut self, id: u64) -> (r: CancelReply)
        ensures
            r.found == has_job(old(self)@.jobs, id),
            r.release_waiter == (r.found && job_of(old(self)@.jobs, id).awaiting_book_name),
            r.raise_cancel == r.found,
            final(self)@.next_id == old(self)@.next_id,
            final(self)@.jobs == without_job(old(self)@.jobs, id),
            store_wf(final(self)@),
    {
        match self.take_out(id) {
            Some(w) => CancelReply { found: true, release_waiter: w, raise_cancel: true },
            None => CancelReply { found: false, release_waiter: false, raise_cancel: false },
        }
    }

    /// Removes job `id` from the store, releasing a worker waiting for a title
    /// choice; its cancel flag is left as it is.
    pub fn remove(&mut self, id: u64) -> (r: CancelReply)
        ensures
            r.found == has_job(old(self)@.jobs, id),
            r.release_waiter == (r.found && job_of(old(self)@.jobs, id).awaiting_book_name),
            !r.raise_cancel,
            final(self)@.next_id == old(self)@.next_id,
            final(self)@.jobs == without_job(old(self)@.jobs, id),
            store_wf(final(self)@),
    {
        match self.take_out(id) {
            Some(w) => CancelReply { found: true, release_waiter: w, raise_cancel: false },
            None => CancelReply { found: false, release_waiter: false, raise_cancel: false },
        }
    }

    /// Offers title options for job `id` at time `now`; its worker now waits
    /// for a choice. Nothing when the job is absent.
    pub fn set_book_name_options_at(&mut self, id: u64, options: Vec<BookNameOption>, now: u64)
        ensures
            final(self)@.next_id == old(self)@.next_id,
            final(self)@.jobs == modify_job(
                old(self)@.jobs,
                id,
                offer_entry_spec(options_view(options@), now),
            ),
            store_wf(final(self)@),
    {
        proof {
            use_type_invariant(&*self);
        }
        let ghost before = self@;
        let ghost ov = options_view(options@);
        match self.find(id) {
            None => {
                proof {
                    assert(modify_job(self@.jobs, id, offer_entry_spec(ov, now)) =~= self@.jobs);
                }
            },
            Some(i) => {
                let (e, rest) = self.take_entry(i);
                let JobEntry { info, cancel_requested, awaiting_book_name: _ } = e;
                let mut info = info;
                info.book_name_options = Some(options);
                info.message = Some(String::from_str("等待选择书名"));
                info.updated_ms = now;
                let ne = JobEntry { info, cancel_requested, awaiting_book_name: true };
                proof {
                    assert(ne@ == (offer_entry_spec(ov, now))(before.jobs[i as int]));
                    Self::lemma_modify_one(before, i as int, offer_entry_spec(ov, now));
                }
                self.put_entry(i, ne, rest, Ghost(before));
            },
        }
    }

    /// Offers title options for job `id` now.
    pub fn set_book_name_options(&mut self, id: u64, options: Vec<BookNameOption>)
        ensures
            final(self)@.next_id == old(self)@.next_id,
            exists|now: u64|
                final(self)@.jobs == modify_job(
                    old(self)@.jobs,
                    id,
                    #[trigger] offer_entry_spec(options_view(options@), now),
                ),
            store_wf(final(self)@),
    {
        let now = now_ms();
        self.set_book_name_options_at(id, options, now);
    }

    /// Accepts a title choice for job `id` at time `now` when its worker is
    /// waiting for one; the caller then hands the choice to the worker.
    pub fn submit_book_name_choice_at(&mut self, id: u64, now: u64) -> (accepted: bool)
        ensures
            accepted == (has_job(old(self)@.jobs, id) && job_of(old(self)@.jobs, id).awaiting_book_name),
            final(self)@.next_id == old(self)@.next_id,
            accepted ==> final(self)@.jobs == modify_job(old(self)@.jobs, id, choice_entry_spec(now)),
            !accepted ==> final(self)@.jobs == old(self)@.jobs,
            store_wf(final(self)@),
    {
        proof {
            use_type_invariant(&*self);
        }
        let ghost before = self@;
        match self.find(id) {
            None => false,
            Some(i) => {
                proof {
                    Self::lemma_index_of(before, i as int);
                }
                if !self.entries[i].awaiting_book_name {
                    return false;
                }
                let (e, rest) = self.take_entry(i);
                let JobEntry { info, cancel_requested, awaiting_book_name: _ } = e;
                let mut info = info;
                info.book_name_options = None;
                info.message = None;
                info.updated_ms = now;
                let ne = JobEntry { info, cancel_requested, awaiting_book_name: false };
                proof {
                    assert(ne@ == (choice_entry_spec(now))(before.jobs[i as int]));
                    Self::lemma_modify_one(before, i as int, choice_entry_spec(now));
                }
                self.put_entry(i, ne, rest, Ghost(before));
                true
            },
        }
    }

    /// Accepts a title choice for job `id` now when its worker is waiting.
    pub fn submit_book_name_choice(&mut self, id: u64) -> (accepted: bool)
        ensures
            accepted == (has_job(old(self)@.jobs, id) && job_of(old(self)@.jobs, id).awaiting_book_name),
            final(self)@.next_id == old(self)@.next_id,
            accepted ==> exists|now: u64|
                final(self)@.jobs == modify_job(old(self)@.jobs, id, choice_entry_spec(now)),
            !accepted ==> final(self)@.jobs == old(self)@.jobs,
            store_wf(final(self)@),
    {
        let now = now_ms();
        self.submit_book_name_choice_at(id, now)
    }

    /// All jobs, most recently updated first (ties: larger id first).
    pub fn list(&self) -> (out: Vec<JobInfo>)
        ensures
            listing_spec(self@.jobs, info_views(out@)),
    {
        let n = self.entries.len();
        let ghost jobs = self@.jobs;
        let mut out: Vec<JobInfo> = Vec::new();
        let ghost mut pos: Seq<int> = Seq::empty();
        let ghost mut src: Seq<int> = Seq::empty();
        for k in 0..n
            invariant
                n == jobs.len(),
                jobs == self@.jobs,
                out@.len() == k,
                pos.len() == k,
                src.len() == k,
                forall|i: int, j: int|
                    0 <= i < j < k ==> listed_before(#[trigger] out@[i]@, #[trigger] out@[j]@),
                forall|m: int| 0 <= m < k ==> 0 <= #[trigger] pos[m] < k && out@[pos[m]]@ == jobs[m].info,
                forall|i: int| 0 <= i < k ==> 0 <= #[trigger] src[i] < k && out@[i]@ == jobs[src[i]].info,
        {
            let x = self.entries[k].info.copy();
            assert(x@ == jobs[k as int].info);
            let mut p: usize = 0;
            while p < out.len() && (out[p].updated_ms > x.updated_ms || (out[p].updated_ms
                == x.updated_ms && out[p].id >= x.id))
                invariant
                    p <= out@.len(),
                    forall|j: int| 0 <= j < p ==> listed_before(#[trigger] out@[j]@, x@),
                decreases out@.len() - p,
            {
                p += 1;
            }
            let ghost old_out = out@;
            let ghost xv = x@;
            out.insert(p, x);
            proof {
                assert forall|i: int| 0 <= i < out@.len() implies #[trigger] out@[i] == (if i < p {
                    old_out[i]
                } else if i == p {
                    out@[p as int]
                } else {
                    old_out[i - 1]
                }) by {}
                assert(out@[p as int]@ == xv);
                assert forall|i: int, j: int| 0 <= i < j < k + 1 implies listed_before(
                    #[trigger] out@[i]@,
                    #[trigger] out@[j]@,
                ) by {
                    if j < p {
                        assert(listed_before(old_out[i]@, old_out[j]@));
                    } else if j == p {
                        assert(listed_before(old_out[i]@, xv));
                    } else if i < p {
                        assert(listed_before(old_out[i]@, xv));
                        assert(listed_before(old_out[i]@, old_out[j - 1]@));
                    } else if i == p {
                        assert(!listed_before(old_out[p as int]@, xv));
                        if j - 1 > p {
                            assert(listed_before(old_out[p as int]@, old_out[j - 1]@));
                        }
                    } else {
                        assert(listed_before(old_out[i - 1]@, old_out[j - 1]@));
                    }
                }
                let new_pos = Seq::new(k as nat, |m: int| if pos[m] >= p { pos[m] + 1 } else { pos[m] }).push(
                    p as int,
                );
                assert forall|m: int| 0 <= m < k + 1 implies 0 <= #[trigger] new_pos[m] < k + 1
                    && out@[new_pos[m]]@ == jobs[m].info by {
                    if m < k {
                        assert(new_pos[m] == if pos[m] >= p { pos[m] + 1 } else { pos[m] });
                    }
                }
                let new_src = src.insert(p as int, k as int);
                assert forall|i: int| 0 <= i < k + 1 implies 0 <= #[trigger] new_src[i] < k + 1
                    && out@[i]@ == jobs[new_src[i]].info by {
                    if i < p {
                        assert(new_src[i] == src[i]);
                    } else if i > p {
                        assert(new_src[i] == src[i - 1]);
                    }
                }
                pos = new_pos;
                src = new_src;
            }
        }
        proof {
            let ov = info_views(out@);
            assert forall|k: int| #![trigger jobs[k]] 0 <= k < jobs.len() implies exists|i: int| 0 <= i < ov.len() && #[trigger] ov[i] == jobs[k].info by {
                assert(ov[pos[k]] == jobs[k].info);
            }
            assert forall|i: int| #![trigger ov[i]] 0 <= i < ov.len() implies exists|k: int| 0 <= k < jobs.len() && ov[i] == #[trigger] jobs[k].info by {
                assert(ov[i] == jobs[src[i]].info);
            }
        }
        out
    }
}

} // verus!

verus! {

/// A job just created is stored, queued, with the given book id, and no
/// message, progress or title options.
pub proof fn lemma_created_job_listed(v: JobStoreView, book_id: Seq<char>, now: u64)
    requires
        store_wf(v),
        v.next_id < u64::MAX,
    ensures
        has_job(v.jobs.push(new_job_spec((v.next_id + 1) as u64, book_id, now)), (v.next_id + 1) as u64),
        job_of(v.jobs.push(new_job_spec((v.next_id + 1) as u64, book_id, now)), (v.next_id + 1) as u64)
            == new_job_spec((v.next_id + 1) as u64, book_id, now),
        !has_job(v.jobs, (v.next_id + 1) as u64),
{
    let id = (v.next_id + 1) as u64;
    let j = v.jobs.push(new_job_spec(id, book_id, now));
    assert(j[v.jobs.len() as int].info.id == id);
    let k = index_of_job(j, id);
    if k < v.jobs.len() {
        assert(j[k] == v.jobs[k]);
    }
}

/// Once removed, a job is no longer stored, and every other job still is.
pub proof fn lemma_removed_job_gone(v: JobStoreView, id: u64, other: u64)
    requires
        store_wf(v),
        other != id,
    ensures
        !has_job(without_job(v.jobs, id), id),
        has_job(without_job(v.jobs, id), other) == has_job(v.jobs, other),
{
    if has_job(v.jobs, id) {
        let k = index_of_job(v.jobs, id);
        let r = v.jobs.remove(k);
        assert forall|i: int| 0 <= i < r.len() implies #[trigger] r[i].info.id != id by {
            if i < k {
                assert(r[i] == v.jobs[i]);
            } else {
                assert(r[i] == v.jobs[i + 1]);
            }
        }
        if has_job(v.jobs, other) {
            let m = choose|m: int| 0 <= m < v.jobs.len() && v.jobs[m].info.id == other;
            if m < k {
                assert(r[m] == v.jobs[m]);
            } else {
                assert(m != k);
                assert(r[m - 1] == v.jobs[m]);
            }
        }
        if has_job(r, other) {
            let m = choose|m: int| 0 <= m < r.len() && r[m].info.id == other;
            if m < k {
                assert(r[m] == v.jobs[m]);
            } else {
                assert(r[m] == v.jobs[m + 1]);
            }
        }
    }
}

/// Changing one job keeps every id in place and every other job unchanged.
pub proof fn lemma_modify_keeps_others(
    jobs: Seq<JobEntryView>,
    id: u64,
    f: spec_fn(JobEntryView) -> JobEntryView,
    i: int,
)
    requires
        0 <= i < jobs.len(),
        jobs[i].info.id != id,
    ensures
        modify_job(jobs, id, f).len() == jobs.len(),
        modify_job(jobs, id, f)[i] == jobs[i],
{
}

/// After a cancel request the job is listed as cancelled, its cancel flag is
/// raised and no worker waits on it for a title choice.
pub proof fn lemma_cancelled_job(v: JobStoreView, id: u64, now: u64)
    requires
        store_wf(v),
        has_job(v.jobs, id),
    ensures
        has_job(modify_job(v.jobs, id, cancel_entry_spec(now)), id),
        job_of(modify_job(v.jobs, id, cancel_entry_spec(now)), id).info.state == JobState::Canceled,
        job_of(modify_job(v.jobs, id, cancel_entry_spec(now)), id).cancel_requested,
        !job_of(modify_job(v.jobs, id, cancel_entry_spec(now)), id).awaiting_book_name,
{
    lemma_modified_job(v, id, cancel_entry_spec(now));
}

/// After a title choice was taken, a second choice for the same job is refused
/// until new options are offered.
pub proof fn lemma_choice_taken_once(v: JobStoreView, id: u64, now: u64)
    requires
        store_wf(v),
        has_job(v.jobs, id),
    ensures
        !job_of(modify_job(v.jobs, id, choice_entry_spec(now)), id).awaiting_book_name,
{
    lemma_modified_job(v, id, choice_entry_spec(now));
}

/// A job the download worker reports as running, done or failed is shown
/// in exactly that state (running and done with no message, failed with its
/// message), stamped with the report's time; its id and book do not change.
pub proof fn lemma_reported_state_shown(v: JobStoreView, id: u64, now: u64, msg: Seq<char>)
    requires
        store_wf(v),
        has_job(v.jobs, id),
    ensures
        has_job(modify_job(v.jobs, id, edit_entry_spec(JobEditView::Running, now)), id),
        job_of(modify_job(v.jobs, id, edit_entry_spec(JobEditView::Running, now)), id).info.state == JobState::Running,
        job_of(modify_job(v.jobs, id, edit_entry_spec(JobEditView::Running, now)), id).info.message is None,
        job_of(modify_job(v.jobs, id, edit_entry_spec(JobEditView::Running, now)), id).info.updated_ms == now,
        job_of(modify_job(v.jobs, id, edit_entry_spec(JobEditView::Running, now)), id).info.book_id
            == job_of(v.jobs, id).info.book_id,
        job_of(modify_job(v.jobs, id, edit_entry_spec(JobEditView::Done, now)), id).info.state == JobState::Done,
        job_of(modify_job(v.jobs, id, edit_entry_spec(JobEditView::Failed(msg), now)), id).info.state == JobState::Failed,
        job_of(modify_job(v.jobs, id, edit_entry_spec(JobEditView::Failed(msg), now)), id).info.message == Some(msg),
{
    lemma_modified_job(v, id, edit_entry_spec(JobEditView::Running, now));
    lemma_modified_job(v, id, edit_entry_spec(JobEditView::Done, now));
    lemma_modified_job(v, id, edit_entry_spec(JobEditView::Failed(msg), now));
}

/// A modified job is found at its old place, holding `f` of its old value,
/// provided `f` keeps the id.
pub proof fn lemma_modified_job(v: JobStoreView, id: u64, f: spec_fn(JobEntryView) -> JobEntryView)
    requires
        store_wf(v),
        has_job(v.jobs, id),
        f(job_of(v.jobs, id)).info.id == id,
    ensures
        has_job(modify_job(v.jobs, id, f), id),
        job_of(modify_job(v.jobs, id, f), id) == f(job_of(v.jobs, id)),
{
    let k = index_of_job(v.jobs, id);
    let m = modify_job(v.jobs, id, f);
    assert(m[k] == f(v.jobs[k]));
    let k2 = index_of_job(m, id);
    if k2 != k {
        assert(m[k2] == v.jobs[k2]);
        assert(v.jobs[k2].info.id != v.jobs[k].info.id);
    }
}

} // verus!
