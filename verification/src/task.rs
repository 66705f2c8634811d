//! Background task queues and the scan controller: the in-memory state and
//! the decisions over it.  Storing tasks, waking waiters and running the
//! tasks belong to the application around the library.
use vstd::prelude::*;
use std::collections::VecDeque;
use crate::text::{chars_of, replace, str_eq};

verus! {

// ---------------------------------------------------------------------------
// Tasks
// ---------------------------------------------------------------------------

/// A task that waits in a queue, found again by its identifier.
pub trait QueuedTask: Sized {
    /// The task's identifier.
    spec fn id_view(&self) -> Seq<char>;

    /// Do the two tasks hold the same values?
    spec fn same_task(&self, other: &Self) -> bool;

    /// The task's identifier.
    fn task_id(&self) -> (r: &str)
        ensures
            r@ == self.id_view(),
    ;

    /// A copy of the task.
    fn duplicate(&self) -> (r: Self)
        ensures
            r.same_task(self),
            r.id_view() == self.id_view(),
    ;
}

/// The text of an optional string.
pub open spec fn opt_text(o: Option<String>) -> Option<Seq<char>> {
    match o {
        Some(s) => Some(s@),
        None => None,
    }
}

fn copy_text(o: &Option<String>) -> (r: Option<String>)
    ensures
        opt_text(r) == opt_text(*o),
{
    match o {
        Some(s) => Some(s.clone()),
        None => None,
    }
}

/// The texts of an optional list of strings.
pub open spec fn opt_texts(o: Option<Vec<String>>) -> Option<Seq<Seq<char>>> {
    match o {
        Some(v) => Some(v@.map_values(|s: String| s@)),
        None => None,
    }
}

fn copy_texts(o: &Option<Vec<String>>) -> (r: Option<Vec<String>>)
    ensures
        opt_texts(r) == opt_texts(*o),
{
    match o {
        Some(v) => {
            let mut out: Vec<String> = Vec::new();
            let mut i: usize = 0;
            while i < v.len()
                invariant
                    i <= v@.len(),
                    out@.map_values(|s: String| s@) == v@.take(i as int).map_values(|s: String| s@),
                decreases v@.len() - i,
            {
                let ghost before = out@;
                out.push(v[i].clone());
                assert(out@.map_values(|s: String| s@) =~= before.map_values(|s: String| s@).push(
                    v@[i as int]@,
                ));
                assert(v@.take(i + 1).map_values(|s: String| s@) =~= v@.take(i as int).map_values(
                    |s: String| s@,
                ).push(v@[i as int]@));
                i = i + 1;
            }
            assert(v@.take(v@.len() as int) =~= v@);
            Some(out)
        },
        None => None,
    }
}

/// Deleting a video source.
#[derive(Debug)]
pub struct DeleteVideoSourceTask {
    pub source_type: String,
    pub source_id: i32,
    pub delete_local_files: bool,
    pub task_id: String,
}

impl QueuedTask for DeleteVideoSourceTask {
    open spec fn id_view(&self) -> Seq<char> {
        self.task_id@
    }

    open spec fn same_task(&self, other: &Self) -> bool {
        &&& self.source_type@ == other.source_type@
        &&& self.source_id == other.source_id
        &&& self.delete_local_files == other.delete_local_files
        &&& self.task_id@ == other.task_id@
    }

    fn task_id(&self) -> (r: &str) {
        self.task_id.as_str()
    }

    fn duplicate(&self) -> (r: Self) {
        DeleteVideoSourceTask {
            source_type: self.source_type.clone(),
            source_id: self.source_id,
            delete_local_files: self.delete_local_files,
            task_id: self.task_id.clone(),
        }
    }
}

/// Deleting one video.
#[derive(Debug)]
pub struct DeleteVideoTask {
    pub video_id: i32,
    pub task_id: String,
}

impl QueuedTask for DeleteVideoTask {
    open spec fn id_view(&self) -> Seq<char> {
        self.task_id@
    }

    open spec fn same_task(&self, other: &Self) -> bool {
        self.video_id == other.video_id && self.task_id@ == other.task_id@
    }

    fn task_id(&self) -> (r: &str) {
        self.task_id.as_str()
    }

    fn duplicate(&self) -> (r: Self) {
        DeleteVideoTask { video_id: self.video_id, task_id: self.task_id.clone() }
    }
}

/// Adding a video source.
#[derive(Debug)]
pub struct AddVideoSourceTask {
    pub source_type: String,
    pub name: String,
    pub source_id: String,
    pub path: String,
    pub up_id: Option<String>,
    pub collection_type: Option<String>,
    pub collection_aggregate_enabled: Option<bool>,
    /// The stream filter, as its JSON text.
    pub filter_option: Option<String>,
    pub download_charge_videos: Option<bool>,
    pub media_id: Option<String>,
    pub ep_id: Option<String>,
    pub download_all_seasons: Option<bool>,
    pub selected_seasons: Option<Vec<String>>,
    pub task_id: String,
}

impl QueuedTask for AddVideoSourceTask {
    open spec fn id_view(&self) -> Seq<char> {
        self.task_id@
    }

    open spec fn same_task(&self, other: &Self) -> bool {
        &&& self.source_type@ == other.source_type@
        &&& self.name@ == other.name@
        &&& self.source_id@ == other.source_id@
        &&& self.path@ == other.path@
        &&& opt_text(self.up_id) == opt_text(other.up_id)
        &&& opt_text(self.collection_type) == opt_text(other.collection_type)
        &&& self.collection_aggregate_enabled == other.collection_aggregate_enabled
        &&& opt_text(self.filter_option) == opt_text(other.filter_option)
        &&& self.download_charge_videos == other.download_charge_videos
        &&& opt_text(self.media_id) == opt_text(other.media_id)
        &&& opt_text(self.ep_id) == opt_text(other.ep_id)
        &&& self.download_all_seasons == other.download_all_seasons
        &&& opt_texts(self.selected_seasons) == opt_texts(other.selected_seasons)
        &&& self.task_id@ == other.task_id@
    }

    fn task_id(&self) -> (r: &str) {
        self.task_id.as_str()
    }

    fn duplicate(&self) -> (r: Self) {
        AddVideoSourceTask {
            source_type: self.source_type.clone(),
            name: self.name.clone(),
            source_id: self.source_id.clone(),
            path: self.path.clone(),
            up_id: copy_text(&self.up_id),
            collection_type: copy_text(&self.collection_type),
            collection_aggregate_enabled: self.collection_aggregate_enabled,
            filter_option: copy_text(&self.filter_option),
            download_charge_videos: self.download_charge_videos,
            media_id: copy_text(&self.media_id),
            ep_id: copy_text(&self.ep_id),
            download_all_seasons: self.download_all_seasons,
            selected_seasons: copy_texts(&self.selected_seasons),
            task_id: self.task_id.clone(),
        }
    }
}

/// Reloading the configuration.
#[derive(Debug)]
pub struct ReloadConfigTask {
    pub task_id: String,
}

impl QueuedTask for ReloadConfigTask {
    open spec fn id_view(&self) -> Seq<char> {
        self.task_id@
    }

    open spec fn same_task(&self, other: &Self) -> bool {
        self.task_id@ == other.task_id@
    }

    fn task_id(&self) -> (r: &str) {
        self.task_id.as_str()
    }

    fn duplicate(&self) -> (r: Self) {
        ReloadConfigTask { task_id: self.task_id.clone() }
    }
}

/// A configuration update: its identifier and the settings it applies, as
/// their JSON text.
#[derive(Debug)]
pub struct UpdateConfigTask {
    pub task_id: String,
    pub settings: String,
}

impl QueuedTask for UpdateConfigTask {
    open spec fn id_view(&self) -> Seq<char> {
        self.task_id@
    }

    open spec fn same_task(&self, other: &Self) -> bool {
        self.task_id@ == other.task_id@ && self.settings@ == other.settings@
    }

    fn task_id(&self) -> (r: &str) {
        self.task_id.as_str()
    }

    fn duplicate(&self) -> (r: Self) {
        UpdateConfigTask { task_id: self.task_id.clone(), settings: self.settings.clone() }
    }
}

/// Refreshing the danmaku of a video or a page.
#[derive(Debug)]
pub struct RefreshDanmakuTask {
    pub video_id: Option<i32>,
    pub page_id: Option<i32>,
    pub task_id: String,
}

impl QueuedTask for RefreshDanmakuTask {
    open spec fn id_view(&self) -> Seq<char> {
        self.task_id@
    }

    open spec fn same_task(&self, other: &Self) -> bool {
        self.video_id == other.video_id && self.page_id == other.page_id && self.task_id@
            == other.task_id@
    }

    fn task_id(&self) -> (r: &str) {
        self.task_id.as_str()
    }

    fn duplicate(&self) -> (r: Self) {
        RefreshDanmakuTask {
            video_id: self.video_id,
            page_id: self.page_id,
            task_id: self.task_id.clone(),
        }
    }
}

// ---------------------------------------------------------------------------
// Queues
// ---------------------------------------------------------------------------

/// Position of the first task with identifier `id`.
pub open spec fn first_with_id<T: QueuedTask>(tasks: Seq<T>, id: Seq<char>) -> Option<int>
    decreases tasks.len(),
{
    if tasks.len() == 0 {
        None
    } else if tasks[0].id_view() == id {
        Some(0)
    } else {
        match first_with_id(tasks.drop_first(), id) {
            Some(i) => Some(i + 1),
            None => None,
        }
    }
}

/// A position moved on by `d`.
pub open spec fn shifted(p: Option<int>, d: int) -> Option<int> {
    match p {
        Some(k) => Some(k + d),
        None => None,
    }
}

/// `tasks` without its element at position `i`.
pub open spec fn without<T>(tasks: Seq<T>, i: int) -> Seq<T> {
    tasks.take(i) + tasks.skip(i + 1)
}

/// Is `copy` a copy of `tasks`, element by element?
pub open spec fn copies_of<T: QueuedTask>(copy: Seq<T>, tasks: Seq<T>) -> bool {
    copy.len() == tasks.len() && forall|i: int| 0 <= i < tasks.len() ==> #[trigger] copy[i].same_task(&tasks[i])
}

/// Tasks waiting in first-in, first-out order, and whether they are being processed.
pub struct TaskQueue<T> {
    queue: VecDeque<T>,
    processing: bool,
}

/// Queue of danmaku refreshes.
pub type RefreshDanmakuTaskQueue = TaskQueue<RefreshDanmakuTask>;

/// Queue of video-source additions.
pub type AddTaskQueue = TaskQueue<AddVideoSourceTask>;

/// Queue of single-video deletions.
pub type VideoDeleteTaskQueue = TaskQueue<DeleteVideoTask>;

impl<T: QueuedTask> TaskQueue<T> {
    /// The waiting tasks, first to leave first.
    pub closed spec fn tasks(&self) -> Seq<T> {
        self.queue@
    }

    /// Are the tasks being processed?
    pub closed spec fn processing(&self) -> bool {
        self.processing
    }

    /// An empty queue, not processing.
    pub fn new() -> (r: Self)
        ensures
            r.tasks() == Seq::<T>::empty(),
            !r.processing(),
    {
        TaskQueue { queue: VecDeque::new(), processing: false }
    }

    /// Adds a task at the back, without any check.
    pub fn push_task(&mut self, task: T)
        ensures
            final(self).tasks() == old(self).tasks().push(task),
            final(self).processing() == old(self).processing(),
    {
        self.queue.push_back(task);
    }

    /// Takes the task at the front, if there is one.
    pub fn dequeue_task(&mut self) -> (r: Option<T>)
        ensures
            old(self).tasks().len() == 0 ==> r is None && final(self).tasks() == old(self).tasks(),
            old(self).tasks().len() > 0 ==> r == Some(old(self).tasks()[0]) && final(self).tasks()
                == old(self).tasks().drop_first(),
            final(self).processing() == old(self).processing(),
    {
        self.queue.pop_front()
    }

    /// The number of waiting tasks.
    pub fn queue_length(&self) -> (r: usize)
        ensures
            r == self.tasks().len(),
    {
        self.queue.len()
    }

    /// Copies of the waiting tasks, in order.
    pub fn list_tasks(&self) -> (r: Vec<T>)
        ensures
            copies_of(r@, self.tasks()),
    {
        let mut out: Vec<T> = Vec::new();
        let mut i: usize = 0;
        while i < self.queue.len()
            invariant
                i <= self.queue@.len(),
                out@.len() == i,
                forall|k: int| 0 <= k < i ==> #[trigger] out@[k].same_task(&self.queue@[k]),
            decreases self.queue@.len() - i,
        {
            let c = self.queue[i].duplicate();
            out.push(c);
            i = i + 1;
        }
        out
    }

    /// Takes out the first waiting task with the identifier `task_id`; none
    /// when no waiting task has it.
    pub fn cancel_task(&mut self, task_id: &str) -> (r: Option<T>)
        ensures
            match first_with_id(old(self).tasks(), task_id@) {
                Some(i) => r == Some(old(self).tasks()[i]) && final(self).tasks() == without(
                    old(self).tasks(),
                    i,
                ),
                None => r is None && final(self).tasks() == old(self).tasks(),
            },
            final(self).processing() == old(self).processing(),
    {
        let mut i: usize = 0;
        assert(self.queue@.skip(0) =~= self.queue@);
        while i < self.queue.len()
            invariant
                i <= self.queue@.len(),
                self.queue@ == old(self).queue@,
                self.processing == old(self).processing,
                first_with_id(self.queue@, task_id@) == shifted(
                    first_with_id(self.queue@.skip(i as int), task_id@),
                    i as int,
                ),
            decreases self.queue@.len() - i,
        {
            proof {
                assert(self.queue@.skip(i as int).drop_first() =~= self.queue@.skip(i + 1));
                assert(self.queue@.skip(i as int)[0] == self.queue@[i as int]);
            }
            if str_eq(self.queue[i].task_id(), task_id) {
                let ghost before = self.queue@;
                let r = self.queue.remove(i);
                assert(self.queue@ =~= without(before, i as int));
                return r;
            }
            i = i + 1;
        }
        proof {
            assert(self.queue@.skip(i as int) =~= Seq::<T>::empty());
        }
        None
    }

    /// Are the tasks being processed?
    pub fn is_processing(&self) -> (r: bool)
        ensures
            r == self.processing(),
    {
        self.processing
    }

    /// Records whether the tasks are being processed.
    pub fn set_processing(&mut self, is_processing: bool)
        ensures
            final(self).processing() == is_processing,
            final(self).tasks() == old(self).tasks(),
    {
        self.processing = is_processing;
    }

    /// Starts processing; `release_processing_guard` ends it.
    pub fn processing_guard(&mut self)
        ensures
            final(self).processing(),
            final(self).tasks() == old(self).tasks(),
    {
        self.set_processing(true);
    }

    /// Starts a processing run: refused when a run is going on or no task
    /// waits; otherwise processing begins.
    pub fn begin_processing(&mut self) -> (r: bool)
        ensures
            r == (!old(self).processing() && old(self).tasks().len() > 0),
            final(self).processing() == (old(self).processing() || r),
            final(self).tasks() == old(self).tasks(),
    {
        if self.processing || self.queue.len() == 0 {
            return false;
        }
        self.processing_guard();
        true
    }

    /// Ends processing started by `processing_guard`.
    pub fn release_processing_guard(&mut self)
        ensures
            !final(self).processing(),
            final(self).tasks() == old(self).tasks(),
    {
        self.set_processing(false);
    }
}

/// Tasks leave in the order they came: a task added behind waiting tasks
/// leaves after them, and one added to an empty queue leaves first.
pub proof fn lemma_first_in_first_out<T>(waiting: Seq<T>, task: T)
    ensures
        waiting.len() == 0 ==> waiting.push(task)[0] == task && waiting.push(task).drop_first()
            == Seq::<T>::empty(),
        waiting.len() > 0 ==> waiting.push(task)[0] == waiting[0] && waiting.push(task).drop_first()
            == waiting.drop_first().push(task),
{
    if waiting.len() == 0 {
        assert(waiting.push(task).drop_first() =~= Seq::<T>::empty());
    } else {
        assert(waiting.push(task).drop_first() =~= waiting.drop_first().push(task));
    }
}

/// Cancelling finds the first task with the identifier, and removes just that
/// one, the others keeping their order.
pub proof fn lemma_cancel_removes_first_match<T: QueuedTask>(tasks: Seq<T>, id: Seq<char>)
    ensures
        match first_with_id(tasks, id) {
            Some(i) => {
                &&& 0 <= i < tasks.len()
                &&& tasks[i].id_view() == id
                &&& forall|k: int| 0 <= k < i ==> #[trigger] tasks[k].id_view() != id
                &&& without(tasks, i).len() == tasks.len() - 1
                &&& forall|k: int| 0 <= k < i ==> #[trigger] without(tasks, i)[k] == tasks[k]
                &&& forall|k: int| i <= k < tasks.len() - 1 ==> #[trigger] without(tasks, i)[k] == tasks[k + 1]
            },
            None => forall|k: int| 0 <= k < tasks.len() ==> #[trigger] tasks[k].id_view() != id,
        },
    decreases tasks.len(),
{
    if tasks.len() > 0 {
        lemma_cancel_removes_first_match(tasks.drop_first(), id);
        match first_with_id(tasks.drop_first(), id) {
            Some(j) => {
                assert forall|k: int| 0 <= k < j + 1 implies #[trigger] tasks[k].id_view() != id || tasks[0].id_view() == id by {
                    if k > 0 {
                        assert(tasks[k] == tasks.drop_first()[k - 1]);
                    }
                }
            },
            None => {
                assert forall|k: int| 0 <= k < tasks.len() implies #[trigger] tasks[k].id_view() != id || tasks[0].id_view() == id by {
                    if k > 0 {
                        assert(tasks[k] == tasks.drop_first()[k - 1]);
                    }
                }
            },
        }
    }
}

impl TaskQueue<AddVideoSourceTask> {
    /// Adds a source addition at the back.
    pub fn enqueue_task(&mut self, task: AddVideoSourceTask)
        ensures
            final(self).tasks() == old(self).tasks().push(task),
            final(self).processing() == old(self).processing(),
    {
        self.push_task(task);
    }
}

/// The video ids of a list of deletions.
pub open spec fn video_ids(tasks: Seq<DeleteVideoTask>) -> Set<i32> {
    Set::new(|id: i32| exists|i: int| 0 <= i < tasks.len() && tasks[i].video_id == id)
}

impl TaskQueue<DeleteVideoTask> {
    /// The ids of the videos waiting to be deleted.
    pub fn get_pending_video_ids(&self) -> (r: Vec<i32>)
        ensures
            r@.len() == self.tasks().len(),
            forall|i: int| 0 <= i < r@.len() ==> r@[i] == #[trigger] self.tasks()[i].video_id,
            r@.to_set() == video_ids(self.tasks()),
    {
        let mut out: Vec<i32> = Vec::new();
        let mut i: usize = 0;
        while i < self.queue.len()
            invariant
                i <= self.queue@.len(),
                out@.len() == i,
                forall|k: int| 0 <= k < i ==> out@[k] == #[trigger] self.queue@[k].video_id,
            decreases self.queue@.len() - i,
        {
            out.push(self.queue[i].video_id);
            i = i + 1;
        }
        proof {
            assert forall|id: i32| #[trigger] out@.to_set().contains(id) == video_ids(self.tasks()).contains(id) by {
                if out@.to_set().contains(id) {
                    let k = choose|k: int| 0 <= k < out@.len() && out@[k] == id;
                    assert(self.queue@[k].video_id == id);
                }
                if video_ids(self.tasks()).contains(id) {
                    let k = choose|k: int| 0 <= k < self.queue@.len() && self.queue@[k].video_id == id;
                    assert(out@[k] == id);
                    assert(out@.contains(id));
                }
            }
            assert(out@.to_set() =~= video_ids(self.tasks()));
        }
        out
    }
}

/// Is one of the stored deletions for the given source?
pub open spec fn has_source(stored: Seq<DeleteVideoSourceTask>, source_type: Seq<char>, source_id: i32) -> bool {
    exists|i: int| 0 <= i < stored.len() && #[trigger] stored[i].source_type@ == source_type && stored[i].source_id == source_id
}

/// Is one of the stored deletions for the given source?
pub fn has_matching_source(stored: &Vec<DeleteVideoSourceTask>, source_type: &str, source_id: i32) -> (r: bool)
    ensures
        r == has_source(stored@, source_type@, source_id),
{
    let mut i: usize = 0;
    while i < stored.len()
        invariant
            i <= stored@.len(),
            forall|k: int| 0 <= k < i ==> !(#[trigger] stored@[k].source_type@ == source_type@ && stored@[k].source_id == source_id),
        decreases stored@.len() - i,
    {
        if str_eq(stored[i].source_type.as_str(), source_type) && stored[i].source_id == source_id {
            assert(stored@[i as int].source_type@ == source_type@);
            return true;
        }
        i = i + 1;
    }
    false
}

/// Is one of the stored deletions for the given video?
pub open spec fn has_video(stored: Seq<DeleteVideoTask>, video_id: i32) -> bool {
    exists|i: int| 0 <= i < stored.len() && #[trigger] stored[i].video_id == video_id
}

/// Is one of the stored refreshes for the same video and page as `task`?
pub open spec fn has_refresh(stored: Seq<RefreshDanmakuTask>, task: RefreshDanmakuTask) -> bool {
    exists|i: int| 0 <= i < stored.len() && #[trigger] stored[i].video_id == task.video_id && stored[i].page_id == task.page_id
}

impl TaskQueue<DeleteVideoTask> {
    /// Is a deletion of the video already stored (the stored pending
    /// deletions given)?
    pub fn has_pending_delete_task(&self, video_id: i32, stored: &Vec<DeleteVideoTask>) -> (r: bool)
        ensures
            r == has_video(stored@, video_id),
    {
        let mut i: usize = 0;
        while i < stored.len()
            invariant
                i <= stored@.len(),
                forall|k: int| 0 <= k < i ==> #[trigger] stored@[k].video_id != video_id,
            decreases stored@.len() - i,
        {
            if stored[i].video_id == video_id {
                return true;
            }
            i = i + 1;
        }
        false
    }
}

impl TaskQueue<DeleteVideoTask> {
    /// Adds the deletion at the back unless a deletion of the same video is
    /// already stored (the stored pending deletions given); whether it was
    /// added.
    pub fn enqueue_task(&mut self, task: DeleteVideoTask, stored: &Vec<DeleteVideoTask>) -> (added: bool)
        ensures
            added == !has_video(stored@, task.video_id),
            final(self).tasks() == (if added {
                old(self).tasks().push(task)
            } else {
                old(self).tasks()
            }),
            final(self).processing() == old(self).processing(),
    {
        if self.has_pending_delete_task(task.video_id, stored) {
            return false;
        }
        self.push_task(task);
        true
    }
}

impl TaskQueue<RefreshDanmakuTask> {
    /// Adds the refresh at the back unless a refresh of the same video and
    /// page is already stored (the stored pending refreshes given); whether
    /// it was added.
    pub fn enqueue_task(&mut self, task: RefreshDanmakuTask, stored: &Vec<RefreshDanmakuTask>) -> (added: bool)
        ensures
            added == !has_refresh(stored@, task),
            final(self).tasks() == (if added {
                old(self).tasks().push(task)
            } else {
                old(self).tasks()
            }),
            final(self).processing() == old(self).processing(),
    {
        if self.has_pending_task(&task, stored) {
            return false;
        }
        self.push_task(task);
        true
    }
}

impl TaskQueue<RefreshDanmakuTask> {
    /// Is a refresh of the same video and page already stored (the stored
    /// pending refreshes given)?
    pub fn has_pending_task(&self, task: &RefreshDanmakuTask, stored: &Vec<RefreshDanmakuTask>) -> (r: bool)
        ensures
            r == has_refresh(stored@, *task),
    {
        let mut i: usize = 0;
        while i < stored.len()
            invariant
                i <= stored@.len(),
                forall|k: int| 0 <= k < i ==> !(#[trigger] stored@[k].video_id == task.video_id && stored@[k].page_id == task.page_id),
            decreases stored@.len() - i,
        {
            if stored[i].video_id == task.video_id && stored[i].page_id == task.page_id {
                return true;
            }
            i = i + 1;
        }
        false
    }
}

/// Is a deletion of the source being carried out (`current`) or stored?
pub open spec fn source_pending(
    current: Option<DeleteVideoSourceTask>,
    stored: Seq<DeleteVideoSourceTask>,
    source_type: Seq<char>,
    source_id: i32,
) -> bool {
    (match current {
        Some(t) => t.source_type@ == source_type && t.source_id == source_id,
        None => false,
    }) || has_source(stored, source_type, source_id)
}

/// A deletion that was added is stored with the others, so a second
/// deletion of the same source is then skipped: enqueuing a source twice
/// adds it once.
pub proof fn lemma_source_deletion_added_once(
    current: Option<DeleteVideoSourceTask>,
    stored: Seq<DeleteVideoSourceTask>,
    first: DeleteVideoSourceTask,
    second: DeleteVideoSourceTask,
)
    requires
        first.source_type@ == second.source_type@,
        first.source_id == second.source_id,
    ensures
        source_pending(current, stored.push(first), second.source_type@, second.source_id),
{
    assert(stored.push(first)[stored.len() as int] == first);
}

/// A video deletion that was added is stored with the others, so a second
/// deletion of the same video is then skipped.
pub proof fn lemma_video_deletion_added_once(stored: Seq<DeleteVideoTask>, first: DeleteVideoTask, second: DeleteVideoTask)
    requires
        first.video_id == second.video_id,
    ensures
        has_video(stored.push(first), second.video_id),
{
    assert(stored.push(first)[stored.len() as int] == first);
}

/// A refresh that was added is stored with the others, so a second refresh
/// of the same video and page is then skipped.
pub proof fn lemma_refresh_added_once(stored: Seq<RefreshDanmakuTask>, first: RefreshDanmakuTask, second: RefreshDanmakuTask)
    requires
        first.video_id == second.video_id,
        first.page_id == second.page_id,
    ensures
        has_refresh(stored.push(first), second),
{
    assert(stored.push(first)[stored.len() as int] == first);
}

/// What a danmaku refresh works on.
#[derive(Clone, Copy, Debug, PartialEq, Eq, Structural)]
pub enum DanmakuRefreshTarget {
    /// Every page of a video.
    Video(i32),
    /// One page.
    Page(i32),
    /// Neither or both were given: the refresh is invalid.
    Invalid,
}

/// What a refresh works on: a video when only a video is named, a page when
/// only a page is named; otherwise it is invalid.
pub open spec fn refresh_target(video_id: Option<i32>, page_id: Option<i32>) -> DanmakuRefreshTarget {
    match (video_id, page_id) {
        (Some(v), None) => DanmakuRefreshTarget::Video(v),
        (None, Some(p)) => DanmakuRefreshTarget::Page(p),
        _ => DanmakuRefreshTarget::Invalid,
    }
}

/// What the refresh works on (see `refresh_target`).
pub fn danmaku_refresh_target(task: &RefreshDanmakuTask) -> (r: DanmakuRefreshTarget)
    ensures
        r == refresh_target(task.video_id, task.page_id),
{
    match (task.video_id, task.page_id) {
        (Some(v), None) => DanmakuRefreshTarget::Video(v),
        (None, Some(p)) => DanmakuRefreshTarget::Page(p),
        _ => DanmakuRefreshTarget::Invalid,
    }
}

/// Queue of video-source deletions, with the deletion being carried out.
pub struct DeleteTaskQueue {
    queue: TaskQueue<DeleteVideoSourceTask>,
    current_task: Option<DeleteVideoSourceTask>,
}

impl DeleteTaskQueue {
    /// The waiting deletions.
    pub closed spec fn tasks(&self) -> Seq<DeleteVideoSourceTask> {
        self.queue.tasks()
    }

    /// Are deletions being processed?
    pub closed spec fn processing(&self) -> bool {
        self.queue.processing()
    }

    /// The deletion being carried out.
    pub closed spec fn current(&self) -> Option<DeleteVideoSourceTask> {
        self.current_task
    }

    /// An empty queue, not processing, with no current deletion.
    pub fn new() -> (r: Self)
        ensures
            r.tasks() == Seq::<DeleteVideoSourceTask>::empty(),
            !r.processing(),
            r.current() is None,
    {
        DeleteTaskQueue { queue: TaskQueue::new(), current_task: None }
    }

    /// Is the given source being deleted now?
    pub fn current_task_matches(&self, source_type: &str, source_id: i32) -> (r: bool)
        ensures
            r == (match self.current() {
                Some(t) => t.source_type@ == source_type@ && t.source_id == source_id,
                None => false,
            }),
    {
        match &self.current_task {
            Some(t) => str_eq(t.source_type.as_str(), source_type) && t.source_id == source_id,
            None => false,
        }
    }

    /// Is a deletion of the source being carried out or stored (the stored
    /// pending deletions given)?
    pub fn has_pending_delete_task(
        &self,
        source_type: &str,
        source_id: i32,
        stored: &Vec<DeleteVideoSourceTask>,
    ) -> (r: bool)
        ensures
            r == source_pending(self.current(), stored@, source_type@, source_id),
    {
        self.current_task_matches(source_type, source_id) || has_matching_source(stored, source_type, source_id)
    }

    /// Adds the deletion at the back unless a deletion of the same source is
    /// being carried out or stored (the stored pending deletions given);
    /// whether it was added.
    pub fn enqueue_task(&mut self, task: DeleteVideoSourceTask, stored: &Vec<DeleteVideoSourceTask>) -> (added: bool)
        ensures
            added == !source_pending(old(self).current(), stored@, task.source_type@, task.source_id),
            final(self).tasks() == (if added {
                old(self).tasks().push(task)
            } else {
                old(self).tasks()
            }),
            final(self).processing() == old(self).processing(),
            final(self).current() == old(self).current(),
    {
        if self.has_pending_delete_task(task.source_type.as_str(), task.source_id, stored) {
            return false;
        }
        self.push_task(task);
        true
    }

    /// Adds a deletion at the back, without any check.
    pub fn push_task(&mut self, task: DeleteVideoSourceTask)
        ensures
            final(self).tasks() == old(self).tasks().push(task),
            final(self).processing() == old(self).processing(),
            final(self).current() == old(self).current(),
    {
        self.queue.push_task(task);
    }

    /// Takes the deletion at the front, if there is one.
    pub fn dequeue_task(&mut self) -> (r: Option<DeleteVideoSourceTask>)
        ensures
            old(self).tasks().len() == 0 ==> r is None && final(self).tasks() == old(self).tasks(),
            old(self).tasks().len() > 0 ==> r == Some(old(self).tasks()[0]) && final(self).tasks()
                == old(self).tasks().drop_first(),
            final(self).processing() == old(self).processing(),
            final(self).current() == old(self).current(),
    {
        self.queue.dequeue_task()
    }

    /// The number of waiting deletions.
    pub fn queue_length(&self) -> (r: usize)
        ensures
            r == self.tasks().len(),
    {
        self.queue.queue_length()
    }

    /// Copies of the waiting deletions, in order.
    pub fn list_tasks(&self) -> (r: Vec<DeleteVideoSourceTask>)
        ensures
            copies_of(r@, self.tasks()),
    {
        self.queue.list_tasks()
    }

    /// Takes out the first waiting deletion with the identifier `task_id`.
    pub fn cancel_task(&mut self, task_id: &str) -> (r: Option<DeleteVideoSourceTask>)
        ensures
            match first_with_id(old(self).tasks(), task_id@) {
                Some(i) => r == Some(old(self).tasks()[i]) && final(self).tasks() == without(
                    old(self).tasks(),
                    i,
                ),
                None => r is None && final(self).tasks() == old(self).tasks(),
            },
            final(self).processing() == old(self).processing(),
            final(self).current() == old(self).current(),
    {
        self.queue.cancel_task(task_id)
    }

    /// Are deletions being processed?
    pub fn is_processing(&self) -> (r: bool)
        ensures
            r == self.processing(),
    {
        self.queue.is_processing()
    }

    /// Records whether deletions are being processed.
    pub fn set_processing(&mut self, is_processing: bool)
        ensures
            final(self).processing() == is_processing,
            final(self).tasks() == old(self).tasks(),
            final(self).current() == old(self).current(),
    {
        self.queue.set_processing(is_processing);
    }

    /// Records the deletion being carried out.
    pub fn set_current_task(&mut self, task: Option<DeleteVideoSourceTask>)
        ensures
            final(self).current() == task,
            final(self).tasks() == old(self).tasks(),
            final(self).processing() == old(self).processing(),
    {
        self.current_task = task;
    }

    /// Starts processing; `release_processing_guard` ends it.
    pub fn processing_guard(&mut self)
        ensures
            final(self).processing(),
            final(self).tasks() == old(self).tasks(),
            final(self).current() == old(self).current(),
    {
        self.set_processing(true);
    }

    /// Starts a processing run: refused when a run is going on or no
    /// deletion waits; otherwise processing begins.
    pub fn begin_processing(&mut self) -> (r: bool)
        ensures
            r == (!old(self).processing() && old(self).tasks().len() > 0),
            final(self).processing() == (old(self).processing() || r),
            final(self).tasks() == old(self).tasks(),
            final(self).current() == old(self).current(),
    {
        self.queue.begin_processing()
    }

    /// Ends processing: not processing, and no current deletion.
    pub fn release_processing_guard(&mut self)
        ensures
            !final(self).processing(),
            final(self).current() is None,
            final(self).tasks() == old(self).tasks(),
    {
        self.set_processing(false);
        self.current_task = None;
    }
}

/// Queues of configuration updates and reloads.
pub struct ConfigTaskQueue {
    update_queue: TaskQueue<UpdateConfigTask>,
    reload_queue: TaskQueue<ReloadConfigTask>,
    processing: bool,
}

impl ConfigTaskQueue {
    /// The waiting updates.
    pub closed spec fn updates(&self) -> Seq<UpdateConfigTask> {
        self.update_queue.tasks()
    }

    /// The waiting reloads.
    pub closed spec fn reloads(&self) -> Seq<ReloadConfigTask> {
        self.reload_queue.tasks()
    }

    /// Are configuration tasks being processed?
    pub closed spec fn processing(&self) -> bool {
        self.processing
    }

    /// Empty queues, not processing.
    pub fn new() -> (r: Self)
        ensures
            r.updates() == Seq::<UpdateConfigTask>::empty(),
            r.reloads() == Seq::<ReloadConfigTask>::empty(),
            !r.processing(),
    {
        ConfigTaskQueue { update_queue: TaskQueue::new(), reload_queue: TaskQueue::new(), processing: false }
    }

    /// Adds an update at the back.
    pub fn enqueue_update_task(&mut self, task: UpdateConfigTask)
        ensures
            final(self).updates() == old(self).updates().push(task),
            final(self).reloads() == old(self).reloads(),
            final(self).processing() == old(self).processing(),
    {
        self.update_queue.push_task(task);
    }

    /// Adds a reload at the back.
    pub fn enqueue_reload_task(&mut self, task: ReloadConfigTask)
        ensures
            final(self).reloads() == old(self).reloads().push(task),
            final(self).updates() == old(self).updates(),
            final(self).processing() == old(self).processing(),
    {
        self.reload_queue.push_task(task);
    }

    /// Takes the update at the front, if there is one.
    pub fn dequeue_update_task(&mut self) -> (r: Option<UpdateConfigTask>)
        ensures
            old(self).updates().len() == 0 ==> r is None && final(self).updates() == old(self).updates(),
            old(self).updates().len() > 0 ==> r == Some(old(self).updates()[0]) && final(self).updates()
                == old(self).updates().drop_first(),
            final(self).reloads() == old(self).reloads(),
            final(self).processing() == old(self).processing(),
    {
        self.update_queue.dequeue_task()
    }

    /// Takes the reload at the front, if there is one.
    pub fn dequeue_reload_task(&mut self) -> (r: Option<ReloadConfigTask>)
        ensures
            old(self).reloads().len() == 0 ==> r is None && final(self).reloads() == old(self).reloads(),
            old(self).reloads().len() > 0 ==> r == Some(old(self).reloads()[0]) && final(self).reloads()
                == old(self).reloads().drop_first(),
            final(self).updates() == old(self).updates(),
            final(self).processing() == old(self).processing(),
    {
        self.reload_queue.dequeue_task()
    }

    /// The number of waiting updates.
    pub fn update_queue_length(&self) -> (r: usize)
        ensures
            r == self.updates().len(),
    {
        self.update_queue.queue_length()
    }

    /// The number of waiting reloads.
    pub fn reload_queue_length(&self) -> (r: usize)
        ensures
            r == self.reloads().len(),
    {
        self.reload_queue.queue_length()
    }

    /// Copies of the waiting updates, in order.
    pub fn list_update_tasks(&self) -> (r: Vec<UpdateConfigTask>)
        ensures
            copies_of(r@, self.updates()),
    {
        self.update_queue.list_tasks()
    }

    /// Copies of the waiting reloads, in order.
    pub fn list_reload_tasks(&self) -> (r: Vec<ReloadConfigTask>)
        ensures
            copies_of(r@, self.reloads()),
    {
        self.reload_queue.list_tasks()
    }

    /// Takes out the first waiting update with the identifier `task_id`, else
    /// the first waiting reload with it; `(None, None)` when no task has it.
    pub fn cancel_task(&mut self, task_id: &str) -> (r: (Option<UpdateConfigTask>, Option<ReloadConfigTask>))
        ensures
            match first_with_id(old(self).updates(), task_id@) {
                Some(i) => r.0 == Some(old(self).updates()[i]) && r.1 is None && final(self).updates()
                    == without(old(self).updates(), i) && final(self).reloads() == old(self).reloads(),
                None => r.0 is None && final(self).updates() == old(self).updates() && match first_with_id(
                    old(self).reloads(),
                    task_id@,
                ) {
                    Some(j) => r.1 == Some(old(self).reloads()[j]) && final(self).reloads() == without(
                        old(self).reloads(),
                        j,
                    ),
                    None => r.1 is None && final(self).reloads() == old(self).reloads(),
                },
            },
            final(self).processing() == old(self).processing(),
    {
        match self.update_queue.cancel_task(task_id) {
            Some(u) => (Some(u), None),
            None => (None, self.reload_queue.cancel_task(task_id)),
        }
    }

    /// Are configuration tasks being processed?
    pub fn is_processing(&self) -> (r: bool)
        ensures
            r == self.processing(),
    {
        self.processing
    }

    /// Records whether configuration tasks are being processed.
    pub fn set_processing(&mut self, is_processing: bool)
        ensures
            final(self).processing() == is_processing,
            final(self).updates() == old(self).updates(),
            final(self).reloads() == old(self).reloads(),
    {
        self.processing = is_processing;
    }

    /// The next configuration task of a run: the update at the front while
    /// updates wait, then the reload at the front; none when nothing waits.
    pub fn next_task(&mut self) -> (r: Option<TakenTask>)
        ensures
            old(self).updates().len() > 0 ==> r == Some(TakenTask::UpdateConfig(old(self).updates()[0]))
                && final(self).updates() == old(self).updates().drop_first() && final(self).reloads()
                == old(self).reloads(),
            old(self).updates().len() == 0 && old(self).reloads().len() > 0 ==> r == Some(
                TakenTask::ReloadConfig(old(self).reloads()[0]),
            ) && final(self).updates() == old(self).updates() && final(self).reloads() == old(
                self,
            ).reloads().drop_first(),
            old(self).updates().len() == 0 && old(self).reloads().len() == 0 ==> r is None
                && final(self).updates() == old(self).updates() && final(self).reloads() == old(
                self,
            ).reloads(),
            final(self).processing() == old(self).processing(),
    {
        match self.dequeue_update_task() {
            Some(u) => Some(TakenTask::UpdateConfig(u)),
            None => match self.dequeue_reload_task() {
                Some(t) => Some(TakenTask::ReloadConfig(t)),
                None => None,
            },
        }
    }

    /// Starts a processing run: refused when one is going on; otherwise
    /// processing begins.
    pub fn begin_processing(&mut self) -> (r: bool)
        ensures
            r == !old(self).processing(),
            final(self).processing(),
            final(self).updates() == old(self).updates(),
            final(self).reloads() == old(self).reloads(),
    {
        if self.processing {
            return false;
        }
        self.processing = true;
        true
    }
}

/// How a run of configuration tasks begins.
#[derive(Clone, Copy, Debug, PartialEq, Eq, Structural)]
pub enum ConfigRunStart {
    /// Nothing waits anywhere: end the run.
    Skip,
    /// Nothing waits in memory but stored tasks do: recover them first.
    Recover,
    /// Tasks wait in memory: run them.
    Run,
}

/// How a run of configuration tasks begins, from the waiting counts in
/// memory and in storage.
pub open spec fn config_start(update_count: nat, reload_count: nat, stored_updates: nat, stored_reloads: nat) -> ConfigRunStart {
    if update_count == 0 && reload_count == 0 {
        if stored_updates > 0 || stored_reloads > 0 {
            ConfigRunStart::Recover
        } else {
            ConfigRunStart::Skip
        }
    } else {
        ConfigRunStart::Run
    }
}

/// How a run of configuration tasks begins (see `config_start`).
pub fn config_run_start(update_count: usize, reload_count: usize, stored_updates: u64, stored_reloads: u64) -> (r:
    ConfigRunStart)
    ensures
        r == config_start(
            update_count as nat,
            reload_count as nat,
            stored_updates as nat,
            stored_reloads as nat,
        ),
{
    if update_count == 0 && reload_count == 0 {
        if stored_updates > 0 || stored_reloads > 0 {
            ConfigRunStart::Recover
        } else {
            ConfigRunStart::Skip
        }
    } else {
        ConfigRunStart::Run
    }
}

/// Does a run go on after recovering stored tasks: only when some were
/// recovered and some now wait in memory.
pub open spec fn config_goes_on(recovered: Option<u32>, update_count: nat, reload_count: nat) -> bool {
    match recovered {
        Some(n) => n > 0 && (update_count > 0 || reload_count > 0),
        None => false,
    }
}

/// Does a run go on after recovering stored tasks (see `config_goes_on`)?
pub fn config_run_after_recovery(recovered: Option<u32>, update_count: usize, reload_count: usize) -> (r: bool)
    ensures
        r == config_goes_on(recovered, update_count as nat, reload_count as nat),
{
    match recovered {
        Some(n) => n > 0 && (update_count > 0 || reload_count > 0),
        None => false,
    }
}

/// The number of tasks processed after one more task ran: one more when it
/// succeeded.
pub fn count_processed(processed: u32, succeeded: bool) -> (r: u32)
    requires
        succeeded ==> processed < u32::MAX,
    ensures
        r == (if succeeded {
            processed + 1
        } else {
            processed as int
        }),
{
    if succeeded {
        processed + 1
    } else {
        processed
    }
}

/// A task taken out of one of the queues.
#[derive(Debug)]
pub enum TakenTask {
    DeleteVideoSource(DeleteVideoSourceTask),
    DeleteVideo(DeleteVideoTask),
    AddVideoSource(AddVideoSourceTask),
    UpdateConfig(UpdateConfigTask),
    ReloadConfig(ReloadConfigTask),
    RefreshDanmaku(RefreshDanmakuTask),
}

/// All task queues.
pub struct TaskQueues {
    pub delete: DeleteTaskQueue,
    pub video_delete: VideoDeleteTaskQueue,
    pub add: AddTaskQueue,
    pub config: ConfigTaskQueue,
    pub danmaku: RefreshDanmakuTaskQueue,
}

impl TaskQueues {
    /// Empty queues.
    pub fn new() -> (r: Self)
        ensures
            r.delete.tasks().len() == 0 && r.video_delete.tasks().len() == 0 && r.add.tasks().len() == 0,
            r.config.updates().len() == 0 && r.config.reloads().len() == 0,
            r.danmaku.tasks().len() == 0,
    {
        TaskQueues {
            delete: DeleteTaskQueue::new(),
            video_delete: TaskQueue::new(),
            add: TaskQueue::new(),
            config: ConfigTaskQueue::new(),
            danmaku: TaskQueue::new(),
        }
    }

    /// Puts a task recovered from storage back in its queue, at the back.
    pub fn restore(&mut self, task: TakenTask)
        ensures
            match task {
                TakenTask::DeleteVideoSource(t) => final(self).delete.tasks() == old(self).delete.tasks().push(t),
                TakenTask::DeleteVideo(t) => final(self).video_delete.tasks() == old(
                    self,
                ).video_delete.tasks().push(t),
                TakenTask::AddVideoSource(t) => final(self).add.tasks() == old(self).add.tasks().push(t),
                TakenTask::UpdateConfig(t) => final(self).config.updates() == old(self).config.updates().push(t),
                TakenTask::ReloadConfig(t) => final(self).config.reloads() == old(self).config.reloads().push(t),
                TakenTask::RefreshDanmaku(t) => final(self).danmaku.tasks() == old(self).danmaku.tasks().push(t),
            },
            !(task is DeleteVideoSource) ==> final(self).delete.tasks() == old(self).delete.tasks(),
            !(task is DeleteVideo) ==> final(self).video_delete.tasks() == old(self).video_delete.tasks(),
            !(task is AddVideoSource) ==> final(self).add.tasks() == old(self).add.tasks(),
            !(task is UpdateConfig) ==> final(self).config.updates() == old(self).config.updates(),
            !(task is ReloadConfig) ==> final(self).config.reloads() == old(self).config.reloads(),
            !(task is RefreshDanmaku) ==> final(self).danmaku.tasks() == old(self).danmaku.tasks(),
            final(self).delete.processing() == old(self).delete.processing(),
            final(self).delete.current() == old(self).delete.current(),
            final(self).video_delete.processing() == old(self).video_delete.processing(),
            final(self).add.processing() == old(self).add.processing(),
            final(self).config.processing() == old(self).config.processing(),
            final(self).danmaku.processing() == old(self).danmaku.processing(),
    {
        match task {
            TakenTask::DeleteVideoSource(t) => self.delete.push_task(t),
            TakenTask::DeleteVideo(t) => self.video_delete.push_task(t),
            TakenTask::AddVideoSource(t) => self.add.push_task(t),
            TakenTask::UpdateConfig(t) => self.config.enqueue_update_task(t),
            TakenTask::ReloadConfig(t) => self.config.enqueue_reload_task(t),
            TakenTask::RefreshDanmaku(t) => self.danmaku.push_task(t),
        }
    }

    /// Cancels the waiting task with the identifier `task_id`: the first such
    /// task of the first queue that has one, the queues taken in the order
    /// deletions of sources, deletions of videos, additions, configuration
    /// updates, configuration reloads, danmaku refreshes; none when no queue has one.
    pub fn cancel_pending_task(&mut self, task_id: &str) -> (r: Option<TakenTask>)
        ensures
            r == pending_cancel(*old(self), task_id@),
            final(self).delete.tasks() == without_first(old(self).delete.tasks(), task_id@),
            final(self).video_delete.tasks() == (if cancel_stage(*old(self), task_id@) >= 1 {
                without_first(old(self).video_delete.tasks(), task_id@)
            } else {
                old(self).video_delete.tasks()
            }),
            final(self).add.tasks() == (if cancel_stage(*old(self), task_id@) >= 2 {
                without_first(old(self).add.tasks(), task_id@)
            } else {
                old(self).add.tasks()
            }),
            final(self).config.updates() == (if cancel_stage(*old(self), task_id@) >= 3 {
                without_first(old(self).config.updates(), task_id@)
            } else {
                old(self).config.updates()
            }),
            final(self).config.reloads() == (if cancel_stage(*old(self), task_id@) >= 4 {
                without_first(old(self).config.reloads(), task_id@)
            } else {
                old(self).config.reloads()
            }),
            final(self).danmaku.tasks() == (if cancel_stage(*old(self), task_id@) >= 5 {
                without_first(old(self).danmaku.tasks(), task_id@)
            } else {
                old(self).danmaku.tasks()
            }),
    {
        if let Some(t) = self.delete.cancel_task(task_id) {
            return Some(TakenTask::DeleteVideoSource(t));
        }
        if let Some(t) = self.video_delete.cancel_task(task_id) {
            return Some(TakenTask::DeleteVideo(t));
        }
        if let Some(t) = self.add.cancel_task(task_id) {
            return Some(TakenTask::AddVideoSource(t));
        }
        match self.config.cancel_task(task_id) {
            (Some(u), _) => {
                return Some(TakenTask::UpdateConfig(u));
            },
            (None, Some(t)) => {
                return Some(TakenTask::ReloadConfig(t));
            },
            (None, None) => {},
        }
        match self.danmaku.cancel_task(task_id) {
            Some(t) => Some(TakenTask::RefreshDanmaku(t)),
            None => None,
        }
    }
}

/// How many queues a cancellation passes before it stops: the number of
/// queues, in cancelling order, before the first that has the identifier.
pub open spec fn cancel_stage(q: TaskQueues, id: Seq<char>) -> int {
    if first_with_id(q.delete.tasks(), id) is Some {
        0
    } else if first_with_id(q.video_delete.tasks(), id) is Some {
        1
    } else if first_with_id(q.add.tasks(), id) is Some {
        2
    } else if first_with_id(q.config.updates(), id) is Some {
        3
    } else if first_with_id(q.config.reloads(), id) is Some {
        4
    } else {
        5
    }
}

/// The task a cancellation takes out (see `cancel_stage`).
pub open spec fn pending_cancel(q: TaskQueues, id: Seq<char>) -> Option<TakenTask> {
    match first_task(q.delete.tasks(), id) {
        Some(t) => Some(TakenTask::DeleteVideoSource(t)),
        None => match first_task(q.video_delete.tasks(), id) {
            Some(t) => Some(TakenTask::DeleteVideo(t)),
            None => match first_task(q.add.tasks(), id) {
                Some(t) => Some(TakenTask::AddVideoSource(t)),
                None => match first_task(q.config.updates(), id) {
                    Some(t) => Some(TakenTask::UpdateConfig(t)),
                    None => match first_task(q.config.reloads(), id) {
                        Some(t) => Some(TakenTask::ReloadConfig(t)),
                        None => match first_task(q.danmaku.tasks(), id) {
                            Some(t) => Some(TakenTask::RefreshDanmaku(t)),
                            None => None,
                        },
                    },
                },
            },
        },
    }
}

/// The first task with the identifier, if any.
pub open spec fn first_task<T: QueuedTask>(tasks: Seq<T>, id: Seq<char>) -> Option<T> {
    match first_with_id(tasks, id) {
        Some(i) => Some(tasks[i]),
        None => None,
    }
}

/// The tasks without the first one with the identifier.
pub open spec fn without_first<T: QueuedTask>(tasks: Seq<T>, id: Seq<char>) -> Seq<T> {
    match first_with_id(tasks, id) {
        Some(i) => without(tasks, i),
        None => tasks,
    }
}

// ---------------------------------------------------------------------------
// Scan controller
// ---------------------------------------------------------------------------

/// Whether scheduled scanning is paused, running, and asked to start at once.
#[derive(Clone, Copy, Debug, PartialEq, Eq, Structural)]
pub struct TaskController {
    pub is_paused: bool,
    pub is_scanning: bool,
    pub just_resumed: bool,
}

/// The controller after a pause: paused, the scan marked as stopped, no
/// pending request.
pub open spec fn paused(c: TaskController) -> TaskController {
    TaskController { is_paused: true, is_scanning: false, just_resumed: false }
}

/// The controller after a resume: not paused, a scan requested at once.
pub open spec fn resumed(c: TaskController) -> TaskController {
    TaskController { is_paused: false, just_resumed: true, ..c }
}

/// The controller after a request for a scan at once.
pub open spec fn triggered(c: TaskController) -> TaskController {
    TaskController { just_resumed: true, ..c }
}

/// Taking the request for a scan: whether there was one, and the controller
/// without it.
pub open spec fn request_taken(c: TaskController) -> (bool, TaskController) {
    (c.just_resumed, TaskController { just_resumed: false, ..c })
}

impl TaskController {
    /// Not paused, not scanning, no pending request.
    pub fn new() -> (r: Self)
        ensures
            !r.is_paused && !r.is_scanning && !r.just_resumed,
    {
        TaskController { is_paused: false, is_scanning: false, just_resumed: false }
    }

    /// Pauses scanning (see `paused`).
    pub fn pause(&mut self)
        ensures
            *final(self) == paused(*old(self)),
    {
        self.is_paused = true;
        self.is_scanning = false;
        self.just_resumed = false;
    }

    /// Resumes scanning and asks for a scan at once (see `resumed`).
    pub fn resume(&mut self)
        ensures
            *final(self) == resumed(*old(self)),
    {
        self.is_paused = false;
        self.just_resumed = true;
    }

    /// Asks for a scan at once (see `triggered`).
    pub fn trigger_scan_now(&mut self)
        ensures
            *final(self) == triggered(*old(self)),
    {
        self.just_resumed = true;
    }

    /// Is scanning paused?
    pub fn is_paused(&self) -> (r: bool)
        ensures
            r == self.is_paused,
    {
        self.is_paused
    }

    /// Takes the request for a scan at once (see `request_taken`).
    pub fn take_just_resumed(&mut self) -> (r: bool)
        ensures
            (r, *final(self)) == request_taken(*old(self)),
    {
        let r = self.just_resumed;
        self.just_resumed = false;
        r
    }

    /// Records whether a scan is running.
    pub fn set_scanning(&mut self, is_scanning: bool)
        ensures
            *final(self) == (TaskController { is_scanning, ..*old(self) }),
    {
        self.is_scanning = is_scanning;
    }

    /// Is a scan running?
    pub fn is_scanning(&self) -> (r: bool)
        ensures
            r == self.is_scanning,
    {
        self.is_scanning
    }
}

impl Default for TaskController {
    fn default() -> (r: Self)
        ensures
            !r.is_paused && !r.is_scanning && !r.just_resumed,
    {
        TaskController::new()
    }
}

/// Pauses scheduled scanning on the controller (see `paused`).
pub fn pause_scanning(controller: &mut TaskController)
    ensures
        *final(controller) == paused(*old(controller)),
{
    controller.pause();
}

/// A requested scan is kept until it is taken: after a trigger, taking the
/// request reports it, whatever the controller's state.
pub proof fn lemma_trigger_then_take(c: TaskController)
    ensures
        request_taken(triggered(c)).0,
        request_taken(triggered(c)).1.is_paused == c.is_paused,
{
}

/// A request is taken once: taking it again reports none.
pub proof fn lemma_take_clears(c: TaskController)
    ensures
        !request_taken(request_taken(c).1).0,
{
}

/// Resuming unpauses and requests a scan; pausing drops any request.
pub proof fn lemma_resume_and_pause(c: TaskController)
    ensures
        !resumed(c).is_paused && request_taken(resumed(c)).0,
        paused(c).is_paused && !paused(c).is_scanning && !request_taken(paused(c)).0,
        !request_taken(triggered(paused(c))).1.just_resumed,
{
}

/// Resumes scheduled scanning on the controller.
pub fn resume_scanning(controller: &mut TaskController)
    ensures
        *final(controller) == resumed(*old(controller)),
{
    controller.resume();
}

/// Is a scan running on the controller?
pub fn is_scanning(controller: &TaskController) -> (r: bool)
    ensures
        r == controller.is_scanning,
{
    controller.is_scanning()
}

// ---------------------------------------------------------------------------
// Paths
// ---------------------------------------------------------------------------

/// Lower-case of an ASCII letter; other characters unchanged.
pub open spec fn ascii_lower(c: char) -> char {
    if 'A' <= c <= 'Z' {
        ((c as u32) + 32) as char
    } else {
        c
    }
}

/// Position of the last `c` in `s`.
pub open spec fn last_index_of(s: Seq<char>, c: char) -> Option<int>
    decreases s.len(),
{
    if s.len() == 0 {
        None
    } else if s.last() == c {
        Some(s.len() - 1)
    } else {
        last_index_of(s.drop_last(), c)
    }
}

/// `s` without trailing `c` characters.
pub open spec fn trim_end_char(s: Seq<char>, c: char) -> Seq<char>
    decreases s.len(),
{
    if s.len() > 0 && s.last() == c {
        trim_end_char(s.drop_last(), c)
    } else {
        s
    }
}

/// `s` without its trailing separators and trailing "." components, which
/// name the directory they stand in.
pub open spec fn trim_path_tail(s: Seq<char>) -> Seq<char>
    decreases s.len(),
{
    if s.len() > 0 && (s.last() == '/' || (s.len() >= 2 && s.last() == '.' && s[s.len() - 2] == '/')) {
        trim_path_tail(s.drop_last())
    } else {
        s
    }
}

/// The last component of a '/'-separated path (trailing separators and
/// trailing "." components ignored).
pub open spec fn file_name_of(path: Seq<char>) -> Seq<char> {
    let t = trim_path_tail(path);
    match last_index_of(t, '/') {
        Some(i) => t.skip(i + 1),
        None => t,
    }
}

/// The extension of a file name: the text after its last '.', when that
/// '.' is not the name's first character; none for "..".
pub open spec fn extension_of(name: Seq<char>) -> Option<Seq<char>> {
    if name == seq!['.', '.'] {
        None
    } else {
        match last_index_of(name, '.') {
            Some(i) => if i > 0 {
                Some(name.skip(i + 1))
            } else {
                None
            },
            None => None,
        }
    }
}

/// Media file extensions, lower case.
pub open spec fn media_extensions() -> Seq<Seq<char>> {
    seq![
        "mp4"@,
        "mkv"@,
        "flv"@,
        "avi"@,
        "mov"@,
        "wmv"@,
        "m4v"@,
        "ts"@,
        "m4s"@,
        "webm"@,
        "strm"@,
    ]
}

/// Is the path that of a media file: does its extension, in lower case,
/// name a media format?
pub open spec fn is_media_path(path: Seq<char>) -> bool {
    match extension_of(file_name_of(path)) {
        Some(e) => media_extensions().contains(e.map_values(|c: char| ascii_lower(c))),
        None => false,
    }
}

fn lower_char(c: char) -> (r: char)
    ensures
        r == ascii_lower(c),
{
    if 'A' <= c && c <= 'Z' {
        let b: u8 = c as u8;
        (b + 32) as char
    } else {
        c
    }
}

fn last_index(s: &[char], c: char) -> (r: Option<usize>)
    ensures
        match r {
            Some(i) => last_index_of(s@, c) == Some(i as int) && i < s@.len(),
            None => last_index_of(s@, c) is None,
        },
{
    let mut n: usize = s.len();
    assert(s@.take(n as int) =~= s@);
    while n > 0
        invariant
            n <= s@.len(),
            last_index_of(s@, c) == last_index_of(s@.take(n as int), c),
        decreases n,
    {
        proof {
            assert(s@.take(n as int).drop_last() =~= s@.take(n - 1));
        }
        if s[n - 1] == c {
            return Some(n - 1);
        }
        n = n - 1;
    }
    None
}

/// Is the path that of a media file (mp4, mkv, flv, avi, mov, wmv, m4v, ts,
/// m4s, webm or strm, in any letter case)?
pub fn is_media_file_task(path: &str) -> (r: bool)
    ensures
        r == is_media_path(path@),
{
    let p = chars_of(path);
    let mut end: usize = p.len();
    assert(p@.take(end as int) =~= p@);
    while end > 0 && (p[end - 1] == '/' || (end >= 2 && p[end - 1] == '.' && p[end - 2] == '/'))
        invariant
            end <= p@.len(),
            trim_path_tail(p@) == trim_path_tail(p@.take(end as int)),
        decreases end,
    {
        proof {
            let q = p@.take(end as int);
            assert(q.drop_last() =~= p@.take(end - 1));
            assert(q.last() == p@[end - 1]);
            if end >= 2 {
                assert(q[q.len() - 2] == p@[end - 2]);
            }
        }
        end = end - 1;
    }
    let t = crate::text::slice_chars(p.as_slice(), 0, end);
    assert(t@ =~= p@.take(end as int));
    proof {
        let q = p@.take(end as int);
        if end > 0 {
            assert(q.last() == p@[end - 1]);
            if end >= 2 {
                assert(q[q.len() - 2] == p@[end - 2]);
            }
        }
        assert(trim_path_tail(q) == q);
    }
    let name: Vec<char> = match last_index(t.as_slice(), '/') {
        Some(i) => crate::text::slice_chars(t.as_slice(), i + 1, t.len()),
        None => t,
    };
    assert(name@ =~= file_name_of(path@));
    if name.len() == 2 && name[0] == '.' && name[1] == '.' {
        assert(name@ =~= seq!['.', '.']);
        return false;
    }
    proof {
        if name@ == seq!['.', '.'] {
            assert(name@.len() == 2 && name@[0] == '.' && name@[1] == '.');
        }
    }
    let ext: Vec<char> = match last_index(name.as_slice(), '.') {
        Some(i) => {
            if i > 0 {
                let e = crate::text::slice_chars(name.as_slice(), i + 1, name.len());
                assert(e@ =~= name@.skip(i + 1));
                e
            } else {
                return false;
            }
        },
        None => {
            return false;
        },
    };
    let mut lower: Vec<char> = Vec::new();
    let mut k: usize = 0;
    while k < ext.len()
        invariant
            k <= ext@.len(),
            lower@ == ext@.take(k as int).map_values(|c: char| ascii_lower(c)),
        decreases ext@.len() - k,
    {
        let ghost before = lower@;
        lower.push(lower_char(ext[k]));
        assert(ext@.take(k + 1).map_values(|c: char| ascii_lower(c)) =~= before.push(
            ascii_lower(ext@[k as int]),
        ));
        k = k + 1;
    }
    assert(ext@.take(ext@.len() as int) =~= ext@);
    assert(extension_of(name@) == Some(ext@));
    assert(lower@ == ext@.map_values(|c: char| ascii_lower(c)));
    assert(is_media_path(path@) == media_extensions().contains(lower@));
    let known = ["mp4", "mkv", "flv", "avi", "mov", "wmv", "m4v", "ts", "m4s", "webm", "strm"];
    let mut j: usize = 0;
    while j < 11
        invariant
            j <= 11,
            is_media_path(path@) == media_extensions().contains(lower@),
            known@ == seq!["mp4", "mkv", "flv", "avi", "mov", "wmv", "m4v", "ts", "m4s", "webm", "strm"],
            forall|q: int| 0 <= q < j ==> media_extensions()[q] != lower@,
        decreases 11 - j,
    {
        let e = chars_of(known[j]);
        if crate::text::chars_eq(e.as_slice(), lower.as_slice()) {
            assert(media_extensions()[j as int] == lower@);
            assert(media_extensions().contains(lower@));
            return true;
        }
        j = j + 1;
    }
    assert(!media_extensions().contains(lower@));
    false
}

/// The last `c` of `a + b`, where `b` holds no `c`, is the last `c` of `a`.
proof fn lemma_last_index_of_concat(a: Seq<char>, b: Seq<char>, c: char)
    requires
        forall|k: int| 0 <= k < b.len() ==> b[k] != c,
    ensures
        last_index_of(a + b, c) == last_index_of(a, c),
    decreases b.len(),
{
    if b.len() == 0 {
        assert(a + b =~= a);
    } else {
        assert((a + b).drop_last() =~= a + b.drop_last());
        assert((a + b).last() == b.last());
        lemma_last_index_of_concat(a, b.drop_last(), c);
    }
}

/// A path whose file name is a non-empty stem, a '.', and an extension that,
/// lower-cased, is mp4, mkv, flv, avi, mov, wmv, m4v, ts, m4s, webm or strm
/// (in a folder or not) is a media file's path.
pub proof fn lemma_media_extensions_are_media(dir: Seq<char>, stem: Seq<char>, ext: Seq<char>)
    requires
        dir.len() == 0 || dir.last() == '/',
        stem.len() > 0,
        forall|k: int| 0 <= k < stem.len() ==> stem[k] != '/',
        forall|k: int| 0 <= k < ext.len() ==> ext[k] != '/' && ext[k] != '.',
        ({
            let e = ext.map_values(|c: char| ascii_lower(c));
            ||| e == "mp4"@
            ||| e == "mkv"@
            ||| e == "flv"@
            ||| e == "avi"@
            ||| e == "mov"@
            ||| e == "wmv"@
            ||| e == "m4v"@
            ||| e == "ts"@
            ||| e == "m4s"@
            ||| e == "webm"@
            ||| e == "strm"@
        }),
    ensures
        is_media_path(dir + stem + seq!['.'] + ext),
{
    reveal_strlit("mp4");
    reveal_strlit("mkv");
    reveal_strlit("flv");
    reveal_strlit("avi");
    reveal_strlit("mov");
    reveal_strlit("wmv");
    reveal_strlit("m4v");
    reveal_strlit("ts");
    reveal_strlit("m4s");
    reveal_strlit("webm");
    reveal_strlit("strm");
    let e = ext.map_values(|c: char| ascii_lower(c));
    assert(e.len() == ext.len());
    assert(ext.len() > 0);
    let name = stem + seq!['.'] + ext;
    let path = dir + name;
    assert(path =~= dir + stem + seq!['.'] + ext);
    // no trailing separator or "." component
    assert(path.last() == ext.last());
    assert(trim_path_tail(path) == path);
    // the last '/' is the one that ends `dir`
    assert forall|k: int| 0 <= k < name.len() implies name[k] != '/' by {
        if k < stem.len() {
            assert(name[k] == stem[k]);
        } else if k > stem.len() {
            assert(name[k] == ext[k - stem.len() - 1]);
        }
    }
    lemma_last_index_of_concat(dir, name, '/');
    if dir.len() == 0 {
        assert(path =~= name);
        assert(last_index_of(seq![], '/') is None);
    } else {
        assert(last_index_of(dir, '/') == Some(dir.len() - 1));
        assert(path.skip(dir.len() as int) =~= name);
    }
    assert(file_name_of(path) == name);
    // the extension is the text after the '.' that ends the stem
    lemma_last_index_of_concat(stem + seq!['.'], ext, '.');
    assert(stem + seq!['.'] + ext =~= name);
    assert((stem + seq!['.']).last() == '.');
    assert(last_index_of(stem + seq!['.'], '.') == Some(stem.len() as int));
    assert(name.len() > 2);
    assert(name != seq!['.', '.']);
    assert(name.skip(stem.len() as int + 1) =~= ext);
    assert(extension_of(name) == Some(ext));
    if e == "mp4"@ {
        assert(media_extensions()[0] == e);
    } else if e == "mkv"@ {
        assert(media_extensions()[1] == e);
    } else if e == "flv"@ {
        assert(media_extensions()[2] == e);
    } else if e == "avi"@ {
        assert(media_extensions()[3] == e);
    } else if e == "mov"@ {
        assert(media_extensions()[4] == e);
    } else if e == "wmv"@ {
        assert(media_extensions()[5] == e);
    } else if e == "m4v"@ {
        assert(media_extensions()[6] == e);
    } else if e == "ts"@ {
        assert(media_extensions()[7] == e);
    } else if e == "m4s"@ {
        assert(media_extensions()[8] == e);
    } else if e == "webm"@ {
        assert(media_extensions()[9] == e);
    } else {
        assert(media_extensions()[10] == e);
    }
}

/// A path with every '\\' written as '/'.
pub open spec fn normalized_path(path: Seq<char>) -> Seq<char> {
    path.map_values(|c: char| if c == '\\' { '/' } else { c })
}

/// A path with every '\\' written as '/'.
pub fn normalize_file_path_task(path: &str) -> (r: String)
    ensures
        r@ == normalized_path(path@),
{
    let p = chars_of(path);
    let mut out: Vec<char> = Vec::new();
    let mut i: usize = 0;
    while i < p.len()
        invariant
            i <= p@.len(),
            out@ == normalized_path(p@.take(i as int)),
        decreases p@.len() - i,
    {
        let c = p[i];
        out.push(if c == '\\' { '/' } else { c });
        assert(out@ =~= normalized_path(p@.take(i + 1)));
        i = i + 1;
    }
    assert(p@.take(p@.len() as int) =~= p@);
    crate::text::string_of(out.as_slice())
}

/// Is the text a drive root: an ASCII letter followed by ':'?
pub open spec fn is_drive_root(n: Seq<char>) -> bool {
    n.len() == 2 && (('a' <= n[0] && n[0] <= 'z') || ('A' <= n[0] && n[0] <= 'Z')) && n[1] == ':'
}

/// Is the path one that deletion must never touch?  Once '\\' is written as
/// '/' and trailing separators are removed, it is empty (the path was empty
/// or the root), or, on Windows, a drive root such as "C:".
pub open spec fn is_dangerous_path(path: Seq<char>, windows: bool) -> bool {
    let n = trim_end_char(normalized_path(path), '/');
    n.len() == 0 || (windows && is_drive_root(n))
}

/// Is the path one that deletion must never touch (empty, the root, or on
/// Windows a drive root)?  `windows` says whether the program runs on Windows.
pub fn is_dangerous_path_for_deletion_task(path: &str, windows: bool) -> (r: bool)
    ensures
        r == is_dangerous_path(path@, windows),
{
    let normalized = normalize_file_path_task(path);
    let p = chars_of(normalized.as_str());
    let mut end: usize = p.len();
    assert(p@.take(end as int) =~= p@);
    while end > 0 && p[end - 1] == '/'
        invariant
            end <= p@.len(),
            trim_end_char(p@, '/') == trim_end_char(p@.take(end as int), '/'),
        decreases end,
    {
        proof {
            assert(p@.take(end as int).drop_last() =~= p@.take(end - 1));
        }
        end = end - 1;
    }
    proof {
        assert(p@.take(end as int) =~= trim_end_char(p@, '/')) by {
            if end > 0 {
                assert(p@.take(end as int).last() == p@[end - 1]);
            }
        }
    }
    let r = end == 0 || (windows && end == 2 && (('a' <= p[0] && p[0] <= 'z') || ('A' <= p[0] && p[0]
        <= 'Z')) && p[1] == ':');
    proof {
        let n = p@.take(end as int);
        if end == 2 {
            assert(n[0] == p@[0] && n[1] == p@[1]);
        }
    }
    r
}

} // verus!
