//! Planning and preparing uploads: turning a directory tree into the ordered
//! list of objects to put into the storage bucket.

use vstd::prelude::*;
use vstd::string::StringExecFns;
use crate::text::push_char;

verus! {

/// One entry of a directory that was read from disk.
#[derive(Debug, PartialEq, Eq)]
pub enum DirEntry {
    /// A file: its name within its directory, and the path to open it by.
    File { name: String, source: String },
    /// A subdirectory: its name, and what it holds.
    Directory { name: String, entries: Vec<DirEntry> },
}

/// One file to upload.
#[derive(Clone, Debug, PartialEq, Eq)]
pub struct UploadTask {
    /// The local path of the file.
    pub source: String,
    /// The bucket to put it into.
    pub destination_bucket: String,
    /// The key to put it under.
    pub destination_path: String,
}

/// The mathematical value of an [`UploadTask`].
pub struct UploadTaskView {
    pub source: Seq<char>,
    pub destination_bucket: Seq<char>,
    pub destination_path: Seq<char>,
}

impl View for UploadTask {
    type V = UploadTaskView;

    open spec fn view(&self) -> UploadTaskView {
        UploadTaskView {
            source: self.source@,
            destination_bucket: self.destination_bucket@,
            destination_path: self.destination_path@,
        }
    }
}

/// The values of a list of tasks, in order.
pub open spec fn task_views(tasks: Seq<UploadTask>) -> Seq<UploadTaskView> {
    Seq::new(tasks.len(), |i: int| tasks[i]@)
}

/// The key of `name` under the relative path `base`: the two joined by a
/// slash, or `name` alone directly under the root.
pub open spec fn key_under(base: Seq<char>, name: Seq<char>) -> Seq<char> {
    if base.len() == 0 {
        name
    } else {
        base.push('/') + name
    }
}

/// The tasks for one entry found under the relative path `base`: one task for
/// a file, and for a subdirectory the tasks of all it holds, under the path
/// extended by its name.
pub open spec fn entry_tasks(base: Seq<char>, entry: DirEntry, bucket: Seq<char>) -> Seq<
    UploadTaskView,
>
    decreases entry,
{
    match entry {
        DirEntry::File { name, source } => seq![
            UploadTaskView {
                source: source@,
                destination_bucket: bucket,
                destination_path: key_under(base, name@),
            },
        ],
        DirEntry::Directory { name, entries } => tree_tasks(
            key_under(base, name@),
            entries@,
            bucket,
        ),
    }
}

/// The tasks for the entries of a directory at the relative path `base`, in
/// the order of the entries.
pub open spec fn tree_tasks(base: Seq<char>, entries: Seq<DirEntry>, bucket: Seq<char>) -> Seq<
    UploadTaskView,
>
    decreases entries,
{
    if entries.len() == 0 {
        Seq::empty()
    } else {
        tree_tasks(base, entries.drop_last(), bucket) + entry_tasks(base, entries.last(), bucket)
    }
}

/// How many files an entry stands for.
pub open spec fn entry_files(entry: DirEntry) -> nat
    decreases entry,
{
    match entry {
        DirEntry::File { .. } => 1,
        DirEntry::Directory { entries, .. } => tree_files(entries@),
    }
}

/// How many files there are under the entries of a directory, at any depth.
pub open spec fn tree_files(entries: Seq<DirEntry>) -> nat
    decreases entries,
{
    if entries.len() == 0 {
        0
    } else {
        tree_files(entries.drop_last()) + entry_files(entries.last())
    }
}

/// Every file under the root gets exactly one task, and nothing else does:
/// there are as many tasks as files. Empty directories give none.
pub proof fn lemma_one_task_per_file(base: Seq<char>, entries: Seq<DirEntry>, bucket: Seq<char>)
    ensures
        tree_tasks(base, entries, bucket).len() == tree_files(entries),
    decreases entries,
{
    if entries.len() > 0 {
        lemma_one_task_per_file(base, entries.drop_last(), bucket);
        let last = entries.last();
        match last {
            DirEntry::File { .. } => {
                assert(entry_tasks(base, last, bucket).len() == 1);
                assert(entry_files(last) == 1);
            },
            DirEntry::Directory { name, entries: inner } => {
                lemma_one_task_per_file(key_under(base, name@), inner@, bucket);
                assert(entry_tasks(base, last, bucket) == tree_tasks(
                    key_under(base, name@),
                    inner@,
                    bucket,
                ));
                assert(entry_files(last) == tree_files(inner@));
            },
        }
    }
}

/// Every task goes to the bucket that was asked for.
pub proof fn lemma_tasks_go_to_bucket(
    base: Seq<char>,
    entries: Seq<DirEntry>,
    bucket: Seq<char>,
    i: int,
)
    requires
        0 <= i < tree_tasks(base, entries, bucket).len(),
    ensures
        tree_tasks(base, entries, bucket)[i].destination_bucket == bucket,
    decreases entries,
{
    let before = tree_tasks(base, entries.drop_last(), bucket);
    let last = entries.last();
    if i < before.len() {
        lemma_tasks_go_to_bucket(base, entries.drop_last(), bucket, i);
    } else {
        match last {
            DirEntry::File { .. } => {
                assert(entry_tasks(base, last, bucket)[0].destination_bucket == bucket);
            },
            DirEntry::Directory { name, entries: inner } => {
                assert(entry_tasks(base, last, bucket) == tree_tasks(
                    key_under(base, name@),
                    inner@,
                    bucket,
                ));
                lemma_tasks_go_to_bucket(key_under(base, name@), inner@, bucket, i - before.len());
            },
        }
    }
}

/// A directory without entries gives no task.
pub proof fn lemma_empty_directory(base: Seq<char>, bucket: Seq<char>)
    ensures
        tree_tasks(base, Seq::<DirEntry>::empty(), bucket) == Seq::<UploadTaskView>::empty(),
{
}

/// Joins a relative path and a name into a key.
pub fn join_key(base: &str, name: &str) -> (r: String)
    ensures
        r@ == key_under(base@, name@),
{
    if base.is_empty() {
        name.to_owned()
    } else {
        let mut r = base.to_owned();
        push_char(&mut r, '/');
        r.append(name);
        r
    }
}

/// Flattens a directory tree into upload tasks.
///
/// `directory` holds the entries found at the relative path `base` (empty
/// for the root). Each file gives one task, whose key is its path relative
/// to the root with `/` between the names; tasks come in the order of the
/// entries, those of a subdirectory in the place of the subdirectory.
pub fn directory_to_tasks(base: String, directory: &Vec<DirEntry>, destination_bucket: &String) -> (ret:
    Vec<UploadTask>)
    ensures
        task_views(ret@) == tree_tasks(base@, directory@, destination_bucket@),
        directory@.len() == 0 ==> ret@.len() == 0,
    decreases directory,
{
    let mut ret: Vec<UploadTask> = Vec::new();
    let mut i: usize = 0;
    assert(task_views(ret@) =~= Seq::<UploadTaskView>::empty());
    assert(directory@.take(0) =~= Seq::<DirEntry>::empty());
    while i < directory.len()
        invariant
            i <= directory@.len(),
            task_views(ret@) == tree_tasks(
                base@,
                directory@.take(i as int),
                destination_bucket@,
            ),
            directory@.len() == 0 ==> ret@.len() == 0,
        decreases directory@.len() - i,
    {
        let ghost before = ret@;
        let ghost done = directory@.take(i as int);
        let ghost now = directory@.take(i + 1);
        proof {
            assert(now.drop_last() =~= done);
            assert(now.last() == directory@[i as int]);
            assert(tree_tasks(base@, now, destination_bucket@) == tree_tasks(
                base@,
                done,
                destination_bucket@,
            ) + entry_tasks(base@, directory@[i as int], destination_bucket@));
        }
        match &directory[i] {
            DirEntry::Directory { name, entries } => {
                let next_dir = join_key(base.as_str(), name.as_str());
                let mut inner = directory_to_tasks(next_dir, entries, destination_bucket);
                let ghost added = inner@;
                ret.append(&mut inner);
                assert(entry_tasks(base@, directory@[i as int], destination_bucket@) == tree_tasks(
                    next_dir@,
                    entries@,
                    destination_bucket@,
                ));
                assert(task_views(ret@) =~= task_views(before) + task_views(added));
            },
            DirEntry::File { name, source } => {
                let task = UploadTask {
                    destination_path: join_key(base.as_str(), name.as_str()),
                    source: source.clone(),
                    destination_bucket: destination_bucket.clone(),
                };
                let ghost made = task@;
                ret.push(task);
                assert(entry_tasks(base@, directory@[i as int], destination_bucket@) == seq![made]);
                assert(task_views(ret@) =~= task_views(before) + seq![made]);
            },
        }
        i += 1;
    }
    assert(directory@.take(directory@.len() as int) =~= directory@);
    ret
}

/// What guessing from a path's extension gives as the media type of a file:
/// `None` when the path has no extension or the extension is not known.
pub uninterp spec fn guessed_media_type(path: Seq<char>) -> Option<Seq<char>>;

/// Guesses a file's media type from the extension of its path.
///
/// Calls `mime_guess::from_path`, takes the first guess with
/// `MimeGuess::first`, and writes it out as `Mime` prints itself. The guess
/// looks at the path alone, never at the disk: it is a lookup of the path's
/// extension, without regard to case, in a table compiled into that crate.
/// Nothing is proved of it; this contract only gives the result its name.
#[verifier::external_body]
fn guess_media_type(path: &str) -> (r: Option<String>)
    ensures
        match r {
            Some(media_type) => guessed_media_type(path@) == Some(media_type@),
            None => guessed_media_type(path@) is None,
        },
{
    match mime_guess::from_path(path).first() {
        Some(media_type) => Some(media_type.to_string()),
        None => None,
    }
}

/// The content type to send for a guess: the guess itself, or the generic
/// binary type when there is none.
pub open spec fn media_type_or_default(guess: Option<Seq<char>>) -> Seq<char> {
    match guess {
        Some(media_type) => media_type,
        None => "application/octet-stream"@,
    }
}

/// The content type to send for a guess.
pub fn content_type_or_default(guess: Option<String>) -> (r: String)
    ensures
        r@ == media_type_or_default(
            match guess {
                Some(media_type) => Some(media_type@),
                None => None,
            },
        ),
{
    match guess {
        Some(media_type) => media_type,
        None => "application/octet-stream".to_owned(),
    }
}

/// The content type to send for the file at `path`.
pub fn content_type_for(path: &str) -> (r: String)
    ensures
        r@ == media_type_or_default(guessed_media_type(path@)),
{
    content_type_or_default(guess_media_type(path))
}

/// One put-object request, ready to be sent once the file is opened.
#[derive(Clone, Debug, PartialEq, Eq)]
pub struct PutObjectRequest {
    /// The local path of the file whose bytes are the body.
    pub source: String,
    pub bucket: String,
    pub key: String,
    pub content_type: String,
}

/// The mathematical value of a [`PutObjectRequest`].
pub struct PutObjectRequestView {
    pub source: Seq<char>,
    pub bucket: Seq<char>,
    pub key: Seq<char>,
    pub content_type: Seq<char>,
}

impl View for PutObjectRequest {
    type V = PutObjectRequestView;

    open spec fn view(&self) -> PutObjectRequestView {
        PutObjectRequestView {
            source: self.source@,
            bucket: self.bucket@,
            key: self.key@,
            content_type: self.content_type@,
        }
    }
}

impl PutObjectRequest {
    /// A copy of this request.
    pub fn duplicate(&self) -> (r: PutObjectRequest)
        ensures
            r@ == self@,
    {
        PutObjectRequest {
            source: self.source.clone(),
            bucket: self.bucket.clone(),
            key: self.key.clone(),
            content_type: self.content_type.clone(),
        }
    }
}

/// The values of a list of requests, in order.
pub open spec fn request_views(requests: Seq<PutObjectRequest>) -> Seq<PutObjectRequestView> {
    Seq::new(requests.len(), |i: int| requests[i]@)
}

/// The request that carries out a task: the task's bucket and key, and the
/// content type that its source path's extension suggests.
pub open spec fn put_request(task: UploadTaskView) -> PutObjectRequestView {
    PutObjectRequestView {
        source: task.source,
        bucket: task.destination_bucket,
        key: task.destination_path,
        content_type: media_type_or_default(guessed_media_type(task.source)),
    }
}

/// The requests that upload a directory tree into a bucket: one for each
/// task of the plan made from the root, in the plan's order.
pub open spec fn upload_plan(directory: Seq<DirEntry>, bucket: Seq<char>) -> Seq<
    PutObjectRequestView,
> {
    let tasks = tree_tasks(Seq::empty(), directory, bucket);
    Seq::new(tasks.len(), |i: int| put_request(tasks[i]))
}

/// Prepares the single put-object request that uploads one task's file.
pub fn upload_file(task: &UploadTask) -> (r: PutObjectRequest)
    ensures
        r@ == put_request(task@),
{
    PutObjectRequest {
        source: task.source.clone(),
        bucket: task.destination_bucket.clone(),
        key: task.destination_path.clone(),
        content_type: content_type_for(task.source.as_str()),
    }
}

/// Prepares the upload of a whole directory tree into a bucket.
///
/// Returns the requests to send, strictly one after the other and in this
/// order; the first one that fails ends the upload.
pub fn upload_directory(directory: &Vec<DirEntry>, destination_bucket: &String) -> (r: Vec<
    PutObjectRequest,
>)
    ensures
        request_views(r@) == upload_plan(directory@, destination_bucket@),
        r@.len() == tree_files(directory@),
{
    let tasks = directory_to_tasks(String::new(), directory, destination_bucket);
    let mut r: Vec<PutObjectRequest> = Vec::new();
    let mut i: usize = 0;
    while i < tasks.len()
        invariant
            i <= tasks@.len(),
            r@.len() == i,
            forall|k: int| 0 <= k < i ==> r@[k]@ == put_request(#[trigger] tasks@[k]@),
        decreases tasks@.len() - i,
    {
        r.push(upload_file(&tasks[i]));
        i += 1;
    }
    proof {
        let planned = tree_tasks(Seq::empty(), directory@, destination_bucket@);
        assert(planned == task_views(tasks@));
        assert forall|k: int| 0 <= k < r@.len() implies request_views(r@)[k] == upload_plan(
            directory@,
            destination_bucket@,
        )[k] by {
            assert(planned[k] == tasks@[k]@);
        }
        assert(request_views(r@) =~= upload_plan(directory@, destination_bucket@));
        lemma_one_task_per_file(Seq::empty(), directory@, destination_bucket@);
    }
    r
}

} // verus!
