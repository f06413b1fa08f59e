//! How a written file reaches its place: it is written whole under a temporary
//! name beside it, and then renamed.

use crate::error::Error;
use vstd::prelude::*;

verus! {

/// What is put behind the name of a file to get the temporary one.
pub const TEMPORARY_SUFFIX: &'static str = ".tmp";

/// What the caller is to do with the files.
#[derive(Clone, Copy, Debug, PartialEq, Eq, Structural)]
pub enum FileAction {
    /// Create the temporary file, which must not be there yet.
    CreateTemporary,
    /// Write the whole content to the temporary file and flush it to the disk.
    WriteTemporary,
    /// Rename the temporary file to the file's own name.
    Rename,
    /// Remove the temporary file.
    RemoveTemporary,
}

/// Where a write stands.
#[derive(Debug)]
pub enum WriteStage {
    /// The temporary file is to be created.
    Creating,
    /// The content is to be written.
    Writing,
    /// The temporary file is to be renamed.
    Renaming,
    /// Writing failed with this error; the temporary file is to be removed.
    CleaningAfterWrite(Error),
    /// Renaming failed with this error; the temporary file is to be removed.
    CleaningAfterRename(Error),
    /// The file is in its place.
    Done,
    /// The file is not in its place, for this error.
    Failed(Error),
}

/// What the caller is to do at a stage.
pub open spec fn action_at(stage: WriteStage) -> Option<FileAction> {
    match stage {
        WriteStage::Creating => Some(FileAction::CreateTemporary),
        WriteStage::Writing => Some(FileAction::WriteTemporary),
        WriteStage::Renaming => Some(FileAction::Rename),
        WriteStage::CleaningAfterWrite(_) => Some(FileAction::RemoveTemporary),
        WriteStage::CleaningAfterRename(_) => Some(FileAction::RemoveTemporary),
        WriteStage::Done => None,
        WriteStage::Failed(_) => None,
    }
}

/// The paths of a write as they are printed in messages.
#[derive(Debug)]
pub struct ShownPaths {
    pub temporary: String,
    pub target: String,
}

/// What a caller prints when neither writing nor cleaning up worked.
pub open spec fn write_cleanup_text(
    paths: ShownPaths,
    error: Seq<char>,
    cleanup: Seq<char>,
) -> Seq<char> {
    "failed writing "@ + paths.temporary@ + ": "@ + error + "; cleanup failed: "@ + cleanup
}

/// What a caller prints when neither renaming nor cleaning up worked.
pub open spec fn rename_cleanup_text(
    paths: ShownPaths,
    error: Seq<char>,
    cleanup: Seq<char>,
) -> Seq<char> {
    "failed renaming "@ + paths.temporary@ + " to "@ + paths.target@ + ": "@ + error
        + "; cleanup failed: "@ + cleanup
}

/// The stage that follows when the caller has done what the stage asks for.
pub open spec fn follows(
    stage: WriteStage,
    done: Result<(), Error>,
    paths: ShownPaths,
    next: WriteStage,
) -> bool {
    match (stage, done) {
        (WriteStage::Creating, Ok(_)) => next == WriteStage::Writing,
        (WriteStage::Creating, Err(error)) => next == WriteStage::Failed(error),
        (WriteStage::Writing, Ok(_)) => next == WriteStage::Renaming,
        (WriteStage::Writing, Err(error)) => next == WriteStage::CleaningAfterWrite(error),
        (WriteStage::Renaming, Ok(_)) => next == WriteStage::Done,
        (WriteStage::Renaming, Err(error)) => next == WriteStage::CleaningAfterRename(error),
        (WriteStage::CleaningAfterWrite(error), Ok(_)) => next == WriteStage::Failed(error),
        (WriteStage::CleaningAfterRename(error), Ok(_)) => next == WriteStage::Failed(error),
        (WriteStage::CleaningAfterWrite(error), Err(cleanup)) => match next {
            WriteStage::Failed(both) => both@ == write_cleanup_text(paths, error@, cleanup@),
            _ => false,
        },
        (WriteStage::CleaningAfterRename(error), Err(cleanup)) => match next {
            WriteStage::Failed(both) => both@ == rename_cleanup_text(paths, error@, cleanup@),
            _ => false,
        },
        (WriteStage::Done, _) => next == stage,
        (WriteStage::Failed(_), _) => next == stage,
    }
}

impl WriteStage {
    /// What the caller is to do; nothing where the write is over.
    pub fn action(&self) -> (action: Option<FileAction>)
        ensures
            action == action_at(*self),
    {
        match self {
            WriteStage::Creating => Some(FileAction::CreateTemporary),
            WriteStage::Writing => Some(FileAction::WriteTemporary),
            WriteStage::Renaming => Some(FileAction::Rename),
            WriteStage::CleaningAfterWrite(_) => Some(FileAction::RemoveTemporary),
            WriteStage::CleaningAfterRename(_) => Some(FileAction::RemoveTemporary),
            WriteStage::Done => None,
            WriteStage::Failed(_) => None,
        }
    }

    /// The stage that follows when the caller has done what the stage asks
    /// for.
    pub fn next(self, done: Result<(), Error>, paths: &ShownPaths) -> (next: WriteStage)
        ensures
            follows(self, done, *paths, next),
    {
        match (self, done) {
            (WriteStage::Creating, Ok(())) => WriteStage::Writing,
            (WriteStage::Creating, Err(error)) => WriteStage::Failed(error),
            (WriteStage::Writing, Ok(())) => WriteStage::Renaming,
            (WriteStage::Writing, Err(error)) => WriteStage::CleaningAfterWrite(error),
            (WriteStage::Renaming, Ok(())) => WriteStage::Done,
            (WriteStage::Renaming, Err(error)) => WriteStage::CleaningAfterRename(error),
            (WriteStage::CleaningAfterWrite(error), Ok(())) => WriteStage::Failed(error),
            (WriteStage::CleaningAfterRename(error), Ok(())) => WriteStage::Failed(error),
            (WriteStage::CleaningAfterWrite(error), Err(cleanup)) => {
                let mut text = "failed writing ".to_owned();
                text.append(paths.temporary.as_str());
                text.append(": ");
                text.append(error.message().as_str());
                text.append("; cleanup failed: ");
                text.append(cleanup.message().as_str());
                WriteStage::Failed(Error::Msg(text))
            },
            (WriteStage::CleaningAfterRename(error), Err(cleanup)) => {
                let mut text = "failed renaming ".to_owned();
                text.append(paths.temporary.as_str());
                text.append(" to ");
                text.append(paths.target.as_str());
                text.append(": ");
                text.append(error.message().as_str());
                text.append("; cleanup failed: ");
                text.append(cleanup.message().as_str());
                WriteStage::Failed(Error::Msg(text))
            },
            (WriteStage::Done, _) => WriteStage::Done,
            (WriteStage::Failed(error), _) => WriteStage::Failed(error),
        }
    }

    /// How the write ended; nothing where it is not over.
    pub fn outcome(self) -> (outcome: Option<Result<(), Error>>)
        ensures
            outcome == (match self {
                WriteStage::Done => Some(Ok::<(), Error>(())),
                WriteStage::Failed(error) => Some(Err::<(), Error>(error)),
                _ => None,
            }),
    {
        match self {
            WriteStage::Done => Some(Ok(())),
            WriteStage::Failed(error) => Some(Err(error)),
            _ => None,
        }
    }
}

/// What a reader of the directory sees of a write.
pub struct Files {
    /// The temporary file of this write is there.
    pub temporary: bool,
    /// The temporary file holds the whole content, on the disk.
    pub complete: bool,
    /// The file has the new content.
    pub replaced: bool,
}

/// The files after an action, which worked or failed. A failed action changes
/// nothing that a reader relies on, but may leave a part of the content in the
/// temporary file.
pub open spec fn after_action(files: Files, action: FileAction, worked: bool) -> Files {
    if !worked {
        files
    } else {
        match action {
            FileAction::CreateTemporary => Files { temporary: true, ..files },
            FileAction::WriteTemporary => Files { complete: true, ..files },
            FileAction::Rename => Files { temporary: false, replaced: files.complete, ..files },
            FileAction::RemoveTemporary => Files { temporary: false, ..files },
        }
    }
}

/// Stage `i` of a write and its files are followed by the next ones.
pub open spec fn goes_on(
    stages: Seq<WriteStage>,
    files: Seq<Files>,
    done: Seq<Result<(), Error>>,
    paths: ShownPaths,
    i: int,
) -> bool {
    &&& follows(stages[i], done[i], paths, stages[i + 1])
    &&& files[i + 1] == match action_at(stages[i]) {
        Some(action) => after_action(files[i], action, done[i] is Ok),
        None => files[i],
    }
}

/// The stages and files of a write that starts anew and goes through `done`.
pub open spec fn trace(
    stages: Seq<WriteStage>,
    files: Seq<Files>,
    done: Seq<Result<(), Error>>,
    paths: ShownPaths,
) -> bool {
    &&& stages.len() == done.len() + 1
    &&& files.len() == done.len() + 1
    &&& stages[0] == WriteStage::Creating
    &&& files[0] == (Files { temporary: false, complete: false, replaced: false })
    &&& forall|i: int| 0 <= i < done.len() ==> #[trigger] goes_on(stages, files, done, paths, i)
}

/// What holds of the files at each stage of a write.
pub open spec fn stage_files(stage: WriteStage, files: Files) -> bool {
    match stage {
        WriteStage::Creating => !files.temporary && !files.complete && !files.replaced,
        WriteStage::Writing => files.temporary && !files.complete && !files.replaced,
        WriteStage::Renaming => files.temporary && files.complete && !files.replaced,
        WriteStage::CleaningAfterWrite(_) => files.temporary && !files.replaced,
        WriteStage::CleaningAfterRename(_) => files.temporary && !files.replaced,
        WriteStage::Done => !files.temporary && files.complete && files.replaced,
        WriteStage::Failed(_) => !files.replaced,
    }
}

/// A file gets its new content only by a rename of a temporary file that holds
/// the whole of it: at every stage before the end, and after every failure,
/// the file is as it was.
pub proof fn law_file_is_replaced_whole_or_not_at_all(
    stages: Seq<WriteStage>,
    files: Seq<Files>,
    done: Seq<Result<(), Error>>,
    paths: ShownPaths,
    i: int,
)
    requires
        trace(stages, files, done, paths),
        0 <= i < stages.len(),
    ensures
        stage_files(stages[i], files[i]),
        files[i].replaced <==> stages[i] is Done,
    decreases i,
{
    if i > 0 {
        law_file_is_replaced_whole_or_not_at_all(stages, files, done, paths, i - 1);
        assert(goes_on(stages, files, done, paths, i - 1));
    }
}

/// A write that fails leaves no temporary file behind, unless removing it
/// failed too: where every removal worked, none is there at the end.
pub proof fn law_failed_write_leaves_no_temporary_file(
    stages: Seq<WriteStage>,
    files: Seq<Files>,
    done: Seq<Result<(), Error>>,
    paths: ShownPaths,
    i: int,
)
    requires
        trace(stages, files, done, paths),
        0 <= i < stages.len(),
        forall|j: int|
            0 <= j < done.len() && action_at(#[trigger] stages[j]) == Some(
                FileAction::RemoveTemporary,
            ) ==> done[j] is Ok,
    ensures
        stages[i] is Failed || stages[i] is Done ==> !files[i].temporary,
    decreases i,
{
    if i > 0 {
        law_failed_write_leaves_no_temporary_file(stages, files, done, paths, i - 1);
        law_file_is_replaced_whole_or_not_at_all(stages, files, done, paths, i - 1);
        assert(goes_on(stages, files, done, paths, i - 1));
    }
}

/// A write is over after at most four actions.
pub proof fn law_write_ends(
    stages: Seq<WriteStage>,
    files: Seq<Files>,
    done: Seq<Result<(), Error>>,
    paths: ShownPaths,
)
    requires
        trace(stages, files, done, paths),
        done.len() >= 4,
    ensures
        action_at(stages[4]) is None,
{
    assert(goes_on(stages, files, done, paths, 0));
    assert(goes_on(stages, files, done, paths, 1));
    assert(goes_on(stages, files, done, paths, 2));
    assert(goes_on(stages, files, done, paths, 3));
}

/// A write in which every action works creates, writes and renames, in this
/// order, and then is done.
pub proof fn law_working_write_takes_three_actions(
    stages: Seq<WriteStage>,
    files: Seq<Files>,
    done: Seq<Result<(), Error>>,
    paths: ShownPaths,
    end: Option<Result<(), Error>>,
)
    requires
        trace(stages, files, done, paths),
        done.len() == 3,
        done[0] is Ok,
        done[1] is Ok,
        done[2] is Ok,
        call_ensures(WriteStage::outcome, (stages[3],), end),
    ensures
        action_at(stages[0]) == Some(FileAction::CreateTemporary),
        action_at(stages[1]) == Some(FileAction::WriteTemporary),
        action_at(stages[2]) == Some(FileAction::Rename),
        action_at(stages[3]) is None,
        files[3].replaced && !files[3].temporary,
        end == Some(Ok::<(), Error>(())),
{
    assert(goes_on(stages, files, done, paths, 0));
    assert(goes_on(stages, files, done, paths, 1));
    assert(goes_on(stages, files, done, paths, 2));
}

/// A write that fails ends with the error of the action that failed: after a
/// failed creation nothing is left to do, after a failed write or rename the
/// temporary file is removed, and where that fails too, both errors are told.
pub proof fn law_failed_write_tells_why(
    stage: WriteStage,
    error: Error,
    paths: ShownPaths,
    cleaning: WriteStage,
    removed: Result<(), Error>,
    end: WriteStage,
)
    requires
        stage is Creating || stage is Writing || stage is Renaming,
        call_ensures(WriteStage::next, (stage, Err(error), &paths), cleaning),
        call_ensures(WriteStage::next, (cleaning, removed, &paths), end),
    ensures
        end is Failed,
        action_at(end) is None,
        stage is Creating ==> action_at(cleaning) is None && end == WriteStage::Failed(error),
        !(stage is Creating) ==> action_at(cleaning) == Some(FileAction::RemoveTemporary),
        removed is Ok ==> end == WriteStage::Failed(error),
        stage is Writing && removed is Err ==> end->Failed_0@ == "failed writing "@
            + paths.temporary@ + ": "@ + error@ + "; cleanup failed: "@ + removed->Err_0@,
        stage is Renaming && removed is Err ==> end->Failed_0@ == "failed renaming "@
            + paths.temporary@ + " to "@ + paths.target@ + ": "@ + error@ + "; cleanup failed: "@
            + removed->Err_0@,
{
}

/// The caller is told to do what the stage is about.
pub proof fn law_stages_ask_for_their_action(stage: &WriteStage, action: Option<FileAction>)
    requires
        call_ensures(WriteStage::action, (stage,), action),
    ensures
        action == Some(FileAction::CreateTemporary) <==> *stage is Creating,
        action == Some(FileAction::WriteTemporary) <==> *stage is Writing,
        action == Some(FileAction::Rename) <==> *stage is Renaming,
        action == Some(FileAction::RemoveTemporary) <==> *stage is CleaningAfterWrite
            || *stage is CleaningAfterRename,
        action is None <==> *stage is Done || *stage is Failed,
{
}

/// A file's temporary name is its own name with a suffix: it differs from every
/// name that does not end in that suffix, and two files have two.
pub proof fn law_temporary_names_differ(name: Seq<char>, other: Seq<char>)
    ensures
        (name + TEMPORARY_SUFFIX@) == name + ".tmp"@,
        name + TEMPORARY_SUFFIX@ != name,
        name + TEMPORARY_SUFFIX@ == other + TEMPORARY_SUFFIX@ ==> name == other,
{
    reveal_strlit(".tmp");
    assert((name + TEMPORARY_SUFFIX@).len() == name.len() + 4);
    assert((name + TEMPORARY_SUFFIX@).take(name.len() as int) =~= name);
    assert((other + TEMPORARY_SUFFIX@).take(other.len() as int) =~= other);
}

} // verus!
