//! What a read of a store yields, and how a write of one can fail.
//!
//! A store is one file that holds one record. The host does the work on the
//! file, one step at a time, and reports how each step went; the functions
//! here say which step comes next and what the whole read or write ended in.
//! A load never fails: whatever went wrong with the read, the caller gets the
//! record's built-in default, and the reason beside it.

use vstd::prelude::*;

verus! {

/// A record that a store can hold.
pub trait Record: View + Sized {
    /// The view of the record that stands in where none can be read.
    spec fn default_view() -> Self::V;

    /// Builds the record that stands in where none can be read.
    fn default_record() -> (record: Self)
        ensures
            record@ == Self::default_view(),
    ;
}

/// A step of reading a store. The host takes them in this order.
#[derive(Debug, Clone, Copy, PartialEq, Eq)]
pub enum ReadStage {
    /// Resolving the location of the store.
    Resolve,
    /// Asking whether there is a file at the location.
    Probe,
    /// Opening the file.
    Open,
    /// Reading the file as text.
    Read,
    /// Turning the text into a record.
    Parse,
}

/// What the host reports of a step of a read.
#[derive(Debug, Clone, PartialEq, Eq)]
pub enum StepOutcome {
    /// The step was taken.
    Done,
    /// There is no file.
    Absent,
    /// The step failed; the cause is worded by whoever failed.
    Failed(String),
}

/// Why a read of a store gave no record.
#[derive(Debug, Clone, PartialEq, Eq)]
pub enum ReadFailure {
    /// The location of the store could not be resolved.
    Unresolved(String),
    /// There is no file at the location.
    Missing,
    /// The file could not be opened.
    Open(String),
    /// The file could not be read as text.
    Read(String),
    /// The text is not a record of the expected shape.
    Parse(String),
}

/// Where a read stands after a step.
#[derive(Debug, Clone, PartialEq, Eq)]
pub enum ReadProgress {
    /// The host takes this step next.
    Next(ReadStage),
    /// The record is read.
    Finished,
    /// The read is over and gave no record.
    Failed(ReadFailure),
}

/// The outcome of loading a store: the record that was stored, or the
/// default and why it was used.
#[derive(Debug, Clone, PartialEq, Eq)]
pub enum Loaded<T> {
    Stored(T),
    Fallback(T, ReadFailure),
}

/// A step of writing a store. The host takes them in this order.
#[derive(Debug, Clone, Copy, PartialEq, Eq)]
pub enum SaveStage {
    /// Resolving the location of the store.
    Resolve,
    /// Creating the directory that holds the file, with its parents, where
    /// the location names one and it is not there yet.
    CreateDirectory,
    /// Turning the record into text.
    Serialize,
    /// Creating the file, or emptying the one that was there.
    CreateFile,
    /// Writing the text.
    Write,
}

/// A failed write: the step that failed and the cause as the system, or the
/// serializer, worded it.
#[derive(Debug, Clone, PartialEq, Eq)]
pub struct IoError {
    pub stage: SaveStage,
    pub cause: String,
}

/// Where a read stands when the step `stage` went as `outcome` says. A step
/// that was taken leads to the next one. The first step that was not ends the
/// read: with [`ReadFailure::Missing`] where the host found no file, or could
/// not tell whether there is one; else with the failure of that step.
pub open spec fn read_progress(stage: ReadStage, outcome: StepOutcome) -> ReadProgress {
    match outcome {
        StepOutcome::Absent => ReadProgress::Failed(ReadFailure::Missing),
        StepOutcome::Done => match stage {
            ReadStage::Resolve => ReadProgress::Next(ReadStage::Probe),
            ReadStage::Probe => ReadProgress::Next(ReadStage::Open),
            ReadStage::Open => ReadProgress::Next(ReadStage::Read),
            ReadStage::Read => ReadProgress::Next(ReadStage::Parse),
            ReadStage::Parse => ReadProgress::Finished,
        },
        StepOutcome::Failed(cause) => match stage {
            ReadStage::Resolve => ReadProgress::Failed(ReadFailure::Unresolved(cause)),
            ReadStage::Probe => ReadProgress::Failed(ReadFailure::Missing),
            ReadStage::Open => ReadProgress::Failed(ReadFailure::Open(cause)),
            ReadStage::Read => ReadProgress::Failed(ReadFailure::Read(cause)),
            ReadStage::Parse => ReadProgress::Failed(ReadFailure::Parse(cause)),
        },
    }
}

/// The step of a write that follows `stage`; none after the last.
pub open spec fn stage_after(stage: SaveStage) -> Option<SaveStage> {
    match stage {
        SaveStage::Resolve => Some(SaveStage::CreateDirectory),
        SaveStage::CreateDirectory => Some(SaveStage::Serialize),
        SaveStage::Serialize => Some(SaveStage::CreateFile),
        SaveStage::CreateFile => Some(SaveStage::Write),
        SaveStage::Write => None,
    }
}

/// Decides how a read goes on after the step `stage`, of which the host
/// reports `outcome`. A read starts with [`ReadStage::Resolve`].
pub fn read_step(stage: ReadStage, outcome: StepOutcome) -> (progress: ReadProgress)
    ensures
        progress == read_progress(stage, outcome),
{
    match outcome {
        StepOutcome::Absent => ReadProgress::Failed(ReadFailure::Missing),
        StepOutcome::Done => match stage {
            ReadStage::Resolve => ReadProgress::Next(ReadStage::Probe),
            ReadStage::Probe => ReadProgress::Next(ReadStage::Open),
            ReadStage::Open => ReadProgress::Next(ReadStage::Read),
            ReadStage::Read => ReadProgress::Next(ReadStage::Parse),
            ReadStage::Parse => ReadProgress::Finished,
        },
        StepOutcome::Failed(cause) => ReadProgress::Failed(
            match stage {
                ReadStage::Resolve => ReadFailure::Unresolved(cause),
                ReadStage::Probe => ReadFailure::Missing,
                ReadStage::Open => ReadFailure::Open(cause),
                ReadStage::Read => ReadFailure::Read(cause),
                ReadStage::Parse => ReadFailure::Parse(cause),
            },
        ),
    }
}

/// Decides how a write goes on after the step `stage`, which ended as
/// `outcome` says: with the next step, with success after the last, or with
/// the failure of this step, after which the host takes no further step. A
/// write starts with [`SaveStage::Resolve`].
pub fn save_step(stage: SaveStage, outcome: Result<(), String>) -> (progress: Result<
    Option<SaveStage>,
    IoError,
>)
    ensures
        match outcome {
            Ok(_) => progress == Ok::<Option<SaveStage>, IoError>(stage_after(stage)),
            Err(cause) => progress == Err::<Option<SaveStage>, IoError>(
                IoError { stage, cause },
            ),
        },
{
    match outcome {
        Ok(_) => Ok(
            match stage {
                SaveStage::Resolve => Some(SaveStage::CreateDirectory),
                SaveStage::CreateDirectory => Some(SaveStage::Serialize),
                SaveStage::Serialize => Some(SaveStage::CreateFile),
                SaveStage::CreateFile => Some(SaveStage::Write),
                SaveStage::Write => None,
            },
        ),
        Err(cause) => Err(IoError { stage, cause }),
    }
}

impl<T> Loaded<T> {
    /// The record that the caller gets.
    pub open spec fn record(self) -> T {
        match self {
            Loaded::Stored(record) => record,
            Loaded::Fallback(record, _) => record,
        }
    }

    /// Whether the default has to be written to the store: only where the
    /// store had no file. A file that could not be read or parsed is left as
    /// it is.
    pub open spec fn wants_persist(self) -> bool {
        self matches Loaded::Fallback(_, ReadFailure::Missing)
    }

    /// Hands out the record.
    pub fn value(self) -> (record: T)
        ensures
            record == self.record(),
    {
        match self {
            Loaded::Stored(record) => record,
            Loaded::Fallback(record, _) => record,
        }
    }

    /// Says whether the host has to write the record to the store now. A
    /// failure of that write is of no consequence to the caller.
    pub fn must_persist(&self) -> (persist: bool)
        ensures
            persist == self.wants_persist(),
    {
        match self {
            Loaded::Fallback(_, ReadFailure::Missing) => true,
            _ => false,
        }
    }
}

/// The view of the record that a load yields for what a read ended in.
pub open spec fn loaded_view<T: Record>(found: Result<T, ReadFailure>) -> T::V {
    match found {
        Ok(record) => record@,
        Err(_) => T::default_view(),
    }
}

/// Whether a load has the default written to the store: only where the read
/// found no file.
pub open spec fn heals<T>(found: Result<T, ReadFailure>) -> bool {
    found matches Err(ReadFailure::Missing)
}

/// Decides what a load yields for what the read ended in: the stored record
/// where there is one, else the default, tagged with the reason.
pub fn load<T: Record>(found: Result<T, ReadFailure>) -> (loaded: Loaded<T>)
    ensures
        match found {
            Ok(record) => loaded == Loaded::Stored(record),
            Err(failure) => loaded matches Loaded::Fallback(record, reason) && reason == failure
                && record@ == T::default_view(),
        },
        loaded.record()@ == loaded_view(found),
        loaded.wants_persist() == heals(found),
{
    match found {
        Ok(record) => Loaded::Stored(record),
        Err(failure) => Loaded::Fallback(T::default_record(), failure),
    }
}

/// A load of a store that holds a record yields that record, and asks for no
/// write.
pub proof fn law_stored_record_is_loaded<T: Record>(record: T)
    ensures
        loaded_view(Ok::<T, ReadFailure>(record)) == record@,
        !heals(Ok::<T, ReadFailure>(record)),
{
}

/// A load of a store without a file yields the default and asks for it to be
/// written; a load of the store that then holds the default yields the
/// default again, and asks for nothing.
pub proof fn law_missing_store_is_healed<T: Record>(written: T)
    requires
        written@ == T::default_view(),
    ensures
        loaded_view(Err::<T, ReadFailure>(ReadFailure::Missing)) == T::default_view(),
        heals(Err::<T, ReadFailure>(ReadFailure::Missing)),
        loaded_view(Ok::<T, ReadFailure>(written)) == T::default_view(),
        !heals(Ok::<T, ReadFailure>(written)),
{
}

/// A read that fails at a step after the probe, on a file that is there,
/// ends in a failure for which a load yields the default and asks for no
/// write: the file stays as it is.
pub proof fn law_unreadable_store_is_left_alone<T: Record>(stage: ReadStage, cause: String)
    requires
        stage == ReadStage::Open || stage == ReadStage::Read || stage == ReadStage::Parse,
    ensures
        read_progress(stage, StepOutcome::Failed(cause)) matches ReadProgress::Failed(failure)
            && loaded_view(Err::<T, ReadFailure>(failure)) == T::default_view() && !heals(
            Err::<T, ReadFailure>(failure),
        ),
{
}

/// A load asks for a write exactly where the read ended because the host
/// found no file, or could not tell whether there is one.
pub proof fn law_only_a_missing_file_is_written<T: Record>(stage: ReadStage, outcome: StepOutcome)
    ensures
        read_progress(stage, outcome) matches ReadProgress::Failed(failure) ==> (heals(
            Err::<T, ReadFailure>(failure),
        ) <==> outcome == StepOutcome::Absent || (stage == ReadStage::Probe
            && outcome is Failed)),
{
}

} // verus!
