//! The failures that the tool reports to its user.

use vstd::prelude::*;

verus! {

/// Everything that can go wrong while models are managed, trained or queried.
#[derive(Debug, PartialEq)]
pub enum FofError {
    /// A worker was used before it was started.
    ThreadNotInitialized,
    /// No rating could be computed because the named model has no metrics.
    NoMetricsFoundForModel(String),
    /// The named directory could not be listed.
    FailedReadingDirectory(String),
    /// The named file could not be read.
    FailedReadingFile(String),
    /// Any other failure; the text says what happened.
    Failed(String),
    /// An average over no items was asked for.
    DivisionByZero,
    /// A model of that name exists already.
    ModelAlreadyExists,
    /// The base model asked for is not one of the known ones.
    YoloModelNotFound,
    /// The model script ran and reported an error; its error output is attached.
    PythonError(Vec<u8>),
    /// The model script could not be started.
    FailedToStartPython,
    /// The named model does not exist.
    ModelNotFound(String),
    /// Detections could not be parsed.
    JsonParseError(String),
    /// The named directory could not be removed.
    FailedDeletingDirectory(String),
    /// A configuration document could not be parsed.
    YamlParseError(String),
    /// A configuration document lacks a field; the text names it.
    MissingField(String),
    /// The data set that a model was trained on is none of the known ones.
    UnsupportedDataset(String),
    /// The operating system reported an error; the text is its message.
    IoError(String),
    /// The named model has no statistics.
    NoStatsFound(String),
    /// A running training could not be stopped.
    FailedToStopTraining,
    /// The exchange directory of a model could not be created.
    FailedCreatingCommunication(String),
    /// A file could not be copied into the exchange directory.
    FailedToCopyData(String),
}

/// A failure with its text as plain characters.
pub enum FofErrorView {
    ThreadNotInitialized,
    NoMetricsFoundForModel(Seq<char>),
    FailedReadingDirectory(Seq<char>),
    FailedReadingFile(Seq<char>),
    Failed(Seq<char>),
    DivisionByZero,
    ModelAlreadyExists,
    YoloModelNotFound,
    PythonError(Seq<u8>),
    FailedToStartPython,
    ModelNotFound(Seq<char>),
    JsonParseError(Seq<char>),
    FailedDeletingDirectory(Seq<char>),
    YamlParseError(Seq<char>),
    MissingField(Seq<char>),
    UnsupportedDataset(Seq<char>),
    IoError(Seq<char>),
    NoStatsFound(Seq<char>),
    FailedToStopTraining,
    FailedCreatingCommunication(Seq<char>),
    FailedToCopyData(Seq<char>),
}

impl View for FofError {
    type V = FofErrorView;

    open spec fn view(&self) -> FofErrorView {
        match self {
            FofError::ThreadNotInitialized => FofErrorView::ThreadNotInitialized,
            FofError::NoMetricsFoundForModel(text) => FofErrorView::NoMetricsFoundForModel(text@),
            FofError::FailedReadingDirectory(text) => FofErrorView::FailedReadingDirectory(text@),
            FofError::FailedReadingFile(text) => FofErrorView::FailedReadingFile(text@),
            FofError::Failed(text) => FofErrorView::Failed(text@),
            FofError::DivisionByZero => FofErrorView::DivisionByZero,
            FofError::ModelAlreadyExists => FofErrorView::ModelAlreadyExists,
            FofError::YoloModelNotFound => FofErrorView::YoloModelNotFound,
            FofError::PythonError(text) => FofErrorView::PythonError(text@),
            FofError::FailedToStartPython => FofErrorView::FailedToStartPython,
            FofError::ModelNotFound(text) => FofErrorView::ModelNotFound(text@),
            FofError::JsonParseError(text) => FofErrorView::JsonParseError(text@),
            FofError::FailedDeletingDirectory(text) => FofErrorView::FailedDeletingDirectory(text@),
            FofError::YamlParseError(text) => FofErrorView::YamlParseError(text@),
            FofError::MissingField(text) => FofErrorView::MissingField(text@),
            FofError::UnsupportedDataset(text) => FofErrorView::UnsupportedDataset(text@),
            FofError::IoError(text) => FofErrorView::IoError(text@),
            FofError::NoStatsFound(text) => FofErrorView::NoStatsFound(text@),
            FofError::FailedToStopTraining => FofErrorView::FailedToStopTraining,
            FofError::FailedCreatingCommunication(text) => FofErrorView::FailedCreatingCommunication(text@),
            FofError::FailedToCopyData(text) => FofErrorView::FailedToCopyData(text@),
        }
    }
}

impl Clone for FofError {
    /// A copy of the failure with the same text.
    fn clone(&self) -> (copy: Self)
        ensures
            copy@ == self@,
    {
        match self {
            FofError::ThreadNotInitialized => FofError::ThreadNotInitialized,
            FofError::NoMetricsFoundForModel(text) => FofError::NoMetricsFoundForModel(text.clone()),
            FofError::FailedReadingDirectory(text) => FofError::FailedReadingDirectory(text.clone()),
            FofError::FailedReadingFile(text) => FofError::FailedReadingFile(text.clone()),
            FofError::Failed(text) => FofError::Failed(text.clone()),
            FofError::DivisionByZero => FofError::DivisionByZero,
            FofError::ModelAlreadyExists => FofError::ModelAlreadyExists,
            FofError::YoloModelNotFound => FofError::YoloModelNotFound,
            FofError::PythonError(text) => {
                let copy = text.clone();
                assert(copy@ =~= text@);
                FofError::PythonError(copy)
            },
            FofError::FailedToStartPython => FofError::FailedToStartPython,
            FofError::ModelNotFound(text) => FofError::ModelNotFound(text.clone()),
            FofError::JsonParseError(text) => FofError::JsonParseError(text.clone()),
            FofError::FailedDeletingDirectory(text) => FofError::FailedDeletingDirectory(text.clone()),
            FofError::YamlParseError(text) => FofError::YamlParseError(text.clone()),
            FofError::MissingField(text) => FofError::MissingField(text.clone()),
            FofError::UnsupportedDataset(text) => FofError::UnsupportedDataset(text.clone()),
            FofError::IoError(text) => FofError::IoError(text.clone()),
            FofError::NoStatsFound(text) => FofError::NoStatsFound(text.clone()),
            FofError::FailedToStopTraining => FofError::FailedToStopTraining,
            FofError::FailedCreatingCommunication(text) => FofError::FailedCreatingCommunication(text.clone()),
            FofError::FailedToCopyData(text) => FofError::FailedToCopyData(text.clone()),
        }
    }
}

} // verus!
