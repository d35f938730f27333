//! The two tasks of the tool: training a model, and getting the detections for a
//! picture.
//!
//! Both run outside work that takes long: a training, a prediction. The tasks
//! here hold the fields and decide; they do not run that work themselves. A unit
//! of work marks what is due ([`TrainThread::take_job`],
//! [`GetBuildingsThread::take_request`]); whoever hosts the task performs it and
//! reports how it ended ([`TrainThread::training_finished`],
//! [`GetBuildingsThread::prediction_finished`]).

use crate::error::{FofError, FofErrorView};
use crate::filter_buildings::{Building, BuildingView};
use crate::payload::{buildings_view, clone_buildings, Payload, PayloadView};
use crate::threading::AutoThread;
use vstd::prelude::*;

verus! {

/// How far a training has come.
#[derive(Debug, PartialEq)]
pub enum TrainStatus {
    /// None was started.
    Idle,
    /// One is under way.
    Running,
    /// The last one has ended, well or with the failure given.
    Done(Option<FofError>),
}

/// A training status with its failure as plain values.
pub enum TrainStatusView {
    Idle,
    Running,
    Done(Option<FofErrorView>),
}

impl View for TrainStatus {
    type V = TrainStatusView;

    open spec fn view(&self) -> TrainStatusView {
        match self {
            TrainStatus::Idle => TrainStatusView::Idle,
            TrainStatus::Running => TrainStatusView::Running,
            TrainStatus::Done(Some(failure)) => TrainStatusView::Done(Some(failure@)),
            TrainStatus::Done(None) => TrainStatusView::Done(None),
        }
    }
}

impl Clone for TrainStatus {
    /// A copy of the status with the same failure.
    fn clone(&self) -> (copy: Self)
        ensures
            copy@ == self@,
    {
        match self {
            TrainStatus::Idle => TrainStatus::Idle,
            TrainStatus::Running => TrainStatus::Running,
            TrainStatus::Done(Some(failure)) => TrainStatus::Done(Some(failure.clone())),
            TrainStatus::Done(None) => TrainStatus::Done(None),
        }
    }
}

/// The text of a failure that says that a training was asked for without a number
/// of epochs.
pub open spec fn epochs_missing_text() -> Seq<char> {
    "Epochen not set!"@
}

/// The training task as plain values.
pub struct TrainView {
    /// The model to train.
    pub model_name: Seq<char>,
    pub status: TrainStatusView,
    /// Whether a training is to be started by the next unit of work.
    pub request_start: bool,
    /// For how many epochs to train.
    pub epochen: Option<usize>,
    /// Whether the task is done for good and its worker can be stopped.
    pub stop: bool,
    /// Whether a training that has ended is to be started again.
    pub auto_restart: bool,
    /// The training that was decided on and not yet taken up: model and epochs.
    pub job: Option<(Seq<char>, usize)>,
}

impl TrainView {
    /// The task after one unit of work. Where a start was asked for, the request
    /// is used up: with a number of epochs the training becomes due and the status
    /// is `Running`; without one the status is `Done` with a failure. Else
    /// nothing changes.
    pub open spec fn after_run(self) -> TrainView {
        if self.request_start {
            match self.epochen {
                Some(epochs) => TrainView {
                    request_start: false,
                    status: TrainStatusView::Running,
                    job: Some((self.model_name, epochs)),
                    ..self
                },
                None => TrainView {
                    request_start: false,
                    status: TrainStatusView::Done(Some(FofErrorView::Failed(epochs_missing_text()))),
                    ..self
                },
            }
        } else {
            self
        }
    }

    /// The task after a write. The fields `auto_restart`, `request_start` and
    /// `stop` take a flag, `model_name` a text, `epochen` a count or nothing. A
    /// write to any other field, or of any other kind of payload, changes nothing.
    pub open spec fn after_set(self, field: Seq<char>, value: PayloadView) -> TrainView {
        if field == "auto_restart"@ {
            match value {
                PayloadView::Bool(flag) => TrainView { auto_restart: flag, ..self },
                _ => self,
            }
        } else if field == "request_start"@ {
            match value {
                PayloadView::Bool(flag) => TrainView { request_start: flag, ..self },
                _ => self,
            }
        } else if field == "model_name"@ {
            match value {
                PayloadView::Text(name) => TrainView { model_name: name, ..self },
                _ => self,
            }
        } else if field == "epochen"@ {
            match value {
                PayloadView::Usize(epochs) => TrainView { epochen: Some(epochs), ..self },
                PayloadView::Unit => TrainView { epochen: None, ..self },
                _ => self,
            }
        } else if field == "stop"@ {
            match value {
                PayloadView::Bool(flag) => TrainView { stop: flag, ..self },
                _ => self,
            }
        } else {
            self
        }
    }

    /// What a read gives: the fields `model_name`, `status`, `stop`, `epochen`
    /// and `auto_restart` can be read, no other.
    pub open spec fn field(self, field: Seq<char>) -> Option<PayloadView> {
        if field == "model_name"@ {
            Some(PayloadView::Text(self.model_name))
        } else if field == "status"@ {
            Some(PayloadView::Status(self.status))
        } else if field == "stop"@ {
            Some(PayloadView::Bool(self.stop))
        } else if field == "epochen"@ {
            Some(
                match self.epochen {
                    Some(epochs) => PayloadView::Usize(epochs),
                    None => PayloadView::Unit,
                },
            )
        } else if field == "auto_restart"@ {
            Some(PayloadView::Bool(self.auto_restart))
        } else {
            None
        }
    }

    /// The task after its training has ended, well or with a failure: the status
    /// says so; with `auto_restart` a new start is asked for, else the task is
    /// done for good.
    pub open spec fn after_training(self, failure: Option<FofErrorView>) -> TrainView {
        if self.auto_restart {
            TrainView { status: TrainStatusView::Done(failure), request_start: true, ..self }
        } else {
            TrainView { status: TrainStatusView::Done(failure), stop: true, ..self }
        }
    }
}

/// Trains a model, again and again where that is asked for.
pub struct TrainThread {
    model_name: String,
    status: TrainStatus,
    request_start: bool,
    epochen: Option<usize>,
    stop: bool,
    auto_restart: bool,
    job: Option<(String, usize)>,
}

impl View for TrainThread {
    type V = TrainView;

    closed spec fn view(&self) -> TrainView {
        TrainView {
            model_name: self.model_name@,
            status: self.status@,
            request_start: self.request_start,
            epochen: self.epochen,
            stop: self.stop,
            auto_restart: self.auto_restart,
            job: match self.job {
                Some(job) => Some((job.0@, job.1)),
                None => None,
            },
        }
    }
}

/// Whether two texts are the same.
fn same_text(a: &str, b: &str) -> (same: bool)
    ensures
        same == (a@ == b@),
{
    let left = String::from_str(a);
    let right = String::from_str(b);
    left == right
}

impl TrainThread {
    /// A task that trains the model for the number of epochs, starting with its
    /// first unit of work.
    pub fn new(model_name: String, epochen: usize) -> (task: TrainThread)
        ensures
            task@ == (TrainView {
                model_name: model_name@,
                status: TrainStatusView::Idle,
                request_start: true,
                epochen: Some(epochen),
                stop: false,
                auto_restart: false,
                job: None,
            }),
    {
        TrainThread {
            model_name,
            status: TrainStatus::Idle,
            request_start: true,
            epochen: Some(epochen),
            stop: false,
            auto_restart: false,
            job: None,
        }
    }

    /// The training that is due, if one is: the model and the number of epochs.
    /// Taking it uses it up.
    pub fn take_job(&mut self) -> (job: Option<(String, usize)>)
        ensures
            final(self)@ == (TrainView { job: None, ..old(self)@ }),
            match job {
                Some(due) => old(self)@.job == Some((due.0@, due.1)),
                None => old(self)@.job is None,
            },
    {
        let mut job: Option<(String, usize)> = None;
        std::mem::swap(&mut job, &mut self.job);
        job
    }

    /// Reports that the training has ended, well or with a failure.
    pub fn training_finished(&mut self, failure: Option<FofError>)
        ensures
            final(self)@ == old(self)@.after_training(
                match failure {
                    Some(f) => Some(f@),
                    None => None,
                },
            ),
    {
        self.status = TrainStatus::Done(failure);
        if self.auto_restart {
            self.request_start = true;
        } else {
            self.stop = true;
        }
    }
}

impl AutoThread for TrainThread {
    type Model = TrainView;

    open spec fn modeled() -> bool {
        true
    }

    open spec fn model(&self) -> TrainView {
        self@
    }

    open spec fn model_after_run(m: TrainView) -> TrainView {
        m.after_run()
    }

    open spec fn model_after_set(m: TrainView, field: Seq<char>, value: PayloadView) -> TrainView {
        m.after_set(field, value)
    }

    open spec fn model_field(m: TrainView, field: Seq<char>) -> Option<PayloadView> {
        m.field(field)
    }

    fn run(&mut self) {
        if self.request_start {
            self.request_start = false;
            match self.epochen {
                Some(epochs) => {
                    self.status = TrainStatus::Running;
                    self.job = Some((self.model_name.clone(), epochs));
                },
                None => {
                    self.status = TrainStatus::Done(Some(FofError::Failed(String::from_str("Epochen not set!"))));
                },
            }
        }
    }

    fn handle_field_set(&mut self, field: &str, value: Payload) {
        if same_text(field, "auto_restart") {
            match value {
                Payload::Bool(flag) => {
                    self.auto_restart = flag;
                },
                _ => {},
            }
        } else if same_text(field, "request_start") {
            match value {
                Payload::Bool(flag) => {
                    self.request_start = flag;
                },
                _ => {},
            }
        } else if same_text(field, "model_name") {
            match value {
                Payload::Text(name) => {
                    self.model_name = name;
                },
                _ => {},
            }
        } else if same_text(field, "epochen") {
            match value {
                Payload::Usize(epochs) => {
                    self.epochen = Some(epochs);
                },
                Payload::Unit => {
                    self.epochen = None;
                },
                _ => {},
            }
        } else if same_text(field, "stop") {
            match value {
                Payload::Bool(flag) => {
                    self.stop = flag;
                },
                _ => {},
            }
        }
    }

    fn handle_field_get(&self, field: &str) -> (value: Option<Payload>) {
        if same_text(field, "model_name") {
            Some(Payload::Text(self.model_name.clone()))
        } else if same_text(field, "status") {
            Some(Payload::Status(self.status.clone()))
        } else if same_text(field, "stop") {
            Some(Payload::Bool(self.stop))
        } else if same_text(field, "epochen") {
            Some(
                match self.epochen {
                    Some(epochs) => Payload::Usize(epochs),
                    None => Payload::Unit,
                },
            )
        } else if same_text(field, "auto_restart") {
            Some(Payload::Bool(self.auto_restart))
        } else {
            None
        }
    }
}

/// Detections, or the failure to get them, as plain values.
pub open spec fn outcome_view(outcome: Result<Vec<Building>, FofError>) -> Result<Seq<BuildingView>, FofErrorView> {
    match outcome {
        Ok(buildings) => Ok(buildings_view(buildings@)),
        Err(failure) => Err(failure@),
    }
}

/// The payload that carries detections or the failure to get them.
pub open spec fn outcome_payload(outcome: Result<Seq<BuildingView>, FofErrorView>) -> PayloadView {
    match outcome {
        Ok(buildings) => PayloadView::Buildings(buildings),
        Err(failure) => PayloadView::Failure(failure),
    }
}

/// The detections task as plain values.
pub struct GetBuildingsView {
    /// The picture to look at.
    pub path_to_image: Seq<char>,
    /// The last detections, or why there are none.
    pub buildings: Result<Seq<BuildingView>, FofErrorView>,
    /// The model to ask.
    pub model_name: Seq<char>,
    /// Whether the next unit of work is to ask the model.
    pub should_get_prediction: bool,
    /// The question that was decided on and not yet taken up: model and picture.
    pub request: Option<(Seq<char>, Seq<char>)>,
}

impl GetBuildingsView {
    /// The task after one unit of work: where a prediction was asked for, the
    /// question becomes due and the wish is used up; else nothing changes.
    pub open spec fn after_run(self) -> GetBuildingsView {
        if self.should_get_prediction {
            GetBuildingsView {
                should_get_prediction: false,
                request: Some((self.model_name, self.path_to_image)),
                ..self
            }
        } else {
            self
        }
    }

    /// The task after a write. The fields `model_name` and `path_to_image` take a
    /// text, `buildings` detections or a failure, `should_get_prediction` a flag.
    /// A write to any other field, or of any other kind of payload, changes
    /// nothing.
    pub open spec fn after_set(self, field: Seq<char>, value: PayloadView) -> GetBuildingsView {
        if field == "model_name"@ {
            match value {
                PayloadView::Text(name) => GetBuildingsView { model_name: name, ..self },
                _ => self,
            }
        } else if field == "path_to_image"@ {
            match value {
                PayloadView::Text(path) => GetBuildingsView { path_to_image: path, ..self },
                _ => self,
            }
        } else if field == "buildings"@ {
            match value {
                PayloadView::Buildings(buildings) => GetBuildingsView { buildings: Ok(buildings), ..self },
                PayloadView::Failure(failure) => GetBuildingsView { buildings: Err(failure), ..self },
                _ => self,
            }
        } else if field == "should_get_prediction"@ {
            match value {
                PayloadView::Bool(flag) => GetBuildingsView { should_get_prediction: flag, ..self },
                _ => self,
            }
        } else {
            self
        }
    }

    /// What a read gives: the fields `buildings`, `model_name` and
    /// `path_to_image` can be read, no other.
    pub open spec fn field(self, field: Seq<char>) -> Option<PayloadView> {
        if field == "buildings"@ {
            Some(outcome_payload(self.buildings))
        } else if field == "model_name"@ {
            Some(PayloadView::Text(self.model_name))
        } else if field == "path_to_image"@ {
            Some(PayloadView::Text(self.path_to_image))
        } else {
            None
        }
    }
}

/// Gets the detections for a picture from a model.
pub struct GetBuildingsThread {
    path_to_image: String,
    buildings: Result<Vec<Building>, FofError>,
    model_name: String,
    should_get_prediction: bool,
    request: Option<(String, String)>,
}

impl View for GetBuildingsThread {
    type V = GetBuildingsView;

    closed spec fn view(&self) -> GetBuildingsView {
        GetBuildingsView {
            path_to_image: self.path_to_image@,
            buildings: outcome_view(self.buildings),
            model_name: self.model_name@,
            should_get_prediction: self.should_get_prediction,
            request: match self.request {
                Some(request) => Some((request.0@, request.1@)),
                None => None,
            },
        }
    }
}

impl GetBuildingsThread {
    /// A task that has no picture, no model and no detections yet: its detections
    /// are the failure `ThreadNotInitialized`.
    pub fn new() -> (task: GetBuildingsThread)
        ensures
            task@ == (GetBuildingsView {
                path_to_image: Seq::empty(),
                buildings: Err(FofErrorView::ThreadNotInitialized),
                model_name: Seq::empty(),
                should_get_prediction: false,
                request: None,
            }),
    {
        GetBuildingsThread {
            path_to_image: String::new(),
            buildings: Err(FofError::ThreadNotInitialized),
            model_name: String::new(),
            should_get_prediction: false,
            request: None,
        }
    }

    /// The question that is due, if one is: the model and the picture. Taking it
    /// uses it up.
    pub fn take_request(&mut self) -> (request: Option<(String, String)>)
        ensures
            final(self)@ == (GetBuildingsView { request: None, ..old(self)@ }),
            match request {
                Some(due) => old(self)@.request == Some((due.0@, due.1@)),
                None => old(self)@.request is None,
            },
    {
        let mut request: Option<(String, String)> = None;
        std::mem::swap(&mut request, &mut self.request);
        request
    }

    /// Reports what the model found, or why it found nothing.
    pub fn prediction_finished(&mut self, outcome: Result<Vec<Building>, FofError>)
        ensures
            final(self)@ == (GetBuildingsView { buildings: outcome_view(outcome), ..old(self)@ }),
    {
        self.buildings = outcome;
    }
}

impl AutoThread for GetBuildingsThread {
    type Model = GetBuildingsView;

    open spec fn modeled() -> bool {
        true
    }

    open spec fn model(&self) -> GetBuildingsView {
        self@
    }

    open spec fn model_after_run(m: GetBuildingsView) -> GetBuildingsView {
        m.after_run()
    }

    open spec fn model_after_set(m: GetBuildingsView, field: Seq<char>, value: PayloadView) -> GetBuildingsView {
        m.after_set(field, value)
    }

    open spec fn model_field(m: GetBuildingsView, field: Seq<char>) -> Option<PayloadView> {
        m.field(field)
    }

    fn run(&mut self) {
        if self.should_get_prediction {
            self.should_get_prediction = false;
            self.request = Some((self.model_name.clone(), self.path_to_image.clone()));
        }
    }

    fn handle_field_set(&mut self, field: &str, value: Payload) {
        if same_text(field, "model_name") {
            match value {
                Payload::Text(name) => {
                    self.model_name = name;
                },
                _ => {},
            }
        } else if same_text(field, "path_to_image") {
            match value {
                Payload::Text(path) => {
                    self.path_to_image = path;
                },
                _ => {},
            }
        } else if same_text(field, "buildings") {
            match value {
                Payload::Buildings(buildings) => {
                    self.buildings = Ok(buildings);
                },
                Payload::Failure(failure) => {
                    self.buildings = Err(failure);
                },
                _ => {},
            }
        } else if same_text(field, "should_get_prediction") {
            match value {
                Payload::Bool(flag) => {
                    self.should_get_prediction = flag;
                },
                _ => {},
            }
        }
    }

    fn handle_field_get(&self, field: &str) -> (value: Option<Payload>) {
        if same_text(field, "buildings") {
            Some(
                match &self.buildings {
                    Ok(buildings) => Payload::Buildings(clone_buildings(buildings)),
                    Err(failure) => Payload::Failure(failure.clone()),
                },
            )
        } else if same_text(field, "model_name") {
            Some(Payload::Text(self.model_name.clone()))
        } else if same_text(field, "path_to_image") {
            Some(Payload::Text(self.path_to_image.clone()))
        } else {
            None
        }
    }
}

} // verus!
