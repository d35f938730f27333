use fof::error::FofError;
use fof::filter_buildings::Building;
use fof::labeling::{check_level_label, label_with_level, level_warning, marked_file_name, LabelRathaus, LevelWarning};
use fof::payload::{clone_buildings, downcast_box, AnyClone, Payload, PayloadKind};
use fof::tasks::{GetBuildingsThread, TrainStatus, TrainThread};
use fof::threading::{AutoThread, WorkerHandle};

fn wall() -> Building {
    Building {
        class_id: 31,
        class_name: "mauer".to_string(),
        confidence: 0.8f32.to_bits(),
        bounding_box: (1.0f32.to_bits(), 1.0f32.to_bits(), 2.0f32.to_bits(), 2.0f32.to_bits()),
    }
}

#[test]
fn training_starts_with_the_first_unit_of_work() {
    let mut task = TrainThread::new("m1".to_string(), 30);
    assert_eq!(task.handle_field_get("status"), Some(Payload::Status(TrainStatus::Idle)));
    assert_eq!(task.take_job(), None);
    task.run();
    assert_eq!(task.handle_field_get("status"), Some(Payload::Status(TrainStatus::Running)));
    assert_eq!(task.take_job(), Some(("m1".to_string(), 30)));
    assert_eq!(task.take_job(), None);
    // No start is asked for any more: nothing becomes due.
    task.run();
    assert_eq!(task.take_job(), None);
    assert_eq!(task.handle_field_get("status"), Some(Payload::Status(TrainStatus::Running)));
}

#[test]
fn training_that_ends_stops_the_task_or_starts_again() {
    let mut task = TrainThread::new("m1".to_string(), 3);
    task.run();
    assert!(task.take_job().is_some());
    task.training_finished(None);
    assert_eq!(task.handle_field_get("status"), Some(Payload::Status(TrainStatus::Done(None))));
    assert_eq!(task.handle_field_get("stop"), Some(Payload::Bool(true)));
    task.run();
    assert_eq!(task.take_job(), None);

    let mut again = TrainThread::new("m2".to_string(), 3);
    again.handle_field_set("auto_restart", Payload::Bool(true));
    again.run();
    assert!(again.take_job().is_some());
    again.training_finished(Some(FofError::FailedToStartPython));
    assert_eq!(
        again.handle_field_get("status"),
        Some(Payload::Status(TrainStatus::Done(Some(FofError::FailedToStartPython))))
    );
    assert_eq!(again.handle_field_get("stop"), Some(Payload::Bool(false)));
    again.run();
    assert_eq!(again.take_job(), Some(("m2".to_string(), 3)));
}

#[test]
fn training_without_epochs_fails() {
    let mut task = TrainThread::new("m1".to_string(), 3);
    task.handle_field_set("epochen", Payload::Unit);
    assert_eq!(task.handle_field_get("epochen"), Some(Payload::Unit));
    task.run();
    assert_eq!(task.take_job(), None);
    assert_eq!(
        task.handle_field_get("status"),
        Some(Payload::Status(TrainStatus::Done(Some(FofError::Failed("Epochen not set!".to_string())))))
    );
}

#[test]
fn training_fields_take_their_kind_only() {
    let mut task = TrainThread::new("m1".to_string(), 3);
    task.handle_field_set("model_name", Payload::Bool(true));
    task.handle_field_set("epochen", Payload::U64(9));
    task.handle_field_set("stop", Payload::Text("yes".to_string()));
    task.handle_field_set("auto_restart", Payload::Unit);
    task.handle_field_set("status", Payload::Status(TrainStatus::Running));
    task.handle_field_set("unknown", Payload::Bool(true));
    assert_eq!(task.handle_field_get("model_name"), Some(Payload::Text("m1".to_string())));
    assert_eq!(task.handle_field_get("epochen"), Some(Payload::Usize(3)));
    assert_eq!(task.handle_field_get("stop"), Some(Payload::Bool(false)));
    assert_eq!(task.handle_field_get("auto_restart"), Some(Payload::Bool(false)));
    assert_eq!(task.handle_field_get("status"), Some(Payload::Status(TrainStatus::Idle)));
    assert_eq!(task.handle_field_get("request_start"), None);
    assert_eq!(task.handle_field_get("unknown"), None);
    task.handle_field_set("model_name", Payload::Text("m9".to_string()));
    task.handle_field_set("epochen", Payload::Usize(9));
    task.handle_field_set("stop", Payload::Bool(true));
    task.handle_field_set("request_start", Payload::Bool(false));
    assert_eq!(task.handle_field_get("model_name"), Some(Payload::Text("m9".to_string())));
    assert_eq!(task.handle_field_get("epochen"), Some(Payload::Usize(9)));
    assert_eq!(task.handle_field_get("stop"), Some(Payload::Bool(true)));
    task.run();
    assert_eq!(task.take_job(), None);
}

#[test]
fn training_task_behind_a_worker() {
    let (mut handle, mut worker) = WorkerHandle::start(TrainThread::new("m1".to_string(), 12), true);
    handle.set_field("auto_restart", true);
    assert_eq!(handle.get_field::<String>(&mut worker, "model_name"), Some("m1".to_string()));
    assert_eq!(handle.get_field::<Option<usize>>(&mut worker, "epochen"), Some(Some(12)));
    assert_eq!(handle.get_field::<bool>(&mut worker, "auto_restart"), Some(true));
    assert_eq!(handle.get_field::<TrainStatus>(&mut worker, "status"), Some(TrainStatus::Running));
    assert_eq!(handle.poll_field::<bool>("stop"), None);
    // The worker stands in the middle of a round: the round that follows takes the read.
    worker.run_iteration(&mut handle);
    assert_eq!(handle.poll_field::<bool>("stop"), None);
    worker.run_iteration(&mut handle);
    assert_eq!(handle.poll_field::<bool>("stop"), Some(false));
    let task = handle.stop(worker).into_task();
    assert_eq!(task.handle_field_get("epochen"), Some(Payload::Usize(12)));
}

#[test]
fn detections_are_asked_for_once() {
    let mut task = GetBuildingsThread::new();
    assert_eq!(task.handle_field_get("buildings"), Some(Payload::Failure(FofError::ThreadNotInitialized)));
    task.run();
    assert_eq!(task.take_request(), None);
    task.handle_field_set("model_name", Payload::Text("m1".to_string()));
    task.handle_field_set("path_to_image", Payload::Text("p.png".to_string()));
    task.handle_field_set("should_get_prediction", Payload::Bool(true));
    task.run();
    assert_eq!(task.take_request(), Some(("m1".to_string(), "p.png".to_string())));
    assert_eq!(task.take_request(), None);
    task.run();
    assert_eq!(task.take_request(), None);
    task.prediction_finished(Ok(vec![wall()]));
    assert_eq!(task.handle_field_get("buildings"), Some(Payload::Buildings(vec![wall()])));
    task.prediction_finished(Err(FofError::ModelNotFound("m1".to_string())));
    assert_eq!(
        task.handle_field_get("buildings"),
        Some(Payload::Failure(FofError::ModelNotFound("m1".to_string())))
    );
}

#[test]
fn detections_fields_take_their_kind_only() {
    let mut task = GetBuildingsThread::new();
    task.handle_field_set("buildings", Payload::Buildings(vec![wall(), wall()]));
    task.handle_field_set("buildings", Payload::Text("none".to_string()));
    task.handle_field_set("model_name", Payload::Usize(1));
    task.handle_field_set("should_get_prediction", Payload::Usize(1));
    assert_eq!(task.handle_field_get("buildings"), Some(Payload::Buildings(vec![wall(), wall()])));
    assert_eq!(task.handle_field_get("model_name"), Some(Payload::Text(String::new())));
    assert_eq!(task.handle_field_get("path_to_image"), Some(Payload::Text(String::new())));
    assert_eq!(task.handle_field_get("should_get_prediction"), None);
    task.run();
    assert_eq!(task.take_request(), None);
}

#[test]
fn detections_task_behind_a_worker() {
    let (mut handle, mut worker) = WorkerHandle::start(GetBuildingsThread::new(), true);
    handle.set_field("buildings", Err::<Vec<Building>, FofError>(FofError::ThreadNotInitialized));
    handle.set_field("model_name", "m1".to_string());
    handle.set_field("path_to_image", "p.png".to_string());
    handle.set_field("should_get_prediction", true);
    assert_eq!(handle.poll_field::<Result<Vec<Building>, FofError>>("buildings"), None);
    worker.run_iteration(&mut handle);
    assert_eq!(
        handle.poll_field::<Result<Vec<Building>, FofError>>("buildings"),
        Some(Err(FofError::ThreadNotInitialized))
    );
    let ended = handle.stop(worker);
    let mut task = ended.into_task();
    assert_eq!(task.take_request(), Some(("m1".to_string(), "p.png".to_string())));
}

#[test]
fn payloads_of_the_tasks_are_recovered_by_type() {
    let found: Result<Vec<Building>, FofError> = Ok(vec![wall()]);
    assert_eq!(found.clone_box(), Payload::Buildings(vec![wall()]));
    let failed: Result<Vec<Building>, FofError> = Err(FofError::DivisionByZero);
    assert_eq!(failed.clone_box(), Payload::Failure(FofError::DivisionByZero));
    assert_eq!(downcast_box::<Result<Vec<Building>, FofError>>(Payload::Buildings(vec![])), Ok(Ok(vec![])));
    assert_eq!(
        downcast_box::<Result<Vec<Building>, FofError>>(Payload::Failure(FofError::DivisionByZero)),
        Ok(Err(FofError::DivisionByZero))
    );
    assert_eq!(downcast_box::<Result<Vec<Building>, FofError>>(Payload::Unit), Err(Payload::Unit));
    assert_eq!(downcast_box::<Vec<Building>>(Payload::Failure(FofError::DivisionByZero)).is_err(), true);
    assert_eq!(downcast_box::<FofError>(Payload::Failure(FofError::DivisionByZero)), Ok(FofError::DivisionByZero));
    assert_eq!(downcast_box::<Option<usize>>(Payload::Unit), Ok(None));
    assert_eq!(downcast_box::<Option<usize>>(Payload::Usize(4)), Ok(Some(4)));
    assert_eq!(downcast_box::<Option<usize>>(Payload::U64(4)), Err(Payload::U64(4)));
    assert_eq!(Some(4usize).clone_box(), Payload::Usize(4));
    assert_eq!(None::<usize>.clone_box(), Payload::Unit);
    assert_eq!(TrainStatus::Running.clone_box(), Payload::Status(TrainStatus::Running));
    assert_eq!(downcast_box::<TrainStatus>(Payload::Status(TrainStatus::Idle)), Ok(TrainStatus::Idle));
    assert_eq!(Payload::Status(TrainStatus::Idle).kind(), PayloadKind::Status);
    assert_eq!(Payload::Unit.kind(), PayloadKind::Unit);
    assert_eq!(Payload::Buildings(vec![]).kind(), PayloadKind::Buildings);
    assert_eq!(clone_buildings(&vec![wall(), wall()]), vec![wall(), wall()]);
}

#[test]
fn levels_in_labels_are_checked() {
    assert_eq!(level_warning(&vec![]), Some(LevelWarning::Missing));
    assert_eq!(level_warning(&vec![1, 2]), Some(LevelWarning::MoreThanOne));
    assert_eq!(level_warning(&vec![0]), Some(LevelWarning::OutOfRange));
    assert_eq!(level_warning(&vec![18]), Some(LevelWarning::OutOfRange));
    assert_eq!(level_warning(&vec![-3]), Some(LevelWarning::OutOfRange));
    assert_eq!(level_warning(&vec![1]), None);
    assert_eq!(level_warning(&vec![17]), None);
    assert_eq!(check_level_label("kanone"), Some(LevelWarning::Missing));
    assert_eq!(check_level_label("kanone12"), None);
    assert_eq!(check_level_label("kanone99"), Some(LevelWarning::OutOfRange));
    assert_eq!(check_level_label("1kanone2"), Some(LevelWarning::MoreThanOne));
}

#[test]
fn labels_get_the_level_of_the_building() {
    assert_eq!(label_with_level("kanone", LabelRathaus::Gemischt), "kanone");
    assert_eq!(label_with_level("kanone", LabelRathaus::Rh9), "kanone9");
    assert_eq!(label_with_level("kanone", LabelRathaus::Rh15), "kanone15");
    assert_eq!(label_with_level("kanone", LabelRathaus::Rh17), "kanone15");
    assert_eq!(label_with_level("adlerartillerie", LabelRathaus::Rh17), "adlerartillerie16");
    assert_eq!(label_with_level("mauer", LabelRathaus::Rh17), "mauer17");
    assert_eq!(label_with_level("mauer", LabelRathaus::Rh1), "mauer1");
    assert_eq!(label_with_level("bogenschützenturm", LabelRathaus::Rh16), "bogenschützenturm15");
    assert_eq!(label_with_level("unbekannt", LabelRathaus::Rh5), "unbekannt");
    assert_eq!(label_with_level("", LabelRathaus::Rh5), "");
    assert_eq!(label_with_level("bauhütte", LabelRathaus::Gemischt), "bauhütte");
    assert_eq!(label_with_level("bauhütte", LabelRathaus::Rh1), "bauhütte1");
    assert_eq!(label_with_level("bauhütte", LabelRathaus::Rh13), "bauhütte1");
    assert_eq!(label_with_level("bauhütte", LabelRathaus::Rh14), "bauhütte14");
    assert_eq!(label_with_level("fegerOR", LabelRathaus::Rh11), "fegerOR11");
    assert_eq!(label_with_level("fegerOR", LabelRathaus::Rh12), "fegerOR11");
    assert_eq!(label_with_level("fegerOR", LabelRathaus::Rh17), "fegerOR11");
    assert_eq!(label_with_level("feger", LabelRathaus::Rh3), "feger3");
    assert_eq!(label_with_level("xfeger", LabelRathaus::Rh3), "xfeger");
}

#[test]
fn level_numbers() {
    assert_eq!(LabelRathaus::Gemischt.number(), None);
    assert_eq!(LabelRathaus::Rh1.number(), Some(1));
    assert_eq!(LabelRathaus::Rh17.number(), Some(17));
    for (index, label) in LabelRathaus::all_variants().iter().enumerate().skip(1) {
        assert_eq!(label.number(), Some(index as u8));
    }
}

#[test]
fn labelled_pictures_get_a_marked_name() {
    assert_eq!(marked_file_name("th17.png", 42), Some("th17GELG42.png".to_string()));
    assert_eq!(marked_file_name("dir/th17.png", -7), Some("dir/th17GELG-7.png".to_string()));
    assert_eq!(marked_file_name("a.b.c", 0), Some("aGELG0.b".to_string()));
    assert_eq!(marked_file_name("a.", 1), Some("aGELG1.".to_string()));
    assert_eq!(marked_file_name(".png", 1), Some("GELG1.png".to_string()));
    assert_eq!(marked_file_name("a..b", 1), Some("aGELG1.".to_string()));
    assert_eq!(marked_file_name("nodot", 1), None);
    assert_eq!(marked_file_name("", 1), None);
    assert_eq!(
        marked_file_name("x.png", i128::MIN),
        Some("xGELG-170141183460469231731687303715884105728.png".to_string())
    );
    assert_eq!(
        marked_file_name("x.png", i128::MAX),
        Some("xGELG170141183460469231731687303715884105727.png".to_string())
    );
}
