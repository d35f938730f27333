use fof::error::FofError;
use fof::filter_buildings::{apply_filter, get_building_type, Building};
use fof::image_data_wrapper::{
    args_path, communication_path, create_model, create_model_args, data_path, delete_model, get_dataset_type,
    model_path, prediction_args, results_path, screenshot_target, start_python, testvals_args, training_args,
    DatasetType, YoloModel,
};

fn building(class_id: i32, class_name: &str, confidence: f32, bounding_box: (f32, f32, f32, f32)) -> Building {
    Building {
        class_id,
        class_name: class_name.to_string(),
        confidence: confidence.to_bits(),
        bounding_box: (
            bounding_box.0.to_bits(),
            bounding_box.1.to_bits(),
            bounding_box.2.to_bits(),
            bounding_box.3.to_bits(),
        ),
    }
}

fn sample() -> Vec<Building> {
    vec![
        building(0, "bogenschützenturm", 0.9, (0.0, 0.0, 1.0, 1.0)),
        building(31, "mauer", 0.8, (1.0, 1.0, 2.0, 2.0)),
        building(27, "goldlager", 0.7, (2.0, 2.0, 3.0, 3.0)),
    ]
}

fn classes(buildings: &Vec<Building>) -> Vec<String> {
    buildings.iter().map(|b| b.class_name.clone()).collect()
}

#[test]
fn filter_shows_nothing() {
    assert_eq!(classes(&apply_filter(&sample(), false, false, false)), Vec::<String>::new());
}

#[test]
fn filter_shows_ordinary_buildings_only() {
    assert_eq!(classes(&apply_filter(&sample(), true, false, false)), vec!["goldlager"]);
}

#[test]
fn filter_shows_walls_only() {
    assert_eq!(classes(&apply_filter(&sample(), false, true, false)), vec!["mauer"]);
}

#[test]
fn filter_shows_defences_only() {
    assert_eq!(classes(&apply_filter(&sample(), false, false, true)), vec!["bogenschützenturm"]);
}

#[test]
fn filter_shows_everything() {
    assert_eq!(classes(&apply_filter(&sample(), true, true, true)), vec!["bogenschützenturm", "mauer", "goldlager"]);
}

#[test]
fn filter_shows_walls_and_defences() {
    assert_eq!(classes(&apply_filter(&sample(), false, true, true)), vec!["bogenschützenturm", "mauer"]);
}

#[test]
fn filter_shows_ordinary_buildings_and_defences() {
    assert_eq!(classes(&apply_filter(&sample(), true, false, true)), vec!["bogenschützenturm", "goldlager"]);
}

#[test]
fn filter_shows_ordinary_buildings_and_walls() {
    assert_eq!(classes(&apply_filter(&sample(), true, true, false)), vec!["mauer", "goldlager"]);
}

#[test]
fn filter_keeps_the_whole_detection() {
    let kept = apply_filter(&sample(), false, true, false);
    assert_eq!(kept, vec![building(31, "mauer", 0.8, (1.0, 1.0, 2.0, 2.0))]);
    assert_eq!(f32::from_bits(kept[0].confidence), 0.8);
}

#[test]
fn kinds_of_buildings() {
    let kind = |name: &str| get_building_type(&building(0, name, 0.5, (0.0, 0.0, 0.0, 0.0)));
    assert_eq!(kind("mauer"), (true, false, false));
    assert_eq!(kind("eckmauer3"), (true, false, false));
    // A wall word wins over the name of a defence.
    assert_eq!(kind("mauerkanone"), (true, false, false));
    assert_eq!(kind("kanone"), (false, true, false));
    assert_eq!(kind("xbogenluft12"), (false, true, false));
    assert_eq!(kind("entwicklungsturmbogenschützenturm"), (false, true, false));
    assert_eq!(kind("fegerOL"), (false, true, false));
    assert_eq!(kind("fegero"), (false, false, true));
    assert_eq!(kind("goldlager"), (false, false, true));
    assert_eq!(kind(""), (false, false, true));
    assert_eq!(kind("Mauer"), (false, false, true));
    // A number is the label of a level and of no kind.
    assert_eq!(kind("12"), (false, false, false));
    assert_eq!(kind("+7"), (false, false, false));
    assert_eq!(kind("-7"), (false, false, true));
    assert_eq!(kind("99999999999999999999999"), (false, false, true));
}

#[test]
fn numbers_are_never_shown() {
    let levels = vec![building(1, "12", 0.5, (0.0, 0.0, 1.0, 1.0)), building(2, "7", 0.5, (0.0, 0.0, 1.0, 1.0))];
    assert!(apply_filter(&levels, true, true, true).is_empty());
}

#[test]
fn names_of_models_and_data_sets() {
    assert_eq!(YoloModel::YOLOv8n.to_string(), "yolov8n");
    assert_eq!(YoloModel::YOLOv8s.to_string(), "yolov8s");
    assert_eq!(YoloModel::YOLOv8m.to_string(), "yolov8m");
    assert_eq!(YoloModel::YOLOv8l.to_string(), "yolov8l");
    assert_eq!(YoloModel::YOLOv8x.to_string(), "yolov8x");
    assert_eq!(DatasetType::Buildings.to_string(), "Buildings");
    assert_eq!(DatasetType::Level.to_string(), "Level");
    assert_eq!(
        YoloModel::all(),
        vec![YoloModel::YOLOv8n, YoloModel::YOLOv8s, YoloModel::YOLOv8m, YoloModel::YOLOv8l, YoloModel::YOLOv8x]
    );
}

#[test]
fn data_set_of_a_model() {
    let path = "runs/detect/m/args.yaml";
    assert_eq!(get_dataset_type(path, Some("dataset_buildings/data.yaml")), Ok(DatasetType::Buildings));
    assert_eq!(get_dataset_type(path, Some("dataset_level/data.yaml")), Ok(DatasetType::Level));
    assert_eq!(get_dataset_type(path, Some("dataset_buildings/")), Ok(DatasetType::Buildings));
    assert_eq!(
        get_dataset_type(path, Some("dataset_buildings")),
        Err(FofError::UnsupportedDataset("dataset_buildings".to_string()))
    );
    assert_eq!(
        get_dataset_type(path, Some("other/dataset_level/")),
        Err(FofError::UnsupportedDataset("other/dataset_level/".to_string()))
    );
    assert_eq!(get_dataset_type(path, Some("")), Err(FofError::UnsupportedDataset("".to_string())));
    assert_eq!(
        get_dataset_type(path, None),
        Err(FofError::MissingField("'data' field missing in runs/detect/m/args.yaml".to_string()))
    );
}

#[test]
fn places_of_a_model() {
    assert_eq!(model_path("m1"), "runs/detect/m1");
    assert_eq!(args_path("m1"), "runs/detect/m1/args.yaml");
    assert_eq!(results_path("m1"), "runs/detect/m1/results.csv");
    assert_eq!(communication_path("m1"), "Communication/m1");
    assert_eq!(screenshot_target("m1"), "Communication/m1/screenshot.png");
    assert_eq!(data_path("m1"), "Communication/m1/data.json");
    assert_eq!(model_path(""), "runs/detect/");
}

#[test]
fn arguments_for_the_model_script() {
    assert_eq!(
        create_model_args("m1", DatasetType::Level, YoloModel::YOLOv8s),
        vec!["src/image_data.py", "--create-model", "--base", "yolov8s", "--model-name", "m1", "--dataset_type", "Level"]
    );
    assert_eq!(
        training_args("m1", 25, DatasetType::Buildings),
        vec!["src/image_data.py", "--train", "--model-name", "m1", "--epochs", "25", "--dataset_type", "Buildings"]
    );
    assert_eq!(training_args("m", -3, DatasetType::Level)[5], "-3");
    assert_eq!(
        testvals_args("m1", DatasetType::Buildings),
        vec!["src/image_data.py", "--testvals", "--model-name", "m1", "--dataset_type", "Buildings"]
    );
    assert_eq!(prediction_args("m1"), vec!["src/image_data.py", "--predict", "--model-name", "m1"]);
}

#[test]
fn outcome_of_the_model_script() {
    assert_eq!(start_python(true, "out".to_string(), b"err".to_vec()), Ok("out".to_string()));
    assert_eq!(start_python(false, "out".to_string(), b"err".to_vec()), Err(FofError::PythonError(b"err".to_vec())));
}

#[test]
fn making_and_deleting_a_model() {
    assert_eq!(create_model("m", DatasetType::Level, YoloModel::YOLOv8n, true), Err(FofError::ModelAlreadyExists));
    assert_eq!(
        create_model("m", DatasetType::Level, YoloModel::YOLOv8n, false),
        Ok(create_model_args("m", DatasetType::Level, YoloModel::YOLOv8n))
    );
    assert_eq!(delete_model("m", true), Ok("runs/detect/m".to_string()));
    assert_eq!(delete_model("m", false), Err(FofError::ModelNotFound("m".to_string())));
}

#[test]
fn failures_are_copied_with_their_text() {
    let failures = vec![
        FofError::ThreadNotInitialized,
        FofError::NoMetricsFoundForModel("a".to_string()),
        FofError::PythonError(vec![1, 2]),
        FofError::IoError("io".to_string()),
        FofError::FailedToCopyData("c".to_string()),
    ];
    for failure in failures.iter() {
        assert_eq!(&failure.clone(), failure);
    }
    assert_ne!(FofError::Failed("a".to_string()), FofError::Failed("b".to_string()));
}
