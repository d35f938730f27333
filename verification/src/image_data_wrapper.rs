//! The detection models: their names, where their files lie, and the commands
//! that create, train and query them. Nothing here touches a file or starts a
//! program: the caller does that with the names and arguments it gets here.

use crate::error::{FofError, FofErrorView};
use crate::text::{signed_decimal_string, signed_decimal_text, starts_with};
use vstd::prelude::*;

verus! {

/// The base models that a new model can be made from, smallest first.
#[derive(Clone, Copy, Debug, PartialEq, Eq, Structural)]
pub enum YoloModel {
    YOLOv8n,
    YOLOv8s,
    YOLOv8m,
    YOLOv8l,
    YOLOv8x,
}

/// The data sets that a model can be trained on.
#[derive(Clone, Copy, Debug, PartialEq, Eq, Structural)]
pub enum DatasetType {
    Buildings,
    Level,
}

/// The name under which the model script knows a base model.
pub open spec fn yolo_model_name(model: YoloModel) -> Seq<char> {
    match model {
        YoloModel::YOLOv8n => "yolov8n"@,
        YoloModel::YOLOv8s => "yolov8s"@,
        YoloModel::YOLOv8m => "yolov8m"@,
        YoloModel::YOLOv8l => "yolov8l"@,
        YoloModel::YOLOv8x => "yolov8x"@,
    }
}

/// The name under which the model script knows a data set.
pub open spec fn dataset_type_name(dataset: DatasetType) -> Seq<char> {
    match dataset {
        DatasetType::Buildings => "Buildings"@,
        DatasetType::Level => "Level"@,
    }
}

impl YoloModel {
    /// The name under which the model script knows the base model.
    pub fn to_string(&self) -> (name: String)
        ensures
            name@ == yolo_model_name(*self),
    {
        match self {
            YoloModel::YOLOv8n => String::from_str("yolov8n"),
            YoloModel::YOLOv8s => String::from_str("yolov8s"),
            YoloModel::YOLOv8m => String::from_str("yolov8m"),
            YoloModel::YOLOv8l => String::from_str("yolov8l"),
            YoloModel::YOLOv8x => String::from_str("yolov8x"),
        }
    }

    /// All base models, smallest first.
    pub fn all() -> (models: Vec<YoloModel>)
        ensures
            models@ == seq![
                YoloModel::YOLOv8n,
                YoloModel::YOLOv8s,
                YoloModel::YOLOv8m,
                YoloModel::YOLOv8l,
                YoloModel::YOLOv8x,
            ],
    {
        let mut models: Vec<YoloModel> = Vec::new();
        models.push(YoloModel::YOLOv8n);
        models.push(YoloModel::YOLOv8s);
        models.push(YoloModel::YOLOv8m);
        models.push(YoloModel::YOLOv8l);
        models.push(YoloModel::YOLOv8x);
        assert(models@ =~= seq![
            YoloModel::YOLOv8n,
            YoloModel::YOLOv8s,
            YoloModel::YOLOv8m,
            YoloModel::YOLOv8l,
            YoloModel::YOLOv8x,
        ]);
        models
    }
}

/// The directory in which a data set lies.
pub open spec fn dataset_directory_name(dataset: DatasetType) -> Seq<char> {
    match dataset {
        DatasetType::Buildings => "dataset_buildings"@,
        DatasetType::Level => "dataset_level"@,
    }
}

impl DatasetType {
    /// Both data sets, the buildings first.
    pub fn all() -> (datasets: Vec<DatasetType>)
        ensures
            datasets@ == seq![DatasetType::Buildings, DatasetType::Level],
    {
        let mut datasets: Vec<DatasetType> = Vec::new();
        datasets.push(DatasetType::Buildings);
        datasets.push(DatasetType::Level);
        assert(datasets@ =~= seq![DatasetType::Buildings, DatasetType::Level]);
        datasets
    }

    /// The directory in which the data set lies.
    pub fn directory(&self) -> (name: &'static str)
        ensures
            name@ == dataset_directory_name(*self),
    {
        match self {
            DatasetType::Buildings => "dataset_buildings",
            DatasetType::Level => "dataset_level",
        }
    }

    /// The name under which the model script knows the data set.
    pub fn to_string(&self) -> (name: String)
        ensures
            name@ == dataset_type_name(*self),
    {
        match self {
            DatasetType::Buildings => String::from_str("Buildings"),
            DatasetType::Level => String::from_str("Level"),
        }
    }
}

/// The directory of a model's files.
pub open spec fn model_path_text(model_name: Seq<char>) -> Seq<char> {
    "runs/detect/"@ + model_name
}

/// The file that records how a model was trained.
pub open spec fn args_path_text(model_name: Seq<char>) -> Seq<char> {
    "runs/detect/"@ + model_name + "/args.yaml"@
}

/// The file that holds a model's metrics, one row for each epoch.
pub open spec fn results_path_text(model_name: Seq<char>) -> Seq<char> {
    "runs/detect/"@ + model_name + "/results.csv"@
}

/// The directory through which a picture goes to the model script and the
/// detections come back.
pub open spec fn communication_path_text(model_name: Seq<char>) -> Seq<char> {
    "Communication/"@ + model_name
}

/// Where the picture to look at is put for the model script.
pub open spec fn screenshot_target_text(model_name: Seq<char>) -> Seq<char> {
    "Communication/"@ + model_name + "/screenshot.png"@
}

/// Where the model script leaves the detections.
pub open spec fn data_path_text(model_name: Seq<char>) -> Seq<char> {
    "Communication/"@ + model_name + "/data.json"@
}

/// The directory of a model's files.
pub fn model_path(model_name: &str) -> (path: String)
    ensures
        path@ == model_path_text(model_name@),
{
    String::from_str("runs/detect/").concat(model_name)
}

/// The file that records how a model was trained.
pub fn args_path(model_name: &str) -> (path: String)
    ensures
        path@ == args_path_text(model_name@),
{
    String::from_str("runs/detect/").concat(model_name).concat("/args.yaml")
}

/// The file that holds a model's metrics.
pub fn results_path(model_name: &str) -> (path: String)
    ensures
        path@ == results_path_text(model_name@),
{
    String::from_str("runs/detect/").concat(model_name).concat("/results.csv")
}

/// The directory through which pictures and detections are exchanged.
pub fn communication_path(model_name: &str) -> (path: String)
    ensures
        path@ == communication_path_text(model_name@),
{
    String::from_str("Communication/").concat(model_name)
}

/// Where the picture to look at is put for the model script.
pub fn screenshot_target(model_name: &str) -> (path: String)
    ensures
        path@ == screenshot_target_text(model_name@),
{
    String::from_str("Communication/").concat(model_name).concat("/screenshot.png")
}

/// Where the model script leaves the detections.
pub fn data_path(model_name: &str) -> (path: String)
    ensures
        path@ == data_path_text(model_name@),
{
    String::from_str("Communication/").concat(model_name).concat("/data.json")
}

/// The data set that a model was trained on, by the `data` field of the file that
/// records its training: a field that begins with `dataset_buildings/` names the
/// buildings, one that begins with `dataset_level/` the levels.
pub open spec fn dataset_of(data_field: Seq<char>) -> Option<DatasetType> {
    if "dataset_buildings/"@.is_prefix_of(data_field) {
        Some(DatasetType::Buildings)
    } else if "dataset_level/"@.is_prefix_of(data_field) {
        Some(DatasetType::Level)
    } else {
        None
    }
}

/// What `get_dataset_type` answers.
pub open spec fn dataset_type_answer(path: Seq<char>, data_field: Option<Seq<char>>) -> Result<
    DatasetType,
    FofErrorView,
> {
    match data_field {
        None => Err(FofErrorView::MissingField("'data' field missing in "@ + path)),
        Some(field) => match dataset_of(field) {
            Some(dataset) => Ok(dataset),
            None => Err(FofErrorView::UnsupportedDataset(field)),
        },
    }
}

/// The view of an answer that is a data set or a failure.
pub open spec fn dataset_result_view(r: Result<DatasetType, FofError>) -> Result<DatasetType, FofErrorView> {
    match r {
        Ok(dataset) => Ok(dataset),
        Err(e) => Err(e@),
    }
}

/// The data set that a model was trained on. `path` names the file that records
/// the training and `data_field` is the `data` field read from it, `None` where
/// the file has no such field. Fails with `MissingField` where the field is
/// missing, and with `UnsupportedDataset` and the field's text where the field
/// names neither data set.
pub fn get_dataset_type(path: &str, data_field: Option<&str>) -> (dataset: Result<DatasetType, FofError>)
    ensures
        dataset_result_view(dataset) == dataset_type_answer(
            path@,
            match data_field {
                Some(field) => Some(field@),
                None => None,
            },
        ),
{
    match data_field {
        None => Err(FofError::MissingField(String::from_str("'data' field missing in ").concat(path))),
        Some(field) => {
            if starts_with(field, "dataset_buildings/") {
                Ok(DatasetType::Buildings)
            } else if starts_with(field, "dataset_level/") {
                Ok(DatasetType::Level)
            } else {
                Err(FofError::UnsupportedDataset(String::from_str(field)))
            }
        },
    }
}

/// The texts of a list of arguments.
pub open spec fn texts(args: Seq<String>) -> Seq<Seq<char>> {
    args.map_values(|a: String| a@)
}

/// The arguments with which the model script makes a new model.
pub fn create_model_args(model_name: &str, dataset_type: DatasetType, yolo_model: YoloModel) -> (args: Vec<
    String,
>)
    ensures
        texts(args@) == seq![
            "src/image_data.py"@,
            "--create-model"@,
            "--base"@,
            yolo_model_name(yolo_model),
            "--model-name"@,
            model_name@,
            "--dataset_type"@,
            dataset_type_name(dataset_type),
        ],
{
    let mut args: Vec<String> = Vec::new();
    args.push(String::from_str("src/image_data.py"));
    args.push(String::from_str("--create-model"));
    args.push(String::from_str("--base"));
    args.push(yolo_model.to_string());
    args.push(String::from_str("--model-name"));
    args.push(String::from_str(model_name));
    args.push(String::from_str("--dataset_type"));
    args.push(dataset_type.to_string());
    assert(texts(args@) =~= seq![
        "src/image_data.py"@,
        "--create-model"@,
        "--base"@,
        yolo_model_name(yolo_model),
        "--model-name"@,
        model_name@,
        "--dataset_type"@,
        dataset_type_name(dataset_type),
    ]);
    args
}

/// The arguments with which the model script trains a model for a number of
/// epochs.
pub fn training_args(model_name: &str, epochs: i32, dataset_type: DatasetType) -> (args: Vec<String>)
    ensures
        texts(args@) == seq![
            "src/image_data.py"@,
            "--train"@,
            "--model-name"@,
            model_name@,
            "--epochs"@,
            signed_decimal_text(epochs as int),
            "--dataset_type"@,
            dataset_type_name(dataset_type),
        ],
{
    let mut args: Vec<String> = Vec::new();
    args.push(String::from_str("src/image_data.py"));
    args.push(String::from_str("--train"));
    args.push(String::from_str("--model-name"));
    args.push(String::from_str(model_name));
    args.push(String::from_str("--epochs"));
    args.push(signed_decimal_string(epochs as i128));
    args.push(String::from_str("--dataset_type"));
    args.push(dataset_type.to_string());
    assert(texts(args@) =~= seq![
        "src/image_data.py"@,
        "--train"@,
        "--model-name"@,
        model_name@,
        "--epochs"@,
        signed_decimal_text(epochs as int),
        "--dataset_type"@,
        dataset_type_name(dataset_type),
    ]);
    args
}

/// The arguments with which the model script rates a model on its test values.
pub fn testvals_args(model_name: &str, dataset_type: DatasetType) -> (args: Vec<String>)
    ensures
        texts(args@) == seq![
            "src/image_data.py"@,
            "--testvals"@,
            "--model-name"@,
            model_name@,
            "--dataset_type"@,
            dataset_type_name(dataset_type),
        ],
{
    let mut args: Vec<String> = Vec::new();
    args.push(String::from_str("src/image_data.py"));
    args.push(String::from_str("--testvals"));
    args.push(String::from_str("--model-name"));
    args.push(String::from_str(model_name));
    args.push(String::from_str("--dataset_type"));
    args.push(dataset_type.to_string());
    assert(texts(args@) =~= seq![
        "src/image_data.py"@,
        "--testvals"@,
        "--model-name"@,
        model_name@,
        "--dataset_type"@,
        dataset_type_name(dataset_type),
    ]);
    args
}

/// The arguments with which the model script looks at the picture that was put
/// into the model's exchange directory.
pub fn prediction_args(model_name: &str) -> (args: Vec<String>)
    ensures
        texts(args@) == seq!["src/image_data.py"@, "--predict"@, "--model-name"@, model_name@],
{
    let mut args: Vec<String> = Vec::new();
    args.push(String::from_str("src/image_data.py"));
    args.push(String::from_str("--predict"));
    args.push(String::from_str("--model-name"));
    args.push(String::from_str(model_name));
    assert(texts(args@) =~= seq!["src/image_data.py"@, "--predict"@, "--model-name"@, model_name@]);
    args
}

/// What a run of the model script amounts to: its output where it ended well,
/// else the failure `PythonError` with what it wrote as its error output.
pub fn start_python(success: bool, output: String, error_output: Vec<u8>) -> (outcome: Result<String, FofError>)
    ensures
        success ==> outcome == Ok::<String, FofError>(output),
        !success ==> outcome == Err::<String, FofError>(FofError::PythonError(error_output)),
{
    if success {
        Ok(output)
    } else {
        Err(FofError::PythonError(error_output))
    }
}

/// What the wish to make a model of a name amounts to once it is known whether a
/// model of that name exists: the arguments for the model script, or the failure
/// `ModelAlreadyExists`.
pub fn create_model(model_name: &str, dataset_type: DatasetType, yolo_model: YoloModel, exists: bool) -> (plan:
    Result<Vec<String>, FofError>)
    ensures
        exists ==> plan == Err::<Vec<String>, FofError>(FofError::ModelAlreadyExists),
        !exists ==> plan is Ok && texts(plan->Ok_0@) == seq![
            "src/image_data.py"@,
            "--create-model"@,
            "--base"@,
            yolo_model_name(yolo_model),
            "--model-name"@,
            model_name@,
            "--dataset_type"@,
            dataset_type_name(dataset_type),
        ],
{
    if exists {
        Err(FofError::ModelAlreadyExists)
    } else {
        Ok(create_model_args(model_name, dataset_type, yolo_model))
    }
}

/// What the wish to delete a model amounts to once it is known whether it
/// exists: the directory to remove, or the failure `ModelNotFound` with the
/// model's name.
pub fn delete_model(model_name: &str, exists: bool) -> (plan: Result<String, FofError>)
    ensures
        exists ==> plan is Ok && plan->Ok_0@ == model_path_text(model_name@),
        !exists ==> plan is Err && plan->Err_0@ == FofErrorView::ModelNotFound(model_name@),
{
    if exists {
        Ok(model_path(model_name))
    } else {
        Err(FofError::ModelNotFound(String::from_str(model_name)))
    }
}

} // verus!
