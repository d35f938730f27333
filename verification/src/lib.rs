//! The working parts of a tool that takes pictures of a game, labels them and
//! drives the training and testing of detection models.
//!
//! At the centre stand the background workers of [`threading`]: a task runs off
//! the caller's thread, the caller writes its fields without waiting and reads
//! them through a cache that is refreshed behind its back. [`payload`] holds the
//! values that travel between the two, [`fields`] and [`tasks`] hold tasks, and
//! [`laws`] states what holds of every worker.
//!
//! Around them: frames and their parts ([`screenshot`], [`split_image`]),
//! detections and their kinds ([`filter_buildings`]), the models' names, places
//! and commands ([`image_data_wrapper`]), labels and file names ([`labeling`],
//! [`paths`], [`prefixes`], [`session`]), text and numbers ([`text`]), profiles
//! ([`settings_manager`]) and failures ([`error`]).
//!
//! Nothing here reads a file, starts a program, opens a window or spawns a
//! thread: whoever uses these parts does.

pub mod error;
pub mod fields;
pub mod filter_buildings;
pub mod image_data_wrapper;
pub mod labeling;
pub mod laws;
pub mod paths;
pub mod payload;
pub mod prefixes;
pub mod screenshot;
pub mod session;
pub mod settings_manager;
pub mod split_image;
pub mod tasks;
pub mod text;
pub mod threading;
