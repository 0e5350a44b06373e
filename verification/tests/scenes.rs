use nerf_studio::api::health::{health, health_report};
use nerf_studio::api::render::{
    check_render, prepare_render, render_filename, render_image_url, restore_model, AppError,
};
use nerf_studio::api::scenes::{deletion_status, AppError as SceneError};
use nerf_studio::models::export::{default_true, ExportFormat};
use nerf_studio::models::render::{default_height, default_width};
use nerf_studio::models::scene::{SceneStatus, UpdateSceneRequest};
use nerf_studio::nerf::engine::{train_model, CallbackProgress, NerfModel, ProgressLog, TrainError};

#[test]
fn status_defaults_to_pending() {
    assert!(matches!(SceneStatus::default(), SceneStatus::Pending));
}

#[test]
fn status_labels_round_trip() {
    assert_eq!(SceneStatus::Pending.to_string(), "pending");
    assert_eq!(SceneStatus::Training.to_string(), "training");
    assert_eq!(SceneStatus::Ready.to_string(), "ready");
    assert_eq!(SceneStatus::Error("x".to_string()).to_string(), "error");
    assert!(matches!(SceneStatus::from_label("pending"), Some(SceneStatus::Pending)));
    assert!(matches!(SceneStatus::from_label("training"), Some(SceneStatus::Training)));
    assert!(matches!(SceneStatus::from_label("ready"), Some(SceneStatus::Ready)));
    assert!(matches!(SceneStatus::from_label("error"), Some(SceneStatus::Error(_))));
    assert!(SceneStatus::from_label("Ready").is_none());
}

#[test]
fn update_replaces_given_fields_only() {
    let mut name = "Old".to_string();
    let mut description = Some("old text".to_string());
    let req = UpdateSceneRequest { name: Some("New".to_string()), description: None };
    assert!(req.apply_to(&mut name, &mut description));
    assert_eq!(name, "New");
    assert_eq!(description, Some("old text".to_string()));
    assert!(req.apply_to(&mut name, &mut description));
    assert_eq!(name, "New");

    let empty = UpdateSceneRequest { name: None, description: None };
    assert!(!empty.apply_to(&mut name, &mut description));
    assert_eq!(name, "New");

    let desc = UpdateSceneRequest { name: None, description: Some("d".to_string()) };
    let mut none_desc: Option<String> = None;
    assert!(desc.apply_to(&mut name, &mut none_desc));
    assert_eq!(none_desc, Some("d".to_string()));
}

#[test]
fn test_nerf_model_initial_state() {
    let model: NerfModel<f64> = NerfModel::new(uuid::Uuid::new_v4().as_u128());
    assert!(!model.is_ready());
    assert_eq!(model.epoch_count, 0);
    assert!(model.loss_history.is_empty());
}

#[test]
fn training_records_every_epoch() {
    let images = vec!["a.png", "b.png"];
    let poses = vec![(0, 0), (1, 1)];
    let loss = |e: u32, t: u32| (t - e) as f64 / t as f64;
    let mut log = ProgressLog::new();
    let model = train_model(7, 4, &images, &poses, &loss, &mut log).unwrap();
    assert_eq!(model.scene_id, 7);
    assert!(model.trained);
    assert_eq!(model.epoch_count, 4);
    assert_eq!(model.loss_history, vec![1.0, 0.75, 0.5, 0.25]);
    assert!(model.is_ready());
    assert_eq!(log.entries, vec![(1, 1.0), (2, 0.75), (3, 0.5), (4, 0.25)]);
}

#[test]
fn training_reports_to_callback() {
    let seen = std::cell::RefCell::new(Vec::new());
    let mut progress = CallbackProgress::new(|e: u32, l: f64| seen.borrow_mut().push((e, l)));
    let loss = |e: u32, _t: u32| e as f64;
    let model = train_model(2, 3, &vec![1], &vec![1], &loss, &mut progress).unwrap();
    assert_eq!(model.loss_history, vec![0.0, 1.0, 2.0]);
    assert_eq!(seen.borrow().clone(), vec![(1, 0.0), (2, 1.0), (3, 2.0)]);
}

#[test]
fn training_for_zero_epochs_is_not_ready() {
    let images = vec![1];
    let poses = vec![2];
    let loss = |_e: u32, _t: u32| 0.5f64;
    let mut log = ProgressLog::new();
    let model = train_model(1, 0, &images, &poses, &loss, &mut log).unwrap();
    assert!(model.trained);
    assert!(!model.is_ready());
    assert!(log.entries.is_empty());
}

#[test]
fn training_refuses_bad_inputs() {
    let loss = |_e: u32, _t: u32| 0.5f64;
    let mut log = ProgressLog::new();
    let empty: Vec<u8> = vec![];
    let r = train_model(1, 10, &empty, &empty, &loss, &mut log);
    assert!(matches!(r, Err(TrainError::NoImages)));
    assert_eq!(TrainError::NoImages.message(), "No images provided for training");
    let r = train_model(1, 10, &vec![1u8, 2, 3], &vec![1u8], &loss, &mut log);
    assert!(log.entries.is_empty());
    match r {
        Err(e) => {
            assert_eq!(e, TrainError::CountMismatch { images: 3, poses: 1 });
            assert_eq!(e.message(), "Image count (3) must match camera pose count (1)");
        }
        Ok(_) => panic!("expected a refusal"),
    }
}

#[test]
fn render_requires_ready_scene_and_model() {
    let fresh: NerfModel<f64> = NerfModel::new(1);
    let e = check_render(None, &fresh).unwrap_err();
    assert_eq!(e.status_code(), 404);
    assert_eq!(e.body(), "Scene not found");
    let e = check_render(Some(&SceneStatus::Pending), &fresh).unwrap_err();
    assert_eq!(e.status_code(), 400);
    assert_eq!(e.body(), "Scene must be in 'Ready' status to render");
    let e = check_render(Some(&SceneStatus::Ready), &fresh).unwrap_err();
    assert_eq!(e.status_code(), 400);
    assert_eq!(e.body(), "NeRF model not trained yet");
    let trained = NerfModel { scene_id: 1, trained: true, epoch_count: 3, loss_history: vec![0.1f64; 3] };
    assert!(check_render(Some(&SceneStatus::Ready), &trained).is_ok());
    assert!(check_render(Some(&SceneStatus::Training), &trained).is_err());
}

#[test]
fn ready_scene_renders_with_restored_model() {
    let model: NerfModel<f64> = prepare_render(5, Some(&SceneStatus::Ready), 1000).unwrap();
    assert_eq!(model.scene_id, 5);
    assert!(model.is_ready());
    assert_eq!(model.epoch_count, 1000);
    let e = prepare_render::<f64>(5, Some(&SceneStatus::Training), 1000).unwrap_err();
    assert_eq!(e.body(), "Scene must be in 'Ready' status to render");
    let e = prepare_render::<f64>(5, None, 1000).unwrap_err();
    assert_eq!(e.status_code(), 404);
    let e = prepare_render::<f64>(5, Some(&SceneStatus::Ready), 0).unwrap_err();
    assert_eq!(e.body(), "NeRF model not trained yet");
    let pending: NerfModel<f64> = restore_model(5, Some(&SceneStatus::Pending), 1000);
    assert!(!pending.trained);
    assert_eq!(pending.epoch_count, 0);
}

#[test]
fn render_files_and_errors() {
    assert_eq!(render_filename(10), "render_00000000-0000-0000-0000-00000000000a.png");
    assert_eq!(render_image_url(10), "/api/v1/render/download/00000000-0000-0000-0000-00000000000a");
    let e = AppError::Database("locked".to_string());
    assert_eq!(e.status_code(), 500);
    assert_eq!(e.body(), "Database error");
    let e = AppError::Internal("Render failed: x".to_string());
    assert_eq!(e.status_code(), 500);
    assert_eq!(e.body(), "Render failed: x");
}

#[test]
fn scene_errors_and_deletion() {
    assert_eq!(deletion_status(1).unwrap(), 204);
    let e = deletion_status(0).unwrap_err();
    assert_eq!(e.status_code(), 404);
    assert_eq!(e.body(), "Not found: Scene not found");
    let db = SceneError::Database("no such table: scenes".to_string());
    assert_eq!(db.status_code(), 500);
    assert_eq!(db.body(), "Database error: no such table: scenes");
    let internal = SceneError::Internal("boom".to_string());
    assert_eq!(internal.body(), "boom");
}

#[test]
fn health_report_is_healthy() {
    let r = health("1.2.3");
    assert_eq!(r.status, "healthy");
    assert_eq!(r.version, "1.2.3");
    assert!(!r.instance_id.is_empty());
    assert_eq!(uuid::Uuid::parse_str(&r.instance_id).unwrap().get_version_num(), 4);
    assert!(r.timestamp.ends_with("+00:00"));
}

#[test]
fn health_report_writes_clock_reading() {
    let r = health_report("0.1.0", 1431648000, 0, 0x550e8400e29b41d4a716446655440000).unwrap();
    assert_eq!(r.status, "healthy");
    assert_eq!(r.timestamp, "2015-05-15T00:00:00+00:00");
    assert_eq!(r.instance_id, "550e8400-e29b-41d4-a716-446655440000");
    let r = health_report("0.1.0", 1431648000, 123_000_000, 1).unwrap();
    assert_eq!(r.timestamp, "2015-05-15T00:00:00.123+00:00");
    assert!(health_report("0.1.0", i64::MAX, 0, 1).is_none());
}

#[test]
fn request_defaults() {
    assert!(default_true());
    assert_eq!(default_width(), 512);
    assert_eq!(default_height(), 512);
    assert_ne!(ExportFormat::Obj, ExportFormat::Ply);
}
