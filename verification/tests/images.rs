use image::GenericImageView;
use nerf_studio::api::images::{
    get_extension, parse_camera_data, plan_upload, plan_upload_with, process_upload,
    thumbnail_filename, upload_response, AppError, THUMBNAIL_SIZE,
};
use nerf_studio::ids::id_text;
use nerf_studio::models::images::{
    camera_position, camera_rotation, image_download_url, image_thumbnail_url,
};

#[test]
fn test_parse_camera_data() {
    let data = parse_camera_data("scene-550e8400-e29b-41d4-a716-446655440000-image.png");
    assert!(data.is_some());

    let data = data.unwrap();
    assert_eq!(
        uuid::Uuid::from_u128(data.scene_id.unwrap()).to_string(),
        "550e8400-e29b-41d4-a716-446655440000"
    );
}

#[test]
fn test_get_extension() {
    assert_eq!(get_extension(Some("image.png")), "png");
    assert_eq!(get_extension(Some("photo.JPG")), "JPG");
    assert_eq!(get_extension(None), "png");
}

#[test]
fn get_extension_takes_text_after_last_dot() {
    assert_eq!(get_extension(Some("archive.tar.gz")), "gz");
    assert_eq!(get_extension(Some("README")), "README");
    assert_eq!(get_extension(Some("trailing.")), "");
    assert_eq!(get_extension(Some("")), "");
}

#[test]
fn parse_camera_data_reads_simple_and_bare_forms() {
    let id: u128 = 0x550e8400e29b41d4a716446655440000;
    let simple = parse_camera_data("scene-550e8400e29b41d4a716446655440000-x.png").unwrap();
    assert_eq!(simple.scene_id, Some(id));
    assert!(simple.rotation_text.is_none());
    let bare = parse_camera_data("scene-550e8400-e29b-41d4-a716-446655440000").unwrap();
    assert_eq!(bare.scene_id, Some(id));
    assert!(bare.rotation_text.is_none());
}

#[test]
fn parse_camera_data_reads_pitch_and_yaw() {
    let data = parse_camera_data("image-0.5-1.5.png").unwrap();
    assert_eq!(data.scene_id, None);
    assert_eq!(data.rotation_text, Some(("0.5".to_string(), "1.5".to_string())));
    let data = parse_camera_data("image-10-20.jpg").unwrap();
    assert_eq!(data.rotation_text, Some(("10".to_string(), "20".to_string())));
    let data = parse_camera_data("image-1-2").unwrap();
    assert_eq!(data.rotation_text, Some(("1".to_string(), "2".to_string())));
}

#[test]
fn parse_camera_data_refuses_other_names() {
    assert!(parse_camera_data("image.png").is_none());
    assert!(parse_camera_data("scene").is_none());
    assert!(parse_camera_data("scene-notanid-image.png").is_none());
    assert!(parse_camera_data("Scene-550e8400-e29b-41d4-a716-446655440000-a.png").is_none());
    assert!(parse_camera_data("image-0.5.png").is_none());
    assert!(parse_camera_data("image-1-2-3.png").is_none());
}

#[test]
fn thumbnail_prefixes_stored_name() {
    assert_eq!(thumbnail_filename("abc.png"), "thumb_abc.png");
}

#[test]
fn plan_names_files_and_scene() {
    let file_id: u128 = 1;
    let fallback: u128 = 2;
    let plan = plan_upload_with(
        Some("scene-550e8400-e29b-41d4-a716-446655440000-image.png"),
        Some("photo.JPG"),
        file_id,
        fallback,
    );
    assert_eq!(plan.original_name, "scene-550e8400-e29b-41d4-a716-446655440000-image.png");
    assert_eq!(plan.extension, "JPG");
    assert_eq!(plan.filename, "00000000-0000-0000-0000-000000000001.JPG");
    assert_eq!(plan.thumbnail_filename, "thumb_00000000-0000-0000-0000-000000000001.JPG");
    assert_eq!(plan.scene_id, 0x550e8400e29b41d4a716446655440000);
    assert!(plan.camera_data.is_some());

    let unnamed = plan_upload_with(None, None, file_id, fallback);
    assert_eq!(unnamed.original_name, "unknown");
    assert_eq!(unnamed.filename, "00000000-0000-0000-0000-000000000001.png");
    assert_eq!(unnamed.scene_id, fallback);
    assert!(unnamed.camera_data.is_none());
}

#[test]
fn random_plan_uses_v4_ids() {
    let plan = plan_upload(Some("field"), Some("a.jpeg"));
    let id = uuid::Uuid::from_u128(plan.file_id);
    assert_eq!(id.get_version_num(), 4);
    assert_eq!(plan.filename, format!("{}.jpeg", id));
    assert_eq!(plan.thumbnail_filename, format!("thumb_{}.jpeg", id));
    assert_eq!(uuid::Uuid::from_u128(plan.scene_id).get_version_num(), 4);
}

#[test]
fn upload_response_links_image() {
    let plan = plan_upload_with(Some("f"), Some("a.png"), 3, 4);
    let r = upload_response(plan, 5, 640, 480);
    assert_eq!(r.id, 5);
    assert_eq!(r.scene_id, 4);
    assert_eq!(r.width, 640);
    assert_eq!(r.height, 480);
    assert_eq!(r.url, "/api/v1/images/00000000-0000-0000-0000-000000000005/download");
    assert_eq!(
        r.thumbnail_url,
        "/api/v1/images/00000000-0000-0000-0000-000000000005/thumbnail"
    );
}

#[test]
fn image_urls_and_id_text() {
    let id: u128 = 0x550e8400e29b41d4a716446655440000;
    assert_eq!(id_text(id), "550e8400-e29b-41d4-a716-446655440000");
    assert_eq!(
        image_download_url(id),
        "/api/v1/images/550e8400-e29b-41d4-a716-446655440000/download"
    );
    assert_eq!(
        image_thumbnail_url(id),
        "/api/v1/images/550e8400-e29b-41d4-a716-446655440000/thumbnail"
    );
}

#[test]
fn camera_pose_defaults_missing_coordinates() {
    assert_eq!(camera_position(Some(1.0), None, Some(3.0), 0.0), Some([1.0, 0.0, 3.0]));
    assert_eq!(camera_position(None, Some(2.0), Some(3.0), 0.0), None);
    assert_eq!(camera_rotation(Some(0.5), None, 0.0), Some([0.5, 0.0]));
    assert_eq!(camera_rotation(None::<f64>, Some(1.0), 0.0), None);
}

#[test]
fn image_errors_hide_details() {
    let db = AppError::Database("disk I/O error".to_string());
    assert_eq!(db.status_code(), 500);
    assert_eq!(db.body(), "Database error");
    let nf = AppError::NotFound("Image not found");
    assert_eq!(nf.status_code(), 404);
    assert_eq!(nf.body(), "Image not found");
    let internal = AppError::Internal("Failed to load image: bad".to_string());
    assert_eq!(internal.status_code(), 500);
    assert_eq!(internal.body(), "Failed to load image: bad");
    let io = AppError::Io("permission denied".to_string());
    assert_eq!(io.status_code(), 500);
    assert_eq!(io.body(), "File operation failed");
}

fn png_bytes(width: u32, height: u32) -> Vec<u8> {
    let img = image::ImageBuffer::from_pixel(width, height, image::Rgba([10u8, 20, 30, 255]));
    let mut buffer = Vec::new();
    image::DynamicImage::ImageRgba8(img)
        .write_to(&mut std::io::Cursor::new(&mut buffer), image::ImageFormat::Png)
        .unwrap();
    buffer
}

#[test]
fn process_upload_measures_decoded_image() {
    let plan = plan_upload_with(Some("f"), Some("a.png"), 3, 4);
    let (resp, thumb) = process_upload(plan, &png_bytes(600, 300), 9).unwrap();
    assert_eq!(resp.id, 9);
    assert_eq!(resp.scene_id, 4);
    assert_eq!((resp.width, resp.height), (600, 300));
    assert_eq!(resp.filename, "00000000-0000-0000-0000-000000000003.png");
    assert_eq!(resp.url, "/api/v1/images/00000000-0000-0000-0000-000000000009/download");
    assert_eq!(thumb.dimensions(), (THUMBNAIL_SIZE, 128));

    let plan = plan_upload_with(Some("f"), Some("a.png"), 3, 4);
    let (resp, thumb) = process_upload(plan, &png_bytes(20, 10), 9).unwrap();
    assert_eq!((resp.width, resp.height), (20, 10));
    assert_eq!(thumb.dimensions(), (256, 128));
}

#[test]
fn process_upload_refuses_undecodable_bytes() {
    let plan = plan_upload_with(Some("f"), Some("a.png"), 3, 4);
    let err = process_upload(plan, b"not an image", 9).unwrap_err();
    assert_eq!(err.status_code(), 500);
    assert!(err.body().starts_with("Failed to load image: "));
}
