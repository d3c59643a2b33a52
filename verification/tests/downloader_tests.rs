use tiko::downloader::check_download_status;
use tiko::downloader::download_plan;
use tiko::downloader::photo_filename;
use tiko::downloader::video_filename;
use tiko::parser::VideoInfo;
use tiko::strutil::u64_to_string;
use tiko::types::DownloadError;
use tiko::types::ResolvedMedia;

fn info() -> VideoInfo {
    VideoInfo {
        username: String::from("test_user"),
        video_id: String::from("12345"),
        item_type: String::from("video"),
    }
}

#[test]
fn video_filename_is_handle_and_id() {
    assert_eq!(video_filename(&info()), "test_user_12345.mp4");
}

#[test]
fn photo_filename_carries_the_position() {
    assert_eq!(photo_filename(&info(), 1), "test_user_12345_1.jpeg");
    assert_eq!(photo_filename(&info(), 12), "test_user_12345_12.jpeg");
}

#[test]
fn decimal_rendering_is_exact() {
    assert_eq!(u64_to_string(0), "0");
    assert_eq!(u64_to_string(7), "7");
    assert_eq!(u64_to_string(10), "10");
    assert_eq!(u64_to_string(205), "205");
    assert_eq!(u64_to_string(7571521498322652434), "7571521498322652434");
}

#[test]
fn video_plan_is_one_fetch() {
    let media = ResolvedMedia::Video(String::from("https://cdn/v.mp4"));
    let plan = download_plan(&media, &info());
    assert_eq!(plan.len(), 1);
    assert_eq!(plan[0].0, "https://cdn/v.mp4");
    assert_eq!(plan[0].1, "test_user_12345.mp4");
}

#[test]
fn photo_plan_follows_the_resolved_order() {
    let media = ResolvedMedia::Photos(vec![
        String::from("u1"),
        String::from("u2"),
        String::from("u3"),
    ]);
    let plan = download_plan(&media, &info());
    assert_eq!(plan.len(), 3);
    assert_eq!(plan[0], ("u1".to_string(), "test_user_12345_1.jpeg".to_string()));
    assert_eq!(plan[1], ("u2".to_string(), "test_user_12345_2.jpeg".to_string()));
    assert_eq!(plan[2], ("u3".to_string(), "test_user_12345_3.jpeg".to_string()));
}

#[test]
fn empty_photo_set_plans_no_files() {
    let media = ResolvedMedia::Photos(Vec::new());
    let plan = download_plan(&media, &info());
    assert!(plan.is_empty());
}

#[test]
fn download_status_classification() {
    assert!(check_download_status(200).is_ok());
    assert!(check_download_status(206).is_ok());
    assert_eq!(check_download_status(404), Err(DownloadError::Http(404)));
    assert_eq!(check_download_status(500), Err(DownloadError::Http(500)));
}
