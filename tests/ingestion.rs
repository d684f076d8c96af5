use std::io::Cursor;

use facedb::decimal::{push_decimal, push_signed_decimal};
use facedb::ingest::{check_embedding_len, image_path, plan_ingest, stamp_date, upload_status, FaceRecord, IngestError, EMBEDDING_DIMENSIONS};
use facedb::scrape::{next_scrape_url, scrape_url, scraped_metadata, SCRAPE_SOURCE};
use image::{DynamicImage, ImageBuffer, ImageFormat, Rgb};

fn gray_png() -> Vec<u8> {
    let img = DynamicImage::ImageRgb8(ImageBuffer::from_pixel(112, 112, Rgb([128u8, 128, 128])));
    let mut buf: Vec<u8> = Vec::new();
    img.write_to(&mut Cursor::new(&mut buf), ImageFormat::Png).unwrap();
    buf
}

#[test]
fn undecodable_bytes_give_no_plan() {
    let r = plan_ingest(b"<html>not an image</html>", "./images", Some("u".to_string()), None);
    assert_eq!(r.err(), Some(IngestError::Decode));
}

#[test]
fn plan_carries_metadata_and_path() {
    let r = plan_ingest(&gray_png(), "/data/imgs", Some("https://x/".to_string()), Some("Ann".to_string()));
    let plan = r.ok().unwrap();
    assert_eq!(plan.image_path, format!("/data/imgs/{}.jpg", plan.record.id));
    assert_eq!(plan.record.name.as_deref(), Some("Ann"));
    assert_eq!(plan.record.source_url.as_deref(), Some("https://x/"));
    let date = plan.record.date.unwrap();
    assert!(date.ends_with("+01:00") || date.ends_with("+02:00"), "{}", date);
    assert!(plan.preprocessed.tensor.numerators().iter().all(|&n| n == 1));
}

#[test]
fn image_path_formats_identifier() {
    assert_eq!(image_path("imgs", 0), "imgs/0.jpg");
    assert_eq!(image_path("./images", 4294967295), "./images/4294967295.jpg");
    assert_eq!(image_path("", 1203), "/1203.jpg");
}

#[test]
fn decimal_digits() {
    let mut s = String::from("n=");
    push_decimal(&mut s, 1090);
    assert_eq!(s, "n=1090");
    let mut t = String::new();
    push_decimal(&mut t, u64::MAX);
    assert_eq!(t, u64::MAX.to_string());
    let mut u = String::new();
    push_signed_decimal(&mut u, i64::MIN);
    assert_eq!(u, i64::MIN.to_string());
    let mut v = String::new();
    push_signed_decimal(&mut v, -7);
    assert_eq!(v, "-7");
}

#[test]
fn scrape_url_adds_cache_buster() {
    assert_eq!(scrape_url(1700000000123), "https://thispersondoesnotexist.com/?_=1700000000123");
    assert_eq!(scrape_url(0), "https://thispersondoesnotexist.com/?_=0");
    let now = next_scrape_url();
    let millis: i64 = now.strip_prefix("https://thispersondoesnotexist.com/?_=").unwrap().parse().unwrap();
    assert!(millis > 1_600_000_000_000);
}

#[test]
fn scraped_portraits_carry_source_only() {
    let (source_url, name) = scraped_metadata();
    assert_eq!(source_url.as_deref(), Some(SCRAPE_SOURCE));
    assert_eq!(name, None);
}

#[test]
fn embedding_length_is_checked() {
    assert_eq!(check_embedding_len(EMBEDDING_DIMENSIONS), Ok(()));
    assert_eq!(check_embedding_len(512), Ok(()));
    assert_eq!(check_embedding_len(511), Err(IngestError::Inference));
    assert_eq!(check_embedding_len(0), Err(IngestError::Inference));
}

#[test]
fn upload_status_by_outcome() {
    assert_eq!(upload_status(&Ok(())), 200);
    assert_eq!(upload_status(&Err(IngestError::Decode)), 200);
    assert_eq!(upload_status(&Err(IngestError::Inference)), 500);
    assert_eq!(upload_status(&Err(IngestError::Save)), 500);
    assert_eq!(upload_status(&Err(IngestError::Store)), 500);
}

#[test]
fn stamp_date_sets_paris_time_only() {
    let mut record = FaceRecord { id: 7, name: Some("Bo".to_string()), source_url: None, date: None };
    stamp_date(&mut record);
    assert_eq!(record.id, 7);
    assert_eq!(record.name.as_deref(), Some("Bo"));
    assert_eq!(record.source_url, None);
    let date = record.date.unwrap();
    assert!(date.ends_with("+01:00") || date.ends_with("+02:00"), "{}", date);
    assert!(date.starts_with("20"), "{}", date);
}
