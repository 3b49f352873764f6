use gula_db_core::gallery::{
    data_url_parts, decode_part_image, extract_gallery_parts, find_part, gallery_cache_step,
    gallery_file_name, gallery_image_id, gallery_page, mime_to_extension, parse_data_url,
    stored_dimensions, GalleryCacheStep, GalleryPart,
};
use gula_db_core::json::{Json, Member};

const PNG_123_BY_321: &str = "iVBORw0KGgoAAAANSUhEUgAAAHsAAAFBCAYAAACaOMQ=";

fn obj(pairs: Vec<(&str, Json)>) -> Json {
    Json::Object(pairs.into_iter().map(|(k, v)| Member { key: k.to_string(), value: v }).collect())
}

fn s(t: &str) -> Json {
    Json::Str(t.to_string())
}

fn file_part(media: &str, filename: Option<&str>, url: Option<&str>) -> Json {
    let mut pairs = vec![("type", s("file")), ("mediaType", s(media))];
    if let Some(f) = filename {
        pairs.push(("filename", s(f)));
    }
    if let Some(u) = url {
        pairs.push(("url", s(u)));
    }
    obj(pairs)
}

#[test]
fn image_parts_of_an_assistant_message_are_numbered_in_order() {
    let doc = obj(vec![
        ("role", s("assistant")),
        (
            "parts",
            Json::Array(vec![
                obj(vec![("type", s("text")), ("text", s("hi"))]),
                file_part("image/png", Some("a.png"), Some("data:image/png;base64,AAAA")),
                file_part("application/pdf", Some("doc.pdf"), None),
                Json::Str("not an object".to_string()),
                file_part("IMAGE/JPEG", None, None),
                obj(vec![("type", s("file"))]),
                file_part("image/webp", None, Some("https://x/y.webp")),
            ]),
        ),
    ]);
    let parts = extract_gallery_parts(Some(doc));
    assert_eq!(parts.len(), 2);
    assert_eq!(parts[0].part_index, 0);
    assert_eq!(parts[0].media_type, "image/png");
    assert_eq!(parts[0].filename.as_deref(), Some("a.png"));
    assert_eq!(parts[0].url.as_deref(), Some("data:image/png;base64,AAAA"));
    assert_eq!(parts[1].part_index, 1);
    assert_eq!(parts[1].media_type, "image/webp");
    assert_eq!(parts[1].filename, None);
}

#[test]
fn other_messages_have_no_gallery_images() {
    let user = obj(vec![("role", s("user")), ("parts", Json::Array(vec![file_part("image/png", None, None)]))]);
    assert!(extract_gallery_parts(Some(user)).is_empty());
    let no_parts = obj(vec![("role", s("assistant")), ("parts", s("x"))]);
    assert!(extract_gallery_parts(Some(no_parts)).is_empty());
    assert!(extract_gallery_parts(None).is_empty());
    assert!(extract_gallery_parts(Some(Json::Array(Vec::new()))).is_empty());
}

#[test]
fn extensions_ignore_ascii_case() {
    assert_eq!(mime_to_extension("image/png"), "png");
    assert_eq!(mime_to_extension("IMAGE/PNG"), "png");
    assert_eq!(mime_to_extension("image/jpeg"), "jpg");
    assert_eq!(mime_to_extension("image/JPG"), "jpg");
    assert_eq!(mime_to_extension("image/webp"), "webp");
    assert_eq!(mime_to_extension("image/gif"), "gif");
    assert_eq!(mime_to_extension("image/svg+xml"), "bin");
    assert_eq!(mime_to_extension(""), "bin");
}

#[test]
fn data_urls_split_at_the_first_comma() {
    assert_eq!(
        data_url_parts("data:image/png;base64,QUJD,REVG"),
        Some(("image/png".to_string(), "QUJD,REVG".to_string()))
    );
    assert_eq!(data_url_parts("data:;base64,"), Some((String::new(), String::new())));
    assert_eq!(data_url_parts("data:image/png,QUJD"), None);
    assert_eq!(data_url_parts("https://example.com/a.png"), None);
    assert_eq!(data_url_parts("data:image/png;base64"), None);
}

#[test]
fn data_urls_decode_with_the_standard_alphabet() {
    let (mime, bytes) = parse_data_url("data:text/plain;base64,aGVsbG8=").unwrap();
    assert_eq!(mime, "text/plain");
    assert_eq!(bytes, b"hello".to_vec());
    assert!(parse_data_url("data:text/plain;base64,!!!").is_none());
    assert!(parse_data_url("data:text/plain;base64,aGVsbG8").is_none());
}

#[test]
fn inline_images_get_their_declared_dimensions() {
    let url = format!("data:image/png;base64,{}", PNG_123_BY_321);
    let img = decode_part_image(Some(url.as_str())).unwrap();
    assert_eq!(img.mime, "image/png");
    assert_eq!(img.bytes.len(), 32);
    assert_eq!(img.width, Some(123));
    assert_eq!(img.height, Some(321));
    let not_image = decode_part_image(Some("data:text/plain;base64,aGVsbG8=")).unwrap();
    assert_eq!(not_image.width, None);
    assert_eq!(not_image.height, None);
    assert!(decode_part_image(None).is_none());
    assert!(decode_part_image(Some("https://x/y.png")).is_none());
}

#[test]
fn dimensions_convert_as_casts_do() {
    assert_eq!(stored_dimensions(Some((640, 480))), (Some(640), Some(480)));
    assert_eq!(stored_dimensions(None), (None, None));
    assert_eq!(stored_dimensions(Some((1usize << 31, 1))), (Some(i32::MIN), Some(1)));
}

#[test]
fn cache_entries_are_named_after_message_and_part() {
    assert_eq!(gallery_image_id("thread--msg", 0), "thread--msg-0");
    assert_eq!(gallery_image_id("m", 12), "m-12");
    assert_eq!(gallery_file_name("m-0", "image/jpeg", "image/png"), "m-0.jpg");
    assert_eq!(gallery_file_name("m-0", "", "image/png"), "m-0.png");
    assert_eq!(gallery_file_name("m-1", "image/tiff", "image/png"), "m-1.bin");
}

#[test]
fn backfill_finds_the_first_part_with_the_index() {
    let part = |i: i32| GalleryPart { part_index: i, media_type: "image/png".to_string(), filename: None, url: None };
    let parts = vec![part(0), part(1), part(1)];
    assert_eq!(find_part(&parts, 1), Some(1));
    assert_eq!(find_part(&parts, 2), None);
    assert_eq!(find_part(&Vec::new(), 0), None);
}

#[test]
fn cache_readiness_step() {
    assert!(matches!(gallery_cache_step(false, 10), GalleryCacheStep::NoTable));
    assert!(matches!(gallery_cache_step(true, 3), GalleryCacheStep::Backfill));
    assert!(matches!(gallery_cache_step(true, 0), GalleryCacheStep::Rebuild));
}

#[test]
fn listing_page_is_never_negative() {
    assert_eq!(gallery_page(Some(10), Some(5)), (Some(10), 5));
    assert_eq!(gallery_page(Some(-3), Some(-7)), (Some(0), 0));
    assert_eq!(gallery_page(None, None), (None, 0));
}
