use rigal::album::{build_album, ChildEntry};
use rigal::config::BoxSize;
use rigal::errors::CodecError;
use rigal::paths::mirror_path;
use rigal::scan::{plan_conversions, ScanEntry};
use rigal::transcode::transcode_task;

fn jpeg_bytes(width: u32, height: u32) -> Vec<u8> {
    let img = image::RgbImage::from_fn(width, height, |x, y| {
        image::Rgb([(x % 251) as u8, (y % 241) as u8, ((x + y) % 253) as u8])
    });
    let mut cursor = std::io::Cursor::new(Vec::new());
    image::DynamicImage::ImageRgb8(img)
        .write_to(&mut cursor, image::ImageFormat::Jpeg)
        .unwrap();
    cursor.into_inner()
}

#[test]
fn no_resize_copies_source_bytes() {
    let source = jpeg_bytes(64, 48);
    let out = transcode_task(
        &source,
        &"jpg".to_string(),
        &BoxSize { width: 16, height: 16 },
        &None,
    )
    .unwrap();
    assert_eq!(out.main, source);
}

#[test]
fn resize_reencodes_to_the_box() {
    let source = jpeg_bytes(64, 48);
    let out = transcode_task(
        &source,
        &"jpg".to_string(),
        &BoxSize { width: 16, height: 16 },
        &Some(BoxSize { width: 32, height: 24 }),
    )
    .unwrap();
    assert_ne!(out.main, source);
    let main = image::load_from_memory(&out.main).unwrap();
    assert_eq!(main.width(), 32);
    assert_eq!(main.height(), 24);
}

#[test]
fn thumbnail_fits_the_thumbnail_box() {
    let source = jpeg_bytes(64, 48);
    let out = transcode_task(
        &source,
        &"jpg".to_string(),
        &BoxSize { width: 16, height: 16 },
        &None,
    )
    .unwrap();
    let thumb = image::load_from_memory(&out.thumbnail).unwrap();
    assert_eq!(thumb.width(), 16);
    assert_eq!(thumb.height(), 16);
}

#[test]
fn codec_failures_are_per_task_errors() {
    let garbage = vec![0u8, 1, 2, 3, 4, 5, 6, 7];
    assert!(matches!(
        transcode_task(
            &garbage,
            &"jpg".to_string(),
            &BoxSize { width: 16, height: 16 },
            &None
        ),
        Err(CodecError)
    ));
    let source = jpeg_bytes(8, 8);
    assert!(matches!(
        transcode_task(
            &source,
            &"nosuchformat".to_string(),
            &BoxSize { width: 16, height: 16 },
            &None
        ),
        Err(CodecError)
    ));
}

#[test]
fn end_to_end_single_photo() {
    // Config: input `in`, output `out`, 100 by 100 thumbnails, no resize.
    // One 800 by 600 source photo at in/photo.jpg.
    let input = vec!["in".to_string(), "photo.jpg".to_string()];
    let out_root = vec!["out".to_string()];
    let exts = vec!["jpg".to_string()];
    let source = jpeg_bytes(800, 600);

    // Discovery: the destination does not exist yet, so the scan plans
    // exactly this conversion, mirrored to out/photo.jpg.
    let entries = vec![ScanEntry { path: input.clone(), src_mtime: 1, dest_mtime: None }];
    let tasks = plan_conversions(&entries, &out_root, &exts);
    assert_eq!(tasks.len(), 1);
    assert_eq!(tasks[0].dest, vec!["out".to_string(), "photo.jpg".to_string()]);
    assert_eq!(mirror_path(&input, &out_root).unwrap(), tasks[0].dest);

    // Transcoding: the main rendition equals the source byte for byte, and
    // the thumbnail fits in the 100 by 100 box.
    let rendered = transcode_task(
        &source,
        &"jpg".to_string(),
        &BoxSize { width: 100, height: 100 },
        &None,
    )
    .unwrap();
    assert_eq!(rendered.main, source);
    let thumb = image::load_from_memory(&rendered.thumbnail).unwrap();
    assert!(thumb.width() <= 100);
    assert!(thumb.height() <= 100);

    // Assembly: the root album's page context lists the photo with its
    // thumbnail reference.
    let children = vec![
        ChildEntry { name: "photo.jpg".to_string(), is_dir: false },
        ChildEntry { name: "thumbnails".to_string(), is_dir: true },
    ];
    let album = build_album(&out_root, &out_root, &children, &exts);
    assert_eq!(album.images.len(), 1);
    assert_eq!(album.images[0].image_name, "photo.jpg".to_string());
    assert_eq!(album.images[0].thumbnail_relative_path, "thumbnails/photo.jpg".to_string());
    assert!(album.sub_albums.is_empty());
    assert_eq!(album.representative_thumbnail, Some("thumbnails/photo.jpg".to_string()));
    assert_eq!(album.static_root_relative_path, "static".to_string());
}
