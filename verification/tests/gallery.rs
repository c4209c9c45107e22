use rigal::album::{build_album, should_visit, ChildEntry};
use rigal::assets::{asset_dest, plan_asset, AssetAction};
use rigal::config::{default_config, default_extensions, BoxSize};
use rigal::errors::PathError;
use rigal::paths::{
    extension, is_reserved, join_path, mirror_path, static_rel_path, thumbnail_path, wanted_file,
};
use rigal::scan::{needs_rebuild, plan_conversions, plan_entry, ScanEntry};

fn p(parts: &[&str]) -> Vec<String> {
    parts.iter().map(|s| s.to_string()).collect()
}

fn exts() -> Vec<String> {
    vec!["jpg".to_string()]
}

fn dir(name: &str) -> ChildEntry {
    ChildEntry { name: name.to_string(), is_dir: true }
}

fn file(name: &str) -> ChildEntry {
    ChildEntry { name: name.to_string(), is_dir: false }
}

#[test]
fn extension_cases() {
    assert_eq!(extension(&"photo.jpg".to_string()), Some("jpg".to_string()));
    assert_eq!(extension(&"a.tar.gz".to_string()), Some("gz".to_string()));
    assert_eq!(extension(&".hidden".to_string()), None);
    assert_eq!(extension(&"plain".to_string()), None);
    assert_eq!(extension(&"name.".to_string()), Some("".to_string()));
    assert_eq!(extension(&"".to_string()), None);
}

#[test]
fn wanted_file_cases() {
    let e = exts();
    assert!(wanted_file(&"x.jpg".to_string(), &e));
    assert!(!wanted_file(&"x.png".to_string(), &e));
    assert!(!wanted_file(&"x".to_string(), &e));
    assert!(!wanted_file(&".jpg".to_string(), &e));
    assert!(!wanted_file(&"x.JPG".to_string(), &e));
}

#[test]
fn reserved_names() {
    assert!(is_reserved(&"thumbnails".to_string()));
    assert!(is_reserved(&"static".to_string()));
    assert!(!is_reserved(&"holiday".to_string()));
}

#[test]
fn staleness_rule() {
    assert!(needs_rebuild(5, None));
    assert!(needs_rebuild(5, Some(4)));
    assert!(!needs_rebuild(5, Some(5)));
    assert!(!needs_rebuild(5, Some(6)));
}

#[test]
fn mirrored_destination() {
    let got = mirror_path(&p(&["in", "a", "b", "photo.jpg"]), &p(&["out"])).unwrap();
    assert_eq!(got, p(&["out", "a", "b", "photo.jpg"]));
    let thumb = thumbnail_path(&got);
    assert_eq!(thumb, p(&["out", "a", "b", "thumbnails", "photo.jpg"]));
}

#[test]
fn empty_path_is_a_path_error() {
    assert!(matches!(mirror_path(&p(&[]), &p(&["out"])), Err(PathError)));
}

#[test]
fn static_path_depths() {
    assert_eq!(join_path(&static_rel_path(0)), "static".to_string());
    assert_eq!(join_path(&static_rel_path(2)), "../../static".to_string());
}

#[test]
fn plan_entry_selects_stale_wanted_files() {
    let out = p(&["out"]);
    let e = exts();
    let stale = ScanEntry { path: p(&["in", "a.jpg"]), src_mtime: 10, dest_mtime: None };
    let task = plan_entry(&stale, &out, &e).unwrap();
    assert_eq!(task.source, p(&["in", "a.jpg"]));
    assert_eq!(task.dest, p(&["out", "a.jpg"]));

    let fresh = ScanEntry { path: p(&["in", "a.jpg"]), src_mtime: 10, dest_mtime: Some(10) };
    assert!(plan_entry(&fresh, &out, &e).is_none());

    let other = ScanEntry { path: p(&["in", "notes.txt"]), src_mtime: 10, dest_mtime: None };
    assert!(plan_entry(&other, &out, &e).is_none());

    let rootless = ScanEntry { path: p(&[]), src_mtime: 10, dest_mtime: None };
    assert!(plan_entry(&rootless, &out, &e).is_none());
}

#[test]
fn second_run_plans_nothing() {
    // After a completed build every destination exists and is no older than
    // its source, so a rerun without changes plans zero conversions.
    let out = p(&["out"]);
    let e = exts();
    let entries = vec![
        ScanEntry { path: p(&["in", "a.jpg"]), src_mtime: 10, dest_mtime: Some(11) },
        ScanEntry { path: p(&["in", "b", "c.jpg"]), src_mtime: 9, dest_mtime: Some(9) },
    ];
    assert!(plan_conversions(&entries, &out, &e).is_empty());
}

#[test]
fn touched_file_replans_only_itself() {
    let out = p(&["out"]);
    let e = exts();
    let entries = vec![
        ScanEntry { path: p(&["in", "a.jpg"]), src_mtime: 10, dest_mtime: Some(11) },
        ScanEntry { path: p(&["in", "b", "c.jpg"]), src_mtime: 20, dest_mtime: Some(12) },
        ScanEntry { path: p(&["in", "d.jpg"]), src_mtime: 10, dest_mtime: Some(10) },
    ];
    let tasks = plan_conversions(&entries, &out, &e);
    assert_eq!(tasks.len(), 1);
    assert_eq!(tasks[0].source, p(&["in", "b", "c.jpg"]));
    assert_eq!(tasks[0].dest, p(&["out", "b", "c.jpg"]));
}

#[test]
fn asset_mirror_rules() {
    assert_eq!(plan_asset(true, 5, None), AssetAction::EnsureDir);
    assert_eq!(plan_asset(true, 5, Some(1)), AssetAction::Skip);
    assert_eq!(plan_asset(false, 5, None), AssetAction::Copy);
    assert_eq!(plan_asset(false, 5, Some(4)), AssetAction::Copy);
    assert_eq!(plan_asset(false, 5, Some(5)), AssetAction::Skip);
    assert_eq!(
        asset_dest(&p(&["css", "site.css"]), &p(&["out"])),
        p(&["out", "static", "css", "site.css"])
    );
}

#[test]
fn album_lists_sub_album() {
    let album = build_album(
        &p(&["out", "a"]),
        &p(&["out"]),
        &vec![dir("b"), file("photo.jpg")],
        &exts(),
    );
    assert_eq!(album.title, "a".to_string());
    assert_eq!(album.sub_albums, vec!["b/".to_string()]);
    assert_eq!(album.static_root_relative_path, "../static".to_string());
}

#[test]
fn reserved_dirs_never_albums() {
    let album = build_album(
        &p(&["out"]),
        &p(&["out"]),
        &vec![dir("thumbnails"), dir("static"), dir("x")],
        &exts(),
    );
    assert_eq!(album.sub_albums, vec!["x/".to_string()]);
    assert!(!should_visit(&"thumbnails".to_string(), false));
    assert!(!should_visit(&"static".to_string(), false));
    assert!(!should_visit(&"photo.jpg".to_string(), true));
    assert!(should_visit(&"holiday".to_string(), false));
}

#[test]
fn representative_thumbnail_rule() {
    let empty = build_album(&p(&["out", "a"]), &p(&["out"]), &vec![dir("b")], &exts());
    assert!(empty.representative_thumbnail.is_none());
    assert!(empty.images.is_empty());

    let full = build_album(
        &p(&["out", "a"]),
        &p(&["out"]),
        &vec![file("one.jpg"), file("two.jpg"), file("skip.txt")],
        &exts(),
    );
    assert_eq!(full.images.len(), 2);
    assert_eq!(full.images[0].image_name, "one.jpg".to_string());
    assert_eq!(full.images[0].thumbnail_relative_path, "thumbnails/one.jpg".to_string());
    assert_eq!(full.images[1].thumbnail_relative_path, "thumbnails/two.jpg".to_string());
    assert_eq!(full.representative_thumbnail, Some("thumbnails/one.jpg".to_string()));
}

#[test]
fn multi_component_roots() {
    let got = mirror_path(&p(&["photos", "raw", "x", "a.jpg"]), &p(&["www", "out"])).unwrap();
    assert_eq!(got, p(&["www", "out", "raw", "x", "a.jpg"]));
    let album = build_album(
        &p(&["www", "out", "a", "b"]),
        &p(&["www", "out"]),
        &vec![file("a.jpg")],
        &exts(),
    );
    assert_eq!(album.static_root_relative_path, "../../static".to_string());
}

#[test]
fn album_of_only_reserved_children() {
    let album = build_album(
        &p(&["out"]),
        &p(&["out"]),
        &vec![dir("thumbnails"), dir("static")],
        &exts(),
    );
    assert!(album.sub_albums.is_empty());
    assert!(album.images.is_empty());
    assert!(album.representative_thumbnail.is_none());
}

#[test]
fn join_empty_components() {
    assert_eq!(join_path(&p(&[])), "".to_string());
    assert_eq!(join_path(&p(&["a"])), "a".to_string());
}

#[test]
fn default_config_values() {
    let c = default_config();
    assert_eq!(c.input_root, p(&["input"]));
    assert_eq!(c.output_root, p(&["_build"]));
    assert_eq!(c.thumbnail, BoxSize { width: 450, height: 300 });
    assert!(c.resize.is_none());
    assert_eq!(default_extensions(), vec!["jpg".to_string()]);
}
