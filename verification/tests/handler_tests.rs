use videohost::bundle::AssetBundle;
use videohost::handlers::{
    handle_static, handle_static_videos, upload, upload_with_ids, MultipartField,
};
use videohost::response::{access_log_line, send_404};
use videohost::store::ContentStore;

fn demo_bundle() -> AssetBundle {
    let mut bundle = AssetBundle::new();
    assert!(bundle.insert(String::from("index.html"), b"<html>home</html>".to_vec()));
    assert!(bundle.insert(String::from("css/style.css"), b"body{}".to_vec()));
    bundle
}

#[test]
fn root_serves_index_html() {
    let bundle = demo_bundle();
    let r = handle_static(&bundle, &None);
    assert_eq!(r.status, 200);
    assert_eq!(r.body, b"<html>home</html>".to_vec());
    assert_eq!(r.content_type, Some(String::from("text/html")));
}

#[test]
fn leading_slash_is_stripped_for_assets() {
    let bundle = demo_bundle();
    let r = handle_static(&bundle, &Some(String::from("/css/style.css")));
    assert_eq!(r.status, 200);
    assert_eq!(r.body, b"body{}".to_vec());
    assert_eq!(r.content_type, Some(String::from("text/css")));
}

#[test]
fn empty_path_defaults_to_index_html() {
    let bundle = demo_bundle();
    let r = handle_static(&bundle, &Some(String::from("")));
    assert_eq!(r.status, 200);
    assert_eq!(r.body, b"<html>home</html>".to_vec());
    let slash_only = handle_static(&bundle, &Some(String::from("/")));
    assert_eq!(slash_only.status, 200);
    assert_eq!(slash_only.body, b"<html>home</html>".to_vec());
}

#[test]
fn unknown_extension_defaults_to_text_plain() {
    let mut bundle = AssetBundle::new();
    assert!(bundle.insert(String::from("notes.unknownext"), b"hello".to_vec()));
    let r = handle_static(&bundle, &Some(String::from("notes.unknownext")));
    assert_eq!(r.status, 200);
    assert_eq!(r.content_type, Some(String::from("text/plain")));
}

#[test]
fn missing_asset_is_404_with_empty_body() {
    let bundle = demo_bundle();
    let r = handle_static(&bundle, &Some(String::from("nonexistent.file")));
    assert_eq!(r.status, 404);
    assert!(r.body.is_empty());
    assert_eq!(r.content_type, None);
}

#[test]
fn traversal_against_static_route_is_404() {
    let bundle = demo_bundle();
    let r = handle_static(&bundle, &Some(String::from("../../etc/passwd")));
    assert_eq!(r.status, 404);
    assert!(r.body.is_empty());
}

#[test]
fn bundle_refuses_escaping_and_duplicate_paths() {
    let mut bundle = demo_bundle();
    assert!(!bundle.insert(String::from("../escape.html"), vec![1]));
    assert!(!bundle.insert(String::from("/absolute.html"), vec![1]));
    assert!(!bundle.insert(String::from("index.html"), vec![1]));
}

#[test]
fn missing_video_is_404_with_text_body() {
    let store = ContentStore::new();
    let r = handle_static_videos(&store, &Some(String::from("does-not-exist.mp4")));
    assert_eq!(r.status, 404);
    assert_eq!(r.body, b"Video does not exist.".to_vec());
    assert_eq!(r.content_type, None);
}

#[test]
fn absent_video_path_defaults_to_sentinel_miss() {
    let store = ContentStore::new();
    let r = handle_static_videos(&store, &None);
    assert_eq!(r.status, 404);
    assert_eq!(r.body, b"Video does not exist.".to_vec());
}

#[test]
fn traversal_against_video_route_is_404() {
    let mut store = ContentStore::new();
    assert!(store.write(&String::from("real.mp4"), &vec![7]).is_ok());
    let r = handle_static_videos(&store, &Some(String::from("../../etc/passwd")));
    assert_eq!(r.status, 404);
    assert_eq!(r.body, b"Video does not exist.".to_vec());
}

#[test]
fn uploaded_video_is_served_back() {
    let mut store = ContentStore::new();
    let data: Vec<u8> = vec![1, 2, 3, 4, 5];
    let fields = vec![MultipartField {
        name: String::from("file"),
        data: data.clone(),
    }];
    let ids = vec![String::from("abc123")];

    let up = upload_with_ids(&mut store, &fields, &ids);
    assert_eq!(up.status, 200);
    assert_eq!(
        up.body,
        b"Video uploaded successfully: ?watch=abc123".to_vec()
    );

    let r = handle_static_videos(&store, &Some(String::from("abc123.mp4")));
    assert_eq!(r.status, 200);
    assert_eq!(r.body, data);
    assert_eq!(r.content_type, Some(String::from("video/mp4")));
}

#[test]
fn upload_processes_only_the_first_file_field() {
    let mut store = ContentStore::new();
    let fields = vec![
        MultipartField {
            name: String::from("other"),
            data: vec![9, 9],
        },
        MultipartField {
            name: String::from("file"),
            data: vec![1],
        },
        MultipartField {
            name: String::from("file"),
            data: vec![2],
        },
    ];
    let ids = vec![String::from("first"), String::from("second")];

    let up = upload_with_ids(&mut store, &fields, &ids);
    assert_eq!(up.status, 200);
    assert_eq!(
        up.body,
        b"Video uploaded successfully: ?watch=first".to_vec()
    );
    assert_eq!(store.count(), 1);
    let (bytes, _) = store.read(&String::from("first.mp4")).unwrap();
    assert_eq!(bytes, vec![1]);
}

#[test]
fn upload_without_file_field_announces_sentinel_and_stores_nothing() {
    let mut store = ContentStore::new();
    let fields = vec![MultipartField {
        name: String::from("other"),
        data: vec![1, 2, 3],
    }];

    let r = upload(&mut store, &fields);
    assert_eq!(r.status, 200);
    assert_eq!(
        r.body,
        b"Video uploaded successfully: ?watch=[[Something went wro".to_vec()
    );
    assert_eq!(store.count(), 0);
}

#[test]
fn upload_with_exhausted_ids_is_500_and_stores_nothing() {
    let mut store = ContentStore::new();
    assert!(store.write(&String::from("only.mp4"), &vec![1]).is_ok());
    let fields = vec![MultipartField {
        name: String::from("file"),
        data: vec![5],
    }];
    let ids = vec![String::from("only")];

    let r = upload_with_ids(&mut store, &fields, &ids);
    assert_eq!(r.status, 500);
    assert_eq!(r.body, b"Failed to save video to disk.".to_vec());
    assert_eq!(store.count(), 1);
}

#[test]
fn random_upload_announces_id_of_fixed_length_and_round_trips() {
    let mut store = ContentStore::new();
    let data: Vec<u8> = (0u16..300).map(|b| (b % 251) as u8).collect();
    let fields = vec![MultipartField {
        name: String::from("file"),
        data: data.clone(),
    }];

    let r = upload(&mut store, &fields);
    assert_eq!(r.status, 200);
    let body = String::from_utf8(r.body).unwrap();
    let prefix = "Video uploaded successfully: ?watch=";
    assert!(body.starts_with(prefix));
    let id = &body[prefix.len()..];
    assert_eq!(id.len(), 21);
    assert!(!id.contains(".mp4"));

    let fetched = handle_static_videos(&store, &Some(format!("{}.mp4", id)));
    assert_eq!(fetched.status, 200);
    assert_eq!(fetched.body, data);
    assert_eq!(fetched.content_type, Some(String::from("video/mp4")));
}

#[test]
fn upload_succeeds_when_no_candidate_shaped_name_is_stored() {
    let mut store = ContentStore::new();
    assert!(store.write(&String::from("short.mp4"), &vec![1]).is_ok());
    let fields = vec![MultipartField {
        name: String::from("file"),
        data: vec![42],
    }];
    let r = upload(&mut store, &fields);
    assert_eq!(r.status, 200);
    assert_eq!(store.count(), 2);
}

#[test]
fn unmatched_route_response() {
    let r = send_404();
    assert_eq!(r.status, 404);
    assert_eq!(r.body, b"404 Not Found".to_vec());
    assert_eq!(r.content_type, None);
}

#[test]
fn access_log_line_is_exact() {
    let line = access_log_line(
        &String::from("203.0.113.9"),
        "public_html",
        "index.html",
        "text/html",
    );
    assert_eq!(
        line,
        "Serving 203.0.113.9 public_html/index.html (MIME type: text/html)"
    );
}
