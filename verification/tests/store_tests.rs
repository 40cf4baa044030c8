use videohost::names::{generate, generate_with_ids};
use videohost::store::{ContentStore, ErrorKind};

#[test]
fn write_then_read_returns_exactly_the_data() {
    let mut store = ContentStore::new();
    let name = String::from("clip.mp4");
    let data: Vec<u8> = vec![0, 1, 2, 3, 254, 255];

    assert!(!store.exists_file(&name));
    assert!(store.validate_video_not_exists(&name));

    let written = store.write(&name, &data);
    assert!(written.is_ok());

    assert!(store.exists_file(&name));
    assert!(!store.validate_video_not_exists(&name));

    let (bytes, mime) = store.read(&name).unwrap();
    assert_eq!(bytes, data);
    assert_eq!(mime, "video/mp4");
}

#[test]
fn absent_names_do_not_exist() {
    let store = ContentStore::new();
    assert!(!store.exists_file(&String::from("nothing.mp4")));
    assert_eq!(store.count(), 0);
}

#[test]
fn read_of_absent_name_is_not_found() {
    let store = ContentStore::new();
    let r = store.read(&String::from("none.mp4"));
    assert_eq!(r.unwrap_err(), ErrorKind::NotFound);
}

#[test]
fn write_of_traversal_name_is_invalid_name() {
    let mut store = ContentStore::new();
    let r = store.write(&String::from("../evil.mp4"), &vec![1]);
    assert_eq!(r.unwrap_err(), ErrorKind::InvalidName);
    assert_eq!(store.count(), 0);
}

#[test]
fn second_write_of_same_name_is_io_failure() {
    let mut store = ContentStore::new();
    let name = String::from("twice.mp4");
    assert!(store.write(&name, &vec![1]).is_ok());
    let r = store.write(&name, &vec![2]);
    assert_eq!(r.unwrap_err(), ErrorKind::IoFailure);
    let (bytes, _) = store.read(&name).unwrap();
    assert_eq!(bytes, vec![1]);
}

#[test]
fn separator_names_are_treated_as_not_existing() {
    let mut store = ContentStore::new();
    assert!(store.write(&String::from("ok.mp4"), &vec![1]).is_ok());
    assert!(!store.exists_file(&String::from("../ok.mp4")));
    assert!(!store.exists_file(&String::from("..")));
    assert!(!store.exists_file(&String::from("a/b.mp4")));
    assert!(!store.exists_file(&String::from("a\\b.mp4")));
}

#[test]
fn generator_skips_a_colliding_name() {
    let mut store = ContentStore::new();
    assert!(store.write(&String::from("taken.mp4"), &vec![9]).is_ok());

    let ids = vec![String::from("taken"), String::from("fresh")];
    let name = generate_with_ids(&store, &ids).unwrap();
    assert_eq!(name, "fresh.mp4");
    assert!(store.validate_video_not_exists(&name));
}

#[test]
fn generator_gives_up_when_every_candidate_collides() {
    let mut store = ContentStore::new();
    assert!(store.write(&String::from("a.mp4"), &vec![1]).is_ok());
    assert!(store.write(&String::from("b.mp4"), &vec![2]).is_ok());

    let ids = vec![String::from("a"), String::from("b")];
    let r = generate_with_ids(&store, &ids);
    assert_eq!(r.unwrap_err(), ErrorKind::NameSpaceExhausted);
}

#[test]
fn generator_skips_a_separator_candidate() {
    let store = ContentStore::new();
    let ids = vec![String::from("../up"), String::from("good")];
    let name = generate_with_ids(&store, &ids).unwrap();
    assert_eq!(name, "good.mp4");
}

#[test]
fn random_names_are_fresh_and_well_shaped() {
    let store = ContentStore::new();
    let name = generate(&store).unwrap();
    assert_eq!(name.len(), 25);
    assert!(name.ends_with(".mp4"));
    let id = &name[..21];
    assert!(id
        .chars()
        .all(|c| c == '_' || c == '-' || c.is_ascii_alphanumeric()));
    assert!(store.validate_video_not_exists(&name));
}

#[test]
fn two_random_names_differ() {
    let store = ContentStore::new();
    let a = generate(&store).unwrap();
    let b = generate(&store).unwrap();
    assert_ne!(a, b);
}
