use image_host::db::{
    check_image_exists, expiry_cutoff, generate_image_id, insert_image, IdAnswer, IdCandidate,
    IdSearch, ImageUpdate, NewImage, FRESH_LEVEL, ID_LENGTH, RETENTION_MILLIS,
};
use image_host::error::PipelineError;
use image_host::util::{ImageId, ID_CHARSET};

#[test]
fn check_image_exists_from_the_count() {
    assert!(!check_image_exists(0));
    assert!(check_image_exists(1));
    assert!(check_image_exists(u64::MAX));
}

#[test]
fn insert_image_carries_every_field() {
    let id = ImageId("bcdfg".to_string());
    let data = vec![1u8, 2, 3];
    let thumbnail_data = vec![4u8, 5];
    let image = NewImage {
        id: &id,
        size: (640, 480),
        optim_level: 1,
        data: &data,
        content_type: "image/webp",
        thumbnail_data: &thumbnail_data,
        thumbnail_content_type: "image/png",
    };
    assert_eq!(
        insert_image(&image, 1_700_000_000_000),
        ImageUpdate {
            id: "bcdfg".to_string(),
            date_on_insert: 1_700_000_000_000,
            last_seen_on_insert: 1_700_000_000_000,
            data: vec![1, 2, 3],
            content_type: "image/webp".to_string(),
            width: 640,
            height: 480,
            thumbnail_data: vec![4, 5],
            thumbnail_content_type: "image/png".to_string(),
            optim_level: 1,
        }
    );
}

#[test]
fn insert_image_stores_width_and_height_apart() {
    let id = ImageId("x".to_string());
    let empty = Vec::new();
    let image = NewImage {
        id: &id,
        size: (72, 256),
        optim_level: FRESH_LEVEL,
        data: &empty,
        content_type: "",
        thumbnail_data: &empty,
        thumbnail_content_type: "",
    };
    let update = insert_image(&image, -5);
    assert_eq!((update.width, update.height), (72, 256));
    assert_eq!(update.optim_level, 0);
    assert_eq!((update.date_on_insert, update.last_seen_on_insert), (-5, -5));
}

fn first_candidate() -> IdCandidate {
    match generate_image_id(None) {
        IdSearch::Check(candidate) => candidate,
        IdSearch::Done(_) => panic!("nothing was asked yet"),
    }
}

#[test]
fn generate_image_id_starts_with_a_candidate() {
    let candidate = first_candidate();
    assert_eq!(candidate.id().0.chars().count(), ID_LENGTH);
    assert_eq!(candidate.id().0.len(), 5);
    assert!(candidate.id().0.chars().all(|c| ID_CHARSET.contains(c)));
}

#[test]
fn generate_image_id_accepts_an_id_that_is_free() {
    let candidate = first_candidate();
    let id = candidate.id().clone();
    assert_eq!(
        generate_image_id(Some(IdAnswer { candidate, exists: Ok(false) })),
        IdSearch::Done(Ok(id))
    );
}

#[test]
fn generate_image_id_never_returns_an_id_that_exists() {
    let mut candidate = first_candidate();
    for _ in 0..50 {
        match generate_image_id(Some(IdAnswer { candidate, exists: Ok(true) })) {
            IdSearch::Check(next) => {
                assert_eq!(next.id().0.len(), 5);
                assert!(next.id().0.chars().all(|c| ID_CHARSET.contains(c)));
                candidate = next;
            }
            IdSearch::Done(_) => panic!("an id that exists must not end the search"),
        }
    }
}

#[test]
fn generate_image_id_search_ends_once_an_id_is_free() {
    // a store that holds every id that starts with a letter
    let mut step = generate_image_id(None);
    let mut asked = 0;
    let mut refused: Vec<ImageId> = Vec::new();
    let id = loop {
        match step {
            IdSearch::Check(candidate) => {
                asked += 1;
                assert!(asked < 10_000);
                let exists = candidate.id().0.chars().next().unwrap().is_alphabetic();
                if exists {
                    refused.push(candidate.id().clone());
                }
                step = generate_image_id(Some(IdAnswer { candidate, exists: Ok(exists) }));
            }
            IdSearch::Done(result) => break result.unwrap(),
        }
    };
    assert_eq!(id.0.len(), 5);
    assert!(!id.0.chars().next().unwrap().is_alphabetic());
    assert!(!refused.contains(&id));
}

#[test]
fn generate_image_id_gives_up_on_a_store_error() {
    let answer = IdAnswer { candidate: first_candidate(), exists: Err("no route".to_string()) };
    assert_eq!(
        generate_image_id(Some(answer)),
        IdSearch::Done(Err(PipelineError::StoreUnavailable("no route".to_string())))
    );
}

#[test]
fn expiry_cutoff_is_a_year_back() {
    assert_eq!(RETENTION_MILLIS, 365 * 24 * 60 * 60 * 1000);
    assert_eq!(expiry_cutoff(1_700_000_000_000, RETENTION_MILLIS), 1_668_464_000_000);
    assert_eq!(expiry_cutoff(0, RETENTION_MILLIS), -31_536_000_000);
    assert_eq!(expiry_cutoff(i64::MIN + RETENTION_MILLIS, RETENTION_MILLIS), i64::MIN);
    assert_eq!(expiry_cutoff(i64::MAX, RETENTION_MILLIS), i64::MAX - 31_536_000_000);
}

#[test]
fn expiry_cutoff_follows_the_retention_time() {
    assert_eq!(expiry_cutoff(1_000, 0), 1_000);
    assert_eq!(expiry_cutoff(1_000, 250), 750);
    assert_eq!(expiry_cutoff(i64::MAX - 5, -5), i64::MAX);
}
