use photo_gallery::form::{decode_text, field_kind, FieldKind, UploadForm, ValidationError};
use photo_gallery::model::{Photo, Timestamp};
use photo_gallery::naming::{generate_name, name_with_token, stored_extension_of, upload_path};
use photo_gallery::reply::{
    delete_outcome, file_failure_reply, list_reply, rejection_reply, upload_outcome, FileStage,
    ReplyBody, BAD_REQUEST, OK, SERVER_ERROR,
};
use photo_gallery::storage::StoreError;

fn sample_time() -> Timestamp {
    Timestamp { year: 2024, month: 5, day: 17, hour: 9, minute: 30, second: 0, nanosecond: 0 }
}

fn sample_photo(id: i32, filename: &str, title: &str) -> Photo {
    Photo {
        id,
        filename: filename.to_string(),
        title: title.to_string(),
        description: None,
        upload_time: sample_time(),
    }
}

fn error_text(body: &ReplyBody) -> String {
    match body {
        ReplyBody::Error(e) => e.clone(),
        other => panic!("expected an error body, got {:?}", other),
    }
}

fn is_token_text(t: &str) -> bool {
    t.len() == 36 && t.chars().all(|c| c.is_ascii_digit() || ('a'..='f').contains(&c) || c == '-')
}

#[test]
fn field_names_are_recognized() {
    assert_eq!(field_kind(Some("file")), FieldKind::File);
    assert_eq!(field_kind(Some("title")), FieldKind::Title);
    assert_eq!(field_kind(Some("description")), FieldKind::Description);
    assert_eq!(field_kind(Some("Title")), FieldKind::Other);
    assert_eq!(field_kind(Some("")), FieldKind::Other);
    assert_eq!(field_kind(Some("tags")), FieldKind::Other);
    assert_eq!(field_kind(None), FieldKind::Other);
}

#[test]
fn text_fields_decode_leniently() {
    assert_eq!(decode_text(b"Cat".to_vec()), "Cat");
    assert_eq!(decode_text("猫".as_bytes().to_vec()), "猫");
    assert_eq!(decode_text(Vec::new()), "");
    assert_eq!(decode_text(vec![0x43, 0xff, 0x61]), "");
}

#[test]
fn extension_is_taken_from_the_original_name() {
    assert_eq!(stored_extension_of("cat.png"), "png");
    assert_eq!(stored_extension_of("archive.tar.gz"), "gz");
    assert_eq!(stored_extension_of("photos/dog.jpeg"), "jpeg");
    assert_eq!(stored_extension_of("noext"), "jpg");
    assert_eq!(stored_extension_of(".hidden"), "jpg");
    assert_eq!(stored_extension_of("unknown"), "jpg");
    assert_eq!(stored_extension_of(""), "jpg");
}

#[test]
fn blob_name_joins_token_and_extension() {
    assert_eq!(name_with_token("abc", "cat.png"), "abc.png");
    assert_eq!(name_with_token("abc", "../../etc/passwd"), "abc.jpg");
    assert_eq!(name_with_token("abc", "a/b/c.webp"), "abc.webp");
}

#[test]
fn generated_names_are_fresh_tokens() {
    let a = generate_name(Some("cat.png"));
    let b = generate_name(Some("cat.png"));
    assert_ne!(a, b);
    assert!(a.ends_with(".png"));
    assert!(is_token_text(&a[..36]));
    assert_eq!(a.len(), 40);
    assert!(!a.contains('/'));

    let c = generate_name(None);
    assert!(c.ends_with(".jpg"));
    assert!(is_token_text(&c[..36]));
}

#[test]
fn upload_path_puts_the_blob_in_the_directory() {
    assert_eq!(upload_path("../uploads", "x.png"), "../uploads/x.png");
    assert_eq!(upload_path("", "x.png"), "/x.png");
}

#[test]
fn complete_form_gives_a_new_photo() {
    let mut form = UploadForm::new();
    let name = generate_name(Some("cat.png"));
    form.record_file(name.clone());
    form.record_title(b"Cat".to_vec());
    let p = form.finish().unwrap();
    assert_eq!(p.filename, name);
    assert!(p.filename.ends_with(".png"));
    assert_eq!(p.details.title, "Cat");
    assert_eq!(p.details.description, None);
}

#[test]
fn description_is_kept_when_not_empty() {
    let mut form = UploadForm::new();
    form.record_description(b"A sleepy cat".to_vec());
    form.record_title(b"Cat".to_vec());
    form.record_description(Vec::new());
    form.record_file("t.png".to_string());
    let p = form.finish().unwrap();
    assert_eq!(p.details.description, Some("A sleepy cat".to_string()));
    assert_eq!(p.details.title, "Cat");
}

#[test]
fn later_title_replaces_earlier() {
    let mut form = UploadForm::new();
    form.record_file("t.png".to_string());
    form.record_title(b"First".to_vec());
    form.record_title(b"Second".to_vec());
    assert_eq!(form.finish().unwrap().details.title, "Second");
}

#[test]
fn missing_title_is_refused() {
    let mut form = UploadForm::new();
    form.record_file("t.png".to_string());
    form.record_description(b"no title".to_vec());
    let e = form.finish().unwrap_err();
    assert_eq!(e, ValidationError { missing_file: false, missing_title: true });
}

#[test]
fn empty_or_broken_title_is_refused() {
    let mut form = UploadForm::new();
    form.record_file("t.png".to_string());
    form.record_title(Vec::new());
    assert!(form.finish().unwrap_err().missing_title);

    let mut form = UploadForm::new();
    form.record_file("t.png".to_string());
    form.record_title(vec![0xc3, 0x28]);
    assert!(form.finish().unwrap_err().missing_title);
}

#[test]
fn missing_file_is_refused() {
    let mut form = UploadForm::new();
    form.record_title(b"Cat".to_vec());
    assert_eq!(form.finish().unwrap_err(), ValidationError { missing_file: true, missing_title: false });

    let e = UploadForm::new().finish().unwrap_err();
    assert_eq!(e, ValidationError { missing_file: true, missing_title: true });
}

#[test]
fn refusal_reply_is_a_bad_request() {
    let r = rejection_reply(&ValidationError { missing_file: false, missing_title: true });
    assert_eq!(r.status, BAD_REQUEST);
    assert_eq!(error_text(&r.body), "Missing file or title");
}

#[test]
fn listing_reply_carries_every_photo() {
    let photos = vec![sample_photo(2, "b.png", "B"), sample_photo(1, "a.png", "A")];
    let r = list_reply(Ok(photos));
    assert_eq!(r.status, OK);
    match r.body {
        ReplyBody::Photos(v) => {
            assert_eq!(v.len(), 2);
            assert_eq!(v[0].id, 2);
            assert_eq!(v[1].id, 1);
        }
        other => panic!("unexpected body {:?}", other),
    }
}

#[test]
fn listing_failure_is_a_server_error() {
    let r = list_reply(Err(StoreError::Failed("pool timed out".to_string())));
    assert_eq!(r.status, SERVER_ERROR);
    assert_eq!(error_text(&r.body), "Database error: pool timed out");
}

#[test]
fn file_failures_are_reported() {
    let r = file_failure_reply(FileStage::Create, "permission denied");
    assert_eq!(r.status, SERVER_ERROR);
    assert_eq!(error_text(&r.body), "Failed to create file: permission denied");
    let r = file_failure_reply(FileStage::Write, "disk full");
    assert_eq!(error_text(&r.body), "Failed to write file: disk full");
}

#[test]
fn stored_upload_returns_the_photo() {
    let o = upload_outcome("up", "x.png", Ok(sample_photo(1, "x.png", "Cat")));
    assert!(o.remove.is_none());
    assert_eq!(o.reply.status, OK);
    match o.reply.body {
        ReplyBody::Created(p) => {
            assert_eq!(p.id, 1);
            assert_eq!(p.title, "Cat");
            assert_eq!(p.description, None);
        }
        other => panic!("unexpected body {:?}", other),
    }
}

#[test]
fn failed_insert_removes_the_blob() {
    let o = upload_outcome("up", "x.png", Err(StoreError::Failed("duplicate".to_string())));
    assert_eq!(o.remove, Some("up/x.png".to_string()));
    assert_eq!(o.reply.status, SERVER_ERROR);
    assert_eq!(error_text(&o.reply.body), "Database error: duplicate");
}

#[test]
fn deletion_removes_the_blob_and_acknowledges() {
    let o = delete_outcome("../uploads", Ok("x.png".to_string()));
    assert_eq!(o.remove, Some("../uploads/x.png".to_string()));
    assert_eq!(o.reply.status, OK);
    match o.reply.body {
        ReplyBody::Message(m) => assert_eq!(m, "Photo deleted successfully"),
        other => panic!("unexpected body {:?}", other),
    }
}

#[test]
fn deleting_a_missing_id_fails_and_removes_nothing() {
    let o = delete_outcome("../uploads", Err(StoreError::NotFound("no rows returned".to_string())));
    assert_eq!(o.remove, None);
    assert_eq!(o.reply.status, SERVER_ERROR);
    assert_eq!(error_text(&o.reply.body), "Database error: no rows returned");
}

#[test]
fn store_error_keeps_its_text() {
    assert_eq!(StoreError::NotFound("gone".to_string()).message(), "gone");
    assert_eq!(StoreError::Failed("down".to_string()).message(), "down");
}

#[test]
fn upload_list_delete_scenario() {
    let mut form = UploadForm::new();
    let name = generate_name(Some("cat.png"));
    form.record_file(name.clone());
    form.record_title(b"Cat".to_vec());
    let p = form.finish().unwrap();
    assert!(p.filename.ends_with(".png"));

    let stored = Photo {
        id: 1,
        filename: p.filename.clone(),
        title: p.details.title.clone(),
        description: p.details.description.clone(),
        upload_time: sample_time(),
    };
    let created = upload_outcome("up", &p.filename, Ok(stored.clone()));
    assert_eq!(created.reply.status, OK);

    let listed = list_reply(Ok(vec![stored]));
    match listed.body {
        ReplyBody::Photos(v) => {
            assert_eq!(v.len(), 1);
            assert_eq!(v[0].id, 1);
            assert_eq!(v[0].title, "Cat");
            assert_eq!(v[0].description, None);
        }
        other => panic!("unexpected body {:?}", other),
    }

    let deleted = delete_outcome("up", Ok(name.clone()));
    assert_eq!(deleted.remove, Some(format!("up/{}", name)));
    match deleted.reply.body {
        ReplyBody::Message(m) => assert_eq!(m, "Photo deleted successfully"),
        other => panic!("unexpected body {:?}", other),
    }

    match list_reply(Ok(Vec::new())).body {
        ReplyBody::Photos(v) => assert!(v.is_empty()),
        other => panic!("unexpected body {:?}", other),
    }
}
