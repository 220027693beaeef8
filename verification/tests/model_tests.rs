use pairing_core::model::{
    image_relative_dir, is_image_file, keychain_account, license_token_account,
    AppSettingChangedPayload, DataChangeEvent, ImageDeletedPayload, ImageMetadata,
    ImageUpsertedPayload,
};

#[test]
fn image_extensions_are_recognized() {
    assert!(is_image_file("photo.jpg"));
    assert!(is_image_file("photo.JPEG"));
    assert!(is_image_file("a.webp"));
    assert!(is_image_file("snapshot.Png"));
    assert!(is_image_file("anim.gif"));
    assert!(is_image_file("old.BMP"));
}

#[test]
fn non_image_names_are_rejected() {
    assert!(!is_image_file("archive.tar.gz"));
    assert!(!is_image_file("noext"));
    assert!(!is_image_file(".png"));
    assert!(!is_image_file("trailing."));
    assert!(!is_image_file("movie.mp4"));
    assert!(!is_image_file(""));
}

#[test]
fn extension_is_judged_after_the_last_dot() {
    assert!(is_image_file("my.backup.png"));
    assert!(!is_image_file("my.png.bak"));
}

#[test]
fn event_kinds_carry_wire_names() {
    let upsert = DataChangeEvent::ImageUpserted(ImageUpsertedPayload {
        id: "i".to_string(),
        original_file_name: "o".to_string(),
        saved_file_name: "s".to_string(),
        image_type: "processed".to_string(),
        created_at: "t".to_string(),
        display_started_at: None,
    });
    assert_eq!(upsert.event_kind(), "image-upserted");
    let deleted = DataChangeEvent::ImageDeleted(ImageDeletedPayload { id: "i".to_string() });
    assert_eq!(deleted.event_kind(), "image-deleted");
    assert_eq!(DataChangeEvent::BackgroundChanged.event_kind(), "background-changed");
    let setting = DataChangeEvent::AppSettingChanged(AppSettingChangedPayload {
        key: "k".to_string(),
        value: "v".to_string(),
    });
    assert_eq!(setting.event_kind(), "app-setting-changed");
}

#[test]
fn upsert_payload_copies_metadata_fields() {
    let meta = ImageMetadata {
        id: "id-1".to_string(),
        original_file_name: "cat.png".to_string(),
        saved_file_name: "id-1.png".to_string(),
        image_type: "processed".to_string(),
        created_at: "2024-01-01".to_string(),
        size: 1234,
        width: Some(640),
        height: Some(480),
        storage_location: "/data".to_string(),
        file_path: None,
        is_hidden: 0,
        display_started_at: Some("2024-01-02".to_string()),
    };
    let payload = ImageUpsertedPayload::from_metadata(&meta);
    assert_eq!(payload.id, "id-1");
    assert_eq!(payload.original_file_name, "cat.png");
    assert_eq!(payload.saved_file_name, "id-1.png");
    assert_eq!(payload.image_type, "processed");
    assert_eq!(payload.created_at, "2024-01-01");
    assert_eq!(payload.display_started_at.as_deref(), Some("2024-01-02"));
}

#[test]
fn image_types_map_to_storage_subdirs() {
    assert_eq!(image_relative_dir("original"), "images/originals");
    assert_eq!(image_relative_dir("background"), "images/backgrounds");
    assert_eq!(image_relative_dir("processed"), "images/processed");
    assert_eq!(image_relative_dir("bgm"), "audio");
    assert_eq!(image_relative_dir("sound_effect"), "audio");
    assert_eq!(image_relative_dir("soundEffect"), "audio");
    assert_eq!(image_relative_dir("anything-else"), "images/processed");
}

#[test]
fn keychain_accounts_have_fixed_names() {
    let (service, account) = keychain_account("prod");
    assert_eq!(service, "nuriemon");
    assert_eq!(account, "event_setup_secret:prod");
    let (service, account) = license_token_account();
    assert_eq!(service, "nuriemon");
    assert_eq!(account, "license_device_token");
}
