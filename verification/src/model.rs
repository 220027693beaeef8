//! Plain data records exchanged with the collaborators at the system's
//! boundary (metadata store, auto-import pipeline, desktop event bus), the
//! data-change events with their wire names, and the image file-name test
//! used by the auto-import pipeline.

use vstd::prelude::*;
use crate::text::{char_len, ci_eq, str_ci_eq, str_eq, str_suffix_from};

verus! {

/// Stored image row of the metadata store.
#[derive(Debug, Clone)]
pub struct ImageMetadata {
    pub id: String,
    pub original_file_name: String,
    pub saved_file_name: String,
    pub image_type: String,
    pub created_at: String,
    pub size: i64,
    pub width: Option<i32>,
    pub height: Option<i32>,
    pub storage_location: String,
    pub file_path: Option<String>,
    pub is_hidden: i32,
    pub display_started_at: Option<String>,
}

/// One page entry of the processed-image preview listing.
#[derive(Debug, Clone)]
pub struct ProcessedImagePreview {
    pub cursor: i64,
    pub id: String,
    pub original_file_name: String,
    pub saved_file_name: String,
    pub created_at: String,
    pub display_started_at: Option<String>,
}

/// Per-user storage settings row.
#[derive(Debug)]
pub struct UserSettings {
    pub id: String,
    pub storage_location: String,
    pub location_type: String,
    pub created_at: String,
    pub updated_at: String,
}

/// Result of one external image-processing run.
#[derive(Clone)]
pub struct ProcessResult {
    pub success: bool,
    pub image: Option<String>,
    pub error: Option<String>,
}

/// Auto-import has picked a file up.
#[derive(Debug, Clone)]
pub struct AutoImportStarted {
    pub image_id: String,
    pub original_path: String,
}

/// Auto-import failed on a file.
#[derive(Debug, Clone)]
pub struct AutoImportError {
    pub image_id: String,
    pub error: String,
}

/// Payload of an image-upserted event.
#[derive(Debug, Clone)]
pub struct ImageUpsertedPayload {
    pub id: String,
    pub original_file_name: String,
    pub saved_file_name: String,
    pub image_type: String,
    pub created_at: String,
    pub display_started_at: Option<String>,
}

impl ImageUpsertedPayload {
    /// The event payload announcing `meta` was inserted or updated.
    pub fn from_metadata(meta: &ImageMetadata) -> (r: ImageUpsertedPayload)
        ensures
            r.id@ == meta.id@,
            r.original_file_name@ == meta.original_file_name@,
            r.saved_file_name@ == meta.saved_file_name@,
            r.image_type@ == meta.image_type@,
            r.created_at@ == meta.created_at@,
            r.display_started_at == meta.display_started_at,
    {
        ImageUpsertedPayload {
            id: meta.id.clone(),
            original_file_name: meta.original_file_name.clone(),
            saved_file_name: meta.saved_file_name.clone(),
            image_type: meta.image_type.clone(),
            created_at: meta.created_at.clone(),
            display_started_at: match &meta.display_started_at {
                Some(s) => Some(s.clone()),
                None => None,
            },
        }
    }
}

/// Payload of an image-deleted event.
#[derive(Debug, Clone)]
pub struct ImageDeletedPayload {
    pub id: String,
}

/// Payload of an audio-updated event.
#[derive(Debug, Clone)]
pub struct AudioUpdatedPayload {
    pub audio_type: String,
}

/// Payload of an animation-settings-changed event.
#[derive(Debug, Clone)]
pub struct AnimationSettingsChangedPayload {
    pub image_id: String,
}

/// Payload of a ground-position-changed event.
#[derive(Debug, Clone)]
pub struct GroundPositionChangedPayload {
    pub position: i32,
}

/// Payload of a deletion-time-changed event.
#[derive(Debug, Clone)]
pub struct DeletionTimeChangedPayload {
    pub time: String,
}

/// Payload of an app-setting-changed event.
#[derive(Debug, Clone)]
pub struct AppSettingChangedPayload {
    pub key: String,
    pub value: String,
}

/// A change of persisted data, published to every desktop window.
#[derive(Debug, Clone)]
pub enum DataChangeEvent {
    ImageUpserted(ImageUpsertedPayload),
    ImageDeleted(ImageDeletedPayload),
    AudioUpdated(AudioUpdatedPayload),
    BackgroundChanged,
    AnimationSettingsChanged(AnimationSettingsChangedPayload),
    GroundPositionChanged(GroundPositionChangedPayload),
    DeletionTimeChanged(DeletionTimeChangedPayload),
    AppSettingChanged(AppSettingChangedPayload),
}

impl DataChangeEvent {
    /// The wire name of this event kind, as the desktop front end expects
    /// it.
    pub fn event_kind(&self) -> (r: &'static str)
        ensures
            match self {
                DataChangeEvent::ImageUpserted(_) => r@ == "image-upserted"@,
                DataChangeEvent::ImageDeleted(_) => r@ == "image-deleted"@,
                DataChangeEvent::AudioUpdated(_) => r@ == "audio-updated"@,
                DataChangeEvent::BackgroundChanged => r@ == "background-changed"@,
                DataChangeEvent::AnimationSettingsChanged(_) => r@ == "animation-settings-changed"@,
                DataChangeEvent::GroundPositionChanged(_) => r@ == "ground-position-changed"@,
                DataChangeEvent::DeletionTimeChanged(_) => r@ == "deletion-time-changed"@,
                DataChangeEvent::AppSettingChanged(_) => r@ == "app-setting-changed"@,
            },
    {
        match self {
            DataChangeEvent::ImageUpserted(_) => "image-upserted",
            DataChangeEvent::ImageDeleted(_) => "image-deleted",
            DataChangeEvent::AudioUpdated(_) => "audio-updated",
            DataChangeEvent::BackgroundChanged => "background-changed",
            DataChangeEvent::AnimationSettingsChanged(_) => "animation-settings-changed",
            DataChangeEvent::GroundPositionChanged(_) => "ground-position-changed",
            DataChangeEvent::DeletionTimeChanged(_) => "deletion-time-changed",
            DataChangeEvent::AppSettingChanged(_) => "app-setting-changed",
        }
    }
}

/// Directory under the storage location where files of `image_type` live,
/// used when a stored row carries no full file path.
pub fn image_relative_dir(image_type: &str) -> (r: &'static str)
    ensures
        image_type@ == "original"@ ==> r@ == "images/originals"@,
        image_type@ == "background"@ ==> r@ == "images/backgrounds"@,
        (image_type@ == "bgm"@ || image_type@ == "sound_effect"@ || image_type@ == "soundEffect"@)
            ==> r@ == "audio"@,
        (image_type@ != "original"@ && image_type@ != "background"@ && image_type@ != "bgm"@
            && image_type@ != "sound_effect"@ && image_type@ != "soundEffect"@) ==> r@
            == "images/processed"@,
{
    proof {
        reveal_strlit("original");
        reveal_strlit("background");
        reveal_strlit("bgm");
        reveal_strlit("sound_effect");
        reveal_strlit("soundEffect");
        assert("original"@.len() == 8);
        assert("background"@.len() == 10);
        assert("bgm"@.len() == 3);
        assert("sound_effect"@.len() == 12);
        assert("soundEffect"@.len() == 11);
    }
    if str_eq(image_type, "original") {
        "images/originals"
    } else if str_eq(image_type, "background") {
        "images/backgrounds"
    } else if str_eq(image_type, "bgm") || str_eq(image_type, "sound_effect") || str_eq(
        image_type,
        "soundEffect",
    ) {
        "audio"
    } else {
        "images/processed"
    }
}

/// Keychain coordinates (service, account) of the per-environment event
/// setup secret.
pub fn keychain_account(env: &str) -> (r: (String, String))
    ensures
        r.0@ == "nuriemon"@,
        r.1@ == "event_setup_secret:"@ + env@,
{
    let service = String::from_str("nuriemon");
    let mut account = String::from_str("event_setup_secret:");
    account.append(env);
    (service, account)
}

/// Keychain coordinates (service, account) of the license device token.
pub fn license_token_account() -> (r: (String, String))
    ensures
        r.0@ == "nuriemon"@,
        r.1@ == "license_device_token"@,
{
    (String::from_str("nuriemon"), String::from_str("license_device_token"))
}

/// Position `i` holds the last dot of `s`, not in first position.
pub open spec fn last_dot_at(s: Seq<char>, i: int) -> bool {
    0 < i < s.len() && s[i] == '.' && forall|j: int| i < j < s.len() ==> s[j] != '.'
}

/// The extension names a supported image format, case-insensitively.
pub open spec fn image_ext(e: Seq<char>) -> bool {
    ci_eq(e, "jpg"@) || ci_eq(e, "jpeg"@) || ci_eq(e, "png"@) || ci_eq(e, "gif"@) || ci_eq(
        e,
        "bmp"@,
    ) || ci_eq(e, "webp"@)
}

/// The file name carries an image extension.
pub open spec fn is_image_name(s: Seq<char>) -> bool {
    exists|i: int| #[trigger] last_dot_at(s, i) && image_ext(s.subrange(i + 1, s.len() as int))
}

proof fn lemma_last_dot_unique(s: Seq<char>, i: int, k: int)
    requires
        last_dot_at(s, i),
        last_dot_at(s, k),
    ensures
        i == k,
{
    if i < k {
        assert(s[k] != '.');
    }
    if k < i {
        assert(s[i] != '.');
    }
}

/// Whether the file name (its last path component) names an image the
/// auto-import pipeline accepts, judged by its extension.
pub fn is_image_file(name: &str) -> (r: bool)
    ensures
        r == is_image_name(name@),
{
    let n = char_len(name);
    let mut i: usize = n;
    while i > 0
        invariant
            i <= n,
            n == name@.len(),
            forall|j: int| i <= j < n ==> name@[j] != '.',
        decreases i,
    {
        i -= 1;
        if name.get_char(i) == '.' {
            if i == 0 {
                proof {
                    assert forall|k: int| !(#[trigger] last_dot_at(name@, k)) by {
                        if last_dot_at(name@, k) {
                            assert(name@[k] == '.');
                            assert(k == 0 || k > i as int);
                        }
                    }
                }
                return false;
            }
            let ext = str_suffix_from(name, i + 1);
            let hit = str_ci_eq(ext, "jpg") || str_ci_eq(ext, "jpeg") || str_ci_eq(ext, "png")
                || str_ci_eq(ext, "gif") || str_ci_eq(ext, "bmp") || str_ci_eq(ext, "webp");
            proof {
                assert(last_dot_at(name@, i as int));
                if !hit {
                    assert forall|k: int|
                        last_dot_at(name@, k) implies !image_ext(
                        name@.subrange(k + 1, name@.len() as int),
                    ) by {
                        lemma_last_dot_unique(name@, i as int, k);
                    }
                }
            }
            return hit;
        }
    }
    proof {
        assert forall|k: int| !(#[trigger] last_dot_at(name@, k)) by {
            if last_dot_at(name@, k) {
                assert(name@[k] == '.');
            }
        }
    }
    false
}

} // verus!
