use pl_core::asr::{AsrError, TranscriptDelta};
use pl_core::ocr::{OcrBlock, OcrError};
use pl_core::storage::{StorageError, MAX_POOL_CONNECTIONS};
use pl_core::store::Artifact;

#[test]
fn provider_errors_have_their_messages() {
    assert_eq!(AsrError::Provider(String::from("timeout")).message(), "Provider error: timeout");
    assert_eq!(
        OcrError::Provider(String::from("no model")).message(),
        "OCR provider error: no model"
    );
    assert_eq!(AsrError::Provider(String::new()).message(), "Provider error: ");
}

#[test]
fn storage_errors_have_their_message() {
    assert_eq!(
        StorageError::Connection(String::from("unable to open database file")).message(),
        "Db connection error: unable to open database file"
    );
}

#[test]
fn the_pool_is_bounded_by_five_connections() {
    assert_eq!(MAX_POOL_CONNECTIONS, 5);
}

#[test]
fn a_transcript_delta_carries_its_fields() {
    let delta =
        TranscriptDelta { lang: String::from("zh"), text: String::from("hello"), is_final: false };
    let copy = delta.clone();
    assert_eq!((copy.lang.as_str(), copy.text.as_str(), copy.is_final), ("zh", "hello", false));
}

#[test]
fn an_ocr_block_clones_field_by_field() {
    let block = OcrBlock { bbox: (0, 0, 100, 40), text: String::from("demo") };
    let copy = block.clone();
    assert_eq!(copy.bbox, (0, 0, 100, 40));
    assert_eq!(copy.text, "demo");
}

#[test]
fn an_artifact_is_an_identifier_and_bytes() {
    let artifact = Artifact { id: String::from("img-x"), bytes: vec![1, 2, 3] };
    assert_eq!(artifact.id, "img-x");
    assert_eq!(artifact.bytes, vec![1, 2, 3]);
}
