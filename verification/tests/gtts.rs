//! The Google translate backend: percent-encoding, the length ceiling,
//! and the request URL.

use natural_tts::models::gtts::languages::Languages;
use natural_tts::models::gtts::url::EncodedFragment;
use natural_tts::models::gtts::GttsModel;
use natural_tts::utils::{get_path, usize_to_string};
use natural_tts::TtsError;

#[test]
fn fragmenter_escapes_the_fragment_set() {
    let f = EncodedFragment::fragmenter("Hello, World!").unwrap();
    assert_eq!(f.encoded, "Hello,%20World!");
    assert_eq!(f.decoded, "Hello, World!");
}

#[test]
fn fragmenter_escapes_controls_and_non_ascii() {
    let f = EncodedFragment::fragmenter("a\tb\"<>`").unwrap();
    assert_eq!(f.encoded, "a%09b%22%3C%3E%60");
    let f = EncodedFragment::fragmenter("é").unwrap();
    assert_eq!(f.encoded, "%C3%A9");
}

#[test]
fn fragmenter_rejects_empty_text() {
    assert_eq!(EncodedFragment::fragmenter("").unwrap_err(), "Empty text");
}

#[test]
fn generate_builds_the_request_url() {
    let model = GttsModel::default();
    let url = model.generate("Hello, World!").unwrap();
    assert_eq!(
        url,
        "https://translate.google.com/translate_tts?ie=UTF-8&q=Hello,%20World!&tl=en&total=1&idx=0&textlen=13&tl=en&client=tw-ob"
    );
}

#[test]
fn generate_respects_language_and_domain() {
    let model = GttsModel::new(100, Languages::French, "fr".to_string());
    let url = model.generate("bonjour").unwrap();
    assert_eq!(
        url,
        "https://translate.google.fr/translate_tts?ie=UTF-8&q=bonjour&tl=fr&total=1&idx=0&textlen=7&tl=fr&client=tw-ob"
    );
}

#[test]
fn generate_at_the_ceiling_succeeds() {
    let model = GttsModel::default();
    let message = "a".repeat(100);
    let url = model.generate(&message).unwrap();
    assert!(url.contains("&textlen=100&"));
}

#[test]
fn generate_over_the_ceiling_fails_locally() {
    let model = GttsModel::default();
    let message = "a".repeat(101);
    assert_eq!(
        model.generate(&message).unwrap_err(),
        "The text is too long. Max length is 100"
    );
}

#[test]
fn generate_rejects_empty_message() {
    let model = GttsModel::default();
    assert_eq!(model.generate("").unwrap_err(), "Empty text");
}

#[test]
fn language_codes() {
    assert_eq!(Languages::English.as_code(), "en");
    assert_eq!(Languages::German.as_code(), "de");
    assert_eq!(Languages::Japanese.as_code(), "ja");
    assert_eq!(Languages::default().as_code(), "en");
}

#[test]
fn decimal_formatting() {
    assert_eq!(usize_to_string(0), "0");
    assert_eq!(usize_to_string(7), "7");
    assert_eq!(usize_to_string(100), "100");
    assert_eq!(usize_to_string(987654), "987654");
}

#[test]
fn path_joining() {
    assert_eq!(
        get_path("/home/user/project", "voice.py".to_string()),
        "/home/user/project/src/voice.py"
    );
}

#[test]
fn error_messages() {
    assert_eq!(TtsError::NotSupported.message(), "Not Supported");
    assert_eq!(TtsError::OperationFailed.message(), "Operation failed");
    assert_eq!(TtsError::NotLoaded.message(), "Model Not Loaded");
    assert_eq!(TtsError::NotSaved.message(), "Didn't Save");
    assert_eq!(TtsError::NoDefaultModel.message(), "Default model not set");
    assert_eq!(TtsError::Tensor.message(), "Tensor Error");
    assert_eq!(TtsError::NoTokenizerKey.message(), "No Tokenizer Key");
    assert_eq!(TtsError::Json.message(), "Json Error");
}
