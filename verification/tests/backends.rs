//! Backend-level decisions: rate normalization, response normalization,
//! the speak idempotence decision, and processor selection.

use natural_tts::models::coqui::{pick_device, CoquiModel};
use natural_tts::models::msedge::{
    normalize_msedge, AudioMetadata, MSEdgeModel, SpeechConfig, FALLBACK_RATE,
};
use natural_tts::models::tts_rs::TtsModel;
use natural_tts::models::{Spec, SynthesizedAudio};

fn config_with_rate(rate: i32) -> SpeechConfig {
    SpeechConfig {
        voice_name: "voice".to_string(),
        audio_format: "fmt".to_string(),
        pitch: 0,
        rate,
        volume: 0,
    }
}

#[test]
fn effective_rate_falls_back_when_not_positive() {
    assert_eq!(MSEdgeModel::new(config_with_rate(0)).effective_rate(), FALLBACK_RATE);
    assert_eq!(MSEdgeModel::new(config_with_rate(-3)).effective_rate(), 16000);
    assert_eq!(MSEdgeModel::new(config_with_rate(24000)).effective_rate(), 24000);
}

#[test]
fn normalize_msedge_keeps_bytes_and_metadata() {
    let bytes: Vec<u8> = vec![0, 1, 255];
    let metadata = vec![AudioMetadata {
        metadata_type: Some("WordBoundary".to_string()),
        offset: 10,
        duration: 20,
        text: Some("hi".to_string()),
        length: 2,
        boundary_type: None,
    }];
    let audio: SynthesizedAudio<i32> = normalize_msedge(&bytes, "webm".to_string(), metadata);
    assert_eq!(audio.data, vec![0, 1, 255]);
    assert_eq!(audio.duration, None);
    match audio.spec {
        Spec::Synthesized(format, records) => {
            assert_eq!(format, "webm");
            assert_eq!(records.len(), 1);
            assert_eq!(records[0].metadata_type.as_deref(), Some("WordBoundary"));
            assert_eq!(records[0].offset, 10);
        }
        _ => panic!("expected an opaque descriptor"),
    }
}

#[test]
fn speak_is_idempotent_while_engine_speaks() {
    // Two rapid calls: the engine reports "currently speaking" on the
    // second, which must not error and must not start a second utterance.
    let model = TtsModel::default();
    let first = model.plan_speak(Some(false));
    assert!(first.speak);
    let second = model.plan_speak(Some(true));
    assert!(!second.speak);
    // With no report from the engine, the utterance is issued.
    assert!(model.plan_speak(None).speak);
}

#[test]
fn tts_backend_has_no_file_output() {
    let model = TtsModel::new().unwrap();
    assert_eq!(model.save("hello", "out.wav"), Err(natural_tts::TtsError::NotSupported));
    assert_eq!(model.synthesize("hello"), Err(natural_tts::TtsError::NotSupported));
}

#[test]
fn processor_selection() {
    assert_eq!(pick_device(true, true), "cuda:0");
    assert_eq!(pick_device(true, false), "cpu");
    assert_eq!(pick_device(false, true), "cpu");
    let model = CoquiModel::new("model".to_string(), true, true).unwrap();
    assert_eq!(model.device(), "cuda:0");
    assert_eq!(model.model_name(), "model");
}
