//! Facade routing, handle lifecycle, and the builder.

use natural_tts::models::coqui::CoquiModel;
use natural_tts::models::gtts::GttsModel;
use natural_tts::models::meta::MetaModel;
use natural_tts::models::msedge::MSEdgeModel;
use natural_tts::models::parler::ParlerModel;
use natural_tts::models::tts_rs::TtsModel;
use natural_tts::models::{AudioHandler, SaveRequest, StartRequest, SynthRequest};
use natural_tts::{Model, NaturalError, NaturalTts, NaturalTtsBuilder, StopTarget, TtsError};

#[test]
fn gtts_test() {
    let mut natural = NaturalTtsBuilder::default()
        .gtts_model(GttsModel::default())
        .default_model(Model::Gtts)
        .build()
        .unwrap();
    let _ = natural.start("Hello, World!".to_string(), "output.wav".to_string());
}

#[test]
fn parler_test() {
    let mut natural = NaturalTtsBuilder::default()
        .parler_model(ParlerModel::default())
        .default_model(Model::Parler)
        .build()
        .unwrap();
    let _ = natural.start("Hello, World!".to_string(), "output.wav".to_string());
}

#[test]
fn msedge_test() {
    let mut natural = NaturalTtsBuilder::default()
        .msedge_model(MSEdgeModel::default())
        .default_model(Model::MSEdge)
        .build()
        .unwrap();
    let _ = natural.start("Hello, World!".to_string(), "output.wav".to_string());
}

#[test]
fn tts_test() {
    let mut natural = NaturalTtsBuilder::default()
        .tts_model(TtsModel::default())
        .default_model(Model::TTS)
        .build()
        .unwrap();
    let _ = natural.start("Hello, World!".to_string(), "output.wav".to_string());
}

#[test]
fn meta_test() {
    let mut natural = NaturalTtsBuilder::default()
        .meta_model(MetaModel::default())
        .default_model(Model::Meta)
        .build()
        .unwrap();
    let _ = natural.start("Hello, World!".to_string(), "output.wav".to_string());
}

#[test]
fn coqui_test() {
    let mut natural = NaturalTtsBuilder::default()
        .coqui_model(CoquiModel::default())
        .default_model(Model::Coqui)
        .build()
        .unwrap();
    let _ = natural.start("Hello, World!".to_string(), "output.wav".to_string());
}

#[test]
fn no_default_model_rejects_every_operation() {
    let mut natural = NaturalTts::default();
    let expected = NaturalError::Tts(TtsError::NoDefaultModel);
    assert_eq!(
        natural.say("hello".to_string(), "out.wav".to_string()).unwrap_err(),
        expected
    );
    assert_eq!(
        natural.save("hello".to_string(), "out.wav".to_string()).unwrap_err(),
        expected
    );
    assert_eq!(
        natural
            .synthesize("hello".to_string(), "out.wav".to_string())
            .unwrap_err(),
        expected
    );
    assert_eq!(
        natural.start("hello".to_string(), "out.wav".to_string()).unwrap_err(),
        expected
    );
}

#[test]
fn empty_slot_rejects_every_operation() {
    let mut natural = NaturalTtsBuilder::default()
        .default_model(Model::Meta)
        .build()
        .unwrap();
    let expected = NaturalError::Tts(TtsError::NotLoaded);
    assert_eq!(
        natural.say("hello".to_string(), "out.wav".to_string()).unwrap_err(),
        expected
    );
    assert_eq!(
        natural.save("hello".to_string(), "out.wav".to_string()).unwrap_err(),
        expected
    );
    assert_eq!(
        natural
            .synthesize("hello".to_string(), "out.wav".to_string())
            .unwrap_err(),
        expected
    );
    assert_eq!(
        natural.start("hello".to_string(), "out.wav".to_string()).unwrap_err(),
        expected
    );
}

#[test]
fn selector_on_unloaded_kind_is_not_loaded() {
    // A cloud backend is loaded, but the selector points at a different,
    // unloaded backend kind.
    let mut natural = NaturalTtsBuilder::default()
        .gtts_model(GttsModel::default())
        .default_model(Model::TTS)
        .build()
        .unwrap();
    let r = natural.say("hello".to_string(), "out.wav".to_string());
    assert_eq!(r.unwrap_err(), NaturalError::Tts(TtsError::NotLoaded));
}

#[test]
fn file_backend_start_stop_resume() {
    // A file-only backend as default: start yields a streaming-sink
    // request; stop succeeds; resume after stop succeeds on a sink.
    let mut natural = NaturalTtsBuilder::default()
        .gtts_model(GttsModel::default())
        .default_model(Model::Gtts)
        .build()
        .unwrap();
    let request = natural
        .start("hello".to_string(), "/tmp/out.wav".to_string())
        .unwrap();
    assert!(matches!(request, StartRequest::PlayFile(_)));
    assert_eq!(request.handle_kind(), AudioHandler::Sink);
    natural.finish_start(AudioHandler::Sink);
    assert_eq!(natural.stop().unwrap(), StopTarget::Sink);
    assert_eq!(natural.resume().unwrap(), ());

    // On an opaque native-engine handle, resume is not supported.
    natural.finish_start(AudioHandler::Tts);
    assert_eq!(
        natural.resume().unwrap_err(),
        NaturalError::Tts(TtsError::NotSupported)
    );
}

#[test]
fn stop_without_playback_is_not_loaded() {
    let mut natural = NaturalTtsBuilder::default()
        .gtts_model(GttsModel::default())
        .default_model(Model::Gtts)
        .build()
        .unwrap();
    assert_eq!(
        natural.stop().unwrap_err(),
        NaturalError::Tts(TtsError::NotLoaded)
    );
    assert_eq!(
        natural.resume().unwrap_err(),
        NaturalError::Tts(TtsError::NotLoaded)
    );
}

#[test]
fn stop_engine_handle() {
    // An OS speech utterance is stopped through the engine when that
    // backend is loaded, and unsupported when it is not.
    let mut natural = NaturalTtsBuilder::default()
        .tts_model(TtsModel::default())
        .default_model(Model::TTS)
        .build()
        .unwrap();
    natural.finish_start(AudioHandler::Tts);
    assert_eq!(natural.stop().unwrap(), StopTarget::Engine);

    let mut bare = NaturalTts::default();
    bare.finish_start(AudioHandler::Tts);
    assert_eq!(
        bare.stop().unwrap_err(),
        NaturalError::Tts(TtsError::NotSupported)
    );
}

#[test]
fn tts_backend_save_not_supported() {
    let mut natural = NaturalTtsBuilder::default()
        .tts_model(TtsModel::default())
        .default_model(Model::TTS)
        .build()
        .unwrap();
    assert_eq!(
        natural
            .save("hello".to_string(), "out.wav".to_string())
            .unwrap_err(),
        NaturalError::Tts(TtsError::NotSupported)
    );
    assert_eq!(
        natural
            .synthesize("hello".to_string(), "out.wav".to_string())
            .unwrap_err(),
        NaturalError::Tts(TtsError::NotSupported)
    );
}

#[test]
fn tts_backend_start_is_opaque_handle() {
    let mut natural = NaturalTtsBuilder::default()
        .tts_model(TtsModel::default())
        .default_model(Model::TTS)
        .build()
        .unwrap();
    let request = natural
        .start("hello".to_string(), "out.wav".to_string())
        .unwrap();
    assert!(matches!(request, StartRequest::Tts { .. }));
    assert_eq!(request.handle_kind(), AudioHandler::Tts);
}

#[test]
fn builder_requires_default_model() {
    let r = NaturalTtsBuilder::default()
        .gtts_model(GttsModel::default())
        .build();
    match r {
        Ok(_) => panic!("building without a default backend must fail"),
        Err(m) => assert_eq!(m, "`default_model` must be initialized"),
    }
}

#[test]
fn save_request_carries_backend_parameters() {
    let mut natural = NaturalTtsBuilder::default()
        .coqui_model(CoquiModel::default())
        .default_model(Model::Coqui)
        .build()
        .unwrap();
    let request = natural
        .save("hi there".to_string(), "voice.wav".to_string())
        .unwrap();
    match request {
        SaveRequest::Coqui { model_name, device, message, path } => {
            assert_eq!(model_name, "tts_models/en/ljspeech/vits");
            assert_eq!(device, "cpu");
            assert_eq!(message, "hi there");
            assert_eq!(path, "voice.wav");
        }
        _ => panic!("routed to the wrong backend"),
    }
}

#[test]
fn msedge_synthesize_is_direct() {
    let mut natural = NaturalTtsBuilder::default()
        .msedge_model(MSEdgeModel::default())
        .default_model(Model::MSEdge)
        .build()
        .unwrap();
    let request = natural
        .synthesize("hi".to_string(), "unused.wav".to_string())
        .unwrap();
    match request {
        SynthRequest::MsEdge { config, message } => {
            assert_eq!(message, "hi");
            assert_eq!(config.audio_format, "audio-24khz-48kbitrate-mono-mp3");
        }
        _ => panic!("expected a direct engine synthesis"),
    }
}
