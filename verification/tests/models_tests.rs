use quickwhisper::models::{
    locate_model, model_location, ModelLocation,
    model_path_in,
    check_model_present,
    download_url, model_file_name, model_name_from_file, model_path, partial_download_path,
    progress_percent, progress_update, require, ModelError,
};

#[test]
fn model_files_are_named_after_the_model() {
    assert_eq!(model_file_name("small"), "ggml-small.bin");
    assert_eq!(model_file_name("large-v3-q5_1"), "ggml-large-v3-q5_1.bin");
}

#[test]
fn download_url_points_at_whisper_cpp_models() {
    assert_eq!(
        download_url("base"),
        "https://huggingface.co/ggerganov/whisper.cpp/resolve/main/ggml-base.bin"
    );
}

#[test]
fn listing_recognises_model_files_only() {
    assert_eq!(model_name_from_file("ggml-small.bin").as_deref(), Some("small"));
    assert_eq!(model_name_from_file("ggml-.bin").as_deref(), Some(""));
    assert_eq!(model_name_from_file("ggml-small.bin.part"), None);
    assert_eq!(model_name_from_file("small.bin"), None);
    assert_eq!(model_name_from_file("ggml-bin"), None);
    for name in ["tiny", "medium", "large-v3"] {
        assert_eq!(model_name_from_file(&model_file_name(name)).as_deref(), Some(name));
    }
}

#[test]
fn model_path_is_in_the_models_directory() {
    if let Ok(p) = model_path("tiny") {
        assert!(p.ends_with("quickwhisper/models/ggml-tiny.bin"), "{p}");
    }
}

#[test]
fn require_fails_for_a_model_never_downloaded() {
    match require("no-such-model-xyz") {
        Err(ModelError::NotFound { name, path }) => {
            assert_eq!(name, "no-such-model-xyz");
            assert!(path.ends_with("ggml-no-such-model-xyz.bin"));
        }
        Err(ModelError::Config(_)) => {}
        Ok(p) => panic!("unexpected model at {p}"),
    }
}

#[test]
fn partial_downloads_get_a_part_suffix() {
    assert_eq!(partial_download_path("/m/ggml-small.bin"), "/m/ggml-small.bin.part");
    // a model name ending in `/` leaves a file named `.bin`, which has no extension
    assert_eq!(partial_download_path("/m/ggml-x/.bin"), "/m/ggml-x/.bin.bin.part");
    assert_eq!(partial_download_path(".bin"), ".bin.bin.part");
    for p in ["/m/ggml-small.bin", "/m/ggml-x/.bin", ".bin", "/m/ggml-a..bin", "ggml-.bin"] {
        let std_part = std::path::Path::new(p).with_extension("bin.part");
        assert_eq!(partial_download_path(p), std_part.to_str().unwrap());
    }
}

#[test]
fn progress_is_reported_in_whole_percent_when_it_changes() {
    assert_eq!(progress_percent(0, 200), 0);
    assert_eq!(progress_percent(199, 200), 99);
    assert_eq!(progress_percent(200, 200), 100);
    assert_eq!(progress_update(50, 200, u64::MAX), Some(25));
    assert_eq!(progress_update(51, 200, 25), None);
    assert_eq!(progress_update(52, 200, 25), Some(26));
}

#[test]
fn presence_check_reports_missing_models_by_name() {
    assert_eq!(check_model_present("base", "/m/ggml-base.bin".into(), true).unwrap(), "/m/ggml-base.bin");
    match check_model_present("base", "/m/ggml-base.bin".into(), false) {
        Err(ModelError::NotFound { name, path }) => {
            assert_eq!(name, "base");
            assert_eq!(path, "/m/ggml-base.bin");
        }
        other => panic!("unexpected {other:?}"),
    }
    assert_eq!(model_name_from_file(&partial_download_path(&model_file_name("base"))), None);
}

#[test]
fn model_path_in_joins_the_model_file() {
    assert_eq!(model_path_in("/d/models", "small"), "/d/models/ggml-small.bin");
    if let (Ok(dir), Ok(p)) = (quickwhisper::config::models_dir(), model_path("small")) {
        assert_eq!(p, model_path_in(&dir, "small"));
    }
}

#[test]
fn missing_model_message_tells_how_to_download() {
    let e = ModelError::NotFound { name: "base".into(), path: "/m/ggml-base.bin".into() };
    assert_eq!(
        e.message(),
        "modelo 'base' não encontrado em /m/ggml-base.bin.\nBaixe com: quickwhisper model download base"
    );
}

#[test]
fn model_location_decides_between_loading_and_downloading() {
    assert!(matches!(model_location("/m/a".into(), true), ModelLocation::Present { path } if path == "/m/a"));
    assert!(matches!(model_location("/m/a".into(), false), ModelLocation::Absent { path } if path == "/m/a"));
    if let Ok(loc) = locate_model("no-such-model-xyz") {
        match loc {
            ModelLocation::Absent { path } => assert!(path.ends_with("quickwhisper/models/ggml-no-such-model-xyz.bin")),
            ModelLocation::Present { path } => panic!("unexpected model at {path}"),
        }
    }
}
