use virtual_atc::little_navmap::{format_procedures, ProcedureData};
use virtual_atc::model_manager::{is_model_filename, ModelManager};
use virtual_atc::text::padded_code;

#[test]
fn test_available_models_catalogue() {
    let models = ModelManager::get_available_models();
    assert_eq!(models.len(), 5);
    assert_eq!(models[0].name, "tiny");
    assert_eq!(models[0].filename, "ggml-tiny.bin");
    assert_eq!(
        models[3].url,
        "https://huggingface.co/ggerganov/whisper.cpp/resolve/main/ggml-medium.bin"
    );
    assert_eq!(models[4].name, "large-v3");
    assert_eq!(models[4].size, "3.1 GB");
    assert!(models.iter().all(|m| m.filename.starts_with("ggml-") && m.filename.ends_with(".bin")));
}

#[test]
fn test_is_model_filename() {
    assert!(is_model_filename("ggml-tiny.bin"));
    assert!(is_model_filename("ggml-large-v3.bin"));
    assert!(is_model_filename("ggml-.bin"));
    assert!(!is_model_filename("ggml-tiny.txt"));
    assert!(!is_model_filename("whisper.bin"));
    assert!(!is_model_filename("ggml"));
    assert!(!is_model_filename(""));
}

#[test]
fn test_model_paths() {
    let manager = ModelManager { models_dir: "/data/VirtualATC/models".to_string() };
    assert_eq!(
        manager.get_model_path("ggml-base.bin"),
        "/data/VirtualATC/models/ggml-base.bin"
    );
    assert_eq!(manager.get_models_dir().as_str(), "/data/VirtualATC/models");
}

#[test]
fn test_new_manager_rooted_under_data_dir() {
    let manager = ModelManager::new();
    assert!(manager.models_dir.ends_with("/VirtualATC/models"));
}

#[test]
fn test_padded_code() {
    assert_eq!(padded_code(0), "000");
    assert_eq!(padded_code(7), "007");
    assert_eq!(padded_code(45), "045");
    assert_eq!(padded_code(120), "120");
    assert_eq!(padded_code(999), "999");
}

#[test]
fn test_format_procedures_empty() {
    let none: Vec<ProcedureData> = Vec::new();
    assert_eq!(format_procedures(&none, "zh"), "（暂无数据）");
    assert_eq!(format_procedures(&none, "en"), "(No data)");
}

#[test]
fn test_format_procedures_entries() {
    let procedures = vec![
        ProcedureData {
            name: "ELKUR7A".to_string(),
            runway: "36L".to_string(),
            procedure_type: "SID".to_string(),
        },
        ProcedureData {
            name: "BOTPU9".to_string(),
            runway: String::new(),
            procedure_type: "SID".to_string(),
        },
        ProcedureData {
            name: "GITUM2B".to_string(),
            runway: "01".to_string(),
            procedure_type: "SID".to_string(),
        },
    ];
    assert_eq!(
        format_procedures(&procedures, "en"),
        "ELKUR7A (RWY 36L), BOTPU9, GITUM2B (RWY 01)"
    );
}
