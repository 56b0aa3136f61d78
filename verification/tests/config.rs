use reader_store::config::{
    export_config_to_file, finish_import, import_config_from_file, read_config, set_config,
    AiModel, AppConfig, ConfigError,
};
use reader_store::paths::StoreLocation;
use reader_store::store::{
    read_step, save_step, IoError, Loaded, ReadFailure, ReadProgress, ReadStage, SaveStage,
    StepOutcome,
};

fn sample() -> AppConfig {
    AppConfig {
        ai_models: vec![AiModel {
            id: "m1".to_string(),
            name: "Model One".to_string(),
            model_id: "one-large".to_string(),
            api_endpoint: "https://api.example.test/v1".to_string(),
            api_key: "key-123".to_string(),
            supports_chat: true,
            supports_translation: false,
        }],
        active_chat_model: "m1".to_string(),
        active_translate_model: "".to_string(),
        translate_target_lang: "en".to_string(),
        auto_save_settings: false,
        enable_selection_translation: true,
        text_selection_color: "#ff0000".to_string(),
        selection_opacity: 55,
        chat_prompt: "Summarise.".to_string(),
        translation_prompt: "Translate [SELECTED_TEXT]".to_string(),
    }
}

fn failure(stage: SaveStage, cause: &str) -> IoError {
    IoError { stage, cause: cause.to_string() }
}

#[test]
fn default_config_has_the_built_in_values() {
    let config = AppConfig::default();
    assert!(config.ai_models.is_empty());
    assert_eq!(config.active_chat_model, "");
    assert_eq!(config.active_translate_model, "");
    assert_eq!(config.translate_target_lang, "zh");
    assert!(config.auto_save_settings);
    assert!(config.enable_selection_translation);
    assert_eq!(config.text_selection_color, "#007bff");
    assert_eq!(config.selection_opacity, 30);
    assert_eq!(config.chat_prompt, "你是一个专业的学术论文阅读助手。");
    assert_eq!(
        config.translation_prompt,
        "Translate the following text to [TARGET_LANG]: [SELECTED_TEXT]"
    );
}

#[test]
fn stored_settings_are_read_as_they_are() {
    let loaded = read_config(Ok(sample()));
    assert_eq!(loaded, Loaded::Stored(sample()));
    assert!(!loaded.must_persist());
    assert_eq!(loaded.value(), sample());
}

#[test]
fn missing_settings_are_the_defaults_and_written() {
    let loaded = read_config(Err(ReadFailure::Missing));
    assert_eq!(loaded, Loaded::Fallback(AppConfig::default(), ReadFailure::Missing));
    assert!(loaded.must_persist());
}

#[test]
fn malformed_settings_are_the_defaults_and_left_alone() {
    for reason in [
        ReadFailure::Parse("expected value at line 1 column 1".to_string()),
        ReadFailure::Parse("invalid type: string \"30\", expected u32".to_string()),
        ReadFailure::Open("Permission denied (os error 13)".to_string()),
        ReadFailure::Read("stream did not contain valid UTF-8".to_string()),
    ] {
        let loaded = read_config(Err(reason.clone()));
        assert_eq!(loaded, Loaded::Fallback(AppConfig::default(), reason));
        assert!(!loaded.must_persist());
    }
}

#[test]
fn importing_a_missing_file_fails_and_writes_nothing() {
    let result = import_config_from_file(Err(ReadFailure::Missing));
    assert_eq!(result, Err(ConfigError::Import(ReadFailure::Missing)));
    assert_eq!(result.unwrap_err().message(), "配置文件不存在");
}

#[test]
fn each_import_failure_has_its_own_message() {
    let cases = [
        (ReadFailure::Open("denied".to_string()), "无法打开配置文件: denied"),
        (ReadFailure::Read("not text".to_string()), "无法读取配置文件: not text"),
        (ReadFailure::Parse("EOF while parsing".to_string()), "配置文件格式错误: EOF while parsing"),
        (ReadFailure::Unresolved("no path".to_string()), "无法确定路径: no path"),
    ];
    for (reason, message) in cases {
        let result = import_config_from_file(Err(reason.clone()));
        assert_eq!(result, Err(ConfigError::Import(reason)));
        assert_eq!(result.unwrap_err().message(), message);
    }
}

#[test]
fn imported_settings_are_written_and_returned() {
    let read = import_config_from_file(Ok(sample()));
    assert_eq!(read, Ok(sample()));
    assert_eq!(finish_import(read.unwrap(), Ok(())), Ok(sample()));
}

#[test]
fn an_import_that_cannot_be_written_fails() {
    let result = finish_import(sample(), Err(failure(SaveStage::Write, "disk full")));
    assert_eq!(result, Err(ConfigError::ImportSave(failure(SaveStage::Write, "disk full"))));
    assert_eq!(result.unwrap_err().message(), "保存配置失败: disk full");
}

#[test]
fn a_failed_write_of_the_settings_is_reported() {
    assert_eq!(set_config(Ok(())), Ok(()));
    let result = set_config(Err(failure(SaveStage::CreateFile, "Permission denied (os error 13)")));
    assert_eq!(
        result,
        Err(ConfigError::Write(failure(SaveStage::CreateFile, "Permission denied (os error 13)")))
    );
    assert_eq!(
        result.unwrap_err().message(),
        "Failed to write config: Permission denied (os error 13)"
    );
}

#[test]
fn each_export_failure_names_its_step() {
    assert_eq!(export_config_to_file(Ok(())), Ok(()));
    let cases = [
        (SaveStage::Resolve, "无法确定路径: why"),
        (SaveStage::CreateDirectory, "无法创建目录: why"),
        (SaveStage::Serialize, "序列化配置失败: why"),
        (SaveStage::CreateFile, "无法创建文件: why"),
        (SaveStage::Write, "写入文件失败: why"),
    ];
    for (stage, message) in cases {
        let result = export_config_to_file(Err(failure(stage, "why")));
        assert_eq!(result, Err(ConfigError::Export(failure(stage, "why"))));
        assert_eq!(result.unwrap_err().message(), message);
    }
}

#[test]
fn a_missing_import_ends_at_the_probe() {
    assert_eq!(read_step(ReadStage::Resolve, StepOutcome::Done), ReadProgress::Next(ReadStage::Probe));
    let ended = read_step(ReadStage::Probe, StepOutcome::Absent);
    assert_eq!(ended, ReadProgress::Failed(ReadFailure::Missing));
    let result = import_config_from_file(Err(ReadFailure::Missing));
    assert!(matches!(result, Err(ConfigError::Import(ReadFailure::Missing))));
}

#[test]
fn exported_settings_can_be_imported_back() {
    let target = StoreLocation::at("/new/dir/out.json".to_string());
    assert_eq!(target.directory.as_deref(), Some("/new/dir"));
    let mut steps = vec![SaveStage::Resolve];
    while let Some(next) = save_step(*steps.last().unwrap(), Ok(())).unwrap() {
        steps.push(next);
    }
    assert_eq!(
        steps,
        vec![
            SaveStage::Resolve,
            SaveStage::CreateDirectory,
            SaveStage::Serialize,
            SaveStage::CreateFile,
            SaveStage::Write
        ]
    );
    assert_eq!(export_config_to_file(Ok(())), Ok(()));
    let written = sample();
    let read_back = import_config_from_file(Ok(written.clone())).unwrap();
    assert_eq!(finish_import(read_back, Ok(())), Ok(written));
}
