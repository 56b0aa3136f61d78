//! The settings record, and what reading, writing, importing and exporting
//! it can end in.

use vstd::prelude::*;
use vstd::string::*;
use crate::store::{load, IoError, Loaded, ReadFailure, Record, SaveStage};

verus! {

/// One configured language model.
#[derive(Debug, Clone, PartialEq, Eq)]
pub struct AiModel {
    pub id: String,
    pub name: String,
    pub model_id: String,
    pub api_endpoint: String,
    pub api_key: String,
    pub supports_chat: bool,
    pub supports_translation: bool,
}

/// What an [`AiModel`] holds, as mathematical values.
pub ghost struct AiModelView {
    pub id: Seq<char>,
    pub name: Seq<char>,
    pub model_id: Seq<char>,
    pub api_endpoint: Seq<char>,
    pub api_key: Seq<char>,
    pub supports_chat: bool,
    pub supports_translation: bool,
}

impl View for AiModel {
    type V = AiModelView;

    open spec fn view(&self) -> AiModelView {
        AiModelView {
            id: self.id@,
            name: self.name@,
            model_id: self.model_id@,
            api_endpoint: self.api_endpoint@,
            api_key: self.api_key@,
            supports_chat: self.supports_chat,
            supports_translation: self.supports_translation,
        }
    }
}

/// The settings of the application. Every field always has a value; a record
/// is read and replaced as a whole.
#[derive(Debug, Clone, PartialEq, Eq)]
pub struct AppConfig {
    pub ai_models: Vec<AiModel>,
    pub active_chat_model: String,
    pub active_translate_model: String,
    pub translate_target_lang: String,
    pub auto_save_settings: bool,
    pub enable_selection_translation: bool,
    pub text_selection_color: String,
    pub selection_opacity: u32,
    pub chat_prompt: String,
    pub translation_prompt: String,
}

/// What an [`AppConfig`] holds, as mathematical values.
pub ghost struct AppConfigView {
    pub ai_models: Seq<AiModelView>,
    pub active_chat_model: Seq<char>,
    pub active_translate_model: Seq<char>,
    pub translate_target_lang: Seq<char>,
    pub auto_save_settings: bool,
    pub enable_selection_translation: bool,
    pub text_selection_color: Seq<char>,
    pub selection_opacity: u32,
    pub chat_prompt: Seq<char>,
    pub translation_prompt: Seq<char>,
}

impl View for AppConfig {
    type V = AppConfigView;

    open spec fn view(&self) -> AppConfigView {
        AppConfigView {
            ai_models: self.ai_models@.map_values(|m: AiModel| m@),
            active_chat_model: self.active_chat_model@,
            active_translate_model: self.active_translate_model@,
            translate_target_lang: self.translate_target_lang@,
            auto_save_settings: self.auto_save_settings,
            enable_selection_translation: self.enable_selection_translation,
            text_selection_color: self.text_selection_color@,
            selection_opacity: self.selection_opacity,
            chat_prompt: self.chat_prompt@,
            translation_prompt: self.translation_prompt@,
        }
    }
}

/// The settings of a fresh installation: no models, translation to Chinese,
/// autosave and selection translation switched on.
pub open spec fn default_config() -> AppConfigView {
    AppConfigView {
        ai_models: Seq::empty(),
        active_chat_model: ""@,
        active_translate_model: ""@,
        translate_target_lang: "zh"@,
        auto_save_settings: true,
        enable_selection_translation: true,
        text_selection_color: "#007bff"@,
        selection_opacity: 30,
        chat_prompt: "你是一个专业的学术论文阅读助手。"@,
        translation_prompt: "Translate the following text to [TARGET_LANG]: [SELECTED_TEXT]"@,
    }
}

impl Default for AppConfig {
    fn default() -> (config: AppConfig)
        ensures
            config@ == default_config(),
    {
        let config = AppConfig {
            ai_models: Vec::new(),
            active_chat_model: String::from_str(""),
            active_translate_model: String::from_str(""),
            translate_target_lang: String::from_str("zh"),
            auto_save_settings: true,
            enable_selection_translation: true,
            text_selection_color: String::from_str("#007bff"),
            selection_opacity: 30,
            chat_prompt: String::from_str("你是一个专业的学术论文阅读助手。"),
            translation_prompt: String::from_str(
                "Translate the following text to [TARGET_LANG]: [SELECTED_TEXT]",
            ),
        };
        assert(config.ai_models@.map_values(|m: AiModel| m@) =~= Seq::<AiModelView>::empty());
        config
    }
}

impl Record for AppConfig {
    open spec fn default_view() -> AppConfigView {
        default_config()
    }

    fn default_record() -> (record: AppConfig) {
        AppConfig::default()
    }
}

/// What an operation on the settings store can fail with.
#[derive(Debug, Clone, PartialEq, Eq)]
pub enum ConfigError {
    /// The settings could not be written to their store.
    Write(IoError),
    /// The file to import gave no settings.
    Import(ReadFailure),
    /// The imported settings could not be written to their store.
    ImportSave(IoError),
    /// The settings could not be written to the file to export to.
    Export(IoError),
}

/// The words that stand before the cause of a failed export.
pub open spec fn export_prefix(stage: SaveStage) -> Seq<char> {
    match stage {
        SaveStage::Resolve => "无法确定路径: "@,
        SaveStage::CreateDirectory => "无法创建目录: "@,
        SaveStage::Serialize => "序列化配置失败: "@,
        SaveStage::CreateFile => "无法创建文件: "@,
        SaveStage::Write => "写入文件失败: "@,
    }
}

/// What the user is told of a failed import.
pub open spec fn import_message(failure: ReadFailure) -> Seq<char> {
    match failure {
        ReadFailure::Unresolved(cause) => "无法确定路径: "@ + cause@,
        ReadFailure::Missing => "配置文件不存在"@,
        ReadFailure::Open(cause) => "无法打开配置文件: "@ + cause@,
        ReadFailure::Read(cause) => "无法读取配置文件: "@ + cause@,
        ReadFailure::Parse(cause) => "配置文件格式错误: "@ + cause@,
    }
}

impl ConfigError {
    /// What the user is told: which operation failed, at which step where
    /// that tells more, and the cause.
    pub open spec fn message_text(self) -> Seq<char> {
        match self {
            ConfigError::Write(error) => "Failed to write config: "@ + error.cause@,
            ConfigError::Import(failure) => import_message(failure),
            ConfigError::ImportSave(error) => "保存配置失败: "@ + error.cause@,
            ConfigError::Export(error) => export_prefix(error.stage) + error.cause@,
        }
    }

    /// What the user is told.
    pub fn message(&self) -> (text: String)
        ensures
            text@ == self.message_text(),
    {
        match self {
            ConfigError::Write(error) => String::from_str("Failed to write config: ").concat(
                error.cause.as_str(),
            ),
            ConfigError::Import(failure) => match failure {
                ReadFailure::Unresolved(cause) => String::from_str("无法确定路径: ").concat(
                    cause.as_str(),
                ),
                ReadFailure::Missing => String::from_str("配置文件不存在"),
                ReadFailure::Open(cause) => String::from_str("无法打开配置文件: ").concat(
                    cause.as_str(),
                ),
                ReadFailure::Read(cause) => String::from_str("无法读取配置文件: ").concat(
                    cause.as_str(),
                ),
                ReadFailure::Parse(cause) => String::from_str("配置文件格式错误: ").concat(
                    cause.as_str(),
                ),
            },
            ConfigError::ImportSave(error) => String::from_str("保存配置失败: ").concat(
                error.cause.as_str(),
            ),
            ConfigError::Export(error) => {
                let prefix = match error.stage {
                    SaveStage::Resolve => "无法确定路径: ",
                    SaveStage::CreateDirectory => "无法创建目录: ",
                    SaveStage::Serialize => "序列化配置失败: ",
                    SaveStage::CreateFile => "无法创建文件: ",
                    SaveStage::Write => "写入文件失败: ",
                };
                String::from_str(prefix).concat(error.cause.as_str())
            },
        }
    }
}

/// Decides what a read of the settings store yields: the stored settings,
/// or the defaults where none could be read.
pub fn read_config(found: Result<AppConfig, ReadFailure>) -> (loaded: Loaded<AppConfig>)
    ensures
        match found {
            Ok(config) => loaded == Loaded::Stored(config),
            Err(failure) => loaded matches Loaded::Fallback(config, reason) && reason == failure
                && config@ == default_config(),
        },
{
    load(found)
}

/// Reports how writing the settings to their store ended.
pub fn set_config(written: Result<(), IoError>) -> (result: Result<(), ConfigError>)
    ensures
        match written {
            Ok(_) => result == Ok::<(), ConfigError>(()),
            Err(error) => result == Err::<(), ConfigError>(ConfigError::Write(error)),
        },
{
    match written {
        Ok(_) => Ok(()),
        Err(error) => Err(ConfigError::Write(error)),
    }
}

/// Decides what follows the reading of a file to import. `Ok` holds the
/// settings that the host now writes to the settings store, and then hands
/// to [`finish_import`]. On `Err` the import is over and nothing is written.
pub fn import_config_from_file(found: Result<AppConfig, ReadFailure>) -> (result: Result<
    AppConfig,
    ConfigError,
>)
    ensures
        match found {
            Ok(config) => result == Ok::<AppConfig, ConfigError>(config),
            Err(failure) => result == Err::<AppConfig, ConfigError>(ConfigError::Import(failure)),
        },
{
    match found {
        Ok(config) => Ok(config),
        Err(failure) => Err(ConfigError::Import(failure)),
    }
}

/// Ends an import whose settings the host tried to write to the settings
/// store: the settings where the write succeeded, else the failure.
pub fn finish_import(config: AppConfig, written: Result<(), IoError>) -> (result: Result<
    AppConfig,
    ConfigError,
>)
    ensures
        match written {
            Ok(_) => result == Ok::<AppConfig, ConfigError>(config),
            Err(error) => result == Err::<AppConfig, ConfigError>(ConfigError::ImportSave(error)),
        },
{
    match written {
        Ok(_) => Ok(config),
        Err(error) => Err(ConfigError::ImportSave(error)),
    }
}

/// Reports how writing the settings to a file chosen by the user ended.
pub fn export_config_to_file(written: Result<(), IoError>) -> (result: Result<(), ConfigError>)
    ensures
        match written {
            Ok(_) => result == Ok::<(), ConfigError>(()),
            Err(error) => result == Err::<(), ConfigError>(ConfigError::Export(error)),
        },
{
    match written {
        Ok(_) => Ok(()),
        Err(error) => Err(ConfigError::Export(error)),
    }
}

} // verus!
