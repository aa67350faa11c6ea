use fly_ruler::config::ConfigManager as CoreInitConfig;
use fly_ruler::error::{FatalCoreError, FatalPluginError, FrError};
use fly_ruler::ffi::{
    hook_return_result, info_level_to_string, library_file_name, missing_symbol_error, CModelError,
    CModelErrorMessage, InfoLevel, PluginError, TargetOs,
};
use fly_ruler::flight::FlightCondition;
use fly_ruler::manager::config::ConfigManager;
use fly_ruler::plugin::PluginInfo;
use fly_ruler::text::i32_to_decimal;

fn f16() -> PluginInfo {
    PluginInfo {
        name: "f16_model".to_string(),
        author: "windlx".to_string(),
        version: "0.1.0".to_string(),
        description: "A f16 model based on NASA reports".to_string(),
    }
}

#[test]
fn decimal_of_integers() {
    assert_eq!(i32_to_decimal(0), "0");
    assert_eq!(i32_to_decimal(7), "7");
    assert_eq!(i32_to_decimal(42), "42");
    assert_eq!(i32_to_decimal(-1), "-1");
    assert_eq!(i32_to_decimal(1000), "1000");
    assert_eq!(i32_to_decimal(i32::MAX), "2147483647");
    assert_eq!(i32_to_decimal(i32::MIN), "-2147483648");
}

#[test]
fn decimal_agrees_with_std() {
    for v in [-123456, -10, -9, 9, 10, 99, 100, 65535, 1 << 30] {
        assert_eq!(i32_to_decimal(v), v.to_string());
    }
}

#[test]
fn fatal_plugin_error_new_and_text() {
    let e = FatalPluginError::new("f16_model", -2, "when call frmodel_step");
    assert_eq!(e.name, "f16_model");
    assert_eq!(e.result, -2);
    assert_eq!(e.reason, "when call frmodel_step");
    assert_eq!(e.to_string(), "plugin f16_model failed with code -2: when call frmodel_step");
}

#[test]
fn fr_error_texts() {
    assert_eq!(FrError::Unsupported("lua".to_string()).to_string(), "Unsupported: lua");
    assert_eq!(FrError::ReportableBug("oops".to_string()).to_string(), "ReportableBug: oops");
    assert_eq!(FrError::Io("not found".to_string()).to_string(), "Io: not found");
    let p = FrError::Plugin(FatalPluginError::new("m", 3, "r"));
    assert_eq!(p.to_string(), "Plugin: plugin m failed with code 3: r");
}

#[test]
fn fatal_core_error_names_the_plane() {
    let e = FatalCoreError::Controller(4);
    assert!(matches!(e, FatalCoreError::Controller(4)));
}

#[test]
fn info_level_names() {
    assert_eq!(info_level_to_string(InfoLevel::TRACE), "Trace");
    assert_eq!(info_level_to_string(InfoLevel::DEBUG), "Debug");
    assert_eq!(info_level_to_string(InfoLevel::INFO), "Info");
    assert_eq!(info_level_to_string(InfoLevel::WARN), "Warn");
    assert_eq!(info_level_to_string(InfoLevel::ERROR), "Error");
    assert_eq!(info_level_to_string(InfoLevel::FATAL), "Fatal");
}

#[test]
fn cmodel_error_texts() {
    let load = CModelError {
        info: f16(),
        message: CModelErrorMessage::CModelLoadError("./install".to_string()),
    };
    assert_eq!(load.to_string(), "ModelLoadError: failed to load model `f16_model` at path of ./install");
    let install = CModelError {
        info: f16(),
        message: CModelErrorMessage::CModelInstallError("bad data".to_string()),
    };
    assert_eq!(install.to_string(), "ModelInstallError: fail to load model `f16_model` due to bad data");
    let uninstall = CModelError {
        info: f16(),
        message: CModelErrorMessage::CModelUninstallError("busy".to_string()),
    };
    assert_eq!(uninstall.to_string(), "ModelUninstallError: fail to load model `f16_model` due to busy");
    let state = CModelError {
        info: f16(),
        message: CModelErrorMessage::CModelGetStateError("nan".to_string()),
    };
    assert_eq!(state.to_string(), "ModelGetStateError: fail to load model `f16_model` due to nan");
}

#[test]
fn cmodel_error_knows_its_plugin() {
    let e = missing_symbol_error(&f16());
    assert_eq!(PluginError::info(&e).name, "f16_model");
    assert_eq!(PluginError::info(&e).description, "A f16 model based on NASA reports");
}

#[test]
fn hook_return_codes() {
    assert!(hook_return_result(&f16(), 0).is_ok());
    assert!(hook_return_result(&f16(), 5).is_ok());
    match hook_return_result(&f16(), -7) {
        Err(e) => {
            assert_eq!(e.info.name, "f16_model");
            match e.message {
                CModelErrorMessage::CModelInstallError(m) => assert_eq!(
                    m,
                    "some error occurred when model install and return code is `-7`"
                ),
                other => panic!("unexpected message {:?}", other),
            }
        }
        Ok(()) => panic!("a negative code must fail"),
    }
}

#[test]
fn missing_symbol_text() {
    let e = missing_symbol_error(&f16());
    assert_eq!(e.to_string(), "ModelInstallError: fail to load model `f16_model` due to failed find symbol");
}

#[test]
fn library_file_names() {
    assert_eq!(library_file_name("f16_model", TargetOs::Linux), Some("libf16_model.so".to_string()));
    assert_eq!(library_file_name("f16_model", TargetOs::Windows), Some("f16_model.dll".to_string()));
    assert_eq!(library_file_name("f16_model", TargetOs::Other), None);
}

#[test]
fn flight_condition_texts_and_default() {
    assert_eq!(FlightCondition::WingsLevel.to_string(), "wings level");
    assert_eq!(FlightCondition::Turning.to_string(), "turning");
    assert_eq!(FlightCondition::PullUp.to_string(), "pull up");
    assert_eq!(FlightCondition::Roll.to_string(), "roll");
    assert_eq!(FlightCondition::default(), FlightCondition::WingsLevel);
}

#[test]
fn config_paths_join_the_directory() {
    assert_eq!(ConfigManager::new("config/").core_path(), "config/core.toml");
    assert_eq!(ConfigManager::new("").sys_path(), "sys.toml");
    assert_eq!(ConfigManager::new("/").sys_path(), "/sys.toml");
    assert_eq!(CoreInitConfig::new("cfg").core_init_path(), "cfg/core_init.toml");
    // the file lies inside the directory: a separator comes between them
    assert_eq!(ConfigManager::new("config").core_path(), "config/core.toml");
    assert_eq!(ConfigManager::new("config").sys_path(), "config/sys.toml");
}

#[test]
fn config_manager_paths() {
    let c = ConfigManager::new("config");
    assert_eq!(c.core_path(), "config/core.toml");
    assert_eq!(c.sys_path(), "config/sys.toml");
    let i = CoreInitConfig::new("./install/");
    assert_eq!(i.core_init_path(), "./install/core_init.toml");
}

#[test]
fn plugin_info_duplicate_keeps_the_text() {
    let d = f16().duplicate();
    assert_eq!(d.name, "f16_model");
    assert_eq!(d.author, "windlx");
    assert_eq!(d.version, "0.1.0");
    assert_eq!(d.description, "A f16 model based on NASA reports");
}
