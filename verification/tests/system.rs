use fly_ruler::error::{FatalCoreError, FatalPluginError, FrError};
use fly_ruler::plugin::{DirProbe, HookOutcome, PluginInfo, PluginState};
use fly_ruler::system::{step_reaction, StepError, StepReaction, System};

fn info(name: &str) -> PluginInfo {
    PluginInfo {
        name: name.to_string(),
        author: "windlx".to_string(),
        version: "0.1.0".to_string(),
        description: String::new(),
    }
}

fn system() -> System<u8> {
    let mut s = System::new();
    s.init(vec![DirProbe::Loaded(info("f16"), 1), DirProbe::NotDir, DirProbe::Loaded(info("f22"), 2)]);
    s
}

fn install_done(_: &u8, _: &[String]) -> HookOutcome {
    HookOutcome::Done
}

fn uninstall_done(_: &u8) -> HookOutcome {
    HookOutcome::Done
}

#[test]
fn an_uninitialised_system_has_no_models() {
    let mut s: System<u8> = System::new();
    assert!(s.get_models().is_empty());
    assert_eq!(s.get_model_state(0), None);
    assert!(s.enable_model(0, &[], install_done, uninstall_done).is_ok());
    s.disable_model(0, uninstall_done);
    assert!(s.get_models().is_empty());
}

#[test]
fn models_are_listed_with_their_states() {
    let mut s = system();
    s.enable_model(2, &[], install_done, uninstall_done).unwrap();
    let models = s.get_models();
    assert_eq!(models.len(), 2);
    assert_eq!(models[&0].0.name, "f16");
    assert_eq!(models[&0].1, PluginState::Disable);
    assert_eq!(models[&2].0.name, "f22");
    assert_eq!(models[&2].1, PluginState::Enable);
    assert_eq!(s.get_model_state(2), Some(PluginState::Enable));
    assert_eq!(s.get_model_state(1), None);
}

#[test]
fn disable_model_disables_an_enabled_model() {
    let mut s = system();
    s.enable_model(0, &[], install_done, uninstall_done).unwrap();
    s.disable_model(0, |_: &u8| HookOutcome::Refused("busy".to_string()));
    assert_eq!(s.get_model_state(0), Some(PluginState::Failed));
}

#[test]
fn a_fatal_enable_disables_every_model_and_reports() {
    let mut s = system();
    s.enable_model(0, &[], install_done, uninstall_done).unwrap();
    let r = s.enable_model(
        2,
        &[],
        |_: &u8, _: &[String]| HookOutcome::Fatal(FatalPluginError::new("f22", -1, "no symbol")),
        uninstall_done,
    );
    assert!(matches!(r, Err(FrError::Plugin(_))));
    assert_eq!(s.get_model_state(0), Some(PluginState::Disable));
    assert_eq!(s.get_model_state(2), Some(PluginState::Failed));
}

#[test]
fn stop_disables_every_model() {
    let mut s = system();
    s.enable_model(0, &[], install_done, uninstall_done).unwrap();
    s.enable_model(2, &[], install_done, uninstall_done).unwrap();
    s.stop(uninstall_done);
    assert_eq!(s.get_model_state(0), Some(PluginState::Disable));
    assert_eq!(s.get_model_state(2), Some(PluginState::Disable));
}

#[test]
fn step_errors_are_classified() {
    assert_eq!(step_reaction(&Ok(())), StepReaction::Done);
    assert_eq!(step_reaction(&Err(StepError::Sync("lagged".to_string()))), StepReaction::Warned);
    assert_eq!(
        step_reaction(&Err(StepError::Core(FatalCoreError::Controller(3)))),
        StepReaction::Warned
    );
    assert_eq!(
        step_reaction(&Err(StepError::Other(FrError::Unsupported("x".to_string())))),
        StepReaction::Failed
    );
}

#[test]
fn planes_are_built_only_from_enabled_models() {
    let mut s = system();
    assert_eq!(s.get_model(0), None);
    s.enable_model(0, &[], install_done, uninstall_done).unwrap();
    assert_eq!(s.get_model(0), Some(&1));
    assert_eq!(s.get_model(1), None);
    let empty: System<u8> = System::new();
    assert_eq!(empty.get_model(0), None);
}
