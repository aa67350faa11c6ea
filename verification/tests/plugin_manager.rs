use fly_ruler::error::{FatalPluginError, FrError};
use fly_ruler::plugin::manager::{PluginManager, PluginType};
use fly_ruler::plugin::{DirProbe, HookOutcome, PluginInfo};

fn info(name: &str) -> PluginInfo {
    PluginInfo {
        name: name.to_string(),
        author: "windlx".to_string(),
        version: "0.1.0".to_string(),
        description: format!("the {} model", name),
    }
}

/// Entry 0 is not a directory, entry 1 holds no plugin, entries 2 and 3 hold models.
fn scan() -> Vec<DirProbe<u32>> {
    vec![
        DirProbe::NotDir,
        DirProbe::Rejected("missing info.toml".to_string()),
        DirProbe::Loaded(info("f16_model"), 16),
        DirProbe::Loaded(info("f22_model"), 22),
    ]
}

fn done(_: &u32, _: &[String]) -> HookOutcome {
    HookOutcome::Done
}

fn refused(_: &u32, _: &[String]) -> HookOutcome {
    HookOutcome::Refused("code -1".to_string())
}

fn fatal(h: &u32, _: &[String]) -> HookOutcome {
    HookOutcome::Fatal(FatalPluginError::new(&format!("model{}", h), -3, "failed find symbol"))
}

fn args() -> Vec<String> {
    vec!["./data".to_string()]
}

#[test]
fn new_keeps_plugins_under_their_entry_position() {
    let pm = PluginManager::new(scan());
    let infos = pm.get_infos();
    assert_eq!(infos.len(), 1);
    let models = &infos[0];
    assert_eq!(models.len(), 2);
    assert!(!models.contains_key(&0));
    assert!(!models.contains_key(&1));
    assert_eq!(models[&2].name, "f16_model");
    assert_eq!(models[&2].author, "windlx");
    assert_eq!(models[&2].version, "0.1.0");
    assert_eq!(models[&2].description, "the f16_model model");
    assert_eq!(models[&3].name, "f22_model");
}

#[test]
fn discovered_models_are_not_installed() {
    let pm = PluginManager::new(scan());
    assert!(pm.get_model(&2).is_none());
    assert!(pm.get_model(&3).is_none());
    assert!(pm.get_model(&0).is_none());
}

#[test]
fn install_success_serves_the_model() {
    let mut pm = PluginManager::new(scan());
    let r = pm.install(PluginType::Model, &2, &args(), done);
    assert!(r.is_ok());
    assert_eq!(pm.get_model(&2), Some(&16));
    assert!(pm.get_model(&3).is_none());
}

#[test]
fn install_passes_the_arguments_to_the_hook() {
    let mut pm = PluginManager::new(scan());
    let seen = std::cell::RefCell::new(Vec::new());
    let hook = |h: &u32, a: &[String]| {
        seen.borrow_mut().push((*h, a.to_vec()));
        HookOutcome::Done
    };
    pm.install(PluginType::Model, &3, &args(), hook).unwrap();
    assert_eq!(seen.into_inner(), vec![(22, vec!["./data".to_string()])]);
}

#[test]
fn install_refused_fails_the_model_without_error() {
    let mut pm = PluginManager::new(scan());
    let r = pm.install(PluginType::Model, &2, &args(), refused);
    assert!(r.is_ok());
    assert!(pm.get_model(&2).is_none());
    // a failed model is never installed again
    let r = pm.install(PluginType::Model, &2, &args(), done);
    assert!(r.is_ok());
    assert!(pm.get_model(&2).is_none());
}

#[test]
fn install_fatal_is_reported() {
    let mut pm = PluginManager::new(scan());
    let r = pm.install(PluginType::Model, &3, &args(), fatal);
    match r {
        Err(FrError::Plugin(e)) => {
            assert_eq!(e.name, "model22");
            assert_eq!(e.result, -3);
            assert_eq!(e.reason, "failed find symbol");
        }
        other => panic!("unexpected result {:?}", other),
    }
    assert!(pm.get_model(&3).is_none());
}

#[test]
fn install_of_absent_model_does_nothing() {
    let mut pm = PluginManager::new(scan());
    let calls = std::cell::Cell::new(0);
    let hook = |_: &u32, _: &[String]| {
        calls.set(calls.get() + 1);
        HookOutcome::Done
    };
    assert!(pm.install(PluginType::Model, &7, &args(), hook).is_ok());
    assert!(pm.install(PluginType::Model, &1, &args(), hook).is_ok());
    assert_eq!(calls.get(), 0);
}

#[test]
fn install_twice_runs_the_hook_once() {
    let mut pm = PluginManager::new(scan());
    let calls = std::cell::Cell::new(0);
    let hook = |_: &u32, _: &[String]| {
        calls.set(calls.get() + 1);
        HookOutcome::Done
    };
    pm.install(PluginType::Model, &2, &args(), hook).unwrap();
    pm.install(PluginType::Model, &2, &args(), hook).unwrap();
    assert_eq!(calls.get(), 1);
    assert_eq!(pm.get_model(&2), Some(&16));
}

#[test]
fn install_then_uninstall_restores_the_manager() {
    let mut pm = PluginManager::new(scan());
    pm.install(PluginType::Model, &2, &args(), done).unwrap();
    pm.uninstall(PluginType::Model, &2, &args(), done).unwrap();
    assert!(pm.get_model(&2).is_none());
    // back to not installed: it can be installed again
    pm.install(PluginType::Model, &2, &args(), done).unwrap();
    assert_eq!(pm.get_model(&2), Some(&16));
}

#[test]
fn uninstall_of_model_not_installed_does_nothing() {
    let mut pm = PluginManager::new(scan());
    let calls = std::cell::Cell::new(0);
    let hook = |_: &u32, _: &[String]| {
        calls.set(calls.get() + 1);
        HookOutcome::Done
    };
    assert!(pm.uninstall(PluginType::Model, &2, &args(), hook).is_ok());
    assert_eq!(calls.get(), 0);
}

#[test]
fn uninstall_refused_fails_the_model() {
    let mut pm = PluginManager::new(scan());
    pm.install(PluginType::Model, &2, &args(), done).unwrap();
    assert!(pm.uninstall(PluginType::Model, &2, &args(), refused).is_ok());
    assert!(pm.get_model(&2).is_none());
    pm.install(PluginType::Model, &2, &args(), done).unwrap();
    assert!(pm.get_model(&2).is_none());
}

#[test]
fn uninstall_all_uninstalls_every_installed_model_with_an_empty_argument() {
    let mut pm = PluginManager::new(scan());
    pm.install(PluginType::Model, &2, &args(), done).unwrap();
    pm.install(PluginType::Model, &3, &args(), done).unwrap();
    let seen = std::cell::RefCell::new(Vec::new());
    let hook = |h: &u32, a: &[String]| {
        seen.borrow_mut().push((*h, a.to_vec()));
        HookOutcome::Done
    };
    assert!(pm.uninstall_all(hook).is_ok());
    let mut seen = seen.into_inner();
    seen.sort();
    assert_eq!(seen, vec![(16, vec![String::new()]), (22, vec![String::new()])]);
    assert!(pm.get_model(&2).is_none());
    assert!(pm.get_model(&3).is_none());
}

#[test]
fn uninstall_all_stops_at_a_fatal_hook() {
    let mut pm = PluginManager::new(scan());
    pm.install(PluginType::Model, &2, &args(), done).unwrap();
    pm.install(PluginType::Model, &3, &args(), done).unwrap();
    let calls = std::cell::Cell::new(0);
    let hook = |h: &u32, a: &[String]| {
        calls.set(calls.get() + 1);
        fatal(h, a)
    };
    let r = pm.uninstall_all(hook);
    assert!(matches!(r, Err(FrError::Plugin(_))));
    assert_eq!(calls.get(), 1);
    // exactly one of the two models is still installed
    let served = [pm.get_model(&2).is_some(), pm.get_model(&3).is_some()];
    assert_eq!(served.iter().filter(|s| **s).count(), 1);
}

#[test]
fn uninstall_all_with_nothing_installed_succeeds() {
    let mut pm = PluginManager::new(scan());
    assert!(pm.uninstall_all(fatal).is_ok());
}
