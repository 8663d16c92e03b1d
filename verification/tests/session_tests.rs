use lance_datafusion::options::EnvOverrides;
use lance_datafusion::options::LanceExecutionOptions;
use lance_datafusion::session::ContextCache;
use lance_datafusion::session::get_session_context;
use lance_datafusion::session::get_task_context;
use lance_datafusion::session::new_session_context;

fn no_env() -> EnvOverrides {
    EnvOverrides::none()
}

fn default_opts() -> LanceExecutionOptions {
    LanceExecutionOptions::default()
}

#[test]
fn new_session_context_always_builds_fresh() {
    let a = new_session_context(&default_opts(), &no_env());
    let b = new_session_context(&default_opts(), &no_env());
    assert_ne!(a.session_id(), b.session_id());
}

#[test]
fn default_options_share_the_cached_context() {
    let mut cache = ContextCache::new();
    let a = get_session_context(&default_opts(), &no_env(), &mut cache);
    let b = get_session_context(&default_opts(), &no_env(), &mut cache);
    assert_eq!(a.session_id(), b.session_id());
    assert_eq!(a.inner.session_id(), b.inner.session_id());
}

#[test]
fn explicit_non_default_budget_gets_a_fresh_context() {
    let mut cache = ContextCache::new();
    let cached = get_session_context(&default_opts(), &no_env(), &mut cache);
    let opts = LanceExecutionOptions {
        use_spilling: false,
        mem_pool_size: Some(123456),
        batch_size: None,
    };
    let fresh = get_session_context(&opts, &no_env(), &mut cache);
    assert_ne!(cached.session_id(), fresh.session_id());
    let fresh2 = get_session_context(&opts, &no_env(), &mut cache);
    assert_ne!(fresh.session_id(), fresh2.session_id());
    let cached_again = get_session_context(&default_opts(), &no_env(), &mut cache);
    assert_eq!(cached.session_id(), cached_again.session_id());
}

#[test]
fn spilling_and_non_spilling_defaults_are_distinct_singletons() {
    let mut cache = ContextCache::new();
    let spill_opts = LanceExecutionOptions {
        use_spilling: true,
        mem_pool_size: None,
        batch_size: None,
    };
    let plain = get_session_context(&default_opts(), &no_env(), &mut cache);
    let spilling = get_session_context(&spill_opts, &no_env(), &mut cache);
    assert_ne!(plain.session_id(), spilling.session_id());
    assert!(spilling.spilling);
    assert!(!plain.spilling);
    let spilling_again = get_session_context(&spill_opts, &no_env(), &mut cache);
    assert_eq!(spilling.session_id(), spilling_again.session_id());
}

#[test]
fn kill_switch_routes_to_the_non_spilling_singleton() {
    let mut cache = ContextCache::new();
    let spill_opts = LanceExecutionOptions {
        use_spilling: true,
        mem_pool_size: None,
        batch_size: None,
    };
    let env = EnvOverrides { mem_pool_size: None, bypass_spilling: true };
    let a = get_session_context(&spill_opts, &env, &mut cache);
    assert!(!a.spilling);
    let b = get_session_context(&default_opts(), &no_env(), &mut cache);
    assert_eq!(a.session_id(), b.session_id());
}

#[test]
fn environment_override_sets_the_explicit_budget() {
    let mut cache = ContextCache::new();
    let env = EnvOverrides { mem_pool_size: Some("2048".to_string()), bypass_spilling: false };
    let a = get_session_context(&default_opts(), &env, &mut cache);
    assert_eq!(a.pool_size, 2048);
    let b = get_session_context(&default_opts(), &env, &mut cache);
    assert_ne!(a.session_id(), b.session_id());
}

#[test]
fn task_context_applies_batch_size_without_touching_the_session() {
    let session = new_session_context(&default_opts(), &no_env());
    let opts = LanceExecutionOptions {
        use_spilling: false,
        mem_pool_size: None,
        batch_size: Some(1024),
    };
    let task = get_task_context(&session, &opts);
    assert_eq!(task.session_config().batch_size(), 1024);
    let untouched = get_task_context(&session, &default_opts());
    assert_eq!(untouched.session_config().batch_size(), 8192);
    assert_eq!(session.inner.copied_config().batch_size(), 8192);
}
