use axum_insights::exchange::Instrumentation;
use axum_insights::setup::Setup;
use axum_insights::{AppInsights, Base, Ready, WithConnectionString};

fn ready() -> AppInsights<Ready> {
    AppInsights::default()
        .with_connection_string(Some(String::from("InstrumentationKey=0")))
        .with_service_config("namespace", "name")
}

#[test]
fn settings_pass_through_their_states() {
    let base: AppInsights<Base> = AppInsights::default();
    let connected: AppInsights<WithConnectionString> = base.with_connection_string(None);
    let _ready: AppInsights<Ready> = connected.with_service_config("namespace", "name");
    let _also_ready: AppInsights<Ready> =
        AppInsights::default().with_connection_string(None).with_trace_config();
}

#[test]
fn default_settings_register_a_subscriber_that_exports_nothing() {
    let setup = AppInsights::default().with_connection_string(None).with_trace_config().build();
    assert_eq!(
        setup,
        Setup {
            instrumentation: Instrumentation::new(false),
            register_subscriber: true,
            export_to: None,
            service: None,
            live_metrics: false,
            install_fault_hook: false,
            keep_mappers: true,
        }
    );
}

#[test]
fn settings_are_carried_into_the_setup() {
    let setup = ready().with_live_metrics(true).with_catch_panic(true).build();
    assert_eq!(
        setup,
        Setup {
            instrumentation: Instrumentation::new(false),
            register_subscriber: true,
            export_to: Some(String::from("InstrumentationKey=0")),
            service: Some((String::from("namespace"), String::from("name"))),
            live_metrics: true,
            install_fault_hook: true,
            keep_mappers: true,
        }
    );
}

#[test]
fn the_last_setting_counts() {
    let setup = ready()
        .with_live_metrics(true)
        .with_live_metrics(false)
        .with_catch_panic(false)
        .with_catch_panic(true)
        .with_noop(true)
        .with_noop(false)
        .build();
    assert!(!setup.live_metrics);
    assert!(setup.install_fault_hook);
    assert!(!setup.instrumentation.noop);
}

#[test]
fn noop_registers_nothing_and_drops_the_mappers() {
    let setup = ready().with_live_metrics(true).with_noop(true).build();
    assert_eq!(
        setup,
        Setup {
            instrumentation: Instrumentation::new(true),
            register_subscriber: false,
            export_to: None,
            service: None,
            live_metrics: false,
            install_fault_hook: false,
            keep_mappers: false,
        }
    );
}

#[test]
fn the_fault_hook_is_installed_in_noop_mode_too() {
    let setup = ready().with_catch_panic(true).with_noop(true).build();
    assert!(setup.instrumentation.noop);
    assert!(setup.install_fault_hook);
    assert!(!setup.register_subscriber);
    assert!(!setup.keep_mappers);

    let setup = ready().with_noop(true).with_catch_panic(true).build();
    assert!(setup.instrumentation.noop);
    assert!(setup.install_fault_hook);
}
