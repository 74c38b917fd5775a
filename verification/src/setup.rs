//! Setting the telemetry up: the settings, in the order in which they are
//! given, and what follows from them when the process starts.

use crate::exchange::Instrumentation;
use std::marker::PhantomData;
use vstd::prelude::*;
use vstd::string::*;

verus! {

/// The state of the settings before anything is given.
pub struct Base;

/// The state of the settings once the connection string is given.
pub struct WithConnectionString;

/// The state of the settings once the connection string and the service are
/// given: the rest may follow in any order, and the telemetry may be set up.
pub struct Ready;

/// The settings of the telemetry, in the state `S`.
pub struct AppInsights<S = Base> {
    connection_string: Option<String>,
    service: Option<(String, String)>,
    enable_live_metrics: bool,
    should_catch_panic: bool,
    is_noop: bool,
    state: PhantomData<S>,
}

/// What the settings hold, whatever their state.
pub struct Settings {
    /// Where the spans are sent. Without it none is sent.
    pub connection_string: Option<Seq<char>>,
    /// The namespace and the name of the service, where they are given.
    pub service: Option<(Seq<char>, Seq<char>)>,
    pub enable_live_metrics: bool,
    pub should_catch_panic: bool,
    pub is_noop: bool,
}

/// The settings that nothing was given to: no connection string, no service,
/// no live metrics, no fault hook, and not no-op.
pub open spec fn default_settings() -> Settings {
    Settings {
        connection_string: None,
        service: None,
        enable_live_metrics: false,
        should_catch_panic: false,
        is_noop: false,
    }
}

impl<S> View for AppInsights<S> {
    type V = Settings;

    closed spec fn view(&self) -> Settings {
        Settings {
            connection_string: self.connection_string.deep_view(),
            service: self.service.deep_view(),
            enable_live_metrics: self.enable_live_metrics,
            should_catch_panic: self.should_catch_panic,
            is_noop: self.is_noop,
        }
    }
}

impl Default for AppInsights<Base> {
    fn default() -> (settings: Self)
        ensures
            settings@ == default_settings(),
    {
        AppInsights {
            connection_string: None,
            service: None,
            enable_live_metrics: false,
            should_catch_panic: false,
            is_noop: false,
            state: PhantomData,
        }
    }
}

impl AppInsights<Base> {
    /// Sets the connection string. With `None` no telemetry is sent.
    pub fn with_connection_string(self, connection_string: Option<String>) -> (settings:
        AppInsights<WithConnectionString>)
        ensures
            settings@ == (Settings {
                connection_string: connection_string.deep_view(),
                ..self@
            }),
    {
        AppInsights {
            connection_string,
            service: self.service,
            enable_live_metrics: self.enable_live_metrics,
            should_catch_panic: self.should_catch_panic,
            is_noop: self.is_noop,
            state: PhantomData,
        }
    }
}

impl AppInsights<WithConnectionString> {
    /// Sets the namespace and the name of the service.
    pub fn with_service_config(self, namespace: &str, name: &str) -> (settings: AppInsights<Ready>)
        ensures
            settings@ == (Settings { service: Some((namespace@, name@)), ..self@ }),
    {
        AppInsights {
            connection_string: self.connection_string,
            service: Some((namespace.to_owned(), name.to_owned())),
            enable_live_metrics: self.enable_live_metrics,
            should_catch_panic: self.should_catch_panic,
            is_noop: self.is_noop,
            state: PhantomData,
        }
    }

    /// Goes on without a service: the trace configuration is given whole, and
    /// kept by who gives it.
    pub fn with_trace_config(self) -> (settings: AppInsights<Ready>)
        ensures
            settings@ == self@,
    {
        AppInsights {
            connection_string: self.connection_string,
            service: self.service,
            enable_live_metrics: self.enable_live_metrics,
            should_catch_panic: self.should_catch_panic,
            is_noop: self.is_noop,
            state: PhantomData,
        }
    }
}

/// What is done when the process starts.
#[derive(Clone, Debug, PartialEq, Eq)]
pub struct Setup {
    /// What the middleware is built with.
    pub instrumentation: Instrumentation,
    /// Whether a subscriber is registered for the process.
    pub register_subscriber: bool,
    /// Where the registered subscriber sends the spans, if anywhere.
    pub export_to: Option<String>,
    /// The namespace and the name of the service that the spans are sent for.
    pub service: Option<(String, String)>,
    pub live_metrics: bool,
    /// Whether the hook is installed that reports faults of the process.
    pub install_fault_hook: bool,
    /// Whether the middleware keeps the field mapper, the panic mapper and the
    /// success filter that were configured.
    pub keep_mappers: bool,
}

pub struct SetupView {
    pub instrumentation: Instrumentation,
    pub register_subscriber: bool,
    pub export_to: Option<Seq<char>>,
    pub service: Option<(Seq<char>, Seq<char>)>,
    pub live_metrics: bool,
    pub install_fault_hook: bool,
    pub keep_mappers: bool,
}

impl View for Setup {
    type V = SetupView;

    open spec fn view(&self) -> SetupView {
        SetupView {
            instrumentation: self.instrumentation,
            register_subscriber: self.register_subscriber,
            export_to: self.export_to.deep_view(),
            service: self.service.deep_view(),
            live_metrics: self.live_metrics,
            install_fault_hook: self.install_fault_hook,
            keep_mappers: self.keep_mappers,
        }
    }
}

/// What follows from the settings. The hook that reports the faults of the
/// process is installed where it was asked for, in no-op mode too: it belongs
/// to the process and to no middleware. In no-op mode nothing else is touched:
/// no subscriber is registered and the middleware drops the mappers and the
/// filter. Else a subscriber is registered, which exports where a connection
/// string was given.
pub open spec fn setup_of(settings: Settings) -> SetupView {
    if settings.is_noop {
        SetupView {
            instrumentation: Instrumentation { noop: true },
            register_subscriber: false,
            export_to: None,
            service: None,
            live_metrics: false,
            install_fault_hook: settings.should_catch_panic,
            keep_mappers: false,
        }
    } else {
        SetupView {
            instrumentation: Instrumentation { noop: false },
            register_subscriber: true,
            export_to: settings.connection_string,
            service: settings.service,
            live_metrics: settings.enable_live_metrics,
            install_fault_hook: settings.should_catch_panic,
            keep_mappers: true,
        }
    }
}

impl AppInsights<Ready> {
    /// Sets whether live metrics are collected.
    pub fn with_live_metrics(self, should_collect_live_metrics: bool) -> (settings: AppInsights<
        Ready,
    >)
        ensures
            settings@ == (Settings { enable_live_metrics: should_collect_live_metrics, ..self@ }),
    {
        AppInsights {
            connection_string: self.connection_string,
            service: self.service,
            enable_live_metrics: should_collect_live_metrics,
            should_catch_panic: self.should_catch_panic,
            is_noop: self.is_noop,
            state: PhantomData,
        }
    }

    /// Sets whether faults of the process are reported by a hook.
    pub fn with_catch_panic(self, should_catch_panic: bool) -> (settings: AppInsights<Ready>)
        ensures
            settings@ == (Settings { should_catch_panic, ..self@ }),
    {
        AppInsights {
            connection_string: self.connection_string,
            service: self.service,
            enable_live_metrics: self.enable_live_metrics,
            should_catch_panic,
            is_noop: self.is_noop,
            state: PhantomData,
        }
    }

    /// Sets whether the middleware does nothing. This is for test suites, in
    /// which a subscriber cannot be registered a second time.
    pub fn with_noop(self, should_noop: bool) -> (settings: AppInsights<Ready>)
        ensures
            settings@ == (Settings { is_noop: should_noop, ..self@ }),
    {
        AppInsights {
            connection_string: self.connection_string,
            service: self.service,
            enable_live_metrics: self.enable_live_metrics,
            should_catch_panic: self.should_catch_panic,
            is_noop: should_noop,
            state: PhantomData,
        }
    }

    /// Decides what is done when the process starts.
    pub fn build(self) -> (setup: Setup)
        ensures
            setup@ == setup_of(self@),
    {
        if self.is_noop {
            Setup {
                instrumentation: Instrumentation::new(true),
                register_subscriber: false,
                export_to: None,
                service: None,
                live_metrics: false,
                install_fault_hook: self.should_catch_panic,
                keep_mappers: false,
            }
        } else {
            Setup {
                instrumentation: Instrumentation::new(false),
                register_subscriber: true,
                export_to: self.connection_string,
                service: self.service,
                live_metrics: self.enable_live_metrics,
                install_fault_hook: self.should_catch_panic,
                keep_mappers: true,
            }
        }
    }
}

} // verus!
