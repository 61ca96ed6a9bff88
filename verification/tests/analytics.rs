use dbt_docs_server::analytics::{
    plan_relay, post_events, Accepted, AccountLoggedIn, AnalyticsBatch, AnalyticsEventReq,
    AnalyticsSink, DocsEvent, DocsSiteOpened, ErrorEncountered, EventBase, FilterApplied,
    LineageViewed, ReferralLinkClicked, ResourceViewed, SearchPerformed, TelemetryContext,
    UpsellPromptClicked, UpsellPromptDismissed, UpsellPromptDisplayed,
    VortexTelemetryDbtCloudContext, PACKAGE,
};
use dbt_docs_server::dist_info::TelemetryHydration;
use std::sync::Mutex;

/// Distribution code used by the test hydration.
const DIST: &str = "oss";

/// Hydration that differs from what the requests say, so that the tests show which
/// of the two an event has.
fn hyd() -> TelemetryHydration {
    TelemetryHydration {
        distribution: DIST.to_string(),
        dbt_version: "2.0.0".to_string(),
        is_logged_in: true,
        dbt_cloud_account_identifier: "acct".to_string(),
        dbt_cloud_project_id: "proj".to_string(),
        dbt_cloud_environment_id: "env".to_string(),
    }
}

/// The base of a request: the login it claims, and its event id.
fn base(is_logged_in: bool, event_id: &str) -> EventBase {
    EventBase {
        is_logged_in,
        context: TelemetryContext {
            event_id: event_id.to_string(),
            ..Default::default()
        },
    }
}

/// Expected context on the wire: the client's `event_id`, the server's cloud ids.
fn ctx(event_id: &str) -> Option<VortexTelemetryDbtCloudContext> {
    Some(VortexTelemetryDbtCloudContext {
        event_id: event_id.to_string(),
        dbt_cloud_account_identifier: "acct".to_string(),
        dbt_cloud_project_id: "proj".to_string(),
        dbt_cloud_environment_id: "env".to_string(),
        ..Default::default()
    })
}

#[test]
fn map_docs_site_opened() {
    let got = AnalyticsEventReq::DocsSiteOpened {
        base: base(true, "e1"),
        dbt_version: "1.9.0".to_string(),
        project_resource_count: 42,
    }
    .into_event(&hyd());
    assert_eq!(
        got,
        DocsEvent::DocsSiteOpened(DocsSiteOpened {
            context: ctx("e1"),
            is_logged_in: true,
            dbt_version: "2.0.0".to_string(),
            project_resource_count: 42,
            distribution: DIST.to_string(),
        })
    );
}

#[test]
fn map_resource_viewed() {
    let got = AnalyticsEventReq::ResourceViewed {
        base: base(false, "e2"),
        resource_type: "model".to_string(),
        view_level: "detail".to_string(),
        resource_id: "model.foo.bar".to_string(),
    }
    .into_event(&hyd());
    assert_eq!(
        got,
        DocsEvent::ResourceViewed(ResourceViewed {
            context: ctx("e2"),
            is_logged_in: true,
            resource_type: "model".to_string(),
            view_level: "detail".to_string(),
            resource_id: "model.foo.bar".to_string(),
            distribution: DIST.to_string(),
        })
    );
}

#[test]
fn map_lineage_viewed() {
    let got = AnalyticsEventReq::LineageViewed {
        base: base(true, "e3"),
        lineage_type: "column".to_string(),
        resource_type: "model".to_string(),
        resource_id: "model.foo.bar".to_string(),
    }
    .into_event(&hyd());
    assert_eq!(
        got,
        DocsEvent::LineageViewed(LineageViewed {
            context: ctx("e3"),
            is_logged_in: true,
            lineage_type: "column".to_string(),
            resource_type: "model".to_string(),
            resource_id: "model.foo.bar".to_string(),
            distribution: DIST.to_string(),
        })
    );
}

#[test]
fn map_search_performed() {
    let got = AnalyticsEventReq::SearchPerformed {
        base: base(false, "e4"),
        search_query: "orders".to_string(),
        result_count: 7,
    }
    .into_event(&hyd());
    assert_eq!(
        got,
        DocsEvent::SearchPerformed(SearchPerformed {
            context: ctx("e4"),
            is_logged_in: true,
            search_query: "orders".to_string(),
            result_count: 7,
            distribution: DIST.to_string(),
        })
    );
}

#[test]
fn map_filter_applied() {
    let got = AnalyticsEventReq::FilterApplied {
        base: base(false, "e5"),
        resource_type: "model".to_string(),
        filter_type: "test_result".to_string(),
        filter_value: "pass".to_string(),
    }
    .into_event(&hyd());
    assert_eq!(
        got,
        DocsEvent::FilterApplied(FilterApplied {
            context: ctx("e5"),
            is_logged_in: true,
            resource_type: "model".to_string(),
            filter_type: "test_result".to_string(),
            filter_value: "pass".to_string(),
            distribution: DIST.to_string(),
        })
    );
}

#[test]
fn map_upsell_prompt_displayed() {
    let got = AnalyticsEventReq::UpsellPromptDisplayed {
        base: base(false, "e6"),
        upsell_track: "columnLineage".to_string(),
        prompt_format: "banner".to_string(),
        prompt_location: "lineage_view".to_string(),
    }
    .into_event(&hyd());
    assert_eq!(
        got,
        DocsEvent::UpsellPromptDisplayed(UpsellPromptDisplayed {
            context: ctx("e6"),
            is_logged_in: true,
            upsell_track: "columnLineage".to_string(),
            prompt_format: "banner".to_string(),
            prompt_location: "lineage_view".to_string(),
            distribution: DIST.to_string(),
        })
    );
}

#[test]
fn map_upsell_prompt_clicked() {
    let got = AnalyticsEventReq::UpsellPromptClicked {
        base: base(false, "e7"),
        upsell_track: "columnLineage".to_string(),
        cta_label: "learn_more_about_cll".to_string(),
        referral_code: "ref123".to_string(),
    }
    .into_event(&hyd());
    assert_eq!(
        got,
        DocsEvent::UpsellPromptClicked(UpsellPromptClicked {
            context: ctx("e7"),
            is_logged_in: true,
            upsell_track: "columnLineage".to_string(),
            cta_label: "learn_more_about_cll".to_string(),
            referral_code: "ref123".to_string(),
            distribution: DIST.to_string(),
        })
    );
}

#[test]
fn map_upsell_prompt_dismissed() {
    let got = AnalyticsEventReq::UpsellPromptDismissed {
        base: base(false, "e8"),
        upsell_track: "dbtState".to_string(),
        dismiss_method: "close_button".to_string(),
    }
    .into_event(&hyd());
    assert_eq!(
        got,
        DocsEvent::UpsellPromptDismissed(UpsellPromptDismissed {
            context: ctx("e8"),
            is_logged_in: true,
            upsell_track: "dbtState".to_string(),
            dismiss_method: "close_button".to_string(),
            distribution: DIST.to_string(),
        })
    );
}

#[test]
fn map_referral_link_clicked() {
    let got = AnalyticsEventReq::ReferralLinkClicked {
        base: base(false, "e9"),
        referral_code: "ref456".to_string(),
        link_destination: "platform_signup".to_string(),
    }
    .into_event(&hyd());
    assert_eq!(
        got,
        DocsEvent::ReferralLinkClicked(ReferralLinkClicked {
            context: ctx("e9"),
            is_logged_in: true,
            referral_code: "ref456".to_string(),
            link_destination: "platform_signup".to_string(),
            distribution: DIST.to_string(),
        })
    );
}

#[test]
fn map_account_logged_in() {
    let got = AnalyticsEventReq::AccountLoggedIn {
        base: base(true, "e10"),
        triggered_by_prompt: true,
        upsell_track: "mesh".to_string(),
    }
    .into_event(&hyd());
    assert_eq!(
        got,
        DocsEvent::AccountLoggedIn(AccountLoggedIn {
            context: ctx("e10"),
            is_logged_in: true,
            triggered_by_prompt: true,
            upsell_track: "mesh".to_string(),
            distribution: DIST.to_string(),
        })
    );
}

#[test]
fn map_error_encountered() {
    let got = AnalyticsEventReq::ErrorEncountered {
        base: base(false, "e11"),
        error_category: "resource_load_failure".to_string(),
        error_message: "not found".to_string(),
        field_name: "unique_id".to_string(),
    }
    .into_event(&hyd());
    assert_eq!(
        got,
        DocsEvent::ErrorEncountered(ErrorEncountered {
            context: ctx("e11"),
            is_logged_in: true,
            error_category: "resource_load_failure".to_string(),
            error_message: "not found".to_string(),
            field_name: "unique_id".to_string(),
            distribution: DIST.to_string(),
        })
    );
}

#[test]
fn context_fields_default_to_empty() {
    // Without any context the client-only fields stay empty, but the server still
    // fills the cloud ids in (see `ctx`).
    let got = AnalyticsEventReq::ResourceViewed {
        base: EventBase::default(),
        resource_type: String::new(),
        view_level: String::new(),
        resource_id: String::new(),
    }
    .into_event(&hyd());
    let DocsEvent::ResourceViewed(inner) = got else {
        panic!("expected ResourceViewed");
    };
    assert_eq!(inner.context, ctx(""));
    assert_eq!(inner.resource_type, "");
}

/// A sink that keeps what it is given.
#[derive(Default)]
struct RecordingSink {
    events: Mutex<Vec<DocsEvent>>,
}

impl RecordingSink {
    fn recorded(&self) -> Vec<DocsEvent> {
        self.events.lock().unwrap().clone()
    }
}

impl AnalyticsSink for RecordingSink {
    fn emit(&self, event: DocsEvent) {
        self.events.lock().unwrap().push(event);
    }
}

#[test]
fn happy_path_relays_mixed_batch() {
    let sink = RecordingSink::default();
    let events = vec![
        AnalyticsEventReq::DocsSiteOpened {
            base: EventBase {
                is_logged_in: true,
                context: TelemetryContext {
                    event_id: "e1".to_string(),
                    session_id: "s1".to_string(),
                    ..Default::default()
                },
            },
            dbt_version: "1.9.0".to_string(),
            project_resource_count: 42,
        },
        AnalyticsEventReq::ResourceViewed {
            base: base(false, "e2"),
            resource_type: "model".to_string(),
            view_level: "detail".to_string(),
            resource_id: "model.foo.bar".to_string(),
        },
        AnalyticsEventReq::SearchPerformed {
            base: base(true, ""),
            search_query: "orders".to_string(),
            result_count: 7,
        },
    ];
    let reply = post_events(Ok(AnalyticsBatch { events }), false, true, &hyd(), &sink).unwrap();
    assert_eq!(
        reply,
        Accepted {
            accepted: 3,
            skipped: 0
        }
    );
    let recorded = sink.recorded();
    assert_eq!(recorded.len(), 3);
    let names: Vec<&str> = recorded.iter().map(|e| e.name()).collect();
    assert_eq!(
        names,
        vec!["DocsSiteOpened", "ResourceViewed", "SearchPerformed"]
    );
    let DocsEvent::DocsSiteOpened(opened) = &recorded[0] else {
        panic!("expected DocsSiteOpened");
    };
    assert_eq!(opened.context.as_ref().unwrap().session_id, "s1");
}

#[test]
fn consent_off_via_do_not_track_skips_all() {
    let sink = RecordingSink::default();
    let events = vec![
        AnalyticsEventReq::ResourceViewed {
            base: base(false, ""),
            resource_type: String::new(),
            view_level: String::new(),
            resource_id: String::new(),
        },
        AnalyticsEventReq::SearchPerformed {
            base: base(false, ""),
            search_query: String::new(),
            result_count: 0,
        },
    ];
    let reply = post_events(Ok(AnalyticsBatch { events }), true, true, &hyd(), &sink).unwrap();
    assert_eq!(
        reply,
        Accepted {
            accepted: 0,
            skipped: 2
        }
    );
    assert!(sink.recorded().is_empty());
}

#[test]
fn consent_off_via_usage_stats_flag_skips_all() {
    let sink = RecordingSink::default();
    let events = vec![AnalyticsEventReq::DocsSiteOpened {
        base: base(true, ""),
        dbt_version: String::new(),
        project_resource_count: 0,
    }];
    let reply = post_events(Ok(AnalyticsBatch { events }), false, false, &hyd(), &sink).unwrap();
    assert_eq!(
        reply,
        Accepted {
            accepted: 0,
            skipped: 1
        }
    );
    assert!(sink.recorded().is_empty());
}

#[test]
fn a_body_that_is_no_batch_is_refused() {
    let sink = RecordingSink::default();
    let reply = post_events(Err("no events".to_string()), false, true, &hyd(), &sink).unwrap_err();
    assert_eq!(reply.status, 400);
    assert_eq!(
        reply.fields,
        vec![
            ("code".to_string(), "invalid_event".to_string()),
            ("message".to_string(), "no events".to_string()),
        ]
    );
    assert!(sink.recorded().is_empty());
}

#[test]
fn client_sent_values_are_overridden() {
    let forged = AnalyticsEventReq::DocsSiteOpened {
        base: EventBase {
            is_logged_in: false,
            context: TelemetryContext {
                event_id: "e1".to_string(),
                dbt_cloud_account_identifier: "bogus-acct".to_string(),
                dbt_cloud_project_id: "bogus-proj".to_string(),
                dbt_cloud_environment_id: "bogus-env".to_string(),
                ..Default::default()
            },
        },
        dbt_version: "9.9.9-bogus".to_string(),
        project_resource_count: 0,
    };
    let sink = RecordingSink::default();
    let events = vec![forged];
    post_events(Ok(AnalyticsBatch { events }), false, true, &hyd(), &sink).unwrap();
    let recorded = sink.recorded();
    let DocsEvent::DocsSiteOpened(event) = &recorded[0] else {
        panic!("expected DocsSiteOpened");
    };
    assert_eq!(event.distribution, DIST);
    assert_eq!(event.dbt_version, "2.0.0");
    assert!(event.is_logged_in);
    assert_eq!(event.context, ctx("e1"));
}

#[test]
fn a_relay_is_planned_before_it_is_sent() {
    let opened = || AnalyticsBatch {
        events: vec![AnalyticsEventReq::DocsSiteOpened {
            base: base(true, "e1"),
            dbt_version: "1.9.0".to_string(),
            project_resource_count: 42,
        }],
    };
    let relay = plan_relay(Ok(opened()), false, true, &hyd()).unwrap();
    assert_eq!(relay.events.len(), 1);
    assert_eq!(relay.events[0].name(), "DocsSiteOpened");
    let relay = plan_relay(Ok(opened()), true, true, &hyd()).unwrap();
    assert!(relay.events.is_empty());
}

#[test]
fn events_are_named_after_their_messages() {
    let event = AnalyticsEventReq::SearchPerformed {
        base: base(false, "e"),
        search_query: "x".to_string(),
        result_count: 7,
    };
    assert_eq!(event.into_event(&hyd()).name(), "SearchPerformed");
    assert_eq!(PACKAGE, "v1.public.events.docs");
}
