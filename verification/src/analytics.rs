//! Analytics events of the site: a batch that the browser sends is gated on consent,
//! mapped event by event to what goes on the wire, and handed to a sink.
//!
//! The server fills in every field that it knows itself (see
//! [`TelemetryHydration`]): the distribution, the version, whether the user is logged
//! in, and three of the cloud ids. What the browser sends for them is ignored: the
//! server always wins.
use crate::dist_info::TelemetryHydration;
use crate::identity::{analytics_on, consents};
use crate::json::{bad_request_coded, coded_view, ErrorReply};
use vstd::prelude::*;

verus! {

/// Wire package of all events.
pub const PACKAGE: &'static str = "v1.public.events.docs";

// ---------------------------------------------------------------------------
// Events on the wire
// ---------------------------------------------------------------------------

/// Cloud context of an event. Anonymised ids only, never an email address.
#[derive(Clone, Debug, PartialEq, Default)]
pub struct VortexTelemetryDbtCloudContext {
    pub event_id: String,
    pub feature: String,
    pub snowplow_domain_session_id: String,
    pub snowplow_domain_user_id: String,
    pub session_id: String,
    pub referrer_url: String,
    pub dbt_cloud_account_id: String,
    pub dbt_cloud_account_identifier: String,
    pub dbt_cloud_project_id: String,
    pub dbt_cloud_environment_id: String,
    pub dbt_cloud_user_id: String,
}

/// Fired when the site is opened.
#[derive(Clone, Debug, PartialEq, Default)]
pub struct DocsSiteOpened {
    pub context: Option<VortexTelemetryDbtCloudContext>,
    pub is_logged_in: bool,
    pub dbt_version: String,
    pub project_resource_count: i64,
    pub distribution: String,
}

/// Fired when a resource is viewed, in a list or in detail.
#[derive(Clone, Debug, PartialEq, Default)]
pub struct ResourceViewed {
    pub context: Option<VortexTelemetryDbtCloudContext>,
    pub is_logged_in: bool,
    pub resource_type: String,
    pub view_level: String,
    pub resource_id: String,
    pub distribution: String,
}

/// Fired when the lineage of a resource is viewed.
#[derive(Clone, Debug, PartialEq, Default)]
pub struct LineageViewed {
    pub context: Option<VortexTelemetryDbtCloudContext>,
    pub is_logged_in: bool,
    pub lineage_type: String,
    pub resource_type: String,
    pub resource_id: String,
    pub distribution: String,
}

/// Fired when a search is performed.
#[derive(Clone, Debug, PartialEq, Default)]
pub struct SearchPerformed {
    pub context: Option<VortexTelemetryDbtCloudContext>,
    pub is_logged_in: bool,
    pub search_query: String,
    pub result_count: i64,
    pub distribution: String,
}

/// Fired when a filter is applied to a list of resources.
#[derive(Clone, Debug, PartialEq, Default)]
pub struct FilterApplied {
    pub context: Option<VortexTelemetryDbtCloudContext>,
    pub is_logged_in: bool,
    pub resource_type: String,
    pub filter_type: String,
    pub filter_value: String,
    pub distribution: String,
}

/// Fired when an upsell prompt is displayed.
#[derive(Clone, Debug, PartialEq, Default)]
pub struct UpsellPromptDisplayed {
    pub context: Option<VortexTelemetryDbtCloudContext>,
    pub is_logged_in: bool,
    pub upsell_track: String,
    pub prompt_format: String,
    pub prompt_location: String,
    pub distribution: String,
}

/// Fired when an upsell prompt is clicked.
#[derive(Clone, Debug, PartialEq, Default)]
pub struct UpsellPromptClicked {
    pub context: Option<VortexTelemetryDbtCloudContext>,
    pub is_logged_in: bool,
    pub upsell_track: String,
    pub cta_label: String,
    pub referral_code: String,
    pub distribution: String,
}

/// Fired when an upsell prompt is dismissed.
#[derive(Clone, Debug, PartialEq, Default)]
pub struct UpsellPromptDismissed {
    pub context: Option<VortexTelemetryDbtCloudContext>,
    pub is_logged_in: bool,
    pub upsell_track: String,
    pub dismiss_method: String,
    pub distribution: String,
}

/// Fired when a referral link is clicked.
#[derive(Clone, Debug, PartialEq, Default)]
pub struct ReferralLinkClicked {
    pub context: Option<VortexTelemetryDbtCloudContext>,
    pub is_logged_in: bool,
    pub referral_code: String,
    pub link_destination: String,
    pub distribution: String,
}

/// Fired when an account logs in.
#[derive(Clone, Debug, PartialEq, Default)]
pub struct AccountLoggedIn {
    pub context: Option<VortexTelemetryDbtCloudContext>,
    pub is_logged_in: bool,
    pub triggered_by_prompt: bool,
    pub upsell_track: String,
    pub distribution: String,
}

/// Fired when an error is encountered.
#[derive(Clone, Debug, PartialEq, Default)]
pub struct ErrorEncountered {
    pub context: Option<VortexTelemetryDbtCloudContext>,
    pub is_logged_in: bool,
    pub error_category: String,
    pub error_message: String,
    pub field_name: String,
    pub distribution: String,
}

/// An event as it goes on the wire.
#[derive(Clone, Debug, PartialEq)]
pub enum DocsEvent {
    DocsSiteOpened(DocsSiteOpened),
    ResourceViewed(ResourceViewed),
    LineageViewed(LineageViewed),
    SearchPerformed(SearchPerformed),
    FilterApplied(FilterApplied),
    UpsellPromptDisplayed(UpsellPromptDisplayed),
    UpsellPromptClicked(UpsellPromptClicked),
    UpsellPromptDismissed(UpsellPromptDismissed),
    ReferralLinkClicked(ReferralLinkClicked),
    AccountLoggedIn(AccountLoggedIn),
    ErrorEncountered(ErrorEncountered),
}

impl DocsEvent {
    /// The name of the event within the wire package.
    pub open spec fn event_name(self) -> Seq<char> {
        match self {
            DocsEvent::DocsSiteOpened(_) => "DocsSiteOpened"@,
            DocsEvent::ResourceViewed(_) => "ResourceViewed"@,
            DocsEvent::LineageViewed(_) => "LineageViewed"@,
            DocsEvent::SearchPerformed(_) => "SearchPerformed"@,
            DocsEvent::FilterApplied(_) => "FilterApplied"@,
            DocsEvent::UpsellPromptDisplayed(_) => "UpsellPromptDisplayed"@,
            DocsEvent::UpsellPromptClicked(_) => "UpsellPromptClicked"@,
            DocsEvent::UpsellPromptDismissed(_) => "UpsellPromptDismissed"@,
            DocsEvent::ReferralLinkClicked(_) => "ReferralLinkClicked"@,
            DocsEvent::AccountLoggedIn(_) => "AccountLoggedIn"@,
            DocsEvent::ErrorEncountered(_) => "ErrorEncountered"@,
        }
    }

    /// The context of the event.
    pub open spec fn context(self) -> Option<VortexTelemetryDbtCloudContext> {
        match self {
            DocsEvent::DocsSiteOpened(e) => e.context,
            DocsEvent::ResourceViewed(e) => e.context,
            DocsEvent::LineageViewed(e) => e.context,
            DocsEvent::SearchPerformed(e) => e.context,
            DocsEvent::FilterApplied(e) => e.context,
            DocsEvent::UpsellPromptDisplayed(e) => e.context,
            DocsEvent::UpsellPromptClicked(e) => e.context,
            DocsEvent::UpsellPromptDismissed(e) => e.context,
            DocsEvent::ReferralLinkClicked(e) => e.context,
            DocsEvent::AccountLoggedIn(e) => e.context,
            DocsEvent::ErrorEncountered(e) => e.context,
        }
    }

    /// Whether the user is logged in.
    pub open spec fn is_logged_in(self) -> bool {
        match self {
            DocsEvent::DocsSiteOpened(e) => e.is_logged_in,
            DocsEvent::ResourceViewed(e) => e.is_logged_in,
            DocsEvent::LineageViewed(e) => e.is_logged_in,
            DocsEvent::SearchPerformed(e) => e.is_logged_in,
            DocsEvent::FilterApplied(e) => e.is_logged_in,
            DocsEvent::UpsellPromptDisplayed(e) => e.is_logged_in,
            DocsEvent::UpsellPromptClicked(e) => e.is_logged_in,
            DocsEvent::UpsellPromptDismissed(e) => e.is_logged_in,
            DocsEvent::ReferralLinkClicked(e) => e.is_logged_in,
            DocsEvent::AccountLoggedIn(e) => e.is_logged_in,
            DocsEvent::ErrorEncountered(e) => e.is_logged_in,
        }
    }

    /// The distribution that the event comes from.
    pub open spec fn distribution(self) -> String {
        match self {
            DocsEvent::DocsSiteOpened(e) => e.distribution,
            DocsEvent::ResourceViewed(e) => e.distribution,
            DocsEvent::LineageViewed(e) => e.distribution,
            DocsEvent::SearchPerformed(e) => e.distribution,
            DocsEvent::FilterApplied(e) => e.distribution,
            DocsEvent::UpsellPromptDisplayed(e) => e.distribution,
            DocsEvent::UpsellPromptClicked(e) => e.distribution,
            DocsEvent::UpsellPromptDismissed(e) => e.distribution,
            DocsEvent::ReferralLinkClicked(e) => e.distribution,
            DocsEvent::AccountLoggedIn(e) => e.distribution,
            DocsEvent::ErrorEncountered(e) => e.distribution,
        }
    }

    /// The name of the event within the wire package.
    pub fn name(&self) -> (r: &'static str)
        ensures
            r@ == self.event_name(),
    {
        match self {
            DocsEvent::DocsSiteOpened(_) => "DocsSiteOpened",
            DocsEvent::ResourceViewed(_) => "ResourceViewed",
            DocsEvent::LineageViewed(_) => "LineageViewed",
            DocsEvent::SearchPerformed(_) => "SearchPerformed",
            DocsEvent::FilterApplied(_) => "FilterApplied",
            DocsEvent::UpsellPromptDisplayed(_) => "UpsellPromptDisplayed",
            DocsEvent::UpsellPromptClicked(_) => "UpsellPromptClicked",
            DocsEvent::UpsellPromptDismissed(_) => "UpsellPromptDismissed",
            DocsEvent::ReferralLinkClicked(_) => "ReferralLinkClicked",
            DocsEvent::AccountLoggedIn(_) => "AccountLoggedIn",
            DocsEvent::ErrorEncountered(_) => "ErrorEncountered",
        }
    }
}

// ---------------------------------------------------------------------------
// Events in a request
// ---------------------------------------------------------------------------

/// The context that a request gives of an event. What a request leaves out is empty.
#[derive(Clone, Debug, Default)]
pub struct TelemetryContext {
    pub event_id: String,
    pub feature: String,
    pub snowplow_domain_session_id: String,
    pub snowplow_domain_user_id: String,
    pub session_id: String,
    pub referrer_url: String,
    pub dbt_cloud_account_id: String,
    pub dbt_cloud_account_identifier: String,
    pub dbt_cloud_project_id: String,
    pub dbt_cloud_environment_id: String,
    pub dbt_cloud_user_id: String,
}

/// The context of an event on the wire: three cloud ids are the server's, the rest is
/// the client's.
pub open spec fn wire_context(c: TelemetryContext, h: TelemetryHydration) ->
    VortexTelemetryDbtCloudContext {
    VortexTelemetryDbtCloudContext {
        event_id: c.event_id,
        feature: c.feature,
        snowplow_domain_session_id: c.snowplow_domain_session_id,
        snowplow_domain_user_id: c.snowplow_domain_user_id,
        session_id: c.session_id,
        referrer_url: c.referrer_url,
        dbt_cloud_account_id: c.dbt_cloud_account_id,
        dbt_cloud_account_identifier: h.dbt_cloud_account_identifier,
        dbt_cloud_project_id: h.dbt_cloud_project_id,
        dbt_cloud_environment_id: h.dbt_cloud_environment_id,
        dbt_cloud_user_id: c.dbt_cloud_user_id,
    }
}

impl TelemetryContext {
    /// Build the context of an event on the wire. The server's cloud ids overwrite
    /// whatever the client sent.
    pub fn into_proto(self, h: &TelemetryHydration) -> (r: VortexTelemetryDbtCloudContext)
        ensures
            r == wire_context(self, *h),
    {
        VortexTelemetryDbtCloudContext {
            event_id: self.event_id,
            feature: self.feature,
            snowplow_domain_session_id: self.snowplow_domain_session_id,
            snowplow_domain_user_id: self.snowplow_domain_user_id,
            session_id: self.session_id,
            referrer_url: self.referrer_url,
            dbt_cloud_account_id: self.dbt_cloud_account_id,
            dbt_cloud_account_identifier: h.dbt_cloud_account_identifier.clone(),
            dbt_cloud_project_id: h.dbt_cloud_project_id.clone(),
            dbt_cloud_environment_id: h.dbt_cloud_environment_id.clone(),
            dbt_cloud_user_id: self.dbt_cloud_user_id,
        }
    }
}

/// Fields that every event of a request has. `is_logged_in` is accepted and ignored.
#[derive(Clone, Debug, Default)]
pub struct EventBase {
    pub is_logged_in: bool,
    pub context: TelemetryContext,
}

/// An event of a request. `dbt_version` is accepted and ignored.
#[derive(Clone, Debug)]
pub enum AnalyticsEventReq {
    DocsSiteOpened {
        base: EventBase,
        dbt_version: String,
        project_resource_count: i64,
    },
    ResourceViewed {
        base: EventBase,
        resource_type: String,
        view_level: String,
        resource_id: String,
    },
    LineageViewed {
        base: EventBase,
        lineage_type: String,
        resource_type: String,
        resource_id: String,
    },
    SearchPerformed {
        base: EventBase,
        search_query: String,
        result_count: i64,
    },
    FilterApplied {
        base: EventBase,
        resource_type: String,
        filter_type: String,
        filter_value: String,
    },
    UpsellPromptDisplayed {
        base: EventBase,
        upsell_track: String,
        prompt_format: String,
        prompt_location: String,
    },
    UpsellPromptClicked {
        base: EventBase,
        upsell_track: String,
        cta_label: String,
        referral_code: String,
    },
    UpsellPromptDismissed {
        base: EventBase,
        upsell_track: String,
        dismiss_method: String,
    },
    ReferralLinkClicked {
        base: EventBase,
        referral_code: String,
        link_destination: String,
    },
    AccountLoggedIn {
        base: EventBase,
        triggered_by_prompt: bool,
        upsell_track: String,
    },
    ErrorEncountered {
        base: EventBase,
        error_category: String,
        error_message: String,
        field_name: String,
    },
}

/// The event on the wire for an event of a request.
pub open spec fn event_of(req: AnalyticsEventReq, h: TelemetryHydration) -> DocsEvent {
    match req {
        AnalyticsEventReq::DocsSiteOpened { base, dbt_version: _, project_resource_count } => DocsEvent::DocsSiteOpened(
            DocsSiteOpened {
                context: Some(wire_context(base.context, h)),
                is_logged_in: h.is_logged_in,
                dbt_version: h.dbt_version,
                project_resource_count,
                distribution: h.distribution,
            },
        ),
        AnalyticsEventReq::ResourceViewed { base, resource_type, view_level, resource_id } => DocsEvent::ResourceViewed(
            ResourceViewed {
                context: Some(wire_context(base.context, h)),
                is_logged_in: h.is_logged_in,
                resource_type,
                view_level,
                resource_id,
                distribution: h.distribution,
            },
        ),
        AnalyticsEventReq::LineageViewed { base, lineage_type, resource_type, resource_id } => DocsEvent::LineageViewed(
            LineageViewed {
                context: Some(wire_context(base.context, h)),
                is_logged_in: h.is_logged_in,
                lineage_type,
                resource_type,
                resource_id,
                distribution: h.distribution,
            },
        ),
        AnalyticsEventReq::SearchPerformed { base, search_query, result_count } => DocsEvent::SearchPerformed(
            SearchPerformed {
                context: Some(wire_context(base.context, h)),
                is_logged_in: h.is_logged_in,
                search_query,
                result_count,
                distribution: h.distribution,
            },
        ),
        AnalyticsEventReq::FilterApplied { base, resource_type, filter_type, filter_value } => DocsEvent::FilterApplied(
            FilterApplied {
                context: Some(wire_context(base.context, h)),
                is_logged_in: h.is_logged_in,
                resource_type,
                filter_type,
                filter_value,
                distribution: h.distribution,
            },
        ),
        AnalyticsEventReq::UpsellPromptDisplayed { base, upsell_track, prompt_format, prompt_location } => DocsEvent::UpsellPromptDisplayed(
            UpsellPromptDisplayed {
                context: Some(wire_context(base.context, h)),
                is_logged_in: h.is_logged_in,
                upsell_track,
                prompt_format,
                prompt_location,
                distribution: h.distribution,
            },
        ),
        AnalyticsEventReq::UpsellPromptClicked { base, upsell_track, cta_label, referral_code } => DocsEvent::UpsellPromptClicked(
            UpsellPromptClicked {
                context: Some(wire_context(base.context, h)),
                is_logged_in: h.is_logged_in,
                upsell_track,
                cta_label,
                referral_code,
                distribution: h.distribution,
            },
        ),
        AnalyticsEventReq::UpsellPromptDismissed { base, upsell_track, dismiss_method } => DocsEvent::UpsellPromptDismissed(
            UpsellPromptDismissed {
                context: Some(wire_context(base.context, h)),
                is_logged_in: h.is_logged_in,
                upsell_track,
                dismiss_method,
                distribution: h.distribution,
            },
        ),
        AnalyticsEventReq::ReferralLinkClicked { base, referral_code, link_destination } => DocsEvent::ReferralLinkClicked(
            ReferralLinkClicked {
                context: Some(wire_context(base.context, h)),
                is_logged_in: h.is_logged_in,
                referral_code,
                link_destination,
                distribution: h.distribution,
            },
        ),
        AnalyticsEventReq::AccountLoggedIn { base, triggered_by_prompt, upsell_track } => DocsEvent::AccountLoggedIn(
            AccountLoggedIn {
                context: Some(wire_context(base.context, h)),
                is_logged_in: h.is_logged_in,
                triggered_by_prompt,
                upsell_track,
                distribution: h.distribution,
            },
        ),
        AnalyticsEventReq::ErrorEncountered { base, error_category, error_message, field_name } => DocsEvent::ErrorEncountered(
            ErrorEncountered {
                context: Some(wire_context(base.context, h)),
                is_logged_in: h.is_logged_in,
                error_category,
                error_message,
                field_name,
                distribution: h.distribution,
            },
        ),
    }
}

impl AnalyticsEventReq {
    /// Map an event of a request to the wire. The server always wins: the
    /// distribution, the login, the cloud ids and the version of a site that is opened
    /// are its own.
    pub fn into_event(self, h: &TelemetryHydration) -> (r: DocsEvent)
        ensures
            r == event_of(self, *h),
    {
        match self {
            AnalyticsEventReq::DocsSiteOpened { base, dbt_version: _, project_resource_count } => DocsEvent::DocsSiteOpened(
                DocsSiteOpened {
                    context: Some(base.context.into_proto(h)),
                    is_logged_in: h.is_logged_in,
                    dbt_version: h.dbt_version.clone(),
                    project_resource_count,
                    distribution: h.distribution.clone(),
                },
            ),
            AnalyticsEventReq::ResourceViewed { base, resource_type, view_level, resource_id } => DocsEvent::ResourceViewed(
                ResourceViewed {
                    context: Some(base.context.into_proto(h)),
                    is_logged_in: h.is_logged_in,
                    resource_type,
                    view_level,
                    resource_id,
                    distribution: h.distribution.clone(),
                },
            ),
            AnalyticsEventReq::LineageViewed { base, lineage_type, resource_type, resource_id } => DocsEvent::LineageViewed(
                LineageViewed {
                    context: Some(base.context.into_proto(h)),
                    is_logged_in: h.is_logged_in,
                    lineage_type,
                    resource_type,
                    resource_id,
                    distribution: h.distribution.clone(),
                },
            ),
            AnalyticsEventReq::SearchPerformed { base, search_query, result_count } => DocsEvent::SearchPerformed(
                SearchPerformed {
                    context: Some(base.context.into_proto(h)),
                    is_logged_in: h.is_logged_in,
                    search_query,
                    result_count,
                    distribution: h.distribution.clone(),
                },
            ),
            AnalyticsEventReq::FilterApplied { base, resource_type, filter_type, filter_value } => DocsEvent::FilterApplied(
                FilterApplied {
                    context: Some(base.context.into_proto(h)),
                    is_logged_in: h.is_logged_in,
                    resource_type,
                    filter_type,
                    filter_value,
                    distribution: h.distribution.clone(),
                },
            ),
            AnalyticsEventReq::UpsellPromptDisplayed { base, upsell_track, prompt_format, prompt_location } => DocsEvent::UpsellPromptDisplayed(
                UpsellPromptDisplayed {
                    context: Some(base.context.into_proto(h)),
                    is_logged_in: h.is_logged_in,
                    upsell_track,
                    prompt_format,
                    prompt_location,
                    distribution: h.distribution.clone(),
                },
            ),
            AnalyticsEventReq::UpsellPromptClicked { base, upsell_track, cta_label, referral_code } => DocsEvent::UpsellPromptClicked(
                UpsellPromptClicked {
                    context: Some(base.context.into_proto(h)),
                    is_logged_in: h.is_logged_in,
                    upsell_track,
                    cta_label,
                    referral_code,
                    distribution: h.distribution.clone(),
                },
            ),
            AnalyticsEventReq::UpsellPromptDismissed { base, upsell_track, dismiss_method } => DocsEvent::UpsellPromptDismissed(
                UpsellPromptDismissed {
                    context: Some(base.context.into_proto(h)),
                    is_logged_in: h.is_logged_in,
                    upsell_track,
                    dismiss_method,
                    distribution: h.distribution.clone(),
                },
            ),
            AnalyticsEventReq::ReferralLinkClicked { base, referral_code, link_destination } => DocsEvent::ReferralLinkClicked(
                ReferralLinkClicked {
                    context: Some(base.context.into_proto(h)),
                    is_logged_in: h.is_logged_in,
                    referral_code,
                    link_destination,
                    distribution: h.distribution.clone(),
                },
            ),
            AnalyticsEventReq::AccountLoggedIn { base, triggered_by_prompt, upsell_track } => DocsEvent::AccountLoggedIn(
                AccountLoggedIn {
                    context: Some(base.context.into_proto(h)),
                    is_logged_in: h.is_logged_in,
                    triggered_by_prompt,
                    upsell_track,
                    distribution: h.distribution.clone(),
                },
            ),
            AnalyticsEventReq::ErrorEncountered { base, error_category, error_message, field_name } => DocsEvent::ErrorEncountered(
                ErrorEncountered {
                    context: Some(base.context.into_proto(h)),
                    is_logged_in: h.is_logged_in,
                    error_category,
                    error_message,
                    field_name,
                    distribution: h.distribution.clone(),
                },
            ),
        }
    }

    /// What every event of a request has.
    pub open spec fn base(self) -> EventBase {
        match self {
            AnalyticsEventReq::DocsSiteOpened { base, .. } => base,
            AnalyticsEventReq::ResourceViewed { base, .. } => base,
            AnalyticsEventReq::LineageViewed { base, .. } => base,
            AnalyticsEventReq::SearchPerformed { base, .. } => base,
            AnalyticsEventReq::FilterApplied { base, .. } => base,
            AnalyticsEventReq::UpsellPromptDisplayed { base, .. } => base,
            AnalyticsEventReq::UpsellPromptClicked { base, .. } => base,
            AnalyticsEventReq::UpsellPromptDismissed { base, .. } => base,
            AnalyticsEventReq::ReferralLinkClicked { base, .. } => base,
            AnalyticsEventReq::AccountLoggedIn { base, .. } => base,
            AnalyticsEventReq::ErrorEncountered { base, .. } => base,
        }
    }
}

/// The server always wins: whatever a request says of the login, the distribution, the
/// cloud ids or the version, the event on the wire has what the server knows. What the
/// client alone knows passes through.
pub proof fn lemma_server_always_wins(req: AnalyticsEventReq, h: TelemetryHydration)
    ensures
        ({
            let event = event_of(req, h);
            &&& event.is_logged_in() == h.is_logged_in
            &&& event.distribution() == h.distribution
            &&& (event matches DocsEvent::DocsSiteOpened(e) ==> e.dbt_version == h.dbt_version)
            &&& event.context() matches Some(c) && {
                &&& c.event_id == req.base().context.event_id
                &&& c.feature == req.base().context.feature
                &&& c.snowplow_domain_session_id == req.base().context.snowplow_domain_session_id
                &&& c.snowplow_domain_user_id == req.base().context.snowplow_domain_user_id
                &&& c.session_id == req.base().context.session_id
                &&& c.referrer_url == req.base().context.referrer_url
                &&& c.dbt_cloud_account_id == req.base().context.dbt_cloud_account_id
                &&& c.dbt_cloud_account_identifier == h.dbt_cloud_account_identifier
                &&& c.dbt_cloud_project_id == h.dbt_cloud_project_id
                &&& c.dbt_cloud_environment_id == h.dbt_cloud_environment_id
                &&& c.dbt_cloud_user_id == req.base().context.dbt_cloud_user_id
            }
        }),
{
}

// ---------------------------------------------------------------------------
// Relaying a batch
// ---------------------------------------------------------------------------

/// A batch of events in a request.
#[derive(Clone, Debug)]
pub struct AnalyticsBatch {
    pub events: Vec<AnalyticsEventReq>,
}

/// Where events go once they are mapped.
pub trait AnalyticsSink: Send + Sync {
    /// Whether the sink may be handed an event. A sink that does not say so may be
    /// handed every event.
    open spec fn accepts(&self, event: DocsEvent) -> bool {
        true
    }

    /// Whether the sink has been handed an event, where the sink keeps account of it.
    open spec fn was_handed(&self, event: DocsEvent) -> bool {
        true
    }

    fn emit(&self, event: DocsEvent)
        requires
            self.accepts(event),
        ensures
            self.was_handed(event),
    ;
}

/// What a relay did with a batch: how many events it passed on, and how many it left
/// out.
#[derive(Clone, Copy, Debug, PartialEq, Eq, Structural)]
pub struct Accepted {
    pub accepted: usize,
    pub skipped: usize,
}

/// The events of a batch that go on the wire, and the reply to the request.
#[derive(Debug)]
pub struct Relay {
    pub events: Vec<DocsEvent>,
    pub reply: Accepted,
}

/// Events on the wire for a batch.
pub open spec fn events_of(events: Seq<AnalyticsEventReq>, h: TelemetryHydration) -> Seq<
    DocsEvent,
> {
    Seq::new(events.len(), |i: int| event_of(events[i], h))
}

/// The events of a request that go on the wire: those of its batch where there is consent,
/// and else none.
pub open spec fn relayed(
    batch: Result<AnalyticsBatch, String>,
    do_not_track: bool,
    send_anonymous_usage_stats: bool,
    h: TelemetryHydration,
) -> Seq<DocsEvent> {
    match batch {
        Ok(batch) => if consents(do_not_track, send_anonymous_usage_stats) {
            events_of(batch.events@, h)
        } else {
            Seq::empty()
        },
        Err(_) => Seq::empty(),
    }
}

/// Gate a batch on consent and map its events. Without consent nothing goes on the
/// wire; with it, every event does, in order. A body that is no batch is refused with
/// 400 and the code `invalid_event`.
pub fn plan_relay(
    batch: Result<AnalyticsBatch, String>,
    do_not_track: bool,
    send_anonymous_usage_stats: bool,
    h: &TelemetryHydration,
) -> (r: Result<Relay, ErrorReply>)
    ensures
        match batch {
            Err(e) => r matches Err(reply) && reply@ == coded_view("invalid_event"@, e@),
            Ok(batch) => r matches Ok(relay) && {
                &&& relay.reply.accepted + relay.reply.skipped == batch.events.len()
                &&& relay.reply.accepted == relay.events.len()
                &&& relay.events@ == (if consents(do_not_track, send_anonymous_usage_stats) {
                    events_of(batch.events@, *h)
                } else {
                    Seq::empty()
                })
            },
        },
{
    let batch = match batch {
        Ok(batch) => batch,
        Err(e) => return Err(bad_request_coded("invalid_event", e.as_str())),
    };
    let n: usize = batch.events.len();
    if !analytics_on(do_not_track, send_anonymous_usage_stats) {
        return Ok(Relay { events: Vec::new(), reply: Accepted { accepted: 0, skipped: n } });
    }
    let ghost all = batch.events@;
    let mut events: Vec<DocsEvent> = Vec::new();
    for event in it: batch.events
        invariant
            it.seq() == all,
            n == all.len(),
            events@ == events_of(all, *h).take(it.index() as int),
    {
        events.push(event.into_event(h));
    }
    assert(events_of(all, *h).take(all.len() as int) == events_of(all, *h));
    Ok(Relay { events, reply: Accepted { accepted: n, skipped: 0 } })
}

/// Relay a batch: gate it on consent, map its events and hand each to the sink, in
/// order. The reply says what became of the batch. The sink is handed the events of the
/// batch and no others, and without consent none at all: it need not accept anything
/// else. In which order and how often it is handed an event leaves no trace in a
/// contract.
pub fn post_events<S: AnalyticsSink + ?Sized>(
    batch: Result<AnalyticsBatch, String>,
    do_not_track: bool,
    send_anonymous_usage_stats: bool,
    h: &TelemetryHydration,
    sink: &S,
) -> (r: Result<Accepted, ErrorReply>)
    requires
        forall|event: DocsEvent|
            relayed(batch, do_not_track, send_anonymous_usage_stats, *h).contains(event)
                ==> #[trigger] sink.accepts(event),
    ensures
        forall|event: DocsEvent|
            relayed(batch, do_not_track, send_anonymous_usage_stats, *h).contains(event)
                ==> #[trigger] sink.was_handed(event),
        match batch {
            Err(e) => r matches Err(reply) && reply@ == coded_view("invalid_event"@, e@),
            Ok(batch) => r matches Ok(reply) && reply == (if consents(
                do_not_track,
                send_anonymous_usage_stats,
            ) {
                Accepted { accepted: batch.events.len(), skipped: 0 }
            } else {
                Accepted { accepted: 0, skipped: batch.events.len() }
            }),
        },
{
    let relay = match plan_relay(batch, do_not_track, send_anonymous_usage_stats, h) {
        Ok(relay) => relay,
        Err(e) => return Err(e),
    };
    let ghost all = relay.events@;
    assert(forall|i: int| 0 <= i < all.len() ==> all.contains(#[trigger] all[i]));
    for event in it: relay.events
        invariant
            it.seq() == all,
            forall|i: int| 0 <= i < all.len() ==> sink.accepts(#[trigger] all[i]),
            forall|i: int| 0 <= i < it.index() ==> sink.was_handed(#[trigger] all[i]),
    {
        sink.emit(event);
    }
    Ok(relay.reply)
}

} // verus!
