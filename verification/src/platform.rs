//! The platform state: every shared registry the gateway consults, held in
//! one value so tests can instantiate independent platforms.

use vstd::prelude::*;
use crate::advertising::AccountSession;
use crate::apps::AppRegistry;
use crate::broker::EndpointState;
use crate::device::DeviceManifest;
use crate::gatekeeper::CapState;
use crate::grants::GrantState;
use crate::loader::ExtnState;
use crate::metrics::{
    metrics_random_number, MetricsBootInputs, MetricsContext, MetricsState,
};
use crate::openrpc::OpenRpcState;
use crate::registry::RouterState;
use crate::session::SessionState;

verus! {

/// Everything the gateway shares across requests.
#[derive(Debug)]
pub struct PlatformState {
    pub session_state: SessionState,
    pub open_rpc_state: OpenRpcState,
    pub router_state: RouterState,
    pub endpoint_state: EndpointState,
    pub cap_state: CapState,
    pub apps: AppRegistry,
    pub metrics: MetricsState,
    pub device_manifest: DeviceManifest,
    pub device_session_id: String,
    pub version: Option<String>,
}

impl PlatformState {
    /// Every keyed registry is well formed.
    pub open spec fn wf(self) -> bool {
        &&& self.session_state.wf()
        &&& self.open_rpc_state.wf()
        &&& self.cap_state.grant_state.wf()
        &&& self.apps.wf()
        &&& self.metrics.wf()
    }

    /// A platform around the device manifest: empty registries, the
    /// supported and available capability sets and the grant-gating list
    /// taken from the manifest.
    pub fn new(
        device_manifest: DeviceManifest,
        device_session_id: String,
        version: Option<String>,
        major_version: u32,
    ) -> (r: Self)
        ensures
            r.wf(),
            r.session_state.sessions@.len() == 0,
            r.open_rpc_state.methods@.len() == 0,
            r.open_rpc_state.major_version == major_version,
            r.endpoint_state.rules@.len() == 0,
            r.cap_state.supported@ == device_manifest.supported_caps@,
            r.cap_state.available@ == device_manifest.supported_caps@,
            r.cap_state.grant_state.grants@.len() == 0,
            r.cap_state.grant_state.spec_grant_gated() == device_manifest.grant_policies@,
            r.apps.apps@.len() == 0,
            r.device_manifest == device_manifest,
            r.device_session_id == device_session_id,
            r.version == version,
    {
        let supported = crate::metrics::clone_strings(&device_manifest.supported_caps);
        let available = crate::metrics::clone_strings(&device_manifest.supported_caps);
        let grant_gated = crate::metrics::clone_strings(&device_manifest.grant_policies);
        proof {
            assert(supported@ =~= device_manifest.supported_caps@);
            assert(available@ =~= device_manifest.supported_caps@);
            assert(grant_gated@ =~= device_manifest.grant_policies@);
        }
        PlatformState {
            session_state: SessionState::new(),
            open_rpc_state: OpenRpcState::new(major_version),
            router_state: RouterState::new(),
            endpoint_state: EndpointState::new(),
            cap_state: CapState {
                grant_state: GrantState::new(grant_gated),
                supported,
                available,
            },
            apps: AppRegistry::new(),
            metrics: MetricsState::new(),
            device_manifest,
            device_session_id,
            version,
        }
    }

    /// Boot-time metrics initialization: draws the sampling number and
    /// populates the whole context from the gathered inputs, the manifest's
    /// logging percentage and form factor, and the account session, exactly
    /// as `MetricsState::initialize` states. Only the sampling decision
    /// depends on the draw, which lands in 1..=100.
    pub fn initialize_metrics(
        &mut self,
        account_session: Option<AccountSession>,
        inputs: MetricsBootInputs,
    ) -> (r: &MetricsContext)
        requires
            old(self).wf(),
        ensures
            final(self).wf(),
            *r == final(self).metrics.context,
            final(self).session_state == old(self).session_state,
            final(self).open_rpc_state == old(self).open_rpc_state,
            final(self).endpoint_state == old(self).endpoint_state,
            final(self).cap_state == old(self).cap_state,
            final(self).apps == old(self).apps,
            final(self).device_manifest == old(self).device_manifest,
            final(self).device_session_id == old(self).device_session_id,
            final(self).version == old(self).version,
            exists|rn: u32|
                1 <= rn <= 100 && final(self).metrics.context.enabled
                    == #[trigger] crate::metrics::sampling_enabled(
                    rn,
                    old(self).device_manifest.metrics_logging_percentage,
                ),
            final(self).metrics.context.mac_address == match inputs.mac_address {
                Some(m) => m,
                None => old(self).metrics.context.mac_address,
            },
            final(self).metrics.context.serial_number == match inputs.serial_number {
                Some(s) => s,
                None => old(self).metrics.context.serial_number,
            },
            final(self).metrics.context.device_model == match inputs.device_model {
                Some(m) => m,
                None => old(self).metrics.context.device_model,
            },
            final(self).metrics.context.device_language@ == match inputs.language {
                Some(l) => l@,
                None => crate::metrics::spec_unset("language"@),
            },
            final(self).metrics.context.os_name@ == match inputs.os_name {
                Some(n) => n@,
                None => crate::metrics::spec_unset("os.name"@),
            },
            final(self).metrics.context.os_ver@ == match inputs.os_ver {
                Some(v) => v@,
                None => crate::metrics::spec_unset("os.ver"@),
            },
            final(self).metrics.context.device_name matches Some(d) && d@ == (
            match inputs.device_name {
                Some(n) => n@,
                None => crate::metrics::spec_unset("device.name"@),
            }),
            final(self).metrics.context.device_session_id == old(self).device_session_id,
            final(self).metrics.context.firmware@ == match inputs.firmware {
                Some(f) => f@,
                None => Seq::<char>::empty(),
            },
            final(self).metrics.context.ripple_version@ == match old(self).version {
                Some(v) => v@,
                None => crate::metrics::spec_unset("ripple.version"@),
            },
            final(self).metrics.context.activated == Some(true),
            final(self).metrics.context.proposition@ == match inputs.proposition {
                Some(p) => p@,
                None => "Proposition.missing.from.persistent.store"@,
            },
            final(self).metrics.context.retailer == inputs.retailer,
            final(self).metrics.context.primary_provider == inputs.primary_provider,
            final(self).metrics.context.platform@ == final(self).metrics.context.proposition@,
            final(self).metrics.context.coam == inputs.coam,
            final(self).metrics.context.country == inputs.country,
            final(self).metrics.context.region == inputs.region,
            final(self).metrics.context.account_type == inputs.account_type,
            final(self).metrics.context.operator == inputs.operator,
            final(self).metrics.context.account_detail_type == inputs.account_detail_type,
            final(self).metrics.context.device_type@ == match inputs.device_type {
                Some(t) => t@,
                None => old(self).device_manifest.form_factor@,
            },
            final(self).metrics.context.device_manufacturer@ == match inputs
                .device_manufacturer_store {
                Some(s) => s@,
                None => match inputs.device_make {
                    Some(m) => m@,
                    None => crate::metrics::spec_unset("device.make"@),
                },
            },
            final(self).metrics.context.authenticated == Some(true),
            final(self).metrics.context.data_governance_tags == old(self).metrics.context.data_governance_tags,
            match account_session {
                Some(s) => final(self).metrics.context.account_id == Some(s.account_id) && final(self).metrics.context.device_id == Some(s.device_id) && final(self).metrics.context.distribution_tenant_id == s.id,
                None => final(self).metrics.context.account_id is None && final(self).metrics.context.device_id is None && final(self).metrics.context.distribution_tenant_id@ == crate::metrics::spec_unset(
                    "distribution_tenant_id"@,
                ),
            },
    {
        let random_number = metrics_random_number();
        let percentage = self.device_manifest.metrics_logging_percentage;
        let device_session_id = self.device_session_id.clone();
        let version = match &self.version {
            Some(v) => Some(v.clone()),
            None => None,
        };
        let form_factor = self.device_manifest.get_form_factor();
        self.metrics.initialize(
            percentage,
            random_number,
            device_session_id,
            version,
            form_factor,
            account_session,
            inputs,
        );
        proof {
            assert(self.metrics.context.enabled == crate::metrics::sampling_enabled(
                random_number,
                percentage,
            ));
        }
        &self.metrics.context
    }
}

/// The boot-time aggregate: the platform plus the extension registries.
#[derive(Debug)]
pub struct BootstrapState {
    pub platform_state: PlatformState,
    pub extn_state: ExtnState,
}

impl BootstrapState {
    pub open spec fn wf(self) -> bool {
        self.platform_state.wf()
    }
}

} // verus!
