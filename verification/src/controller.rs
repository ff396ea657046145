//! The decisions behind each user command: which settings are required and
//! what they must say before any core system can be addressed, what gets
//! stored under which name, and which stored record an unregistration
//! concerns. The network calls themselves live outside this library; their
//! results come back in here to be stored.

use vstd::prelude::*;

use crate::adapter::{url_parses, ArrowheadSystemAdapter};
use crate::datastore::{
    effective_settings, filtered_by_name, orchestrations_like, services_like,
    upserted_orchestration, upserted_service, DataStore,
};
use crate::dtos::{
    ArrowheadService, ArrowheadSystem, EntryTag, NoEntryTag, Orchestration, OrchestrationResponse,
};
use crate::pattern::pattern_compiles;
use crate::settings::{clone_opt_string, spec_merge, Settings};
use crate::text::dec_str;

verus! {

/// A failure of a user command.
pub enum Error {
    ArrowheadAdapterError(String),
    DataStoreError(String),
    SettingsError(String),
    NoMatchingRecord(String),
}

impl Error {
    /// The user-facing description of this error.
    pub fn message(&self) -> (r: String)
        ensures
            match self {
                Error::ArrowheadAdapterError(m) => r@
                    == "Error during communicating with Arrowhead core systems: "@ + m@,
                Error::DataStoreError(m) => r@ == "Error during handling saved data: "@ + m@,
                Error::SettingsError(m) => r@ == "Error with user settings: "@ + m@,
                Error::NoMatchingRecord(m) => r@ == "No stored record matches the name "@ + m@,
            },
    {
        let mut r = String::new();
        match self {
            Error::ArrowheadAdapterError(m) => {
                r.append("Error during communicating with Arrowhead core systems: ");
                r.append(m.as_str());
            },
            Error::DataStoreError(m) => {
                r.append("Error during handling saved data: ");
                r.append(m.as_str());
            },
            Error::SettingsError(m) => {
                r.append("Error with user settings: ");
                r.append(m.as_str());
            },
            Error::NoMatchingRecord(m) => {
                r.append("No stored record matches the name ");
                r.append(m.as_str());
            },
        }
        r
    }
}

/// The first required setting that is not set, in the order the gateway
/// needs them, while any is missing.
pub open spec fn missing_setting(s: Settings) -> Option<Seq<char>> {
    if s.service_registry_address is None {
        Some("serviceRegistryAddress"@)
    } else if s.authorization_address is None {
        Some("authorizationAddress"@)
    } else if s.orchestrator_address is None {
        Some("orchestratorAddress"@)
    } else if s.system_name is None {
        Some("systemName"@)
    } else if s.system_address is None {
        Some("systemAddress"@)
    } else if s.system_port is None {
        Some("systemPort"@)
    } else {
        None
    }
}

/// The error reported for a required setting that is not set.
fn not_set_error(missing: &str) -> (r: Error)
    ensures
        (r matches Error::SettingsError(m) && m@ == "The value '"@ + missing@ + "' is not set"@),
{
    let mut m = String::new();
    m.append("The value '");
    m.append(missing);
    m.append("' is not set");
    Error::SettingsError(m)
}

/// The name a result stored at position `i` of a multi-result answer gets:
/// the logical name with the zero-based position appended.
pub fn indexed_name(name: &str, i: usize) -> (r: String)
    ensures
        r@ == name@ + dec_str(i as nat),
{
    let mut r = String::from_str(name);
    let digits = crate::text::u64_to_string(i as u64);
    r.append(digits.as_str());
    r
}

/// How storing every answer of a multi-result orchestration under its
/// indexed name, left to right, changes the stored listing: the first `n`
/// answers stored in order, each under the logical name with its position.
pub open spec fn stored_indexed(
    olds: Seq<(String, Orchestration)>,
    news: Seq<(String, Orchestration)>,
    name: Seq<char>,
    list: Seq<Orchestration>,
    n: int,
) -> bool
    decreases n,
{
    if n <= 0 {
        news == olds
    } else {
        exists|mid: Seq<(String, Orchestration)>|
            stored_indexed(olds, mid, name, list, n - 1) && #[trigger] upserted_orchestration(
                mid,
                news,
                name + dec_str((n - 1) as nat),
                list[n - 1],
            )
    }
}

/// One more indexed answer stored on top of the first `n - 1`.
proof fn lemma_stored_indexed_step(
    olds: Seq<(String, Orchestration)>,
    mid: Seq<(String, Orchestration)>,
    news: Seq<(String, Orchestration)>,
    name: Seq<char>,
    list: Seq<Orchestration>,
    n: int,
)
    requires
        1 <= n,
        stored_indexed(olds, mid, name, list, n - 1),
        upserted_orchestration(mid, news, name + dec_str((n - 1) as nat), list[n - 1]),
    ensures
        stored_indexed(olds, news, name, list, n),
{
}

/// The commands a user can give, decided against the stored records and
/// settings.
pub struct Controller {
    pub data_store: DataStore,
}

impl Controller {
    /// Keep a service the registry accepted under `name`.
    pub fn register_service(
        &mut self,
        name: &str,
        registered_service: &ArrowheadService<EntryTag>,
    ) -> (r: Result<(), Error>)
        requires
            old(self).data_store.wf(),
        ensures
            final(self).data_store.wf(),
            r is Ok,
            final(self).data_store.spec_settings() == old(self).data_store.spec_settings(),
            final(self).data_store.spec_orchestrations() == old(
                self,
            ).data_store.spec_orchestrations(),
            upserted_service(
                old(self).data_store.spec_services(),
                final(self).data_store.spec_services(),
                name@,
                *registered_service,
            ),
    {
        match self.data_store.save_service(name, registered_service) {
            Ok(()) => Ok(()),
            Err(e) => Err(Error::DataStoreError(e.message())),
        }
    }

    /// The service definition to unregister: that of the first stored
    /// service whose name matches `name`. A name no stored record matches
    /// is reported as exactly that; nothing is changed either way — the
    /// record itself is dropped only once the registry has agreed.
    pub fn unregister_service(&self, name: &str) -> (r: Result<String, Error>)
        ensures
            !pattern_compiles(name@) ==> r is Err && r->Err_0 is DataStoreError,
            pattern_compiles(name@) ==> {
                let found = filtered_by_name(self.data_store.spec_services(), name@);
                if found.len() == 0 {
                    r is Err && (r->Err_0 matches Error::NoMatchingRecord(m) && m@ == name@)
                } else {
                    r is Ok && r->Ok_0@ == found[0].1.service_definition.spec_service_definition()
                }
            },
    {
        let found = match self.data_store.get_services(name) {
            Ok(v) => v,
            Err(e) => {
                return Err(Error::DataStoreError(e.message()));
            },
        };
        if found.len() == 0 {
            return Err(Error::NoMatchingRecord(String::from_str(name)));
        }
        let entry = &found[0];
        Ok(String::from_str(entry.1.service_definition.get_service_definition()))
    }

    /// Keep every answer of an orchestration request, each under the
    /// logical name with its zero-based position appended.
    pub fn request_orchestration(&mut self, name: &str, response: &OrchestrationResponse) -> (r:
        Result<(), Error>)
        requires
            old(self).data_store.wf(),
        ensures
            final(self).data_store.wf(),
            r is Ok,
            final(self).data_store.spec_settings() == old(self).data_store.spec_settings(),
            final(self).data_store.spec_services() == old(self).data_store.spec_services(),
            stored_indexed(
                old(self).data_store.spec_orchestrations(),
                final(self).data_store.spec_orchestrations(),
                name@,
                response.response@,
                response.response@.len() as int,
            ),
    {
        let mut i: usize = 0;
        while i < response.response.len()
            invariant
                old(self).data_store.wf(),
                self.data_store.wf(),
                i <= response.response@.len(),
                self.data_store.spec_settings() == old(self).data_store.spec_settings(),
                self.data_store.spec_services() == old(self).data_store.spec_services(),
                stored_indexed(
                    old(self).data_store.spec_orchestrations(),
                    self.data_store.spec_orchestrations(),
                    name@,
                    response.response@,
                    i as int,
                ),
            decreases response.response@.len() - i,
        {
            let ghost mid = self.data_store.spec_orchestrations();
            let stored_name = indexed_name(name, i);
            match self.data_store.save_orchestration(stored_name.as_str(), &response.response[i]) {
                Ok(()) => {},
                Err(e) => {
                    return Err(Error::DataStoreError(e.message()));
                },
            }
            proof {
                lemma_stored_indexed_step(
                    old(self).data_store.spec_orchestrations(),
                    mid,
                    self.data_store.spec_orchestrations(),
                    name@,
                    response.response@,
                    i as int + 1,
                );
            }
            i += 1;
        }
        Ok(())
    }

    /// Keep every answer of a stored orchestration looked up by its
    /// identifier, exactly as `request_orchestration` does.
    pub fn request_orchestration_id(&mut self, name: &str, response: &OrchestrationResponse) -> (r:
        Result<(), Error>)
        requires
            old(self).data_store.wf(),
        ensures
            final(self).data_store.wf(),
            r is Ok,
            final(self).data_store.spec_settings() == old(self).data_store.spec_settings(),
            final(self).data_store.spec_services() == old(self).data_store.spec_services(),
            stored_indexed(
                old(self).data_store.spec_orchestrations(),
                final(self).data_store.spec_orchestrations(),
                name@,
                response.response@,
                response.response@.len() as int,
            ),
    {
        self.request_orchestration(name, response)
    }

    /// Merge a partial settings update into the stored settings.
    pub fn set_settings(&mut self, settings: Settings) -> (r: Result<(), Error>)
        requires
            old(self).data_store.wf(),
        ensures
            final(self).data_store.wf(),
            r is Ok,
            final(self).data_store.spec_settings() == Some(
                spec_merge(effective_settings(old(self).data_store.spec_settings()), settings),
            ),
            final(self).data_store.spec_services() == old(self).data_store.spec_services(),
            final(self).data_store.spec_orchestrations() == old(
                self,
            ).data_store.spec_orchestrations(),
    {
        match self.data_store.set_settings(settings) {
            Ok(()) => Ok(()),
            Err(e) => Err(Error::DataStoreError(e.message())),
        }
    }

    /// The stored settings, or settings with nothing set.
    pub fn get_settings(&self) -> (r: Result<Settings, Error>)
        ensures
            r is Ok,
            r->Ok_0 == effective_settings(self.data_store.spec_settings()),
    {
        match self.data_store.get_settings() {
            Ok(s) => Ok(s),
            Err(e) => Err(Error::DataStoreError(e.message())),
        }
    }

    /// The stored services whose names match the pattern, in storage order.
    pub fn get_services(&self, name_regex: &str) -> (r: Result<
        Vec<(String, ArrowheadService<EntryTag>)>,
        Error,
    >)
        ensures
            r is Ok <==> pattern_compiles(name_regex@),
            r is Ok ==> services_like(
                r->Ok_0@,
                filtered_by_name(self.data_store.spec_services(), name_regex@),
            ),
            r is Err ==> r->Err_0 is DataStoreError,
    {
        match self.data_store.get_services(name_regex) {
            Ok(v) => Ok(v),
            Err(e) => Err(Error::DataStoreError(e.message())),
        }
    }

    /// The stored orchestrations whose names match the pattern, in storage
    /// order.
    pub fn get_orchestrations(&self, name_regex: &str) -> (r: Result<
        Vec<(String, Orchestration)>,
        Error,
    >)
        ensures
            r is Ok <==> pattern_compiles(name_regex@),
            r is Ok ==> orchestrations_like(
                r->Ok_0@,
                filtered_by_name(self.data_store.spec_orchestrations(), name_regex@),
            ),
            r is Err ==> r->Err_0 is DataStoreError,
    {
        match self.data_store.get_orchestrations(name_regex) {
            Ok(v) => Ok(v),
            Err(e) => Err(Error::DataStoreError(e.message())),
        }
    }

    /// The gateway the stored settings describe: every required setting
    /// must be set, in the order the gateway takes them, and the three
    /// addresses must parse as URLs.
    pub fn get_system_adapter(&self) -> (r: Result<ArrowheadSystemAdapter, Error>)
        ensures
            ({
                let st = effective_settings(self.data_store.spec_settings());
                match missing_setting(st) {
                    Some(f) => r is Err && (r->Err_0 matches Error::SettingsError(m) && m@
                        == "The value '"@ + f + "' is not set"@),
                    None => {
                        &&& (r is Ok <==> url_parses(st.service_registry_address->0@)
                            && url_parses(st.authorization_address->0@) && url_parses(
                            st.orchestrator_address->0@,
                        ))
                        &&& r is Ok ==> {
                            let cs = r->Ok_0.client_system;
                            &&& cs.system_name == st.system_name->0
                            &&& cs.address == st.system_address->0
                            &&& cs.port == st.system_port->0
                            &&& cs.authentication_info == st.system_authentication_info
                        }
                        &&& r is Err ==> r->Err_0 is ArrowheadAdapterError
                    },
                }
            }),
    {
        let settings = match self.get_settings() {
            Ok(s) => s,
            Err(_) => {
                return Err(Error::DataStoreError(String::new()));
            },
        };
        let sra = match &settings.service_registry_address {
            Some(a) => a,
            None => {
                return Err(not_set_error("serviceRegistryAddress"));
            },
        };
        let aa = match &settings.authorization_address {
            Some(a) => a,
            None => {
                return Err(not_set_error("authorizationAddress"));
            },
        };
        let oa = match &settings.orchestrator_address {
            Some(a) => a,
            None => {
                return Err(not_set_error("orchestratorAddress"));
            },
        };
        let system_name = match &settings.system_name {
            Some(n) => n.clone(),
            None => {
                return Err(not_set_error("systemName"));
            },
        };
        let address = match &settings.system_address {
            Some(a) => a.clone(),
            None => {
                return Err(not_set_error("systemAddress"));
            },
        };
        let port = match &settings.system_port {
            Some(p) => *p,
            None => {
                return Err(not_set_error("systemPort"));
            },
        };
        let client_system = ArrowheadSystem {
            entry_tag: NoEntryTag {  },
            system_name,
            address,
            port,
            authentication_info: clone_opt_string(&settings.system_authentication_info),
        };
        match ArrowheadSystemAdapter::new(sra.as_str(), aa.as_str(), oa.as_str(), client_system) {
            Ok(adapter) => Ok(adapter),
            Err(e) => Err(Error::ArrowheadAdapterError(e.message())),
        }
    }
}

} // verus!
