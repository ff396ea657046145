//! The record store: settings, registered services and orchestration
//! matches, each service or orchestration kept under a unique name.
//!
//! Stored records are listed and selected by matching their names against a
//! regular expression, in storage order. Saving under an existing name
//! overwrites that record in place; deleting an absent name is an error.

use vstd::prelude::*;

use crate::dtos::{
    orchestration_eq, service_eq, ArrowheadService, EntryTag, Orchestration,
};
use crate::pattern::{
    pattern_compiles, pattern_matches, regex_check, regex_error_message, regex_is_match,
};
use crate::settings::Settings;

verus! {

/// A failure of the record store.
pub enum Error {
    IOError(String),
    RegexError(String),
    SerializationError(String),
}

impl Error {
    /// The user-facing description of this error.
    pub fn message(&self) -> (r: String)
        ensures
            match self {
                Error::IOError(m) => r@ == "IO error: "@ + m@,
                Error::RegexError(m) => r@ == "Regex error: "@ + m@,
                Error::SerializationError(m) => r@ == "Serialization error: "@ + m@,
            },
    {
        let mut r = String::new();
        match self {
            Error::IOError(m) => {
                r.append("IO error: ");
                r.append(m.as_str());
            },
            Error::RegexError(m) => {
                r.append("Regex error: ");
                r.append(m.as_str());
            },
            Error::SerializationError(m) => {
                r.append("Serialization error: ");
                r.append(m.as_str());
            },
        }
        r
    }
}

/// Whether some stored record carries the name `key`.
pub open spec fn has_name<T>(items: Seq<(String, T)>, key: Seq<char>) -> bool {
    exists|i: int| 0 <= i < items.len() && items[i].0@ == key
}

/// The position of the record named `key`.
pub open spec fn index_of_name<T>(items: Seq<(String, T)>, key: Seq<char>) -> int {
    choose|i: int| 0 <= i < items.len() && items[i].0@ == key
}

/// Whether all stored names are distinct.
pub open spec fn distinct_names<T>(items: Seq<(String, T)>) -> bool {
    forall|i: int, j: int| 0 <= i < j < items.len() ==> items[i].0@ != items[j].0@
}

/// The stored records whose names match `pattern`, in storage order.
pub open spec fn filtered_by_name<T>(items: Seq<(String, T)>, pattern: Seq<char>) -> Seq<
    (String, T),
>
    decreases items.len(),
{
    if items.len() == 0 {
        Seq::empty()
    } else {
        let rest = filtered_by_name(items.drop_last(), pattern);
        if pattern_matches(pattern, items.last().0@) {
            rest.push(items.last())
        } else {
            rest
        }
    }
}

/// Whether two listings name the same services with the same data.
pub open spec fn services_like(
    a: Seq<(String, ArrowheadService<EntryTag>)>,
    b: Seq<(String, ArrowheadService<EntryTag>)>,
) -> bool {
    &&& a.len() == b.len()
    &&& forall|i: int| 0 <= i < a.len() ==> a[i].0@ == b[i].0@ && service_eq(a[i].1, b[i].1)
}

/// Whether two listings name the same orchestrations with the same data.
pub open spec fn orchestrations_like(
    a: Seq<(String, Orchestration)>,
    b: Seq<(String, Orchestration)>,
) -> bool {
    &&& a.len() == b.len()
    &&& forall|i: int| 0 <= i < a.len() ==> a[i].0@ == b[i].0@ && orchestration_eq(a[i].1, b[i].1)
}

/// The settings the store answers with: the stored ones, or settings with
/// nothing set while none are stored.
pub open spec fn effective_settings(o: Option<Settings>) -> Settings {
    match o {
        Some(s) => s,
        None => Settings {
            service_registry_address: None,
            authorization_address: None,
            orchestrator_address: None,
            system_name: None,
            system_address: None,
            system_port: None,
            system_authentication_info: None,
            column_width: None,
        },
    }
}

/// The record store.
pub struct DataStore {
    settings: Option<Settings>,
    services: Vec<(String, ArrowheadService<EntryTag>)>,
    orchestrations: Vec<(String, Orchestration)>,
}

impl DataStore {
    /// The stored settings, while any are stored.
    pub closed spec fn spec_settings(&self) -> Option<Settings> {
        self.settings
    }

    /// The stored services, in storage order.
    pub closed spec fn spec_services(&self) -> Seq<(String, ArrowheadService<EntryTag>)> {
        self.services@
    }

    /// The stored orchestrations, in storage order.
    pub closed spec fn spec_orchestrations(&self) -> Seq<(String, Orchestration)> {
        self.orchestrations@
    }

    /// Stored names are unique within each kind of record.
    pub open spec fn wf(&self) -> bool {
        distinct_names(self.spec_services()) && distinct_names(self.spec_orchestrations())
    }

    /// An empty store.
    pub fn new() -> (r: Self)
        ensures
            r.wf(),
            r.spec_settings() is None,
            r.spec_services() =~= Seq::<(String, ArrowheadService<EntryTag>)>::empty(),
            r.spec_orchestrations() =~= Seq::<(String, Orchestration)>::empty(),
    {
        DataStore { settings: None, services: Vec::new(), orchestrations: Vec::new() }
    }

    /// Merge a partial update into the stored settings and keep the result.
    pub fn set_settings(&mut self, settings: Settings) -> (r: Result<(), Error>)
        requires
            old(self).wf(),
        ensures
            final(self).wf(),
            r is Ok,
            final(self).spec_settings() == Some(
                crate::settings::spec_merge(
                    effective_settings(old(self).spec_settings()),
                    settings,
                ),
            ),
            final(self).spec_services() == old(self).spec_services(),
            final(self).spec_orchestrations() == old(self).spec_orchestrations(),
    {
        let current = match self.get_settings() {
            Ok(s) => s,
            Err(e) => {
                return Err(e);
            },
        };
        self.settings = Some(current.merge(settings));
        Ok(())
    }

    /// The stored settings, or settings with nothing set while none are
    /// stored.
    pub fn get_settings(&self) -> (r: Result<Settings, Error>)
        ensures
            r is Ok,
            r->Ok_0 == effective_settings(self.spec_settings()),
    {
        match &self.settings {
            Some(s) => Ok(s.clone()),
            None => {
                let d = Settings::default();
                proof {
                    assert(d == effective_settings(self.spec_settings()));
                }
                Ok(d)
            },
        }
    }

    /// Keep a registered service under `name`: a record stored under that
    /// name is overwritten in place, any other name is appended.
    #[verifier::loop_isolation(false)]
    pub fn save_service(&mut self, name: &str, service_to_save: &ArrowheadService<EntryTag>) -> (r:
        Result<(), Error>)
        requires
            old(self).wf(),
        ensures
            final(self).wf(),
            r is Ok,
            final(self).spec_settings() == old(self).spec_settings(),
            final(self).spec_orchestrations() == old(self).spec_orchestrations(),
            upserted_service(
                old(self).spec_services(),
                final(self).spec_services(),
                name@,
                *service_to_save,
            ),
    {
        let key = String::from_str(name);
        let mut i: usize = 0;
        while i < self.services.len()
            invariant
                i <= self.services@.len(),
                forall|j: int| 0 <= j < i ==> self.services@[j].0@ != name@,
                key@ == name@,
                *self == *old(self),
            decreases self.services@.len() - i,
        {
            if self.services[i].0 == key {
                proof {
                    assert(old(self).spec_services()[i as int].0@ == name@);
                    assert(has_name(old(self).spec_services(), name@));
                }
                self.services[i] = (key, service_to_save.clone());
                proof {
                    let olds = old(self).spec_services();
                    let news = self.spec_services();
                    let k = index_of_name(olds, name@);
                    assert(0 <= k < olds.len() && olds[k].0@ == name@);
                    assert(k == i as int);
                    assert forall|a: int, b: int|
                        0 <= a < b < news.len() implies news[a].0@ != news[b].0@ by {
                        assert(news[a].0@ == olds[a].0@);
                        assert(news[b].0@ == olds[b].0@);
                    }
                }
                return Ok(());
            }
            i += 1;
        }
        proof {
            assert(!has_name(self.spec_services(), name@));
        }
        self.services.push((key, service_to_save.clone()));
        proof {
            let olds = old(self).spec_services();
            let news = self.spec_services();
            assert forall|a: int, b: int|
                0 <= a < b < news.len() implies news[a].0@ != news[b].0@ by {
                if b < olds.len() {
                    assert(news[a].0@ == olds[a].0@);
                    assert(news[b].0@ == olds[b].0@);
                } else {
                    assert(news[b].0@ == name@);
                    assert(news[a].0@ == olds[a].0@);
                }
            }
        }
        Ok(())
    }

    /// Keep an orchestration match under `name`, as `save_service` does.
    #[verifier::loop_isolation(false)]
    pub fn save_orchestration(
        &mut self,
        name: &str,
        orchestration_to_save: &Orchestration,
    ) -> (r: Result<(), Error>)
        requires
            old(self).wf(),
        ensures
            final(self).wf(),
            r is Ok,
            final(self).spec_settings() == old(self).spec_settings(),
            final(self).spec_services() == old(self).spec_services(),
            upserted_orchestration(
                old(self).spec_orchestrations(),
                final(self).spec_orchestrations(),
                name@,
                *orchestration_to_save,
            ),
    {
        let key = String::from_str(name);
        let mut i: usize = 0;
        while i < self.orchestrations.len()
            invariant
                i <= self.orchestrations@.len(),
                forall|j: int| 0 <= j < i ==> self.orchestrations@[j].0@ != name@,
                key@ == name@,
                *self == *old(self),
            decreases self.orchestrations@.len() - i,
        {
            if self.orchestrations[i].0 == key {
                proof {
                    assert(old(self).spec_orchestrations()[i as int].0@ == name@);
                    assert(has_name(old(self).spec_orchestrations(), name@));
                }
                self.orchestrations[i] = (key, orchestration_to_save.clone());
                proof {
                    let olds = old(self).spec_orchestrations();
                    let news = self.spec_orchestrations();
                    let k = index_of_name(olds, name@);
                    assert(0 <= k < olds.len() && olds[k].0@ == name@);
                    assert(k == i as int);
                    assert forall|a: int, b: int|
                        0 <= a < b < news.len() implies news[a].0@ != news[b].0@ by {
                        assert(news[a].0@ == olds[a].0@);
                        assert(news[b].0@ == olds[b].0@);
                    }
                }
                return Ok(());
            }
            i += 1;
        }
        proof {
            assert(!has_name(self.spec_orchestrations(), name@));
        }
        self.orchestrations.push((key, orchestration_to_save.clone()));
        proof {
            let olds = old(self).spec_orchestrations();
            let news = self.spec_orchestrations();
            assert forall|a: int, b: int|
                0 <= a < b < news.len() implies news[a].0@ != news[b].0@ by {
                if b < olds.len() {
                    assert(news[a].0@ == olds[a].0@);
                    assert(news[b].0@ == olds[b].0@);
                } else {
                    assert(news[b].0@ == name@);
                    assert(news[a].0@ == olds[a].0@);
                }
            }
        }
        Ok(())
    }

    /// Forget the service stored under exactly `name`; an absent name is
    /// an error and changes nothing.
    #[verifier::loop_isolation(false)]
    pub fn delete_service(&mut self, service_name: &str) -> (r: Result<(), Error>)
        requires
            old(self).wf(),
        ensures
            final(self).wf(),
            final(self).spec_settings() == old(self).spec_settings(),
            final(self).spec_orchestrations() == old(self).spec_orchestrations(),
            r is Ok <==> has_name(old(self).spec_services(), service_name@),
            r is Ok ==> final(self).spec_services() == old(self).spec_services().remove(
                index_of_name(old(self).spec_services(), service_name@),
            ),
            r is Err ==> final(self).spec_services() == old(self).spec_services() && r->Err_0
                is IOError,
    {
        let key = String::from_str(service_name);
        let mut i: usize = 0;
        while i < self.services.len()
            invariant
                i <= self.services@.len(),
                forall|j: int| 0 <= j < i ==> self.services@[j].0@ != service_name@,
                key@ == service_name@,
                *self == *old(self),
            decreases self.services@.len() - i,
        {
            if self.services[i].0 == key {
                proof {
                    assert(old(self).spec_services()[i as int].0@ == service_name@);
                    assert(has_name(old(self).spec_services(), service_name@));
                }
                self.services.remove(i);
                proof {
                    let olds = old(self).spec_services();
                    let news = self.spec_services();
                    let k = index_of_name(olds, service_name@);
                    assert(0 <= k < olds.len() && olds[k].0@ == service_name@);
                    assert(k == i as int);
                    olds.remove_ensures(i as int);
                    assert(news =~= olds.remove(i as int));
                    assert forall|a: int, b: int|
                        0 <= a < b < news.len() implies news[a].0@ != news[b].0@ by {
                        if a < i as int {
                            assert(news[a] == olds[a]);
                        } else {
                            assert(news[a] == olds[a + 1]);
                        }
                        if b < i as int {
                            assert(news[b] == olds[b]);
                        } else {
                            assert(news[b] == olds[b + 1]);
                        }
                    }
                }
                return Ok(());
            }
            i += 1;
        }
        let mut m = String::new();
        m.append("no stored record named ");
        m.append(service_name);
        proof {
            assert(!has_name(self.spec_services(), service_name@));
        }
        Err(Error::IOError(m))
    }

    /// The stored services whose names match the pattern, in storage
    /// order; a rejected pattern is an error.
    pub fn get_services(&self, name_regex: &str) -> (r: Result<
        Vec<(String, ArrowheadService<EntryTag>)>,
        Error,
    >)
        ensures
            r is Ok <==> pattern_compiles(name_regex@),
            r is Ok ==> services_like(
                r->Ok_0@,
                filtered_by_name(self.spec_services(), name_regex@),
            ),
            r is Err ==> r->Err_0 is RegexError,
    {
        match regex_check(name_regex) {
            Ok(()) => {},
            Err(e) => {
                return Err(Error::RegexError(regex_error_message(&e)));
            },
        }
        let mut out: Vec<(String, ArrowheadService<EntryTag>)> = Vec::new();
        let mut i: usize = 0;
        while i < self.services.len()
            invariant
                pattern_compiles(name_regex@),
                i <= self.services@.len(),
                services_like(
                    out@,
                    filtered_by_name(self.spec_services().take(i as int), name_regex@),
                ),
            decreases self.services@.len() - i,
        {
            let entry = &self.services[i];
            proof {
                assert(self.spec_services().take(i as int + 1).drop_last() =~= self.spec_services()
                    .take(i as int));
                assert(self.spec_services().take(i as int + 1).last() == self.spec_services()[i as int]);
            }
            if regex_is_match(name_regex, entry.0.as_str()) {
                out.push((entry.0.clone(), entry.1.clone()));
            }
            i += 1;
        }
        proof {
            assert(self.spec_services().take(self.spec_services().len() as int) =~= self
                .spec_services());
        }
        Ok(out)
    }

    /// The stored orchestrations whose names match the pattern, in storage
    /// order; a rejected pattern is an error.
    pub fn get_orchestrations(&self, name_regex: &str) -> (r: Result<
        Vec<(String, Orchestration)>,
        Error,
    >)
        ensures
            r is Ok <==> pattern_compiles(name_regex@),
            r is Ok ==> orchestrations_like(
                r->Ok_0@,
                filtered_by_name(self.spec_orchestrations(), name_regex@),
            ),
            r is Err ==> r->Err_0 is RegexError,
    {
        match regex_check(name_regex) {
            Ok(()) => {},
            Err(e) => {
                return Err(Error::RegexError(regex_error_message(&e)));
            },
        }
        let mut out: Vec<(String, Orchestration)> = Vec::new();
        let mut i: usize = 0;
        while i < self.orchestrations.len()
            invariant
                pattern_compiles(name_regex@),
                i <= self.orchestrations@.len(),
                orchestrations_like(
                    out@,
                    filtered_by_name(self.spec_orchestrations().take(i as int), name_regex@),
                ),
            decreases self.orchestrations@.len() - i,
        {
            let entry = &self.orchestrations[i];
            proof {
                assert(self.spec_orchestrations().take(i as int + 1).drop_last() =~= self
                    .spec_orchestrations().take(i as int));
                assert(self.spec_orchestrations().take(i as int + 1).last() == self
                    .spec_orchestrations()[i as int]);
            }
            if regex_is_match(name_regex, entry.0.as_str()) {
                out.push((entry.0.clone(), entry.1.clone()));
            }
            i += 1;
        }
        proof {
            assert(self.spec_orchestrations().take(self.spec_orchestrations().len() as int) =~= self
                .spec_orchestrations());
        }
        Ok(out)
    }
}

/// How saving a service under `key` changes the stored listing: the record
/// stored under `key` is overwritten in place when one exists, the listing
/// grows by one at the end otherwise.
pub open spec fn upserted_service(
    olds: Seq<(String, ArrowheadService<EntryTag>)>,
    news: Seq<(String, ArrowheadService<EntryTag>)>,
    key: Seq<char>,
    v: ArrowheadService<EntryTag>,
) -> bool {
    if has_name(olds, key) {
        let i = index_of_name(olds, key);
        &&& news.len() == olds.len()
        &&& news[i].0@ == key
        &&& service_eq(news[i].1, v)
        &&& forall|j: int| 0 <= j < olds.len() && j != i ==> news[j] == olds[j]
    } else {
        &&& news.len() == olds.len() + 1
        &&& forall|j: int| 0 <= j < olds.len() ==> news[j] == olds[j]
        &&& news.last().0@ == key
        &&& service_eq(news.last().1, v)
    }
}

/// How saving an orchestration under `key` changes the stored listing.
pub open spec fn upserted_orchestration(
    olds: Seq<(String, Orchestration)>,
    news: Seq<(String, Orchestration)>,
    key: Seq<char>,
    v: Orchestration,
) -> bool {
    if has_name(olds, key) {
        let i = index_of_name(olds, key);
        &&& news.len() == olds.len()
        &&& news[i].0@ == key
        &&& orchestration_eq(news[i].1, v)
        &&& forall|j: int| 0 <= j < olds.len() && j != i ==> news[j] == olds[j]
    } else {
        &&& news.len() == olds.len() + 1
        &&& forall|j: int| 0 <= j < olds.len() ==> news[j] == olds[j]
        &&& news.last().0@ == key
        &&& orchestration_eq(news.last().1, v)
    }
}

} // verus!
