//! What the command line hands in, turned into the library's inputs: the
//! `<key>:<value>` argument form, the registration command and the
//! orchestration command with its preferred-provider table.

use vstd::prelude::*;

use crate::dtos::{
    ArrowheadCloud, ArrowheadProvider, ArrowheadSystem, InterfaceEntry, NoEntryTag,
    OrchestrationFlagKey, RegisterServiceInput, RequestOrchestrationInput, SecurityType,
    ServiceDefinitionEntry, ServiceRequirements,
};
use crate::text::{spec_parse_u32, NumberError};

verus! {

/// A failure of a user-facing command.
pub enum Error {
    CommandError(String),
    ControllerError(String),
    PrintError(String),
}

impl Error {
    /// The user-facing description of this error.
    pub fn message(&self) -> (r: String)
        ensures
            match self {
                Error::CommandError(m) => r@ == "Error with the inputs of the command: "@ + m@,
                Error::ControllerError(m) => r@ == "Error during executing the command: "@ + m@,
                Error::PrintError(m) => r@ == "Error during printing the result: "@ + m@,
            },
    {
        let mut r = String::new();
        match self {
            Error::CommandError(m) => {
                r.append("Error with the inputs of the command: ");
                r.append(m.as_str());
            },
            Error::ControllerError(m) => {
                r.append("Error during executing the command: ");
                r.append(m.as_str());
            },
            Error::PrintError(m) => {
                r.append("Error during printing the result: ");
                r.append(m.as_str());
            },
        }
        r
    }
}

/// Whether no character of `s` is a line break: the `<key>:<value>` form
/// spans one line.
pub open spec fn single_line(s: Seq<char>) -> bool {
    forall|i: int| 0 <= i < s.len() ==> s[i] != '\n'
}

/// The position of the first colon of `s` at or after `j`, or the length
/// of `s` when there is none.
pub open spec fn first_colon_from(s: Seq<char>, j: int) -> int
    decreases s.len() - j,
{
    if j < 0 || j >= s.len() {
        s.len() as int
    } else if s[j] == ':' {
        j
    } else {
        first_colon_from(s, j + 1)
    }
}

/// Whether `s` has the `<key>:<value>` form: one line, with a colon that
/// leaves at least one character on each side. The key ends at the first
/// colon that leaves a nonempty value.
pub open spec fn pair_splits(s: Seq<char>) -> bool {
    single_line(s) && 1 <= first_colon_from(s, 1) <= s.len() - 2
}

/// Split a `<key>:<value>` argument at the first usable colon: the
/// shortest nonempty key, the rest after the colon as the value. Anything
/// else is rejected with one fixed message.
#[verifier::loop_isolation(false)]
pub fn parse_pair(input: &str) -> (r: Result<(String, String), &'static str>)
    ensures
        r is Ok <==> pair_splits(input@),
        r is Ok ==> ({
            let i = first_colon_from(input@, 1);
            r->Ok_0.0@ == input@.subrange(0, i) && r->Ok_0.1@ == input@.subrange(
                i + 1,
                input@.len() as int,
            )
        }),
        r is Err ==> r->Err_0@ == "Map item does not match the expected format (<key>:<value>)"@,
{
    let len = input.unicode_len();
    let mut i: usize = 0;
    while i < len
        invariant
            i <= len,
            len as nat == input@.len(),
            forall|j: int| 0 <= j < i ==> input@[j] != '\n',
        decreases len - i,
    {
        if input.get_char(i) == '\n' {
            return Err("Map item does not match the expected format (<key>:<value>)");
        }
        i += 1;
    }
    let mut k: usize = 1;
    while k < len
        invariant
            1 <= k <= len || len == 0,
            len as nat == input@.len(),
            forall|j: int| 1 <= j < k ==> input@[j] != ':',
        decreases len - k,
    {
        if input.get_char(k) == ':' {
            proof {
                lemma_first_colon_at(input@, 1, k as int);
            }
            if k <= len - 2 {
                let key = input.substring_char(0, k).to_owned();
                let value = input.substring_char(k + 1, len).to_owned();
                return Ok((key, value));
            } else {
                return Err("Map item does not match the expected format (<key>:<value>)");
            }
        }
        k += 1;
    }
    proof {
        if len > 0 {
            lemma_first_colon_none(input@, 1);
        }
    }
    Err("Map item does not match the expected format (<key>:<value>)")
}

/// The first colon at or after `j` stands at `k` when `k` carries a colon
/// and nothing before it does.
proof fn lemma_first_colon_at(s: Seq<char>, j: int, k: int)
    requires
        0 <= j <= k < s.len(),
        s[k] == ':',
        forall|m: int| j <= m < k ==> s[m] != ':',
    ensures
        first_colon_from(s, j) == k,
    decreases k - j,
{
    if j < k {
        lemma_first_colon_at(s, j + 1, k);
    }
}

/// With no colon at or after `j`, the first colon is past the end.
proof fn lemma_first_colon_none(s: Seq<char>, j: int)
    requires
        0 <= j,
        forall|m: int| j <= m < s.len() ==> s[m] != ':',
    ensures
        first_colon_from(s, j) == s.len(),
    decreases s.len() - j,
{
    if j < s.len() {
        lemma_first_colon_none(s, j + 1);
    }
}

/// The value stored under `key` when the pairs are read into a table where
/// a later entry overwrites an earlier one with the same key.
pub open spec fn lookup_last(pairs: Seq<(String, String)>, key: Seq<char>) -> Option<String>
    decreases pairs.len(),
{
    if pairs.len() == 0 {
        None
    } else if pairs.last().0@ == key {
        Some(pairs.last().1)
    } else {
        lookup_last(pairs.drop_last(), key)
    }
}

/// The value stored under `key`, searched from the latest entry back.
#[verifier::loop_isolation(false)]
fn find_last(pairs: &Vec<(String, String)>, key: &str) -> (r: Option<String>)
    ensures
        r == lookup_last(pairs@, key@),
{
    let lookup = String::from_str(key);
    proof {
        assert(pairs@.take(pairs@.len() as int) =~= pairs@);
    }
    let mut i: usize = pairs.len();
    while i > 0
        invariant
            i <= pairs@.len(),
            lookup@ == key@,
            lookup_last(pairs@, key@) == lookup_last(pairs@.take(i as int), key@),
        decreases i,
    {
        i = i - 1;
        let entry = &pairs[i];
        proof {
            assert(pairs@.take(i as int + 1).last() == pairs@[i as int]);
            assert(pairs@.take(i as int + 1).drop_last() =~= pairs@.take(i as int));
        }
        if entry.0 == lookup {
            return Some(entry.1.clone());
        }
    }
    proof {
        assert(pairs@.take(0).len() == 0);
    }
    None
}

/// The registration command, as given on the command line.
pub struct RegisterServiceCommand {
    pub name: String,
    pub interfaces: Vec<String>,
    pub uri: String,
    pub end_of_validity: Option<String>,
    pub metadata: Option<Vec<(String, String)>>,
    pub security_type: Option<SecurityType>,
    pub version: Option<u32>,
}

/// Whether `r` holds the same pairs as `given` read into a table where a
/// later entry overwrites an earlier one with the same key: each key keeps
/// its first position and its last value.
pub open spec fn deduped(pairs: Seq<(String, String)>) -> Seq<(String, String)>
    decreases pairs.len(),
{
    if pairs.len() == 0 {
        Seq::empty()
    } else {
        upsert_pair(deduped(pairs.drop_last()), pairs.last())
    }
}

/// `items` with `p` written into it: the value under an already-present
/// key is replaced in place, a new key is appended.
pub open spec fn upsert_pair(items: Seq<(String, String)>, p: (String, String)) -> Seq<
    (String, String),
> {
    if crate::datastore::has_name(items, p.0@) {
        let i = crate::datastore::index_of_name(items, p.0@);
        items.update(i, (items[i].0, p.1))
    } else {
        items.push(p)
    }
}

/// Read pairs into a table: a later entry overwrites an earlier one with
/// the same key; keys keep the position of their first occurrence.
#[verifier::loop_isolation(false)]
fn dedup_pairs(pairs: &Vec<(String, String)>) -> (r: Vec<(String, String)>)
    ensures
        r@ == deduped(pairs@),
        crate::datastore::distinct_names(r@),
{
    let mut out: Vec<(String, String)> = Vec::new();
    let mut i: usize = 0;
    proof {
        assert(pairs@.take(0).len() == 0);
    }
    while i < pairs.len()
        invariant
            i <= pairs@.len(),
            out@ == deduped(pairs@.take(i as int)),
            crate::datastore::distinct_names(out@),
        decreases pairs@.len() - i,
    {
        let p = &pairs[i];
        proof {
            assert(pairs@.take(i as int + 1).last() == pairs@[i as int]);
            assert(pairs@.take(i as int + 1).drop_last() =~= pairs@.take(i as int));
        }
        let ghost before = out@;
        let mut j: usize = 0;
        let mut replaced = false;
        while j < out.len()
            invariant
                j <= out@.len(),
                !replaced ==> out@ == before,
                !replaced ==> forall|m: int| 0 <= m < j ==> out@[m].0@ != pairs@[i as int].0@,
                replaced ==> crate::datastore::has_name(before, pairs@[i as int].0@)
                    && crate::datastore::index_of_name(before, pairs@[i as int].0@) < j && out@
                    == upsert_pair(before, pairs@[i as int]),
                crate::datastore::distinct_names(before),
                i < pairs@.len(),
            decreases out@.len() - j,
        {
            if !replaced {
                if out[j].0 == p.0 {
                    proof {
                        assert(before[j as int].0@ == pairs@[i as int].0@);
                        assert(crate::datastore::has_name(before, pairs@[i as int].0@));
                        let k = crate::datastore::index_of_name(before, pairs@[i as int].0@);
                        assert(0 <= k < before.len() && before[k].0@ == pairs@[i as int].0@);
                        assert(k == j as int);
                    }
                    let kept = out[j].0.clone();
                    out[j] = (kept, p.1.clone());
                    replaced = true;
                }
            }
            j += 1;
        }
        if !replaced {
            proof {
                assert(!crate::datastore::has_name(before, pairs@[i as int].0@));
            }
            out.push((p.0.clone(), p.1.clone()));
        }
        proof {
            assert(out@ =~= upsert_pair(before, pairs@[i as int]));
            assert(out@ == deduped(pairs@.take(i as int + 1)));
            assert forall|a: int, b: int|
                0 <= a < b < out@.len() implies out@[a].0@ != out@[b].0@ by {
                if b < before.len() {
                    assert(out@[a].0@ == before[a].0@);
                    assert(out@[b].0@ == before[b].0@);
                } else {
                    assert(out@[a].0@ == before[a].0@);
                }
            }
        }
        i += 1;
    }
    proof {
        assert(pairs@.take(pairs@.len() as int) =~= pairs@);
    }
    out
}

impl RegisterServiceCommand {
    /// The registration input this command names: the command's name as
    /// the service definition, each interface as a bare interface name,
    /// and the metadata read into a table where a later entry overwrites
    /// an earlier one with the same key.
    #[verifier::loop_isolation(false)]
    pub fn to_input(self) -> (r: RegisterServiceInput)
        ensures
            r.service_definition == ServiceDefinitionEntry::Value(self.name),
            r.service_uri == self.uri,
            r.end_of_validity == self.end_of_validity,
            r.secure == self.security_type,
            (match (r.metadata, self.metadata) {
                (Some(m), Some(given)) => m@ == deduped(given@),
                (None, None) => true,
                _ => false,
            }),
            r.version == self.version,
            r.interfaces@.len() == self.interfaces@.len(),
            forall|i: int|
                0 <= i < self.interfaces@.len() ==> r.interfaces@[i] == InterfaceEntry::Value(
                    self.interfaces@[i],
                ),
    {
        let metadata = match &self.metadata {
            Some(given) => Some(dedup_pairs(given)),
            None => None,
        };
        let mut interfaces: Vec<InterfaceEntry> = Vec::new();
        let mut rest = self.interfaces;
        let ghost given_interfaces = rest@;
        let mut i: usize = 0;
        while i < rest.len()
            invariant
                i <= rest@.len(),
                rest@ == given_interfaces,
                interfaces@.len() == i,
                forall|j: int|
                    0 <= j < i ==> interfaces@[j] == InterfaceEntry::Value(given_interfaces[j]),
            decreases rest@.len() - i,
        {
            interfaces.push(InterfaceEntry::Value(rest[i].clone()));
            i += 1;
        }
        RegisterServiceInput {
            service_definition: ServiceDefinitionEntry::Value(self.name),
            service_uri: self.uri,
            end_of_validity: self.end_of_validity,
            secure: self.security_type,
            metadata,
            version: self.version,
            interfaces,
        }
    }
}

/// The orchestration command, as given on the command line.
pub struct RequestOrchestrationCommand {
    pub name: String,
    pub service_name: String,
    pub flags: Option<Vec<OrchestrationFlagKey>>,
    pub interfaces: Option<Vec<String>>,
    pub max_version: Option<u32>,
    pub metadata: Option<Vec<(String, String)>>,
    pub min_version: Option<u32>,
    pub preferred_provider: Option<Vec<(String, String)>>,
    pub security_types: Option<Vec<SecurityType>>,
    pub version: Option<u32>,
}

/// The message for a preferred-provider field that is missing.
pub open spec fn missing_field_message(field: Seq<char>) -> Seq<char> {
    "The field '"@ + field + "' of argument 'preferred-provider' is missing"@
}

/// The message for a preferred-provider port that does not parse.
pub open spec fn port_error_message(e: NumberError) -> Seq<char> {
    "Error during parsing field 'system-port' of argument 'preferred-provider': "@ + (match e {
        NumberError::Empty => "cannot parse integer from empty string"@,
        NumberError::InvalidDigit => "invalid digit found in string"@,
        NumberError::TooLarge => "number too large to fit in target type"@,
    })
}

/// What the preferred-provider table names: the provider, or the message
/// for the first thing wrong with the table, in the order the provider's
/// fields are read.
pub open spec fn provider_from_pairs(pp: Seq<(String, String)>) -> Result<
    ArrowheadProvider,
    Seq<char>,
> {
    if lookup_last(pp, "operator-name"@) is None {
        Err(missing_field_message("operator-name"@))
    } else if lookup_last(pp, "cloud-name"@) is None {
        Err(missing_field_message("cloud-name"@))
    } else if lookup_last(pp, "system-name"@) is None {
        Err(missing_field_message("system-name"@))
    } else if lookup_last(pp, "system-address"@) is None {
        Err(missing_field_message("system-address"@))
    } else if lookup_last(pp, "system-port"@) is None {
        Err(missing_field_message("system-port"@))
    } else {
        match spec_parse_u32(lookup_last(pp, "system-port"@)->0@) {
            Ok(port) => Ok(
                ArrowheadProvider {
                    provider_cloud: ArrowheadCloud {
                        operator: lookup_last(pp, "operator-name"@)->0,
                        name: lookup_last(pp, "cloud-name"@)->0,
                    },
                    provider_system: ArrowheadSystem {
                        entry_tag: NoEntryTag {  },
                        system_name: lookup_last(pp, "system-name"@)->0,
                        address: lookup_last(pp, "system-address"@)->0,
                        port,
                        authentication_info: lookup_last(pp, "authentication-info"@),
                    },
                },
            ),
            Err(e) => Err(port_error_message(e)),
        }
    }
}

/// The message for a preferred-provider field that is missing.
fn missing_field_error(field: &str) -> (r: Error)
    ensures
        (r matches Error::CommandError(m) && m@ == missing_field_message(field@)),
{
    let mut m = String::new();
    m.append("The field '");
    m.append(field);
    m.append("' of argument 'preferred-provider' is missing");
    Error::CommandError(m)
}

/// The flag table an orchestration request carries: every named flag set,
/// each flag at most once, in order of first naming.
pub open spec fn deduped_flags(flags: Seq<OrchestrationFlagKey>) -> Seq<
    (OrchestrationFlagKey, bool),
>
    decreases flags.len(),
{
    if flags.len() == 0 {
        Seq::empty()
    } else {
        let rest = deduped_flags(flags.drop_last());
        if has_flag(rest, flags.last()) {
            rest
        } else {
            rest.push((flags.last(), true))
        }
    }
}

/// Whether `items` already sets `flag`.
pub open spec fn has_flag(items: Seq<(OrchestrationFlagKey, bool)>, flag: OrchestrationFlagKey) -> bool {
    exists|i: int| 0 <= i < items.len() && items[i].0 == flag
}

/// Set every named flag, each at most once, in order of first naming.
#[verifier::loop_isolation(false)]
fn dedup_flags(flags: &Vec<OrchestrationFlagKey>) -> (r: Vec<(OrchestrationFlagKey, bool)>)
    ensures
        r@ == deduped_flags(flags@),
{
    let mut out: Vec<(OrchestrationFlagKey, bool)> = Vec::new();
    let mut i: usize = 0;
    proof {
        assert(flags@.take(0).len() == 0);
    }
    while i < flags.len()
        invariant
            i <= flags@.len(),
            out@ == deduped_flags(flags@.take(i as int)),
        decreases flags@.len() - i,
    {
        let f = flags[i];
        proof {
            assert(flags@.take(i as int + 1).last() == flags@[i as int]);
            assert(flags@.take(i as int + 1).drop_last() =~= flags@.take(i as int));
        }
        let mut j: usize = 0;
        let mut present = false;
        while j < out.len()
            invariant
                j <= out@.len(),
                present <==> exists|m: int| 0 <= m < j && out@[m].0 == f,
            decreases out@.len() - j,
        {
            if out[j].0 == f {
                present = true;
            }
            j += 1;
        }
        if !present {
            out.push((f, true));
        }
        i += 1;
    }
    proof {
        assert(flags@.take(flags@.len() as int) =~= flags@);
    }
    out
}

impl RequestOrchestrationCommand {
    /// The orchestration input this command names. The preferred-provider
    /// table, when given, must name the operator, cloud, system name,
    /// system address and a port that parses; its authentication
    /// information is optional. Metadata requirements are not passed on.
    pub fn to_input(self) -> (r: Result<RequestOrchestrationInput, Error>)
        ensures
            (match self.preferred_provider {
                None => r is Ok && r->Ok_0.preferred_providers is None,
                Some(pp) => match provider_from_pairs(pp@) {
                    Ok(p) => r is Ok && (r->Ok_0.preferred_providers matches Some(v) && v@.len()
                        == 1 && v@[0] == p),
                    Err(m) => r is Err && (r->Err_0 matches Error::CommandError(msg) && msg@ == m),
                },
            }),
            r is Ok ==> r->Ok_0.requested_service == (ServiceRequirements {
                service_definition_requirement: self.service_name,
                interface_requirements: self.interfaces,
                security_requirements: self.security_types,
                metadata_requirements: None,
                version_requirement: self.version,
                max_version_requirement: self.max_version,
                min_version_requirement: self.min_version,
            }),
            r is Ok ==> (match (r->Ok_0.orchestration_flags, self.flags) {
                (Some(v), Some(f)) => v@ == deduped_flags(f@),
                (None, None) => true,
                _ => false,
            }),
    {
        let requested_service = ServiceRequirements {
            service_definition_requirement: self.service_name,
            interface_requirements: self.interfaces,
            security_requirements: self.security_types,
            metadata_requirements: None,
            version_requirement: self.version,
            max_version_requirement: self.max_version,
            min_version_requirement: self.min_version,
        };
        let preferred_providers = match &self.preferred_provider {
            Some(pp) => {
                let operator = match find_last(pp, "operator-name") {
                    Some(v) => v,
                    None => {
                        return Err(missing_field_error("operator-name"));
                    },
                };
                let cloud = match find_last(pp, "cloud-name") {
                    Some(v) => v,
                    None => {
                        return Err(missing_field_error("cloud-name"));
                    },
                };
                let system_name = match find_last(pp, "system-name") {
                    Some(v) => v,
                    None => {
                        return Err(missing_field_error("system-name"));
                    },
                };
                let address = match find_last(pp, "system-address") {
                    Some(v) => v,
                    None => {
                        return Err(missing_field_error("system-address"));
                    },
                };
                let port_text = match find_last(pp, "system-port") {
                    Some(v) => v,
                    None => {
                        return Err(missing_field_error("system-port"));
                    },
                };
                let port = match crate::text::parse_u32(port_text.as_str()) {
                    Ok(p) => p,
                    Err(e) => {
                        let mut m = String::new();
                        m.append(
                            "Error during parsing field 'system-port' of argument 'preferred-provider': ",
                        );
                        m.append(e.message());
                        return Err(Error::CommandError(m));
                    },
                };
                let provider = ArrowheadProvider {
                    provider_cloud: ArrowheadCloud { operator, name: cloud },
                    provider_system: ArrowheadSystem {
                        entry_tag: NoEntryTag {  },
                        system_name,
                        address,
                        port,
                        authentication_info: find_last(pp, "authentication-info"),
                    },
                };
                let mut providers: Vec<ArrowheadProvider> = Vec::new();
                providers.push(provider);
                Some(providers)
            },
            None => None,
        };
        let orchestration_flags = match &self.flags {
            Some(f) => Some(dedup_flags(f)),
            None => None,
        };
        Ok(
            RequestOrchestrationInput {
                requested_service,
                preferred_providers,
                orchestration_flags,
            },
        )
    }
}

} // verus!
