//! The service locator: from the logical name of a sibling service to the
//! address it listens on.
//!
//! The table is built once, from configuration entries handed in by the
//! process, and only read afterwards. A name that is not in it is an ordinary
//! outcome of a lookup, reported as `Error::ServiceResolutionFailed`.

use crate::error::Error;
use crate::json::{json_as_i64, json_as_str, json_get, json_view, parse_json, parsed_json, JsonModel};
use vstd::hash_map::StringHashMap;
use vstd::prelude::*;

verus! {

/// Where a service is reached.
#[derive(Debug)]
pub struct ServiceResolutionData {
    pub name: String,
    pub host: String,
    pub port: i32,
}

/// What a `ServiceResolutionData` holds.
pub struct RecordView {
    pub name: Seq<char>,
    pub host: Seq<char>,
    pub port: i32,
}

impl View for ServiceResolutionData {
    type V = RecordView;

    open spec fn view(&self) -> RecordView {
        RecordView { name: self.name@, host: self.host@, port: self.port }
    }
}

/// The table that a list of records stands for: each record under its name,
/// a later one in place of an earlier one of the same name.
pub open spec fn table_map(records: Seq<RecordView>) -> Map<Seq<char>, RecordView>
    decreases records.len(),
{
    if records.len() == 0 {
        Map::empty()
    } else {
        table_map(records.drop_last()).insert(records.last().name, records.last())
    }
}

/// In the table of a list of records, every record stands under its own
/// name.
pub proof fn lemma_table_map_names(records: Seq<RecordView>, name: Seq<char>)
    requires
        table_map(records).contains_key(name),
    ensures
        table_map(records)[name].name == name,
    decreases records.len(),
{
    if records.len() > 0 && records.last().name != name {
        lemma_table_map_names(records.drop_last(), name);
    }
}

/// The table of the services that this process can forward to: a hash map
/// from the name of a service to its record.
pub struct ServiceRegistry {
    table: StringHashMap<ServiceResolutionData>,
}

impl View for ServiceRegistry {
    type V = Map<Seq<char>, RecordView>;

    closed spec fn view(&self) -> Map<Seq<char>, RecordView> {
        self.table@.map_values(|r: ServiceResolutionData| r@)
    }
}

/// The pattern that the key of a configuration entry has to match.
pub const SERVICE_KEY_PATTERN: &'static str = "SERVICE_RESOLUTION_(.*)";

/// Whether `regex` finds a match of `pattern` anywhere in `haystack`;
/// nothing where it does not accept the pattern.
pub uninterp spec fn regex_match(pattern: Seq<char>, haystack: Seq<char>) -> Option<bool>;

/// `Regex::new` and `Regex::is_match` of `regex`. Trusted: the result is a
/// function of the pattern and the haystack alone; a pattern that is refused
/// gives `None`.
#[verifier::external_body]
pub(crate) fn regex_is_match(pattern: &str, haystack: &str) -> (r: Option<bool>)
    ensures
        r == regex_match(pattern@, haystack@),
{
    regex::Regex::new(pattern).ok().map(|re| re.is_match(haystack))
}

/// The record that a JSON value stands for: an object with the strings
/// `name` and `host` and an integer `port` of 32 bits.
pub open spec fn record_of_json(m: JsonModel) -> Option<RecordView> {
    match (m.get("name"@), m.get("host"@), m.get("port"@)) {
        (Some(JsonModel::Text(name)), Some(JsonModel::Text(host)), Some(JsonModel::Int(p))) => {
            if i32::MIN <= p <= i32::MAX {
                Some(RecordView { name, host, port: p as i32 })
            } else {
                None
            }
        },
        _ => None,
    }
}

/// The record that a configuration entry stands for: its key has to match
/// `SERVICE_KEY_PATTERN` and its value has to be the JSON text of a record.
pub open spec fn entry_record(key: Seq<char>, value: Seq<char>) -> Option<RecordView> {
    if regex_match(SERVICE_KEY_PATTERN@, key) == Some(true) {
        match parsed_json(value) {
            Some(m) => record_of_json(m),
            None => None,
        }
    } else {
        None
    }
}

/// The records that configuration entries stand for, in the order of the
/// entries; an entry that stands for none is passed over.
pub open spec fn entry_records(vars: Seq<(Seq<char>, Seq<char>)>) -> Seq<RecordView>
    decreases vars.len(),
{
    if vars.len() == 0 {
        Seq::empty()
    } else {
        let init = entry_records(vars.drop_last());
        match entry_record(vars.last().0, vars.last().1) {
            Some(rec) => init.push(rec),
            None => init,
        }
    }
}

/// The views of configuration entries, one by one.
pub open spec fn var_views(vars: Seq<(String, String)>) -> Seq<(Seq<char>, Seq<char>)> {
    vars.map_values(|v: (String, String)| (v.0@, v.1@))
}

/// Reads a record from a JSON value.
pub fn record_from_json(v: &serde_json::Value) -> (r: Option<ServiceResolutionData>)
    ensures
        match r {
            Some(rec) => record_of_json(json_view(*v)) == Some(rec@),
            None => record_of_json(json_view(*v)) is None,
        },
{
    let name = match json_get(v, "name") {
        Some(n) => match json_as_str(n) {
            Some(t) => t,
            None => {
                return None;
            },
        },
        None => {
            return None;
        },
    };
    let host = match json_get(v, "host") {
        Some(h) => match json_as_str(h) {
            Some(t) => t,
            None => {
                return None;
            },
        },
        None => {
            return None;
        },
    };
    let port = match json_get(v, "port") {
        Some(p) => match json_as_i64(p) {
            Some(i) => i,
            None => {
                return None;
            },
        },
        None => {
            return None;
        },
    };
    if port < -2147483648 || port > 2147483647 {
        return None;
    }
    Some(ServiceResolutionData { name: name.to_owned(), host: host.to_owned(), port: port as i32 })
}

/// Reads a record from one configuration entry.
pub fn record_from_entry(key: &str, value: &str) -> (r: Option<ServiceResolutionData>)
    ensures
        match r {
            Some(rec) => entry_record(key@, value@) == Some(rec@),
            None => entry_record(key@, value@) is None,
        },
{
    match regex_is_match(SERVICE_KEY_PATTERN, key) {
        Some(true) => match parse_json(value) {
            Some(v) => record_from_json(&v),
            None => None,
        },
        _ => None,
    }
}

impl ServiceRegistry {
    /// Every record is filed under its own name.
    #[verifier::type_invariant]
    spec fn filed_by_name(self) -> bool {
        forall|k: Seq<char>|
            self.table@.contains_key(k) ==> (#[trigger] self.table@[k]).name@ == k
    }

    /// The table without any service.
    pub fn new() -> (r: Self)
        ensures
            r@ == Map::<Seq<char>, RecordView>::empty(),
    {
        let r = ServiceRegistry { table: StringHashMap::new() };
        assert(r@ =~= Map::<Seq<char>, RecordView>::empty());
        r
    }

    /// The table with `record` under its name, in place of what was there
    /// under that name.
    pub fn insert(self, record: ServiceResolutionData) -> (r: Self)
        ensures
            r@ == self@.insert(record.name@, record@),
    {
        proof {
            use_type_invariant(&self);
        }
        let mut table = self.table;
        let name = record.name.clone();
        table.insert(name, record);
        let r = ServiceRegistry { table };
        assert(r@ =~= self@.insert(record.name@, record@));
        r
    }

    /// The record under `srv_name`, if there is one. A record that is found
    /// bears the name that was asked for.
    pub fn get(&self, srv_name: &str) -> (r: Option<&ServiceResolutionData>)
        ensures
            match r {
                Some(rec) => {
                    &&& self@.contains_key(srv_name@)
                    &&& self@[srv_name@] == rec@
                    &&& rec.name@ == srv_name@
                },
                None => !self@.contains_key(srv_name@),
            },
    {
        proof {
            use_type_invariant(self);
        }
        self.table.get(srv_name)
    }

    /// Builds the table from the configuration entries of the process,
    /// key and value: the entries whose key matches `SERVICE_KEY_PATTERN`
    /// and whose value is the JSON text of a record. Any other entry is
    /// passed over; loading does not fail.
    pub fn load_from_env(vars: &Vec<(String, String)>) -> (r: Result<ServiceRegistry, Error>)
        ensures
            r is Ok,
            r->Ok_0@ == table_map(entry_records(var_views(vars@))),
    {
        let mut registry = ServiceRegistry::new();
        let mut i: usize = 0;
        while i < vars.len()
            invariant
                i <= vars.len(),
                registry@ == table_map(entry_records(var_views(vars@).subrange(0, i as int))),
            decreases vars.len() - i,
        {
            let ghost before = var_views(vars@).subrange(0, i as int);
            let ghost next = var_views(vars@).subrange(0, i + 1);
            proof {
                assert(next.drop_last() =~= before);
                assert(next.last() == (vars[i as int].0@, vars[i as int].1@));
            }
            match record_from_entry(vars[i].0.as_str(), vars[i].1.as_str()) {
                Some(rec) => {
                    proof {
                        assert(entry_records(next).drop_last() =~= entry_records(before));
                    }
                    registry = registry.insert(rec);
                },
                None => {},
            }
            i += 1;
        }
        proof {
            assert(var_views(vars@).subrange(0, i as int) =~= var_views(vars@));
        }
        Ok(registry)
    }
}

/// The table of this process, built from its configuration entries.
pub fn service_registry(vars: &Vec<(String, String)>) -> (r: ServiceRegistry)
    ensures
        r@ == table_map(entry_records(var_views(vars@))),
{
    match ServiceRegistry::load_from_env(vars) {
        Ok(registry) => registry,
        Err(_) => ServiceRegistry::new(),
    }
}

/// Looks `srv_name` up in `registry`.
pub fn do_resolve_service<'a>(registry: &'a ServiceRegistry, srv_name: &str) -> (r: Result<
    &'a ServiceResolutionData,
    Error,
>)
    ensures
        match r {
            Ok(rec) => {
                &&& registry@.contains_key(srv_name@)
                &&& registry@[srv_name@] == rec@
                &&& rec.name@ == srv_name@
            },
            Err(e) => e == Error::ServiceResolutionFailed && !registry@.contains_key(srv_name@),
        },
{
    match registry.get(srv_name) {
        Some(rec) => Ok(rec),
        None => Err(Error::ServiceResolutionFailed),
    }
}

/// The address of the service `srv_name`, or `ServiceResolutionFailed`
/// where the table has no such service. A record that is found bears the
/// name that was asked for.
pub fn resolve_service<'a>(registry: &'a ServiceRegistry, srv_name: &str) -> (r: Result<
    &'a ServiceResolutionData,
    Error,
>)
    ensures
        match r {
            Ok(rec) => {
                &&& registry@.contains_key(srv_name@)
                &&& registry@[srv_name@] == rec@
                &&& rec.name@ == srv_name@
            },
            Err(e) => e == Error::ServiceResolutionFailed && !registry@.contains_key(srv_name@),
        },
{
    do_resolve_service(registry, srv_name)
}

} // verus!
