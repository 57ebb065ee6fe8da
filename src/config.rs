use vstd::prelude::*;
use crate::provision::controller_address;
use crate::text::decimal;

verus! {

#[verifier::external_type_specification]
#[verifier::external_body]
pub struct ExYamlValue(serde_yaml::Value);

#[verifier::external_type_specification]
#[verifier::external_body]
pub struct ExYamlMapping(serde_yaml::Mapping);

#[verifier::external_type_specification]
#[verifier::external_body]
pub struct ExYamlError(serde_yaml::Error);

/// The YAML document that a text holds, if it parses.
pub uninterp spec fn parsed_yaml(text: Seq<char>) -> Option<serde_yaml::Value>;

/// The mapping that a YAML value is, if it is one (tags looked through).
pub uninterp spec fn value_mapping(v: serde_yaml::Value) -> Option<serde_yaml::Mapping>;

/// The unsigned integer that a YAML value is, if it is one.
pub uninterp spec fn value_u64(v: serde_yaml::Value) -> Option<u64>;

/// The entries of a mapping whose keys are strings, by key.
pub uninterp spec fn string_entries(m: serde_yaml::Mapping) -> Map<Seq<char>, serde_yaml::Value>;

/// Relies on `serde_yaml::from_str::<Value>`, which parses YAML text; the
/// document depends on the text alone.
#[verifier::external_body]
fn parse_yaml(text: &str) -> (r: Result<serde_yaml::Value, serde_yaml::Error>)
    ensures
        match r {
            Ok(v) => parsed_yaml(text@) == Some(v),
            Err(_) => parsed_yaml(text@) is None,
        },
{
    serde_yaml::from_str::<serde_yaml::Value>(text)
}

/// Relies on `serde_yaml::Value::as_mapping`: the mapping a value is, if any.
#[verifier::external_body]
fn as_mapping(v: &serde_yaml::Value) -> (r: Option<serde_yaml::Mapping>)
    ensures
        r == value_mapping(*v),
{
    v.as_mapping().cloned()
}

/// Relies on `serde_yaml::Value::as_mapping_mut`: a borrow of the mapping
/// that the value is (tags looked through), through which the value changes.
#[verifier::external_body]
fn mapping_mut(v: &mut serde_yaml::Value) -> (r: &mut serde_yaml::Mapping)
    requires
        value_mapping(*old(v)) is Some,
    ensures
        *r == value_mapping(*old(v))->0,
        value_mapping(*final(v)) == Some(*final(r)),
{
    v.as_mapping_mut().unwrap()
}

/// Relies on `serde_yaml::Value::as_u64`: the unsigned integer a value is, if any.
#[verifier::external_body]
fn as_u64(v: &serde_yaml::Value) -> (r: Option<u64>)
    ensures
        r == value_u64(*v),
{
    v.as_u64()
}

/// Relies on `serde_yaml::Mapping::get` with a `&str` index, which looks up
/// the entry whose key is that string.
#[verifier::external_body]
fn mapping_get(m: &serde_yaml::Mapping, key: &str) -> (r: Option<serde_yaml::Value>)
    ensures
        r == (if string_entries(*m).dom().contains(key@) {
            Some(string_entries(*m)[key@])
        } else {
            None
        }),
{
    m.get(key).cloned()
}

/// Relies on `serde_yaml::Mapping::insert` with a string key (`Value::from(&str)`),
/// which sets the entry of that key and leaves the others.
#[verifier::external_body]
fn mapping_insert(m: &mut serde_yaml::Mapping, key: &str, v: serde_yaml::Value)
    ensures
        string_entries(*final(m)) == string_entries(*old(m)).insert(key@, v),
{
    m.insert(serde_yaml::Value::from(key), v);
}

/// Relies on `serde_yaml::Value::from(u16)`, which makes a number that reads
/// back as the same unsigned integer.
#[verifier::external_body]
fn number_value(n: u16) -> (r: serde_yaml::Value)
    ensures
        value_u64(r) == Some(n as u64),
{
    serde_yaml::Value::from(n)
}

/// The string that a YAML value is, if it is one (tags looked through).
pub uninterp spec fn value_str(v: serde_yaml::Value) -> Option<Seq<char>>;

/// Relies on `serde_yaml::Value::from(&str)`, which makes a string value
/// that `Value::as_str` reads back as the same string.
#[verifier::external_body]
fn string_value(s: &str) -> (r: serde_yaml::Value)
    ensures
        value_str(r) == Some(s@),
{
    serde_yaml::Value::from(s)
}

/// The YAML text of a document, if it can be rendered.
pub uninterp spec fn rendered_yaml(v: serde_yaml::Value) -> Option<Seq<char>>;

/// Relies on `serde_yaml::to_string`, which renders a document as YAML text;
/// the text depends on the document alone.
#[verifier::external_body]
fn render_yaml(v: &serde_yaml::Value) -> (r: Result<String, serde_yaml::Error>)
    ensures
        match r {
            Ok(t) => rendered_yaml(*v) == Some(t@),
            Err(_) => rendered_yaml(*v) is None,
        },
{
    serde_yaml::to_string(v)
}

/// Why a configuration document could not be read or changed.
#[derive(Debug, Clone, Copy, PartialEq, Eq, Structural)]
pub enum ConfigError {
    /// The text is not YAML.
    Malformed,
    /// The document is not a mapping.
    NotMapping,
    /// The changed document could not be rendered.
    Unrenderable,
}

/// The top-level mapping of a configuration text, if it has one.
pub open spec fn document_mapping(text: Seq<char>) -> Option<serde_yaml::Mapping> {
    match parsed_yaml(text) {
        Some(v) => value_mapping(v),
        None => None,
    }
}

/// Reads the top-level mapping of a configuration text.
pub fn read_mapping(text: &str) -> (r: Result<serde_yaml::Mapping, ConfigError>)
    ensures
        match r {
            Ok(m) => document_mapping(text@) == Some(m),
            Err(e) => document_mapping(text@) is None && (e == ConfigError::Malformed
                <==> parsed_yaml(text@) is None) && (e == ConfigError::Malformed || e
                == ConfigError::NotMapping),
        },
{
    match parse_yaml(text) {
        Ok(v) => match as_mapping(&v) {
            Some(m) => Ok(m),
            None => Err(ConfigError::NotMapping),
        },
        Err(_) => Err(ConfigError::Malformed),
    }
}

/// The proxy port set in a mapping: `mixed-port`, else `port`, if it is an
/// unsigned integer, taken as a `u16` as `as` casts it.
pub open spec fn port_in(m: serde_yaml::Mapping) -> Option<u16> {
    let e = string_entries(m);
    let key = if e.dom().contains("mixed-port"@) {
        Some("mixed-port"@)
    } else if e.dom().contains("port"@) {
        Some("port"@)
    } else {
        None
    };
    match key {
        Some(k) => match value_u64(e[k]) {
            Some(n) => Some(n as u16),
            None => None,
        },
        None => None,
    }
}

/// The proxy port that a mapping sets.
pub fn mapping_port(m: &serde_yaml::Mapping) -> (r: Option<u16>)
    ensures
        r == port_in(*m),
{
    let v = match mapping_get(m, "mixed-port") {
        Some(v) => Some(v),
        None => mapping_get(m, "port"),
    };
    match v {
        Some(v) => match as_u64(&v) {
            Some(n) => Some(n as u16),
            None => None,
        },
        None => None,
    }
}

/// The proxy port that a configuration text sets, if it is a mapping that
/// sets one.
pub fn parse_mixed_port(text: &str) -> (r: Option<u16>)
    ensures
        r == match document_mapping(text@) {
            Some(m) => port_in(m),
            None => None,
        },
{
    match read_mapping(text) {
        Ok(m) => mapping_port(&m),
        Err(_) => None,
    }
}

/// `after` is `before` with the string key `key` set and every other string
/// key kept with its value.
pub open spec fn key_set(before: serde_yaml::Mapping, after: serde_yaml::Mapping, key: Seq<char>) -> bool {
    &&& string_entries(after).dom() == string_entries(before).dom().insert(key)
    &&& forall|k: Seq<char>|
        k != key && #[trigger] string_entries(before).dom().contains(k)
            ==> string_entries(after)[k] == string_entries(before)[k]
}

/// `after` is `before` with `mixed-port` set to `port`.
pub open spec fn port_written(before: serde_yaml::Mapping, after: serde_yaml::Mapping, port: u16) -> bool {
    &&& key_set(before, after, "mixed-port"@)
    &&& value_u64(string_entries(after)["mixed-port"@]) == Some(port as u64)
}

/// `after` is `before` with `external-controller` set to the string `address`.
pub open spec fn controller_written(before: serde_yaml::Mapping, after: serde_yaml::Mapping, address: Seq<char>) -> bool {
    &&& key_set(before, after, "external-controller"@)
    &&& value_str(string_entries(after)["external-controller"@]) == Some(address)
}

/// Sets `mixed-port` in a mapping.
pub fn set_mixed_port(m: &mut serde_yaml::Mapping, port: u16)
    ensures
        port_written(*old(m), *final(m), port),
{
    let v = number_value(port);
    mapping_insert(m, "mixed-port", v);
}

/// Sets `external-controller` in a mapping to `address`, and leaves the other
/// entries.
pub fn set_external_controller(m: &mut serde_yaml::Mapping, address: &str)
    ensures
        controller_written(*old(m), *final(m), address@),
{
    let v = string_value(address);
    mapping_insert(m, "external-controller", v);
}

/// Writing the proxy port into a mapping and reading it back gives the port,
/// and every other string-keyed entry is as it was.
pub proof fn mixed_port_round_trip(
    before: serde_yaml::Mapping,
    after: serde_yaml::Mapping,
    port: u16,
)
    requires
        port_written(before, after, port),
    ensures
        port_in(after) == Some(port),
        forall|k: Seq<char>|
            k != "mixed-port"@ ==> (#[trigger] string_entries(after).dom().contains(k)
                <==> string_entries(before).dom().contains(k)),
        forall|k: Seq<char>|
            k != "mixed-port"@ && #[trigger] string_entries(before).dom().contains(k)
                ==> string_entries(after)[k] == string_entries(before)[k],
{
}

/// Reads a configuration document, which must hold a mapping.
fn read_document(text: &str) -> (r: Result<serde_yaml::Value, ConfigError>)
    ensures
        match r {
            Ok(v) => parsed_yaml(text@) == Some(v) && value_mapping(v) is Some,
            Err(e) => document_mapping(text@) is None && (e == ConfigError::Malformed
                <==> parsed_yaml(text@) is None) && (e == ConfigError::Malformed || e
                == ConfigError::NotMapping),
        },
{
    match parse_yaml(text) {
        Ok(v) => match as_mapping(&v) {
            Some(_) => Ok(v),
            None => Err(ConfigError::NotMapping),
        },
        Err(_) => Err(ConfigError::Malformed),
    }
}

/// Sets `mixed-port` in a configuration text, which must hold a mapping; the
/// rest of the document is kept.
pub fn update_mixed_port(text: &str, port: u16) -> (r: Result<String, ConfigError>)
    ensures
        match r {
            Ok(t) => document_mapping(text@) matches Some(m) && exists|d: serde_yaml::Value|
                value_mapping(d) matches Some(m2) && port_written(m, m2, port) && #[trigger] rendered_yaml(d)
                    == Some(t@),
            Err(e) => e == ConfigError::Unrenderable ==> (document_mapping(text@) matches Some(m)
                && exists|d: serde_yaml::Value|
                value_mapping(d) matches Some(m2) && port_written(m, m2, port) && #[trigger] rendered_yaml(d)
                    is None),
        },
        document_mapping(text@) is None <==> (r matches Err(e) && e != ConfigError::Unrenderable),
        r matches Err(e) && e == ConfigError::Malformed <==> parsed_yaml(text@) is None,
{
    match read_document(text) {
        Ok(v) => {
            let mut d = v;
            set_mixed_port(mapping_mut(&mut d), port);
            match render_yaml(&d) {
                Ok(t) => Ok(t),
                Err(_) => Err(ConfigError::Unrenderable),
            }
        },
        Err(e) => Err(e),
    }
}

/// Sets `external-controller` to the string `address` in a configuration
/// text, which must hold a mapping; the rest of the document is kept.
pub fn update_external_controller(text: &str, address: &str) -> (r: Result<String, ConfigError>)
    ensures
        match r {
            Ok(t) => document_mapping(text@) matches Some(m) && exists|d: serde_yaml::Value|
                value_mapping(d) matches Some(m2) && controller_written(m, m2, address@)
                    && #[trigger] rendered_yaml(d) == Some(t@),
            Err(e) => e == ConfigError::Unrenderable ==> (document_mapping(text@) matches Some(m)
                && exists|d: serde_yaml::Value|
                value_mapping(d) matches Some(m2) && controller_written(m, m2, address@)
                    && #[trigger] rendered_yaml(d) is None),
        },
        document_mapping(text@) is None <==> (r matches Err(e) && e != ConfigError::Unrenderable),
        r matches Err(e) && e == ConfigError::Malformed <==> parsed_yaml(text@) is None,
{
    match read_document(text) {
        Ok(v) => {
            let mut d = v;
            set_external_controller(mapping_mut(&mut d), address);
            match render_yaml(&d) {
                Ok(t) => Ok(t),
                Err(_) => Err(ConfigError::Unrenderable),
            }
        },
        Err(e) => Err(e),
    }
}

/// `after` is `before` with `mixed-port` set to `mixed_port` and
/// `external-controller` set to the string `127.0.0.1:<controller_port>`;
/// every other string key keeps its value.
pub open spec fn ports_written(
    before: serde_yaml::Mapping,
    after: serde_yaml::Mapping,
    mixed_port: u16,
    controller_port: u16,
) -> bool {
    &&& string_entries(after).dom() == string_entries(before).dom().insert("mixed-port"@).insert(
        "external-controller"@,
    )
    &&& value_u64(string_entries(after)["mixed-port"@]) == Some(mixed_port as u64)
    &&& value_str(string_entries(after)["external-controller"@]) == Some(
        "127.0.0.1:"@ + decimal(controller_port as nat),
    )
    &&& forall|k: Seq<char>|
        k != "mixed-port"@ && k != "external-controller"@ && #[trigger] string_entries(
            before,
        ).dom().contains(k) ==> string_entries(after)[k] == string_entries(before)[k]
}

/// Points a configuration text, which must hold a mapping, at the ports a
/// started process got: the proxy port and the local control address; the
/// rest of the document is kept.
pub fn patch_ports(text: &str, mixed_port: u16, controller_port: u16) -> (r: Result<
    String,
    ConfigError,
>)
    ensures
        match r {
            Ok(t) => document_mapping(text@) matches Some(m) && exists|d: serde_yaml::Value|
                value_mapping(d) matches Some(m2) && ports_written(m, m2, mixed_port, controller_port)
                    && #[trigger] rendered_yaml(d) == Some(t@),
            Err(e) => e == ConfigError::Unrenderable ==> (document_mapping(text@) matches Some(m)
                && exists|d: serde_yaml::Value|
                value_mapping(d) matches Some(m2) && ports_written(m, m2, mixed_port, controller_port)
                    && #[trigger] rendered_yaml(d) is None),
        },
        document_mapping(text@) is None <==> (r matches Err(e) && e != ConfigError::Unrenderable),
        r matches Err(e) && e == ConfigError::Malformed <==> parsed_yaml(text@) is None,
{
    match read_document(text) {
        Ok(v) => {
            let mut d = v;
            let addr = controller_address(controller_port);
            let m = mapping_mut(&mut d);
            let ghost m0 = *m;
            set_mixed_port(m, mixed_port);
            let ghost m1 = *m;
            set_external_controller(m, addr.as_str());
            proof {
                let m2 = *m;
                reveal_strlit("mixed-port");
                reveal_strlit("external-controller");
                assert("mixed-port"@ != "external-controller"@) by {
                    assert("mixed-port"@.len() != "external-controller"@.len());
                }
                assert(string_entries(m2).dom() =~= string_entries(m0).dom().insert(
                    "mixed-port"@,
                ).insert("external-controller"@));
                assert(string_entries(m1).dom().contains("mixed-port"@));
                assert(string_entries(m2)["mixed-port"@] == string_entries(m1)["mixed-port"@]);
                assert forall|k: Seq<char>|
                    k != "mixed-port"@ && k != "external-controller"@
                        && #[trigger] string_entries(m0).dom().contains(k) implies
                    string_entries(m2)[k] == string_entries(m0)[k] by {
                    assert(string_entries(m1).dom().contains(k));
                }
                assert(ports_written(m0, m2, mixed_port, controller_port));
            }
            match render_yaml(&d) {
                Ok(t) => Ok(t),
                Err(_) => Err(ConfigError::Unrenderable),
            }
        },
        Err(e) => Err(e),
    }
}

/// A configuration names proxies: its mapping has `proxies`, `proxy-groups`
/// or `rules`.
pub open spec fn names_proxies(text: Seq<char>) -> bool {
    match document_mapping(text) {
        Some(m) => string_entries(m).dom().contains("proxies"@) || string_entries(m).dom().contains(
            "proxy-groups"@,
        ) || string_entries(m).dom().contains("rules"@),
        None => false,
    }
}

/// Whether a configuration text is usable: a mapping that names proxies.
pub fn is_config_valid(text: &str) -> (r: bool)
    ensures
        r == names_proxies(text@),
{
    match read_mapping(text) {
        Ok(m) => mapping_get(&m, "proxies").is_some() || mapping_get(&m, "proxy-groups").is_some()
            || mapping_get(&m, "rules").is_some(),
        Err(_) => false,
    }
}

} // verus!
