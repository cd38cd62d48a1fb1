//! Apps of the app catalog: the parameters with which an app is deployed,
//! and how apps and their configurations are shown.
use vstd::prelude::*;
use crate::manifest::{Property, PropertyKind, PropertyView, opt_text};
use crate::platform::row_views;
use crate::text::{seq_join, views, join, str_equal, bool_text, bool_string, decimal, decimal_string};
use crate::value::{Value, ValueView};

verus! {

/// What a regular expression captures in a text: for each group of the
/// first match the text it matched, or `None` when it did not take part;
/// `None` as a whole when nothing matches or the pattern is not valid.
pub uninterp spec fn regex_captures(pattern: Seq<char>, text: Seq<char>) -> Option<Seq<Option<Seq<char>>>>;

/// Views of captured groups.
pub open spec fn group_views(groups: Seq<Option<String>>) -> Seq<Option<Seq<char>>> {
    groups.map_values(|g: Option<String>| opt_text(g))
}

/// Compiles `pattern` with `regex::Regex::new` and, when that succeeds,
/// calls `Regex::captures` on `text`, giving the text of every group of the
/// first match (group 0 is the whole match). The result is named by
/// `regex_captures`; what it is, is not stated.
#[verifier::external_body]
pub(crate) fn find_captures(pattern: &str, text: &str) -> (res: Option<Vec<Option<String>>>)
    ensures
        match res {
            Some(groups) => regex_captures(pattern@, text@) == Some(group_views(groups@)),
            None => regex_captures(pattern@, text@) is None,
        },
{
    match regex::Regex::new(pattern) {
        Ok(re) => re.captures(text).map(|c| c.iter().map(|m| m.map(|m| m.as_str().to_string())).collect()),
        Err(_) => None,
    }
}

/// The pattern that a number parameter must match.
pub const NUMBER_PATTERN: &'static str = r"^-?(?:0|[1-9]\d*)(?:\.\d+)?(?:[eE][+-]?\d+)?$";

/// The pattern of an app parameter on the command line: a name that starts
/// with an upper case letter, an equals sign and the value.
pub const APP_PARAMETER_PATTERN: &'static str = r"^([A-Z][a-zA-Z0-9_]+)=(.*)$";

/// An option as it is listed in an error message: numbers bare, other
/// values in double quotes.
pub open spec fn listed_option(value: Seq<char>, kind: PropertyKind) -> Seq<char> {
    if kind == PropertyKind::Number {
        value
    } else {
        "\""@ + value + "\""@
    }
}

/// The outcome of validating `parameter` for property `name`, where
/// `number_matches` tells whether it has the form of a number.
pub open spec fn validation(parameter: Seq<char>, name: Seq<char>, p: PropertyView, number_matches: bool) -> Result<Seq<char>, Seq<char>> {
    match p.enumeration {
        Some(e) => if e.contains(parameter) {
            Ok(parameter)
        } else {
            Err("property '"@ + name + "' has illegal value \""@ + parameter + "\", should be one of "@
                + seq_join(e.map_values(|v: Seq<char>| listed_option(v, p.kind)), ", "@))
        },
        None => match p.kind {
            PropertyKind::DnsZone => if parameter == "private"@ || parameter == "public"@ {
                Ok(parameter)
            } else {
                Err("dns-zone property '"@ + name + "' has illegal value \""@ + parameter
                    + "\", should be \"private\" or \"public\""@)
            },
            PropertyKind::Number => if number_matches {
                Ok(parameter)
            } else {
                Err("property '"@ + name + "' has illegal value \""@ + parameter + "\", should be a number"@)
            },
            PropertyKind::String => Ok(parameter),
        },
    }
}

/// The view of a result of two strings.
pub open spec fn result_view(r: Result<String, String>) -> Result<Seq<char>, Seq<char>> {
    match r {
        Ok(s) => Ok(s@),
        Err(e) => Err(e@),
    }
}

/// Whether `values` holds `v`.
fn contains_string(values: &Vec<String>, v: &str) -> (res: bool)
    ensures
        res == views(values@).contains(v@),
{
    let mut i: usize = 0;
    while i < values.len()
        invariant
            i <= values.len(),
            forall|k: int| 0 <= k < i ==> views(values@)[k] != v@,
        decreases values.len() - i,
    {
        if str_equal(values[i].as_str(), v) {
            assert(views(values@)[i as int] == v@);
            return true;
        }
        i = i + 1;
    }
    false
}

/// Validates `parameter` as value of property `property_name`, given
/// whether it has the form of a number: a value of the enumeration when the
/// property has one, else `private` or `public` for a dns zone, a number
/// for a number and anything for a string.
pub fn validate_parameter_with(parameter: &str, property_name: &str, property: &Property, number_matches: bool) -> (res: Result<String, String>)
    ensures
        result_view(res) == validation(parameter@, property_name@, property@, number_matches),
{
    proof {
        reveal_strlit("private");
        reveal_strlit("public");
    }
    match &property.enumeration {
        Some(e) => {
            if contains_string(e, parameter) {
                Ok(String::from_str(parameter))
            } else {
                let mut listed: Vec<String> = Vec::new();
                let mut i: usize = 0;
                while i < e.len()
                    invariant
                        i <= e.len(),
                        views(listed@) == views(e@).map_values(|v: Seq<char>| listed_option(v, property.kind)).take(i as int),
                    decreases e.len() - i,
                {
                    let item = if property.kind == PropertyKind::Number {
                        e[i].clone()
                    } else {
                        let mut q = String::from_str("\"");
                        q.append(e[i].as_str());
                        q.append("\"");
                        q
                    };
                    let ghost before = views(listed@);
                    listed.push(item);
                    assert(views(listed@) =~= before.push(listed_option(e@[i as int]@, property.kind)));
                    assert(views(e@).map_values(|v: Seq<char>| listed_option(v, property.kind)).take(i + 1)
                        =~= views(e@).map_values(|v: Seq<char>| listed_option(v, property.kind)).take(i as int).push(listed_option(e@[i as int]@, property.kind)));
                    i = i + 1;
                }
                assert(views(e@).map_values(|v: Seq<char>| listed_option(v, property.kind)).take(e.len() as int)
                    =~= views(e@).map_values(|v: Seq<char>| listed_option(v, property.kind)));
                let mut m = String::from_str("property '");
                m.append(property_name);
                m.append("' has illegal value \"");
                m.append(parameter);
                m.append("\", should be one of ");
                let joined = join(&listed, ", ");
                m.append(joined.as_str());
                Err(m)
            }
        }
        None => match property.kind {
            PropertyKind::DnsZone => {
                if str_equal(parameter, "private") || str_equal(parameter, "public") {
                    Ok(String::from_str(parameter))
                } else {
                    let mut m = String::from_str("dns-zone property '");
                    m.append(property_name);
                    m.append("' has illegal value \"");
                    m.append(parameter);
                    m.append("\", should be \"private\" or \"public\"");
                    Err(m)
                }
            }
            PropertyKind::Number => {
                if number_matches {
                    Ok(String::from_str(parameter))
                } else {
                    let mut m = String::from_str("property '");
                    m.append(property_name);
                    m.append("' has illegal value \"");
                    m.append(parameter);
                    m.append("\", should be a number");
                    Err(m)
                }
            }
            PropertyKind::String => Ok(String::from_str(parameter)),
        },
    }
}

/// Validates `parameter` as value of property `property_name`; whether it
/// has the form of a number is decided by [`NUMBER_PATTERN`].
pub fn validate_parameter(parameter: &str, property_name: &str, property: &Property) -> (res: Result<String, String>)
    ensures
        result_view(res) == validation(parameter@, property_name@, property@, regex_captures(NUMBER_PATTERN@, parameter@) is Some),
{
    let number_matches = find_captures(NUMBER_PATTERN, parameter).is_some();
    validate_parameter_with(parameter, property_name, property, number_matches)
}

/// The name and value of an app parameter, from what the app parameter
/// pattern captured in it.
pub open spec fn app_parameter_parse(app_parameter: Seq<char>, captures: Option<Seq<Option<Seq<char>>>>) -> Result<(Seq<char>, Seq<char>), Seq<char>> {
    match captures {
        Some(groups) => if groups.len() >= 3 && groups[1] is Some && groups[2] is Some {
            Ok((groups[1].unwrap(), groups[2].unwrap()))
        } else {
            Err("illegal app parameter "@ + app_parameter)
        },
        None => Err("illegal app parameter "@ + app_parameter),
    }
}

/// The view of a parsed app parameter.
pub open spec fn parsed_view(r: Result<(String, String), String>) -> Result<(Seq<char>, Seq<char>), Seq<char>> {
    match r {
        Ok(p) => Ok((p.0@, p.1@)),
        Err(e) => Err(e@),
    }
}

/// The name and value of an app parameter, from the groups that the app
/// parameter pattern captured in it: its first and second group.
pub fn parse_app_parameter_captures(app_parameter: &str, captures: Option<Vec<Option<String>>>) -> (res: Result<(String, String), String>)
    ensures
        parsed_view(res) == app_parameter_parse(app_parameter@, match captures { Some(g) => Some(group_views(g@)), None => None }),
{
    let illegal = {
        let mut m = String::from_str("illegal app parameter ");
        m.append(app_parameter);
        m
    };
    match captures {
        Some(groups) => {
            if groups.len() >= 3 {
                match (&groups[1], &groups[2]) {
                    (Some(name), Some(value)) => Ok((name.clone(), value.clone())),
                    _ => Err(illegal),
                }
            } else {
                Err(illegal)
            }
        }
        None => Err(illegal),
    }
}

/// The name and value of an app parameter given as `NAME=value`.
pub fn parse_app_parameter(app_parameter: &str) -> (res: Result<(String, String), String>)
    ensures
        parsed_view(res) == app_parameter_parse(app_parameter@, regex_captures(APP_PARAMETER_PATTERN@, app_parameter@)),
{
    let captures = find_captures(APP_PARAMETER_PATTERN, app_parameter);
    parse_app_parameter_captures(app_parameter, captures)
}

/// Where the value of a manifest property comes from when an app is deployed.
#[derive(Debug, PartialEq)]
pub enum ParameterSource {
    /// It was given on the command line.
    Given(String),
    /// The default of the property is taken without asking.
    Default(String),
    /// The user is asked for it, with the default offered when there is one.
    Ask(Option<String>),
    /// It is missing: it was not given and has no default that may be taken.
    Missing,
}

/// The mathematical view of a [`ParameterSource`].
pub enum ParameterSourceView {
    Given(Seq<char>),
    Default(Seq<char>),
    Ask(Option<Seq<char>>),
    Missing,
}

impl View for ParameterSource {
    type V = ParameterSourceView;

    open spec fn view(&self) -> ParameterSourceView {
        match self {
            ParameterSource::Given(s) => ParameterSourceView::Given(s@),
            ParameterSource::Default(s) => ParameterSourceView::Default(s@),
            ParameterSource::Ask(d) => ParameterSourceView::Ask(opt_text(*d)),
            ParameterSource::Missing => ParameterSourceView::Missing,
        }
    }
}

/// Where a property value comes from: the command line first; else, on a
/// terminal, the default when defaults are implicit and there is one, or
/// else the user; off a terminal the default when defaults are implicit.
pub open spec fn parameter_source(given: Option<Seq<char>>, default: Option<Seq<char>>, stdin_is_terminal: bool, implicit_defaults: bool) -> ParameterSourceView {
    match given {
        Some(v) => ParameterSourceView::Given(v),
        None => if stdin_is_terminal {
            if implicit_defaults {
                match default {
                    Some(d) => ParameterSourceView::Default(d),
                    None => ParameterSourceView::Ask(None),
                }
            } else {
                ParameterSourceView::Ask(default)
            }
        } else if implicit_defaults {
            match default {
                Some(d) => ParameterSourceView::Default(d),
                None => ParameterSourceView::Missing,
            }
        } else {
            ParameterSourceView::Missing
        },
    }
}

/// Where the value of a property comes from when an app is deployed.
pub fn app_parameter_source(given: Option<&String>, default: &Option<String>, stdin_is_terminal: bool, implicit_defaults: bool) -> (s: ParameterSource)
    ensures
        s@ == parameter_source(match given { Some(g) => Some(g@), None => None }, opt_text(*default), stdin_is_terminal, implicit_defaults),
{
    match given {
        Some(v) => ParameterSource::Given(v.clone()),
        None => {
            if stdin_is_terminal {
                if implicit_defaults {
                    match default {
                        Some(d) => ParameterSource::Default(d.clone()),
                        None => ParameterSource::Ask(None),
                    }
                } else {
                    match default {
                        Some(d) => ParameterSource::Ask(Some(d.clone())),
                        None => ParameterSource::Ask(None),
                    }
                }
            } else if implicit_defaults {
                match default {
                    Some(d) => ParameterSource::Default(d.clone()),
                    None => ParameterSource::Missing,
                }
            } else {
                ParameterSource::Missing
            }
        }
    }
}

/// The error when properties are missing or invalid: none for none, the
/// singular message for one, and the count for more.
pub open spec fn missing_parameters_message(count: nat) -> Option<Seq<char>> {
    if count == 0 {
        None
    } else if count == 1 {
        Some("missing or invalid parameter"@)
    } else {
        Some(decimal(count) + " missing or invalid parameters"@)
    }
}

/// The error when `count` properties are missing or invalid, if any are.
pub fn missing_or_invalid_parameters_error(count: u64) -> (res: Option<String>)
    ensures
        opt_text(res) == missing_parameters_message(count as nat),
{
    if count == 0 {
        None
    } else if count == 1 {
        Some(String::from_str("missing or invalid parameter"))
    } else {
        let mut m = decimal_string(count);
        m.append(" missing or invalid parameters");
        Some(m)
    }
}

/// How many of the properties are missing or invalid.
pub open spec fn failed_count(outcomes: Seq<(String, Result<String, String>)>) -> nat
    decreases outcomes.len(),
{
    if outcomes.len() == 0 {
        0
    } else {
        failed_count(outcomes.drop_last()) + if outcomes.last().1 is Err { 1nat } else { 0nat }
    }
}

/// The properties with a valid value, in order, each with its value.
pub open spec fn valid_entries(outcomes: Seq<(String, Result<String, String>)>) -> Seq<(Seq<char>, Seq<char>)>
    decreases outcomes.len(),
{
    if outcomes.len() == 0 {
        Seq::empty()
    } else {
        let rest = valid_entries(outcomes.drop_last());
        match outcomes.last().1 {
            Ok(v) => rest.push((outcomes.last().0@, v@)),
            Err(_) => rest,
        }
    }
}

/// The configuration of an app: the group and user ids of the tenant under
/// `@gid` and `@uid`, then every property with its valid value; or the
/// error that counts the properties that are missing or invalid.
pub open spec fn app_configuration_spec(gid: u64, uid: u64, outcomes: Seq<(String, Result<String, String>)>) -> Result<Seq<(Seq<char>, Seq<char>)>, Seq<char>> {
    match missing_parameters_message(failed_count(outcomes)) {
        Some(m) => Err(m),
        None => Ok(seq![("@gid"@, decimal(gid as nat)), ("@uid"@, decimal(uid as nat))] + valid_entries(outcomes)),
    }
}

/// An app is configured exactly when no property is missing or invalid,
/// and then its configuration starts with the group and user ids and holds
/// one entry per property, in order; else the error counts the failures.
pub proof fn lemma_app_configuration(gid: u64, uid: u64, outcomes: Seq<(String, Result<String, String>)>)
    ensures
        app_configuration_spec(gid, uid, outcomes) is Ok <==> failed_count(outcomes) == 0,
        failed_count(outcomes) == 0 ==> ({
            let entries = app_configuration_spec(gid, uid, outcomes)->Ok_0;
            &&& entries.len() == outcomes.len() + 2
            &&& entries[0] == ("@gid"@, decimal(gid as nat))
            &&& entries[1] == ("@uid"@, decimal(uid as nat))
            &&& forall|i: int| 0 <= i < outcomes.len() ==>
                (#[trigger] outcomes[i]).1 is Ok && entries[i + 2] == (outcomes[i].0@, outcomes[i].1->Ok_0@)
        }),
        failed_count(outcomes) == 1 ==> app_configuration_spec(gid, uid, outcomes) == Err::<Seq<(Seq<char>, Seq<char>)>, Seq<char>>("missing or invalid parameter"@),
        failed_count(outcomes) > 1 ==> app_configuration_spec(gid, uid, outcomes)
            == Err::<Seq<(Seq<char>, Seq<char>)>, Seq<char>>(decimal(failed_count(outcomes)) + " missing or invalid parameters"@),
{
    if failed_count(outcomes) == 0 {
        lemma_no_failures(outcomes);
    }
}

/// Without failures every outcome is valid and each gives its entry, in order.
proof fn lemma_no_failures(outcomes: Seq<(String, Result<String, String>)>)
    requires
        failed_count(outcomes) == 0,
    ensures
        valid_entries(outcomes).len() == outcomes.len(),
        forall|i: int| 0 <= i < outcomes.len() ==>
            (#[trigger] outcomes[i]).1 is Ok && valid_entries(outcomes)[i] == (outcomes[i].0@, outcomes[i].1->Ok_0@),
    decreases outcomes.len(),
{
    if outcomes.len() > 0 {
        let front = outcomes.drop_last();
        lemma_no_failures(front);
        assert forall|i: int| 0 <= i < outcomes.len() implies
            (#[trigger] outcomes[i]).1 is Ok && valid_entries(outcomes)[i] == (outcomes[i].0@, outcomes[i].1->Ok_0@) by {
            if i < front.len() {
                assert(front[i] == outcomes[i]);
            } else {
                assert(outcomes[i] == outcomes.last());
            }
        }
    }
}

/// The configuration of an app, from the tenant's group and user ids and the
/// outcome of reading and validating each property, by name.
pub fn app_configuration_entries(gid: u64, uid: u64, outcomes: &Vec<(String, Result<String, String>)>) -> (res: Result<Vec<(String, String)>, String>)
    ensures
        match res { Ok(v) => Ok(v@.map_values(|p: (String, String)| (p.0@, p.1@))), Err(e) => Err(e@) }
            == app_configuration_spec(gid, uid, outcomes@),
{
    let mut entries: Vec<(String, String)> = Vec::new();
    entries.push((String::from_str("@gid"), decimal_string(gid)));
    entries.push((String::from_str("@uid"), decimal_string(uid)));
    let ghost head = seq![("@gid"@, decimal(gid as nat)), ("@uid"@, decimal(uid as nat))];
    assert(entries@.map_values(|p: (String, String)| (p.0@, p.1@)) =~= head);
    let mut failed: usize = 0;
    let mut i: usize = 0;
    assert(outcomes@.take(0) =~= Seq::<(String, Result<String, String>)>::empty());
    while i < outcomes.len()
        invariant
            i <= outcomes.len(),
            failed as nat == failed_count(outcomes@.take(i as int)),
            failed <= i,
            entries@.map_values(|p: (String, String)| (p.0@, p.1@)) == head + valid_entries(outcomes@.take(i as int)),
        decreases outcomes.len() - i,
    {
        assert(outcomes@.take(i + 1).drop_last() =~= outcomes@.take(i as int));
        assert(outcomes@.take(i + 1).last() == outcomes@[i as int]);
        match &outcomes[i].1 {
            Ok(v) => {
                let ghost before = entries@.map_values(|p: (String, String)| (p.0@, p.1@));
                entries.push((outcomes[i].0.clone(), v.clone()));
                assert(entries@.map_values(|p: (String, String)| (p.0@, p.1@)) =~= before.push((outcomes@[i as int].0@, v@)));
                assert(head + valid_entries(outcomes@.take(i + 1)) =~= (head + valid_entries(outcomes@.take(i as int))).push((outcomes@[i as int].0@, v@)));
            }
            Err(_) => {
                failed = failed + 1;
            }
        }
        i = i + 1;
    }
    assert(outcomes@.take(outcomes.len() as int) =~= outcomes@);
    match missing_or_invalid_parameters_error(failed as u64) {
        Some(m) => Err(m),
        None => Ok(entries),
    }
}

/// The urn of version `version` of manifest `manifest_id`.
pub fn manifest_urn(manifest_id: &str, version: &str) -> (urn: String)
    ensures
        urn@ == "appcatalog/manifest/"@ + manifest_id@ + "/"@ + version@,
{
    let mut urn = String::from_str("appcatalog/manifest/");
    urn.append(manifest_id);
    urn.append("/");
    urn.append(version);
    urn
}


/// The entries of a json object whose values are all strings, in the order
/// of their keys; `None` when the text is no such object.
pub uninterp spec fn json_string_map(json: Seq<char>) -> Option<Seq<(Seq<char>, Seq<char>)>>;

/// Parses `json` with `serde_json::from_str` into a `BTreeMap` of strings
/// and gives its entries in key order. The result is named by
/// `json_string_map`; what it is, is not stated.
#[verifier::external_body]
fn parse_string_map(json: &str) -> (res: Option<Vec<(String, String)>>)
    ensures
        match res {
            Some(rows) => json_string_map(json@) == Some(row_views(rows@)),
            None => json_string_map(json@) is None,
        },
{
    match serde_json::from_str::<std::collections::BTreeMap<String, String>>(json) {
        Ok(map) => Some(map.into_iter().collect()),
        Err(_) => None,
    }
}

/// The entries whose key does not start with `@`: those that the platform
/// sets itself are left out.
pub open spec fn visible_entries(rows: Seq<(Seq<char>, Seq<char>)>) -> Seq<(Seq<char>, Seq<char>)>
    decreases rows.len(),
{
    if rows.len() == 0 {
        rows
    } else {
        let before = visible_entries(rows.drop_last());
        let r = rows.last();
        if r.0.len() > 0 && r.0[0] == '@' {
            before
        } else {
            before.push(r)
        }
    }
}

/// The entries whose key does not start with `@`.
pub fn visible_configuration(rows: &Vec<(String, String)>) -> (res: Vec<(String, String)>)
    ensures
        row_views(res@) == visible_entries(row_views(rows@)),
{
    let mut res: Vec<(String, String)> = Vec::new();
    let mut i: usize = 0;
    assert(row_views(rows@).take(0) =~= Seq::<(Seq<char>, Seq<char>)>::empty());
    while i < rows.len()
        invariant
            i <= rows.len(),
            row_views(res@) == visible_entries(row_views(rows@).take(i as int)),
        decreases rows.len() - i,
    {
        assert(row_views(rows@).take(i + 1).drop_last() =~= row_views(rows@).take(i as int));
        assert(row_views(rows@).take(i + 1).last() == (rows@[i as int].0@, rows@[i as int].1@));
        let key = rows[i].0.as_str();
        let hidden = key.unicode_len() > 0 && key.get_char(0) == '@';
        if !hidden {
            let ghost before = row_views(res@);
            res.push((rows[i].0.clone(), rows[i].1.clone()));
            assert(row_views(res@) =~= before.push((rows@[i as int].0@, rows@[i as int].1@)));
        }
        i = i + 1;
    }
    assert(row_views(rows@).take(rows.len() as int) =~= row_views(rows@));
    res
}

/// An app deployed from the app catalog.
pub struct AppCatalogApp {
    pub manifest_urn: String,
    /// Its configuration, as a json object of strings.
    pub configuration: Option<String>,
}

/// Labels under which apps deployed from the app catalog are shown.
#[derive(Debug, PartialEq, Eq, Structural, Clone, Copy)]
pub enum AppCatalogAppLabel {
    Configuration,
    ManifestUrn,
    Target,
}

impl AppCatalogAppLabel {
    /// The text under which the label is shown.
    pub open spec fn text(self) -> Seq<char> {
        match self {
            AppCatalogAppLabel::Configuration => "app configuration"@,
            AppCatalogAppLabel::ManifestUrn => "manifest urn"@,
            AppCatalogAppLabel::Target => "app id"@,
        }
    }

    /// The text under which the label is shown.
    pub fn as_str(&self) -> (s: &'static str)
        ensures
            s@ == self.text(),
    {
        match self {
            AppCatalogAppLabel::Configuration => "app configuration",
            AppCatalogAppLabel::ManifestUrn => "manifest urn",
            AppCatalogAppLabel::Target => "app id",
        }
    }

    /// Whether the label shows the identifier of the subject.
    pub fn is_target_label(&self) -> (b: bool)
        ensures
            b == (*self == AppCatalogAppLabel::Target),
    {
        match self {
            AppCatalogAppLabel::Target => true,
            _ => false,
        }
    }
}

/// Labels under which app catalog app configurations are shown.
#[derive(Debug, PartialEq, Eq, Structural, Clone, Copy)]
pub enum AppCatalogAppConfigurationLabel {
    Configuration,
    ManifestUrn,
    Name,
    Stopped,
}

impl AppCatalogAppConfigurationLabel {
    /// The text under which the label is shown.
    pub open spec fn text(self) -> Seq<char> {
        match self {
            AppCatalogAppConfigurationLabel::Configuration => "app configuration"@,
            AppCatalogAppConfigurationLabel::ManifestUrn => "manifest urn"@,
            AppCatalogAppConfigurationLabel::Name => "name"@,
            AppCatalogAppConfigurationLabel::Stopped => "stopped"@,
        }
    }

    /// The text under which the label is shown.
    pub fn as_str(&self) -> (s: &'static str)
        ensures
            s@ == self.text(),
    {
        match self {
            AppCatalogAppConfigurationLabel::Configuration => "app configuration",
            AppCatalogAppConfigurationLabel::ManifestUrn => "manifest urn",
            AppCatalogAppConfigurationLabel::Name => "name",
            AppCatalogAppConfigurationLabel::Stopped => "stopped",
        }
    }

    /// Whether the label shows the identifier of the subject.
    pub fn is_target_label(&self) -> (b: bool)
        ensures
            b == (*self == AppCatalogAppConfigurationLabel::Name),
    {
        match self {
            AppCatalogAppConfigurationLabel::Name => true,
            _ => false,
        }
    }
}


/// What is shown under `label` for an app with identifier `target_id`,
/// given the entries of its configuration when that is a json object of
/// strings (`parsed`).
pub open spec fn app_value_view(
    app_configuration: Option<Seq<char>>,
    manifest_urn: Seq<char>,
    label: AppCatalogAppLabel,
    target_id: Seq<char>,
    parsed: Option<Seq<(Seq<char>, Seq<char>)>>,
) -> ValueView {
    match label {
        AppCatalogAppLabel::Configuration => match app_configuration {
            Some(_) => match parsed {
                Some(rows) => ValueView::Table(visible_entries(rows)),
                None => ValueView::Error("error"@),
            },
            None => ValueView::Empty,
        },
        AppCatalogAppLabel::ManifestUrn => ValueView::Plain(manifest_urn),
        AppCatalogAppLabel::Target => ValueView::Target(target_id),
    }
}

/// What is shown under `label` for an app, given the parsed entries of its
/// configuration.
pub fn app_value_with(app: &AppCatalogApp, label: AppCatalogAppLabel, target_id: &str, parsed: Option<Vec<(String, String)>>) -> (v: Value)
    ensures
        v@ == app_value_view(opt_text(app.configuration), app.manifest_urn@, label, target_id@,
            match parsed { Some(rows) => Some(row_views(rows@)), None => None }),
{
    match label {
        AppCatalogAppLabel::Configuration => match &app.configuration {
            Some(_) => match parsed {
                Some(rows) => Value::Table(visible_configuration(&rows)),
                None => Value::error("error"),
            },
            None => Value::Empty,
        },
        AppCatalogAppLabel::ManifestUrn => Value::plain(app.manifest_urn.as_str()),
        AppCatalogAppLabel::Target => Value::target(target_id),
    }
}

impl AppCatalogApp {
    /// What is shown under `label` for this app, whose identifier is
    /// `target_id`: its configuration without the entries that the
    /// platform sets, its manifest urn, or its identifier.
    pub fn value(&self, label: AppCatalogAppLabel, target_id: &str) -> (v: Value)
        ensures
            v@ == app_value_view(opt_text(self.configuration), self.manifest_urn@, label, target_id@,
                match self.configuration { Some(c) => json_string_map(c@), None => None }),
    {
        let parsed = match &self.configuration {
            Some(c) => parse_string_map(c.as_str()),
            None => None,
        };
        app_value_with(self, label, target_id, parsed)
    }
}

/// The configuration with which an app is deployed.
pub struct AppCatalogAppConfiguration {
    /// The configuration entries by key.
    pub configuration: Vec<(String, String)>,
    pub manifest_urn: String,
    pub name: String,
    pub stopped: bool,
}

/// What is shown under `label` for an app configuration whose app has
/// identifier `target_id`.
pub open spec fn app_configuration_value_view(c: AppCatalogAppConfiguration, label: AppCatalogAppConfigurationLabel, target_id: Seq<char>) -> ValueView {
    match label {
        AppCatalogAppConfigurationLabel::Configuration => ValueView::Table(row_views(c.configuration@)),
        AppCatalogAppConfigurationLabel::ManifestUrn => ValueView::Plain(c.manifest_urn@),
        AppCatalogAppConfigurationLabel::Name => ValueView::Target(target_id),
        AppCatalogAppConfigurationLabel::Stopped => ValueView::Plain(bool_text(c.stopped)),
    }
}

/// Copies rows of two strings.
fn copy_rows(rows: &Vec<(String, String)>) -> (res: Vec<(String, String)>)
    ensures
        row_views(res@) == row_views(rows@),
{
    let mut res: Vec<(String, String)> = Vec::new();
    let mut i: usize = 0;
    while i < rows.len()
        invariant
            i <= rows.len(),
            row_views(res@) == row_views(rows@).take(i as int),
        decreases rows.len() - i,
    {
        let ghost before = row_views(res@);
        res.push((rows[i].0.clone(), rows[i].1.clone()));
        assert(row_views(res@) =~= before.push((rows@[i as int].0@, rows@[i as int].1@)));
        assert(row_views(rows@).take(i + 1) =~= row_views(rows@).take(i as int).push((rows@[i as int].0@, rows@[i as int].1@)));
        i = i + 1;
    }
    assert(row_views(rows@).take(rows.len() as int) =~= row_views(rows@));
    res
}

impl AppCatalogAppConfiguration {
    /// What is shown under `label` for this configuration, whose app has
    /// identifier `target_id`.
    pub fn value(&self, label: AppCatalogAppConfigurationLabel, target_id: &str) -> (v: Value)
        ensures
            v@ == app_configuration_value_view(*self, label, target_id@),
    {
        match label {
            AppCatalogAppConfigurationLabel::Configuration => Value::Table(copy_rows(&self.configuration)),
            AppCatalogAppConfigurationLabel::ManifestUrn => Value::plain(self.manifest_urn.as_str()),
            AppCatalogAppConfigurationLabel::Name => Value::target(target_id),
            AppCatalogAppConfigurationLabel::Stopped => Value::plain_bool(self.stopped),
        }
    }
}

} // verus!
