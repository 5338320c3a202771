//! Plugin manifests: their model, and the checks that turn the raw fields of
//! a `plugin.toml` into a manifest.
use vstd::prelude::*;

use crate::checks::{first_error, lemma_first_error_none, lemma_first_error_prefix, lemma_first_error_some, lemma_first_error_step, or_else};
use crate::text::{cat3, cat5, owned, str_eq, trim, trim_seq};

verus! {

#[derive(Debug, Clone, Copy, PartialEq, Eq)]
pub enum ManifestCapability {
    Log,
    Fs,
    Network,
}

#[derive(Debug, Clone, Copy, PartialEq, Eq)]
pub enum ManifestIcon {
    Puzzle,
    Split,
    Route,
    Wand,
    Shield,
    Code,
    Filter,
    Database,
    FileText,
}

#[derive(Debug, Clone, Copy, PartialEq, Eq)]
pub enum ManifestCategory {
    Control,
    Transform,
    Routing,
    Policy,
    Utility,
}

#[derive(Debug, Clone, Copy, PartialEq, Eq)]
pub enum ManifestTone {
    Slate,
    Blue,
    Sky,
    Teal,
    Emerald,
    Amber,
    Rose,
    Violet,
}

#[derive(Debug, Clone, PartialEq, Eq, Default)]
pub struct PluginManifestUi {
    pub icon: Option<ManifestIcon>,
    pub category: Option<ManifestCategory>,
    pub tone: Option<ManifestTone>,
    pub order: Option<i32>,
    pub tags: Vec<String>,
}

#[derive(Debug, Clone, Copy, PartialEq, Eq)]
pub enum PluginConfigFieldType {
    Text,
    Textarea,
    Select,
    Boolean,
}

#[derive(Debug, Clone, Copy, PartialEq, Eq)]
pub enum PluginConfigFieldDataSource {
    Providers,
    Models,
}

#[derive(Debug, Clone, PartialEq, Eq)]
pub struct PluginConfigField {
    pub key: String,
    pub label: String,
    pub field_type: PluginConfigFieldType,
    pub required: bool,
    pub placeholder: Option<String>,
    pub help_text: Option<String>,
    pub data_source: Option<PluginConfigFieldDataSource>,
    pub depends_on: Option<String>,
}

#[derive(Debug, Clone, PartialEq, Eq)]
pub struct PluginConfigSchema {
    pub version: u32,
    pub fields: Vec<PluginConfigField>,
}

#[derive(Debug, Clone, Copy, PartialEq, Eq, Default)]
pub enum PluginRuntimeKind {
    #[default]
    Component,
    Core,
}

#[derive(Debug, Clone, PartialEq)]
pub struct PluginManifest {
    pub id: String,
    pub name: String,
    pub version: String,
    pub description: String,
    pub runtime: PluginRuntimeKind,
    pub supported_output_ports: Vec<String>,
    pub capabilities: Vec<ManifestCapability>,
    pub default_config_schema_hints: Option<toml::Value>,
    pub config_schema: Option<PluginConfigSchema>,
    pub ui: PluginManifestUi,
}

/// The `ui` table of a `plugin.toml`, as written.
#[derive(Debug, Clone, PartialEq, Eq, Default)]
pub struct RawPluginManifestUi {
    pub icon: Option<String>,
    pub category: Option<String>,
    pub tone: Option<String>,
    pub order: Option<i32>,
    pub tags: Vec<String>,
}

/// The fields of a `plugin.toml`, as written.
#[derive(Debug, Clone, PartialEq)]
pub struct RawPluginManifest {
    pub id: String,
    pub name: String,
    pub version: String,
    pub description: String,
    pub runtime: Option<String>,
    pub supported_output_ports: Vec<String>,
    pub capabilities: Vec<String>,
    pub default_config_schema_hints: Option<toml::Value>,
    pub config_schema: Option<PluginConfigSchema>,
    pub ui: RawPluginManifestUi,
}

/// Why a plugin manifest was refused.
#[derive(Debug, Clone, PartialEq, Eq)]
pub struct ManifestError {
    pub message: String,
}

/// The version of a plugin configuration schema that does not name one.
pub fn default_config_schema_version() -> (v: u32)
    ensures
        v == 1,
{
    1
}

/// The capability that `s` names, if any.
pub open spec fn capability_named(s: Seq<char>) -> Option<ManifestCapability> {
    if s == "log"@ {
        Some(ManifestCapability::Log)
    } else if s == "fs"@ {
        Some(ManifestCapability::Fs)
    } else if s == "network"@ {
        Some(ManifestCapability::Network)
    } else {
        None
    }
}

/// The icon that `s` names, if any.
pub open spec fn icon_named(s: Seq<char>) -> Option<ManifestIcon> {
    if s == "puzzle"@ {
        Some(ManifestIcon::Puzzle)
    } else if s == "split"@ {
        Some(ManifestIcon::Split)
    } else if s == "route"@ {
        Some(ManifestIcon::Route)
    } else if s == "wand"@ {
        Some(ManifestIcon::Wand)
    } else if s == "shield"@ {
        Some(ManifestIcon::Shield)
    } else if s == "code"@ {
        Some(ManifestIcon::Code)
    } else if s == "filter"@ {
        Some(ManifestIcon::Filter)
    } else if s == "database"@ {
        Some(ManifestIcon::Database)
    } else if s == "file_text"@ {
        Some(ManifestIcon::FileText)
    } else {
        None
    }
}

/// The category that `s` names, if any.
pub open spec fn category_named(s: Seq<char>) -> Option<ManifestCategory> {
    if s == "control"@ {
        Some(ManifestCategory::Control)
    } else if s == "transform"@ {
        Some(ManifestCategory::Transform)
    } else if s == "routing"@ {
        Some(ManifestCategory::Routing)
    } else if s == "policy"@ {
        Some(ManifestCategory::Policy)
    } else if s == "utility"@ {
        Some(ManifestCategory::Utility)
    } else {
        None
    }
}

/// The tone that `s` names, if any.
pub open spec fn tone_named(s: Seq<char>) -> Option<ManifestTone> {
    if s == "slate"@ {
        Some(ManifestTone::Slate)
    } else if s == "blue"@ {
        Some(ManifestTone::Blue)
    } else if s == "sky"@ {
        Some(ManifestTone::Sky)
    } else if s == "teal"@ {
        Some(ManifestTone::Teal)
    } else if s == "emerald"@ {
        Some(ManifestTone::Emerald)
    } else if s == "amber"@ {
        Some(ManifestTone::Amber)
    } else if s == "rose"@ {
        Some(ManifestTone::Rose)
    } else if s == "violet"@ {
        Some(ManifestTone::Violet)
    } else {
        None
    }
}

/// The runtime that the optional `runtime` field names: blank or missing
/// means a component; otherwise `component` or `core` after trimming.
pub open spec fn runtime_named(runtime: Option<Seq<char>>) -> Option<PluginRuntimeKind> {
    match runtime {
        None => Some(PluginRuntimeKind::Component),
        Some(r) => {
            let t = trim_seq(r);
            if t.len() == 0 {
                Some(PluginRuntimeKind::Component)
            } else if t == "component"@ {
                Some(PluginRuntimeKind::Component)
            } else if t == "core"@ {
                Some(PluginRuntimeKind::Core)
            } else {
                None
            }
        },
    }
}

/// The prefix of every manifest error about the manifest at `path`.
pub open spec fn manifest_prefix(path: Seq<char>) -> Seq<char> {
    "plugin manifest '"@ + path
}

/// The check of the `i`-th declared capability.
pub open spec fn capability_check(path: Seq<char>, caps: Seq<String>) -> spec_fn(int) -> Option<Seq<char>> {
    |i: int|
        if capability_named(caps[i]@) is Some {
            None
        } else {
            Some(
                manifest_prefix(path) + "' declares unsupported capability '"@ + caps[i]@
                    + "' (supported: log, fs, network)"@,
            )
        }
}

/// The check of the `i`-th output port: non-blank after trimming and not a
/// repeat of an earlier port.
pub open spec fn port_check(path: Seq<char>, ports: Seq<String>) -> spec_fn(int) -> Option<Seq<char>> {
    |i: int|
        if trim_seq(ports[i]@).len() == 0 {
            Some(manifest_prefix(path) + "' contains an empty supported_output_ports entry"@)
        } else if exists|j: int| 0 <= j < i && trim_seq(#[trigger] ports[j]@) == trim_seq(ports[i]@) {
            Some(
                manifest_prefix(path) + "' declares duplicate supported_output_port '"@ + trim_seq(
                    ports[i]@,
                ) + "'"@,
            )
        } else {
            None
        }
}

/// The check of the `i`-th ui tag: non-blank after trimming.
pub open spec fn tag_check(path: Seq<char>, tags: Seq<String>) -> spec_fn(int) -> Option<Seq<char>> {
    |i: int|
        if trim_seq(tags[i]@).len() == 0 {
            Some(manifest_prefix(path) + "' contains an empty ui.tags entry"@)
        } else {
            None
        }
}

/// The error of the `ui` table: a known icon, category and tone when given,
/// then non-blank tags.
pub open spec fn ui_error(path: Seq<char>, ui: RawPluginManifestUi) -> Option<Seq<char>> {
    let icon_error = match ui.icon {
        Some(v) => if icon_named(v@) is Some {
            None
        } else {
            Some(
                manifest_prefix(path) + "' declares unsupported ui.icon '"@ + v@
                    + "' (supported: puzzle, split, route, wand, shield, code, filter, database, file_text)"@,
            )
        },
        None => None,
    };
    let category_error = match ui.category {
        Some(v) => if category_named(v@) is Some {
            None
        } else {
            Some(
                manifest_prefix(path) + "' declares unsupported ui.category '"@ + v@
                    + "' (supported: control, transform, routing, policy, utility)"@,
            )
        },
        None => None,
    };
    let tone_error = match ui.tone {
        Some(v) => if tone_named(v@) is Some {
            None
        } else {
            Some(
                manifest_prefix(path) + "' declares unsupported ui.tone '"@ + v@
                    + "' (supported: slate, blue, sky, teal, emerald, amber, rose, violet)"@,
            )
        },
        None => None,
    };
    or_else(
        icon_error,
        or_else(
            category_error,
            or_else(tone_error, first_error(ui.tags@.len(), tag_check(path, ui.tags@))),
        ),
    )
}

/// The error of the `runtime` field.
pub open spec fn runtime_error(path: Seq<char>, runtime: Option<String>) -> Option<Seq<char>> {
    match runtime {
        Some(r) => if runtime_named(Some(r@)) is Some {
            None
        } else {
            Some(
                manifest_prefix(path) + "' declares unsupported runtime '"@ + trim_seq(r@)
                    + "' (supported: component, core)"@,
            )
        },
        None => None,
    }
}

/// The first error of the raw manifest read from `path`: capabilities, then
/// output ports, then the `ui` table, then the runtime.
pub open spec fn manifest_error(path: Seq<char>, raw: RawPluginManifest) -> Option<Seq<char>> {
    or_else(
        first_error(raw.capabilities@.len(), capability_check(path, raw.capabilities@)),
        or_else(
            first_error(
                raw.supported_output_ports@.len(),
                port_check(path, raw.supported_output_ports@),
            ),
            or_else(ui_error(path, raw.ui), runtime_error(path, raw.runtime)),
        ),
    )
}

/// The outcome `r` matches the optional error message `e`.
pub open spec fn manifest_outcome<T>(r: Result<T, ManifestError>, e: Option<Seq<char>>) -> bool {
    match r {
        Ok(_) => e is None,
        Err(err) => e == Some(err.message@),
    }
}

/// The manifest `m` is what the raw manifest `raw` describes.
pub open spec fn manifest_built_from(m: PluginManifest, raw: RawPluginManifest) -> bool {
    &&& m.id == raw.id
    &&& m.name == raw.name
    &&& m.version == raw.version
    &&& m.description == raw.description
    &&& Some(m.runtime) == runtime_named(
        match raw.runtime {
            Some(r) => Some(r@),
            None => None,
        },
    )
    &&& m.capabilities@.len() == raw.capabilities@.len()
    &&& forall|i: int|
        0 <= i < raw.capabilities@.len() ==> Some(#[trigger] m.capabilities@[i]) == capability_named(
            raw.capabilities@[i]@,
        )
    &&& m.supported_output_ports@.len() == raw.supported_output_ports@.len()
    &&& forall|i: int|
        0 <= i < raw.supported_output_ports@.len() ==> (#[trigger] m.supported_output_ports@[i])@
            == trim_seq(raw.supported_output_ports@[i]@)
    &&& m.default_config_schema_hints == raw.default_config_schema_hints
    &&& m.config_schema == raw.config_schema
    &&& m.ui.icon == match raw.ui.icon {
        Some(v) => icon_named(v@),
        None => None,
    }
    &&& m.ui.category == match raw.ui.category {
        Some(v) => category_named(v@),
        None => None,
    }
    &&& m.ui.tone == match raw.ui.tone {
        Some(v) => tone_named(v@),
        None => None,
    }
    &&& m.ui.order == raw.ui.order
    &&& m.ui.tags@.len() == raw.ui.tags@.len()
    &&& forall|i: int|
        0 <= i < raw.ui.tags@.len() ==> (#[trigger] m.ui.tags@[i])@ == trim_seq(raw.ui.tags@[i]@)
}

fn manifest_failure<T>(m: String) -> (r: Result<T, ManifestError>)
    ensures
        manifest_outcome(r, Some(m@)),
{
    Err(ManifestError { message: m })
}

/// The output ports are all non-blank after trimming, and no two trim to
/// the same name.
pub open spec fn output_ports_valid(ports: Seq<String>) -> bool {
    &&& forall|i: int| 0 <= i < ports.len() ==> trim_seq((#[trigger] ports[i])@).len() > 0
    &&& forall|i: int, j: int|
        0 <= i < j < ports.len() ==> trim_seq((#[trigger] ports[i])@) != trim_seq(
            (#[trigger] ports[j])@,
        )
}

/// The output ports pass their checks exactly when they are valid.
pub proof fn lemma_port_check_none(path: Seq<char>, ports: Seq<String>)
    ensures
        first_error(ports.len(), port_check(path, ports)) is None <==> output_ports_valid(ports),
{
    let check = port_check(path, ports);
    lemma_first_error_none(ports.len(), check);
    if output_ports_valid(ports) {
        assert forall|i: int| 0 <= i < ports.len() implies #[trigger] check(i) is None by {
            if exists|j: int| 0 <= j < i && trim_seq(#[trigger] ports[j]@) == trim_seq(ports[i]@) {
                let j = choose|j: int| 0 <= j < i && trim_seq(#[trigger] ports[j]@) == trim_seq(
                    ports[i]@,
                );
                assert(trim_seq(ports[j]@) != trim_seq(ports[i]@));
            }
        }
    }
    if first_error(ports.len(), check) is None {
        assert forall|i: int| 0 <= i < ports.len() implies trim_seq((#[trigger] ports[i])@).len()
            > 0 by {
            assert(check(i) is None);
        }
        assert forall|i: int, j: int| 0 <= i < j < ports.len() implies trim_seq(
            (#[trigger] ports[i])@,
        ) != trim_seq((#[trigger] ports[j])@) by {
            assert(check(j) is None);
        }
    }
}

/// When the output ports are refused, the message names the first
/// offending port: the first that is blank after trimming, or whose trimmed
/// name repeats an earlier one.
pub proof fn lemma_port_check_first_offender(path: Seq<char>, ports: Seq<String>)
    requires
        first_error(ports.len(), port_check(path, ports)) is Some,
    ensures
        exists|k: int|
            #![trigger ports[k]]
            0 <= k < ports.len() && (trim_seq(ports[k]@).len() == 0 || exists|j: int|
                0 <= j < k && trim_seq(ports[j]@) == trim_seq(ports[k]@)) && (forall|j: int|
                0 <= j < k ==> trim_seq((#[trigger] ports[j])@).len() > 0 && forall|l: int|
                    0 <= l < j ==> trim_seq(ports[l]@) != trim_seq(ports[j]@)) && first_error(
                ports.len(),
                port_check(path, ports),
            ) == Some(
                if trim_seq(ports[k]@).len() == 0 {
                    manifest_prefix(path) + "' contains an empty supported_output_ports entry"@
                } else {
                    manifest_prefix(path) + "' declares duplicate supported_output_port '"@
                        + trim_seq(ports[k]@) + "'"@
                },
            ),
{
    let check = port_check(path, ports);
    lemma_first_error_some(ports.len(), check);
    let k = choose|k: int|
        #![trigger check(k)]
        0 <= k < ports.len() && check(k) == first_error(ports.len(), check) && forall|j: int|
            0 <= j < k ==> #[trigger] check(j) is None;
    assert forall|j: int| 0 <= j < k implies trim_seq((#[trigger] ports[j])@).len() > 0
        && forall|l: int| 0 <= l < j ==> trim_seq(ports[l]@) != trim_seq(ports[j]@) by {
        assert(check(j) is None);
    }
    assert(check(k) is Some);
}

/// Checks the output ports of a manifest at `path`: each must be non-blank
/// after trimming and no two may trim to the same name. On success it gives
/// the trimmed ports, in order.
pub fn validate_supported_output_ports(path: &str, ports: &Vec<String>) -> (r: Result<
    Vec<String>,
    ManifestError,
>)
    ensures
        manifest_outcome(r, first_error(ports@.len(), port_check(path@, ports@))),
        r is Ok <==> output_ports_valid(ports@),
        r matches Ok(v) ==> v@.len() == ports@.len() && forall|i: int|
            0 <= i < ports@.len() ==> (#[trigger] v@[i])@ == trim_seq(ports@[i]@),
{
    let ghost check = port_check(path@, ports@);
    let mut validated: Vec<String> = Vec::new();
    let mut i: usize = 0;
    while i < ports.len()
        invariant
            check == port_check(path@, ports@),
            i <= ports@.len(),
            first_error(i as nat, check) is None,
            validated@.len() == i,
            forall|j: int| 0 <= j < i ==> (#[trigger] validated@[j])@ == trim_seq(ports@[j]@),
        decreases ports@.len() - i,
    {
        proof {
            lemma_first_error_step(i as nat, check);
            lemma_first_error_prefix((i + 1) as nat, ports@.len(), check);
        }
        let normalized = trim(ports[i].as_str());
        if normalized.unicode_len() == 0 {
            return manifest_failure(
                cat3(
                    "plugin manifest '",
                    path,
                    "' contains an empty supported_output_ports entry",
                ),
            );
        }
        let mut k: usize = 0;
        while k < i
            invariant
                check == port_check(path@, ports@),
                first_error(i as nat, check) is None,
                first_error((i + 1) as nat, check) == check(i as int),
                normalized@.len() > 0,
                first_error((i + 1) as nat, check) is Some ==> first_error(ports@.len(), check)
                    == first_error((i + 1) as nat, check),
                i < ports@.len(),
                k <= i,
                validated@.len() == i,
                normalized@ == trim_seq(ports@[i as int]@),
                forall|j: int| 0 <= j < i ==> (#[trigger] validated@[j])@ == trim_seq(ports@[j]@),
                forall|j: int| 0 <= j < k ==> trim_seq(#[trigger] ports@[j]@) != normalized@,
            decreases i - k,
        {
            if str_eq(validated[k].as_str(), normalized) {
                assert(trim_seq(ports@[k as int]@) == trim_seq(ports@[i as int]@));
                return manifest_failure(
                    cat5(
                        "plugin manifest '",
                        path,
                        "' declares duplicate supported_output_port '",
                        normalized,
                        "'",
                    ),
                );
            }
            k = k + 1;
        }
        validated.push(owned(normalized));
        i = i + 1;
    }
    proof {
        lemma_port_check_none(path@, ports@);
    }
    Ok(validated)
}

struct ManifestParser<'a> {
    path: &'a str,
}

impl<'a> ManifestParser<'a> {
    fn new(path: &'a str) -> (r: Self)
        ensures
            r.path == path,
    {
        ManifestParser { path }
    }

    fn parse_manifest_capability(&self, capability: &str) -> (r: Result<
        ManifestCapability,
        ManifestError,
    >)
        ensures
            match r {
                Ok(c) => capability_named(capability@) == Some(c),
                Err(e) => capability_named(capability@) is None && e.message@ == manifest_prefix(
                    self.path@,
                ) + "' declares unsupported capability '"@ + capability@
                    + "' (supported: log, fs, network)"@,
            },
    {
        if str_eq(capability, "log") {
            Ok(ManifestCapability::Log)
        } else if str_eq(capability, "fs") {
            Ok(ManifestCapability::Fs)
        } else if str_eq(capability, "network") {
            Ok(ManifestCapability::Network)
        } else {
            manifest_failure(
                cat5(
                    "plugin manifest '",
                    self.path,
                    "' declares unsupported capability '",
                    capability,
                    "' (supported: log, fs, network)",
                ),
            )
        }
    }

    fn parse_plugin_runtime(&self, runtime: &Option<String>) -> (r: Result<
        PluginRuntimeKind,
        ManifestError,
    >)
        ensures
            manifest_outcome(r, runtime_error(self.path@, *runtime)),
            r matches Ok(k) ==> runtime_named(
                match *runtime {
                    Some(x) => Some(x@),
                    None => None,
                },
            ) == Some(k),
    {
        match runtime {
            None => Ok(PluginRuntimeKind::Component),
            Some(x) => {
                let t = trim(x.as_str());
                if t.unicode_len() == 0 {
                    Ok(PluginRuntimeKind::Component)
                } else if str_eq(t, "component") {
                    Ok(PluginRuntimeKind::Component)
                } else if str_eq(t, "core") {
                    Ok(PluginRuntimeKind::Core)
                } else {
                    manifest_failure(
                        cat5(
                            "plugin manifest '",
                            self.path,
                            "' declares unsupported runtime '",
                            t,
                            "' (supported: component, core)",
                        ),
                    )
                }
            },
        }
    }

    fn parse_manifest_icon(&self, value: &str) -> (r: Result<ManifestIcon, ManifestError>)
        ensures
            match r {
                Ok(c) => icon_named(value@) == Some(c),
                Err(e) => icon_named(value@) is None && e.message@ == manifest_prefix(self.path@)
                    + "' declares unsupported ui.icon '"@ + value@
                    + "' (supported: puzzle, split, route, wand, shield, code, filter, database, file_text)"@,
            },
    {
        if str_eq(value, "puzzle") {
            Ok(ManifestIcon::Puzzle)
        } else if str_eq(value, "split") {
            Ok(ManifestIcon::Split)
        } else if str_eq(value, "route") {
            Ok(ManifestIcon::Route)
        } else if str_eq(value, "wand") {
            Ok(ManifestIcon::Wand)
        } else if str_eq(value, "shield") {
            Ok(ManifestIcon::Shield)
        } else if str_eq(value, "code") {
            Ok(ManifestIcon::Code)
        } else if str_eq(value, "filter") {
            Ok(ManifestIcon::Filter)
        } else if str_eq(value, "database") {
            Ok(ManifestIcon::Database)
        } else if str_eq(value, "file_text") {
            Ok(ManifestIcon::FileText)
        } else {
            manifest_failure(
                cat5(
                    "plugin manifest '",
                    self.path,
                    "' declares unsupported ui.icon '",
                    value,
                    "' (supported: puzzle, split, route, wand, shield, code, filter, database, file_text)",
                ),
            )
        }
    }

    fn parse_manifest_category(&self, value: &str) -> (r: Result<ManifestCategory, ManifestError>)
        ensures
            match r {
                Ok(c) => category_named(value@) == Some(c),
                Err(e) => category_named(value@) is None && e.message@ == manifest_prefix(
                    self.path@,
                ) + "' declares unsupported ui.category '"@ + value@
                    + "' (supported: control, transform, routing, policy, utility)"@,
            },
    {
        if str_eq(value, "control") {
            Ok(ManifestCategory::Control)
        } else if str_eq(value, "transform") {
            Ok(ManifestCategory::Transform)
        } else if str_eq(value, "routing") {
            Ok(ManifestCategory::Routing)
        } else if str_eq(value, "policy") {
            Ok(ManifestCategory::Policy)
        } else if str_eq(value, "utility") {
            Ok(ManifestCategory::Utility)
        } else {
            manifest_failure(
                cat5(
                    "plugin manifest '",
                    self.path,
                    "' declares unsupported ui.category '",
                    value,
                    "' (supported: control, transform, routing, policy, utility)",
                ),
            )
        }
    }

    fn parse_manifest_tone(&self, value: &str) -> (r: Result<ManifestTone, ManifestError>)
        ensures
            match r {
                Ok(c) => tone_named(value@) == Some(c),
                Err(e) => tone_named(value@) is None && e.message@ == manifest_prefix(self.path@)
                    + "' declares unsupported ui.tone '"@ + value@
                    + "' (supported: slate, blue, sky, teal, emerald, amber, rose, violet)"@,
            },
    {
        if str_eq(value, "slate") {
            Ok(ManifestTone::Slate)
        } else if str_eq(value, "blue") {
            Ok(ManifestTone::Blue)
        } else if str_eq(value, "sky") {
            Ok(ManifestTone::Sky)
        } else if str_eq(value, "teal") {
            Ok(ManifestTone::Teal)
        } else if str_eq(value, "emerald") {
            Ok(ManifestTone::Emerald)
        } else if str_eq(value, "amber") {
            Ok(ManifestTone::Amber)
        } else if str_eq(value, "rose") {
            Ok(ManifestTone::Rose)
        } else if str_eq(value, "violet") {
            Ok(ManifestTone::Violet)
        } else {
            manifest_failure(
                cat5(
                    "plugin manifest '",
                    self.path,
                    "' declares unsupported ui.tone '",
                    value,
                    "' (supported: slate, blue, sky, teal, emerald, amber, rose, violet)",
                ),
            )
        }
    }

    fn normalize_manifest_tag(&self, tag: &String) -> (r: Result<String, ManifestError>)
        ensures
            match r {
                Ok(t) => trim_seq(tag@).len() != 0 && t@ == trim_seq(tag@),
                Err(e) => trim_seq(tag@).len() == 0 && e.message@ == manifest_prefix(self.path@)
                    + "' contains an empty ui.tags entry"@,
            },
    {
        let normalized = trim(tag.as_str());
        if normalized.unicode_len() == 0 {
            return manifest_failure(
                cat3("plugin manifest '", self.path, "' contains an empty ui.tags entry"),
            );
        }
        Ok(owned(normalized))
    }

    fn validate_supported_output_ports(&self, ports: &Vec<String>) -> (r: Result<
        Vec<String>,
        ManifestError,
    >)
        ensures
            manifest_outcome(r, first_error(ports@.len(), port_check(self.path@, ports@))),
            r matches Ok(v) ==> v@.len() == ports@.len() && forall|i: int|
                0 <= i < ports@.len() ==> (#[trigger] v@[i])@ == trim_seq(ports@[i]@),
    {
        validate_supported_output_ports(self.path, ports)
    }

    fn parse_manifest_ui(&self, raw_ui: RawPluginManifestUi) -> (r: Result<
        PluginManifestUi,
        ManifestError,
    >)
        ensures
            manifest_outcome(r, ui_error(self.path@, raw_ui)),
            r matches Ok(ui) ==> {
                &&& ui.icon == match raw_ui.icon {
                    Some(v) => icon_named(v@),
                    None => None,
                }
                &&& ui.category == match raw_ui.category {
                    Some(v) => category_named(v@),
                    None => None,
                }
                &&& ui.tone == match raw_ui.tone {
                    Some(v) => tone_named(v@),
                    None => None,
                }
                &&& ui.order == raw_ui.order
                &&& ui.tags@.len() == raw_ui.tags@.len()
                &&& forall|i: int|
                    0 <= i < raw_ui.tags@.len() ==> (#[trigger] ui.tags@[i])@ == trim_seq(
                        raw_ui.tags@[i]@,
                    )
            },
    {
        let icon = match &raw_ui.icon {
            Some(v) => match self.parse_manifest_icon(v.as_str()) {
                Ok(x) => Some(x),
                Err(e) => {
                    return Err(e);
                },
            },
            None => None,
        };
        let category = match &raw_ui.category {
            Some(v) => match self.parse_manifest_category(v.as_str()) {
                Ok(x) => Some(x),
                Err(e) => {
                    return Err(e);
                },
            },
            None => None,
        };
        let tone = match &raw_ui.tone {
            Some(v) => match self.parse_manifest_tone(v.as_str()) {
                Ok(x) => Some(x),
                Err(e) => {
                    return Err(e);
                },
            },
            None => None,
        };
        let ghost check = tag_check(self.path@, raw_ui.tags@);
        assert(ui_error(self.path@, raw_ui) == first_error(raw_ui.tags@.len(), check));
        let mut tags: Vec<String> = Vec::new();
        let mut i: usize = 0;
        while i < raw_ui.tags.len()
            invariant
                check == tag_check(self.path@, raw_ui.tags@),
                ui_error(self.path@, raw_ui) == first_error(raw_ui.tags@.len(), check),
                i <= raw_ui.tags@.len(),
                first_error(i as nat, check) is None,
                tags@.len() == i,
                forall|j: int| 0 <= j < i ==> (#[trigger] tags@[j])@ == trim_seq(raw_ui.tags@[j]@),
            decreases raw_ui.tags@.len() - i,
        {
            proof {
                lemma_first_error_step(i as nat, check);
                lemma_first_error_prefix((i + 1) as nat, raw_ui.tags@.len(), check);
            }
            match self.normalize_manifest_tag(&raw_ui.tags[i]) {
                Ok(t) => tags.push(t),
                Err(e) => {
                    return Err(e);
                },
            }
            i = i + 1;
        }
        Ok(PluginManifestUi { icon, category, tone, order: raw_ui.order, tags })
    }

    fn parse(&self, raw: RawPluginManifest) -> (r: Result<PluginManifest, ManifestError>)
        ensures
            manifest_outcome(r, manifest_error(self.path@, raw)),
            r matches Ok(m) ==> manifest_built_from(m, raw),
    {
        let ghost check = capability_check(self.path@, raw.capabilities@);
        let mut capabilities: Vec<ManifestCapability> = Vec::new();
        let mut i: usize = 0;
        while i < raw.capabilities.len()
            invariant
                check == capability_check(self.path@, raw.capabilities@),
                i <= raw.capabilities@.len(),
                first_error(i as nat, check) is None,
                capabilities@.len() == i,
                forall|j: int|
                    0 <= j < i ==> Some(#[trigger] capabilities@[j]) == capability_named(
                        raw.capabilities@[j]@,
                    ),
            decreases raw.capabilities@.len() - i,
        {
            proof {
                lemma_first_error_step(i as nat, check);
                lemma_first_error_prefix((i + 1) as nat, raw.capabilities@.len(), check);
            }
            match self.parse_manifest_capability(raw.capabilities[i].as_str()) {
                Ok(c) => capabilities.push(c),
                Err(e) => {
                    return Err(e);
                },
            }
            i = i + 1;
        }
        let supported_output_ports = match self.validate_supported_output_ports(
            &raw.supported_output_ports,
        ) {
            Ok(v) => v,
            Err(e) => {
                return Err(e);
            },
        };
        let ghost raw_copy = raw;
        let RawPluginManifest {
            id,
            name,
            version,
            description,
            runtime,
            supported_output_ports: _,
            capabilities: _,
            default_config_schema_hints,
            config_schema,
            ui,
        } = raw;
        let ui = match self.parse_manifest_ui(ui) {
            Ok(ui) => ui,
            Err(e) => {
                return Err(e);
            },
        };
        let runtime = match self.parse_plugin_runtime(&runtime) {
            Ok(k) => k,
            Err(e) => {
                return Err(e);
            },
        };
        Ok(
            PluginManifest {
                id,
                name,
                version,
                description,
                runtime,
                supported_output_ports,
                capabilities,
                default_config_schema_hints,
                config_schema,
                ui,
            },
        )
    }
}

/// Turns the raw fields `raw` of the manifest at `path` into a manifest:
/// capabilities, output ports, `ui` entries and the runtime must be ones the
/// gateway knows; ports and tags are trimmed; the first refusal is reported.
pub fn parse_plugin_manifest(path: &str, raw: RawPluginManifest) -> (r: Result<
    PluginManifest,
    ManifestError,
>)
    ensures
        manifest_outcome(r, manifest_error(path@, raw)),
        r matches Ok(m) ==> manifest_built_from(m, raw),
{
    ManifestParser::new(path).parse(raw)
}

} // verus!
