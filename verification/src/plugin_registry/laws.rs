//! What an accepted plugin manifest and a resolved plugins directory
//! guarantee.
use vstd::prelude::*;
use crate::checks::lemma_first_error_none;
use crate::plugin_registry::manifest::{
    capability_named, category_named, icon_named, runtime_named, tone_named, ManifestCapability,
    ManifestCategory, ManifestIcon, ManifestTone, PluginRuntimeKind,
};
use crate::plugin_registry::manifest::{manifest_built_from, manifest_error, port_check, tag_check, ui_error, PluginManifest, RawPluginManifest};
use crate::plugin_registry::paths::{plugins_root_choice, PathProbe};
use crate::text::{is_blank, is_whitespace_char, lemma_trim_padded, trim_seq};

verus! {

/// The output ports of an accepted manifest are non-empty and pairwise
/// distinct, and its ui tags are non-empty.
pub proof fn lemma_accepted_manifest_ports(path: Seq<char>, raw: RawPluginManifest, m: PluginManifest)
    requires
        manifest_error(path, raw) is None,
        manifest_built_from(m, raw),
    ensures
        forall|i: int|
            0 <= i < m.supported_output_ports@.len() ==> (
            #[trigger] m.supported_output_ports@[i])@.len() > 0,
        forall|i: int, j: int|
            0 <= i < j < m.supported_output_ports@.len() ==> (
            #[trigger] m.supported_output_ports@[i])@ != (
            #[trigger] m.supported_output_ports@[j])@,
        forall|i: int| 0 <= i < m.ui.tags@.len() ==> (#[trigger] m.ui.tags@[i])@.len() > 0,
{
    let ports = raw.supported_output_ports@;
    let pc = port_check(path, ports);
    lemma_first_error_none(ports.len(), pc);
    let tc = tag_check(path, raw.ui.tags@);
    assert(ui_error(path, raw.ui) is None);
    lemma_first_error_none(raw.ui.tags@.len(), tc);
    assert forall|i: int| 0 <= i < m.supported_output_ports@.len() implies (
    #[trigger] m.supported_output_ports@[i])@.len() > 0 by {
        assert(pc(i) is None);
    }
    assert forall|i: int, j: int| 0 <= i < j < m.supported_output_ports@.len() implies (
    #[trigger] m.supported_output_ports@[i])@ != (#[trigger] m.supported_output_ports@[j])@ by {
        assert(pc(j) is None);
        assert(m.supported_output_ports@[i]@ == trim_seq(ports[i]@));
        assert(m.supported_output_ports@[j]@ == trim_seq(ports[j]@));
    }
    assert forall|i: int| 0 <= i < m.ui.tags@.len() implies (#[trigger] m.ui.tags@[i])@.len()
        > 0 by {
        assert(tc(i) is None);
    }
}

/// The plugins directory that is chosen is one of the candidates, is a
/// directory, and every candidate searched before it does not exist.
pub proof fn lemma_plugins_root_is_a_directory(
    config: Seq<char>,
    candidates: Seq<Seq<char>>,
    probes: Seq<PathProbe>,
    k: int,
)
    requires
        0 <= k,
        probes.len() == candidates.len(),
        plugins_root_choice(config, candidates, probes, k) is Ok,
    ensures
        exists|i: int|
            #![trigger candidates[i]]
            k <= i < candidates.len() && candidates[i] == plugins_root_choice(
                config,
                candidates,
                probes,
                k,
            )->Ok_0 && probes[i].is_dir && forall|j: int|
                k <= j < i ==> !(#[trigger] probes[j]).exists && !probes[j].is_dir,
    decreases candidates.len() - k,
{
    if probes[k].is_dir {
        assert(candidates[k] == plugins_root_choice(config, candidates, probes, k)->Ok_0);
    } else {
        lemma_plugins_root_is_a_directory(config, candidates, probes, k + 1);
        let i = choose|i: int|
            #![trigger candidates[i]]
            k + 1 <= i < candidates.len() && candidates[i] == plugins_root_choice(
                config,
                candidates,
                probes,
                k + 1,
            )->Ok_0 && probes[i].is_dir && forall|j: int|
                k + 1 <= j < i ==> !(#[trigger] probes[j]).exists && !probes[j].is_dir;
        assert(candidates[i] == plugins_root_choice(config, candidates, probes, k)->Ok_0);
    }
}

/// The name under which a manifest declares each category.
pub open spec fn category_label(c: ManifestCategory) -> Seq<char> {
    match c {
        ManifestCategory::Control => "control"@,
        ManifestCategory::Transform => "transform"@,
        ManifestCategory::Routing => "routing"@,
        ManifestCategory::Policy => "policy"@,
        ManifestCategory::Utility => "utility"@,
    }
}

/// Every category name is read as the category of that name, and only that
/// name is: the reading is one-to-one and keeps the names.
pub proof fn lemma_category_labels_read_back(c: ManifestCategory, s: Seq<char>)
    ensures
        category_named(category_label(c)) == Some(c),
        category_named(s) == Some(c) ==> s == category_label(c),
{
    reveal_strlit("control");
    reveal_strlit("transform");
    reveal_strlit("routing");
    reveal_strlit("policy");
    reveal_strlit("utility");
    assert("transform"@[0] != "control"@[0]);
    assert("routing"@[0] != "control"@[0]);
    assert("routing"@[0] != "transform"@[0]);
    assert("policy"@[0] != "control"@[0]);
    assert("policy"@[0] != "transform"@[0]);
    assert("policy"@[0] != "routing"@[0]);
    assert("utility"@[0] != "control"@[0]);
    assert("utility"@[0] != "transform"@[0]);
    assert("utility"@[0] != "routing"@[0]);
    assert("utility"@[0] != "policy"@[0]);
}

/// The name under which a manifest declares each icon.
pub open spec fn icon_label(c: ManifestIcon) -> Seq<char> {
    match c {
        ManifestIcon::Puzzle => "puzzle"@,
        ManifestIcon::Split => "split"@,
        ManifestIcon::Route => "route"@,
        ManifestIcon::Wand => "wand"@,
        ManifestIcon::Shield => "shield"@,
        ManifestIcon::Code => "code"@,
        ManifestIcon::Filter => "filter"@,
        ManifestIcon::Database => "database"@,
        ManifestIcon::FileText => "file_text"@,
    }
}

/// Every icon name is read as the icon of that name, and only that
/// name is: the reading is one-to-one and keeps the names.
pub proof fn lemma_icon_labels_read_back(c: ManifestIcon, s: Seq<char>)
    ensures
        icon_named(icon_label(c)) == Some(c),
        icon_named(s) == Some(c) ==> s == icon_label(c),
{
    reveal_strlit("puzzle");
    reveal_strlit("split");
    reveal_strlit("route");
    reveal_strlit("wand");
    reveal_strlit("shield");
    reveal_strlit("code");
    reveal_strlit("filter");
    reveal_strlit("database");
    reveal_strlit("file_text");
    assert("split"@[0] != "puzzle"@[0]);
    assert("route"@[0] != "puzzle"@[0]);
    assert("route"@[0] != "split"@[0]);
    assert("wand"@[0] != "puzzle"@[0]);
    assert("wand"@[0] != "split"@[0]);
    assert("wand"@[0] != "route"@[0]);
    assert("shield"@[0] != "puzzle"@[0]);
    assert("shield"@[1] != "split"@[1]);
    assert("shield"@[0] != "route"@[0]);
    assert("shield"@[0] != "wand"@[0]);
    assert("code"@[0] != "puzzle"@[0]);
    assert("code"@[0] != "split"@[0]);
    assert("code"@[0] != "route"@[0]);
    assert("code"@[0] != "wand"@[0]);
    assert("code"@[0] != "shield"@[0]);
    assert("filter"@[0] != "puzzle"@[0]);
    assert("filter"@[0] != "split"@[0]);
    assert("filter"@[0] != "route"@[0]);
    assert("filter"@[0] != "wand"@[0]);
    assert("filter"@[0] != "shield"@[0]);
    assert("filter"@[0] != "code"@[0]);
    assert("database"@[0] != "puzzle"@[0]);
    assert("database"@[0] != "split"@[0]);
    assert("database"@[0] != "route"@[0]);
    assert("database"@[0] != "wand"@[0]);
    assert("database"@[0] != "shield"@[0]);
    assert("database"@[0] != "code"@[0]);
    assert("database"@[0] != "filter"@[0]);
    assert("file_text"@[0] != "puzzle"@[0]);
    assert("file_text"@[0] != "split"@[0]);
    assert("file_text"@[0] != "route"@[0]);
    assert("file_text"@[0] != "wand"@[0]);
    assert("file_text"@[0] != "shield"@[0]);
    assert("file_text"@[0] != "code"@[0]);
    assert("file_text"@[3] != "filter"@[3]);
    assert("file_text"@[0] != "database"@[0]);
}

/// The name under which a manifest declares each tone.
pub open spec fn tone_label(c: ManifestTone) -> Seq<char> {
    match c {
        ManifestTone::Slate => "slate"@,
        ManifestTone::Blue => "blue"@,
        ManifestTone::Sky => "sky"@,
        ManifestTone::Teal => "teal"@,
        ManifestTone::Emerald => "emerald"@,
        ManifestTone::Amber => "amber"@,
        ManifestTone::Rose => "rose"@,
        ManifestTone::Violet => "violet"@,
    }
}

/// Every tone name is read as the tone of that name, and only that
/// name is: the reading is one-to-one and keeps the names.
pub proof fn lemma_tone_labels_read_back(c: ManifestTone, s: Seq<char>)
    ensures
        tone_named(tone_label(c)) == Some(c),
        tone_named(s) == Some(c) ==> s == tone_label(c),
{
    reveal_strlit("slate");
    reveal_strlit("blue");
    reveal_strlit("sky");
    reveal_strlit("teal");
    reveal_strlit("emerald");
    reveal_strlit("amber");
    reveal_strlit("rose");
    reveal_strlit("violet");
    assert("blue"@[0] != "slate"@[0]);
    assert("sky"@[1] != "slate"@[1]);
    assert("sky"@[0] != "blue"@[0]);
    assert("teal"@[0] != "slate"@[0]);
    assert("teal"@[0] != "blue"@[0]);
    assert("teal"@[0] != "sky"@[0]);
    assert("emerald"@[0] != "slate"@[0]);
    assert("emerald"@[0] != "blue"@[0]);
    assert("emerald"@[0] != "sky"@[0]);
    assert("emerald"@[0] != "teal"@[0]);
    assert("amber"@[0] != "slate"@[0]);
    assert("amber"@[0] != "blue"@[0]);
    assert("amber"@[0] != "sky"@[0]);
    assert("amber"@[0] != "teal"@[0]);
    assert("amber"@[0] != "emerald"@[0]);
    assert("rose"@[0] != "slate"@[0]);
    assert("rose"@[0] != "blue"@[0]);
    assert("rose"@[0] != "sky"@[0]);
    assert("rose"@[0] != "teal"@[0]);
    assert("rose"@[0] != "emerald"@[0]);
    assert("rose"@[0] != "amber"@[0]);
    assert("violet"@[0] != "slate"@[0]);
    assert("violet"@[0] != "blue"@[0]);
    assert("violet"@[0] != "sky"@[0]);
    assert("violet"@[0] != "teal"@[0]);
    assert("violet"@[0] != "emerald"@[0]);
    assert("violet"@[0] != "amber"@[0]);
    assert("violet"@[0] != "rose"@[0]);
}

/// The name under which a manifest declares each capability.
pub open spec fn capability_label(c: ManifestCapability) -> Seq<char> {
    match c {
        ManifestCapability::Log => "log"@,
        ManifestCapability::Fs => "fs"@,
        ManifestCapability::Network => "network"@,
    }
}

/// Every capability name is read as the capability of that name, and only that
/// name is: the reading is one-to-one and keeps the names.
pub proof fn lemma_capability_labels_read_back(c: ManifestCapability, s: Seq<char>)
    ensures
        capability_named(capability_label(c)) == Some(c),
        capability_named(s) == Some(c) ==> s == capability_label(c),
{
    reveal_strlit("log");
    reveal_strlit("fs");
    reveal_strlit("network");
    assert("fs"@[0] != "log"@[0]);
    assert("network"@[0] != "log"@[0]);
    assert("network"@[0] != "fs"@[0]);
}

/// The name under which a manifest declares each runtime.
pub open spec fn runtime_label(k: PluginRuntimeKind) -> Seq<char> {
    match k {
        PluginRuntimeKind::Component => "component"@,
        PluginRuntimeKind::Core => "core"@,
    }
}

/// A declared runtime names the runtime of that name, whitespace around it
/// aside; a missing or blank runtime means a component.
pub proof fn lemma_runtime_names_read_back(k: PluginRuntimeKind, w1: Seq<char>, w2: Seq<char>)
    requires
        is_blank(w1),
        is_blank(w2),
    ensures
        runtime_named(Some(w1 + runtime_label(k) + w2)) == Some(k),
        runtime_named(None) == Some(PluginRuntimeKind::Component),
        runtime_named(Some(w1)) == Some(PluginRuntimeKind::Component),
{
    reveal_strlit("component");
    reveal_strlit("core");
    let x = runtime_label(k);
    assert(!is_whitespace_char(x[0]));
    assert(!is_whitespace_char(x.last()));
    lemma_trim_padded(w1, x, w2);
    assert("core"@.len() != "component"@.len());
}

} // verus!
