//! The engine's general guarantees, stated over the same spec functions the
//! executable contracts use and proved once and for all: locality, the
//! first-match tie-break, idempotence of a pass, disjointness of the three
//! reference shapes, and the empty rule set as the identity.

use vstd::prelude::*;

use crate::engine::{
    first_file_named_from, first_id_match, first_id_match_from, first_path_match,
    first_path_match_from, lemma_file_match_in_range, lemma_id_match_in_range,
    lemma_path_match_in_range, primary_index, remapped_bundle, remapped_bundle_file,
    remapped_file, remapped_material, remapped_path, remapped_ref, source_path_of,
    target_path_of,
};
use crate::model::{
    AssetFileModel, AssetModel, BundleFileModel, BundleModel, Dependency, MaterialModel,
    NamedFileModel, NodeKey,
};

verus! {

// ---------------------------------------------------------------------------
// Locality: an unmatched site is left exactly as it is
// ---------------------------------------------------------------------------

/// No rule at or after `i` matches `p`, so the search finds nothing.
proof fn lemma_no_path_match(rules: Seq<Dependency>, p: Seq<char>, i: int)
    requires
        forall|k: int| 0 <= k < rules.len() ==> source_path_of(#[trigger] rules[k]) != p,
    ensures
        first_path_match_from(rules, p, i) is None,
    decreases rules.len() - i,
{
    if 0 <= i < rules.len() {
        lemma_no_path_match(rules, p, i + 1);
    }
}

/// No rule at or after `i` carries the source identifier `id`, so the
/// search finds nothing.
proof fn lemma_no_id_match(rules: Seq<Dependency>, id: int, i: int)
    requires
        forall|k: int|
            0 <= k < rules.len() ==> (#[trigger] rules[k]).custom_bundle_node.path_id as int != id,
    ensures
        first_id_match_from(rules, id, i) is None,
    decreases rules.len() - i,
{
    if 0 <= i < rules.len() {
        lemma_no_id_match(rules, id, i + 1);
    }
}

/// Locality for dependency entries: a path that equals no rule's rendered
/// source path is never modified.
pub proof fn lemma_locality_path(rules: Seq<Dependency>, p: Seq<char>)
    requires
        forall|k: int| 0 <= k < rules.len() ==> source_path_of(#[trigger] rules[k]) != p,
    ensures
        remapped_path(rules, p) == p,
{
    lemma_no_path_match(rules, p, 0);
}

/// Locality for shader and texture slots: a reference whose local
/// identifier equals no rule's source identifier is never modified.
pub proof fn lemma_locality_ref(rules: Seq<Dependency>, r: NodeKey)
    requires
        forall|k: int|
            0 <= k < rules.len() ==> (#[trigger] rules[k]).custom_bundle_node.path_id as int
                != r.path_id,
    ensures
        remapped_ref(rules, r) == r,
{
    lemma_no_id_match(rules, r.path_id, 0);
}

// ---------------------------------------------------------------------------
// First-match tie-break
// ---------------------------------------------------------------------------

/// Searching from `j` lands on `i` when `i` matches and nothing in between
/// does.
proof fn lemma_first_path_from(rules: Seq<Dependency>, p: Seq<char>, j: int, i: int)
    requires
        0 <= j <= i < rules.len(),
        source_path_of(rules[i]) == p,
        forall|k: int| j <= k < i ==> source_path_of(#[trigger] rules[k]) != p,
    ensures
        first_path_match_from(rules, p, j) == Some(i),
    decreases i - j,
{
    if j < i {
        lemma_first_path_from(rules, p, j + 1, i);
    }
}

/// Searching from `j` lands on `i` when `i` matches and nothing in between
/// does.
proof fn lemma_first_id_from(rules: Seq<Dependency>, id: int, j: int, i: int)
    requires
        0 <= j <= i < rules.len(),
        rules[i].custom_bundle_node.path_id as int == id,
        forall|k: int|
            j <= k < i ==> (#[trigger] rules[k]).custom_bundle_node.path_id as int != id,
    ensures
        first_id_match_from(rules, id, j) == Some(i),
    decreases i - j,
{
    if j < i {
        lemma_first_id_from(rules, id, j + 1, i);
    }
}

/// First-match tie-break for dependency entries: the earliest rule whose
/// rendered source path matches a site decides its rewrite; a later rule
/// with the same source key never does.
pub proof fn lemma_first_match_wins_path(rules: Seq<Dependency>, p: Seq<char>, i: int)
    requires
        0 <= i < rules.len(),
        source_path_of(rules[i]) == p,
        forall|k: int| 0 <= k < i ==> source_path_of(#[trigger] rules[k]) != p,
    ensures
        first_path_match(rules, p) == Some(i),
        remapped_path(rules, p) == target_path_of(rules[i]),
{
    lemma_first_path_from(rules, p, 0, i);
}

/// First-match tie-break for shader and texture slots: the earliest rule
/// whose source identifier matches a site decides its rewrite; a later
/// rule with the same source key never does.
pub proof fn lemma_first_match_wins_ref(rules: Seq<Dependency>, r: NodeKey, i: int)
    requires
        0 <= i < rules.len(),
        rules[i].custom_bundle_node.path_id as int == r.path_id,
        forall|k: int|
            0 <= k < i ==> (#[trigger] rules[k]).custom_bundle_node.path_id as int != r.path_id,
    ensures
        first_id_match(rules, r.path_id) == Some(i),
        remapped_ref(rules, r) == rules[i].game_node@,
{
    lemma_first_id_from(rules, r.path_id, 0, i);
}

// ---------------------------------------------------------------------------
// Idempotence
// ---------------------------------------------------------------------------

/// A rule set under which every rewrite reaches a fixed point at once: no
/// rule's target key can itself be rewritten. Its rendered target path
/// matches no rule's source path and its target identifier matches no
/// rule's source identifier; in particular every rule's source differs
/// from every rule's target.
pub open spec fn targets_clear_of_sources(rules: Seq<Dependency>) -> bool {
    &&& forall|k: int|
        0 <= k < rules.len() ==> first_path_match(rules, target_path_of(#[trigger] rules[k]))
            is None
    &&& forall|k: int|
        0 <= k < rules.len() ==> first_id_match(
            rules,
            (#[trigger] rules[k]).game_node.path_id as int,
        ) is None
}

/// The fixed-point condition holds as soon as, pair by pair, no rule's
/// target key equals any rule's source key: neither as a rendered path nor
/// as a local identifier.
pub proof fn lemma_targets_clear_of_sources(rules: Seq<Dependency>)
    requires
        forall|j: int, k: int|
            0 <= j < rules.len() && 0 <= k < rules.len() ==> source_path_of(#[trigger] rules[j])
                != target_path_of(#[trigger] rules[k]),
        forall|j: int, k: int|
            0 <= j < rules.len() && 0 <= k < rules.len()
                ==> (#[trigger] rules[j]).custom_bundle_node.path_id
                != (#[trigger] rules[k]).game_node.path_id,
    ensures
        targets_clear_of_sources(rules),
{
    assert forall|k: int| 0 <= k < rules.len() implies first_path_match(
        rules,
        target_path_of(#[trigger] rules[k]),
    ) is None by {
        lemma_no_path_match(rules, target_path_of(rules[k]), 0);
    }
    assert forall|k: int| 0 <= k < rules.len() implies first_id_match(
        rules,
        (#[trigger] rules[k]).game_node.path_id as int,
    ) is None by {
        lemma_no_id_match(rules, rules[k].game_node.path_id as int, 0);
    }
}

/// Rewriting a dependency path twice is rewriting it once.
pub proof fn lemma_idempotent_path(rules: Seq<Dependency>, p: Seq<char>)
    requires
        targets_clear_of_sources(rules),
    ensures
        remapped_path(rules, remapped_path(rules, p)) == remapped_path(rules, p),
{
    lemma_path_match_in_range(rules, p, 0);
}

/// Rewriting a single-object reference twice is rewriting it once.
pub proof fn lemma_idempotent_ref(rules: Seq<Dependency>, r: NodeKey)
    requires
        targets_clear_of_sources(rules),
    ensures
        remapped_ref(rules, remapped_ref(rules, r)) == remapped_ref(rules, r),
{
    lemma_id_match_in_range(rules, r.path_id, 0);
}

/// Rewriting a material twice is rewriting it once.
pub proof fn lemma_idempotent_material(rules: Seq<Dependency>, m: MaterialModel)
    requires
        targets_clear_of_sources(rules),
    ensures
        remapped_material(rules, remapped_material(rules, m)) == remapped_material(rules, m),
{
    lemma_idempotent_ref(rules, m.shader);
    let once = remapped_material(rules, m);
    assert forall|j: int| 0 <= j < m.text_envs.len() implies #[trigger] remapped_material(
        rules,
        once,
    ).text_envs[j] == once.text_envs[j] by {
        lemma_idempotent_ref(rules, m.text_envs[j].texture);
    }
    assert(remapped_material(rules, once).text_envs =~= once.text_envs);
    assert(remapped_material(rules, once) =~= once);
}

/// Rewriting an asset file twice is rewriting it once.
pub proof fn lemma_idempotent_file(rules: Seq<Dependency>, f: AssetFileModel)
    requires
        targets_clear_of_sources(rules),
    ensures
        remapped_file(rules, remapped_file(rules, f)) == remapped_file(rules, f),
{
    let once = remapped_file(rules, f);
    assert forall|j: int| 0 <= j < f.externals.len() implies #[trigger] remapped_file(
        rules,
        once,
    ).externals[j] == once.externals[j] by {
        lemma_idempotent_path(rules, f.externals[j]);
    }
    assert forall|j: int| 0 <= j < f.assets.len() implies #[trigger] remapped_file(
        rules,
        once,
    ).assets[j] == once.assets[j] by {
        match f.assets[j] {
            AssetModel::Material(m) => {
                lemma_idempotent_material(rules, m);
            },
            AssetModel::Other => {},
        }
    }
    assert(remapped_file(rules, once).externals =~= once.externals);
    assert(remapped_file(rules, once).assets =~= once.assets);
    assert(remapped_file(rules, once) =~= once);
}

/// Two file lists whose names agree position by position resolve every
/// name to the same index.
proof fn lemma_same_names_same_lookup(
    fs1: Seq<NamedFileModel>,
    fs2: Seq<NamedFileModel>,
    name: Seq<char>,
    i: int,
)
    requires
        fs1.len() == fs2.len(),
        forall|j: int| 0 <= j < fs1.len() ==> (#[trigger] fs1[j]).name == fs2[j].name,
    ensures
        first_file_named_from(fs1, name, i) == first_file_named_from(fs2, name, i),
    decreases fs1.len() - i,
{
    if 0 <= i < fs1.len() {
        lemma_same_names_same_lookup(fs1, fs2, name, i + 1);
    }
}

/// Idempotence of the whole pass: against a rule set whose targets match
/// no source, a second pass with the same rules finds nothing left to
/// rewrite and returns the graph of the first pass unchanged.
pub proof fn lemma_idempotent_bundle(rules: Seq<Dependency>, b: BundleModel)
    requires
        targets_clear_of_sources(rules),
    ensures
        remapped_bundle(rules, remapped_bundle(rules, b)) == remapped_bundle(rules, b),
{
    match primary_index(b) {
        None => {},
        Some(i) => {
            lemma_file_match_in_range(b.files, b.cab.unwrap(), 0);
            let once = remapped_bundle(rules, b);
            lemma_same_names_same_lookup(once.files, b.files, b.cab.unwrap(), 0);
            assert(primary_index(once) == Some(i));
            match b.files[i].file {
                BundleFileModel::Assets(f) => {
                    lemma_idempotent_file(rules, f);
                },
                BundleFileModel::Other => {},
            }
            assert(once.files[i].file == remapped_bundle_file(rules, b.files[i].file));
            assert(remapped_bundle_file(rules, once.files[i].file) == once.files[i].file);
            assert(remapped_bundle(rules, once).files[i] =~= once.files[i]);
            assert(remapped_bundle(rules, once).files =~= once.files);
            assert(remapped_bundle(rules, once) =~= once);
        },
    }
}

// ---------------------------------------------------------------------------
// Disjointness of the three reference shapes
// ---------------------------------------------------------------------------

/// Dependency-entry rewriting reads and writes nothing but the dependency
/// entries: two files with the same entries, whatever their assets hold,
/// come out of a pass with the same entries.
pub proof fn lemma_dependency_rewrite_disjoint(
    rules: Seq<Dependency>,
    f1: AssetFileModel,
    f2: AssetFileModel,
)
    requires
        f1.externals == f2.externals,
    ensures
        remapped_file(rules, f1).externals == remapped_file(rules, f2).externals,
{
}

/// Shader- and texture-slot rewriting reads and writes nothing but the
/// assets: two files with the same assets, whatever their dependency
/// entries hold, come out of a pass with the same assets.
pub proof fn lemma_object_rewrite_disjoint(
    rules: Seq<Dependency>,
    f1: AssetFileModel,
    f2: AssetFileModel,
)
    requires
        f1.assets == f2.assets,
    ensures
        remapped_file(rules, f1).assets == remapped_file(rules, f2).assets,
{
}

// ---------------------------------------------------------------------------
// The empty rule set is the identity
// ---------------------------------------------------------------------------

/// An empty rule set leaves a whole bundle exactly as it is.
pub proof fn lemma_empty_rules_identity(b: BundleModel)
    ensures
        remapped_bundle(Seq::<Dependency>::empty(), b) == b,
{
    let rules = Seq::<Dependency>::empty();
    match primary_index(b) {
        None => {},
        Some(i) => {
            lemma_file_match_in_range(b.files, b.cab.unwrap(), 0);
            match b.files[i].file {
                BundleFileModel::Assets(f) => {
                    assert forall|j: int| 0 <= j < f.externals.len() implies #[trigger] remapped_file(
                        rules,
                        f,
                    ).externals[j] == f.externals[j] by {}
                    assert forall|j: int| 0 <= j < f.assets.len() implies #[trigger] remapped_file(
                        rules,
                        f,
                    ).assets[j] == f.assets[j] by {
                        match f.assets[j] {
                            AssetModel::Material(m) => {
                                assert(remapped_material(rules, m).text_envs =~= m.text_envs);
                                assert(remapped_material(rules, m) =~= m);
                            },
                            AssetModel::Other => {},
                        }
                    }
                    assert(remapped_file(rules, f).externals =~= f.externals);
                    assert(remapped_file(rules, f).assets =~= f.assets);
                    assert(remapped_file(rules, f) =~= f);
                },
                BundleFileModel::Other => {},
            }
            assert(remapped_bundle(rules, b).files[i] =~= b.files[i]);
            assert(remapped_bundle(rules, b).files =~= b.files);
            assert(remapped_bundle(rules, b) =~= b);
        },
    }
}

} // verus!
