//! The remap engine: one stateless pass that rewrites every matching
//! reference site of a graph and reports the outcome at every site.
//!
//! Matching is first-match-wins over the rule sequence. Dependency entries
//! are matched on the full rendered path string; shader and texture slots
//! are matched on the local identifier alone.

use vstd::prelude::*;

use crate::model::{
    ApplyError, Asset, AssetFile, AssetFileModel, AssetModel, BindingKey, Bundle, BundleFile,
    BundleFileModel, BundleModel, Dependency, ExternalRef, Material,
    MaterialModel, NamedFile, NamedFileModel, NodeKey, RemapReport, SiteKey, SiteKeyModel,
    SiteReport, SiteReportModel, SiteShape, TextureBinding, assets_model, bindings_model,
    externals_model,
    files_model, path_ref_of, sites_model,
};

verus! {

// ---------------------------------------------------------------------------
// Rule lookup
// ---------------------------------------------------------------------------

/// The path string a rule's source key renders to.
pub open spec fn source_path_of(rule: Dependency) -> Seq<char> {
    path_ref_of(rule.custom_bundle_node.cab@)
}

/// The path string a rule's target key renders to.
pub open spec fn target_path_of(rule: Dependency) -> Seq<char> {
    path_ref_of(rule.game_node.cab@)
}

/// The first index at or after `i` of a rule whose source renders to `p`.
pub open spec fn first_path_match_from(rules: Seq<Dependency>, p: Seq<char>, i: int) -> Option<
    int,
>
    decreases rules.len() - i,
{
    if i < 0 || i >= rules.len() {
        None
    } else if source_path_of(rules[i]) == p {
        Some(i)
    } else {
        first_path_match_from(rules, p, i + 1)
    }
}

/// The first rule whose source key renders to the path string `p`.
pub open spec fn first_path_match(rules: Seq<Dependency>, p: Seq<char>) -> Option<int> {
    first_path_match_from(rules, p, 0)
}

/// The first index at or after `i` of a rule whose source local identifier
/// is `id`.
pub open spec fn first_id_match_from(rules: Seq<Dependency>, id: int, i: int) -> Option<int>
    decreases rules.len() - i,
{
    if i < 0 || i >= rules.len() {
        None
    } else if rules[i].custom_bundle_node.path_id as int == id {
        Some(i)
    } else {
        first_id_match_from(rules, id, i + 1)
    }
}

/// The first rule whose source local identifier is `id`.
pub open spec fn first_id_match(rules: Seq<Dependency>, id: int) -> Option<int> {
    first_id_match_from(rules, id, 0)
}

/// A match found at or after `i` lies within the rule sequence.
pub proof fn lemma_path_match_in_range(rules: Seq<Dependency>, p: Seq<char>, i: int)
    ensures
        match first_path_match_from(rules, p, i) {
            Some(k) => i <= k < rules.len() && source_path_of(rules[k]) == p,
            None => true,
        },
    decreases rules.len() - i,
{
    if 0 <= i < rules.len() && source_path_of(rules[i]) != p {
        lemma_path_match_in_range(rules, p, i + 1);
    }
}

/// A match found at or after `i` lies within the rule sequence.
pub proof fn lemma_id_match_in_range(rules: Seq<Dependency>, id: int, i: int)
    ensures
        match first_id_match_from(rules, id, i) {
            Some(k) => i <= k < rules.len() && rules[k].custom_bundle_node.path_id as int == id,
            None => true,
        },
    decreases rules.len() - i,
{
    if 0 <= i < rules.len() && rules[i].custom_bundle_node.path_id as int != id {
        lemma_id_match_in_range(rules, id, i + 1);
    }
}

// ---------------------------------------------------------------------------
// What one pass leaves at each site, and in the graph as a whole
// ---------------------------------------------------------------------------

/// What a dependency path becomes: the first matching rule's target path,
/// or the path itself when no rule's source path equals it.
pub open spec fn remapped_path(rules: Seq<Dependency>, p: Seq<char>) -> Seq<char> {
    match first_path_match(rules, p) {
        Some(i) => target_path_of(rules[i]),
        None => p,
    }
}

/// What a single-object reference becomes: the first rule whose source
/// local identifier equals the site's replaces both fields with its target;
/// otherwise the site is unchanged.
pub open spec fn remapped_ref(rules: Seq<Dependency>, r: NodeKey) -> NodeKey {
    match first_id_match(rules, r.path_id) {
        Some(i) => rules[i].game_node@,
        None => r,
    }
}

/// What a texture binding becomes: its name is kept, its texture reference
/// is rewritten like any single-object reference.
pub open spec fn remapped_binding(rules: Seq<Dependency>, b: BindingKey) -> BindingKey {
    BindingKey { name: b.name, texture: remapped_ref(rules, b.texture) }
}

/// What a material becomes: its shader slot and each of its texture
/// bindings rewritten, independently of one another.
pub open spec fn remapped_material(rules: Seq<Dependency>, m: MaterialModel) -> MaterialModel {
    MaterialModel {
        shader: remapped_ref(rules, m.shader),
        text_envs: m.text_envs.map_values(|b: BindingKey| remapped_binding(rules, b)),
    }
}

/// What an asset becomes: materials are rewritten, every other kind is
/// passed through untouched.
pub open spec fn remapped_asset(rules: Seq<Dependency>, a: AssetModel) -> AssetModel {
    match a {
        AssetModel::Material(m) => AssetModel::Material(remapped_material(rules, m)),
        AssetModel::Other => AssetModel::Other,
    }
}

/// What an asset file becomes: every dependency path and every asset
/// rewritten, in place, nothing added, dropped or reordered.
pub open spec fn remapped_file(rules: Seq<Dependency>, f: AssetFileModel) -> AssetFileModel {
    AssetFileModel {
        externals: f.externals.map_values(|p: Seq<char>| remapped_path(rules, p)),
        assets: f.assets.map_values(|a: AssetModel| remapped_asset(rules, a)),
    }
}

/// What a top-level file becomes: asset files are rewritten, other payloads
/// are passed through.
pub open spec fn remapped_bundle_file(rules: Seq<Dependency>, bf: BundleFileModel) -> BundleFileModel {
    match bf {
        BundleFileModel::Assets(f) => BundleFileModel::Assets(remapped_file(rules, f)),
        BundleFileModel::Other => BundleFileModel::Other,
    }
}

/// The first index at or after `i` of a file stored under `name`.
pub open spec fn first_file_named_from(files: Seq<NamedFileModel>, name: Seq<char>, i: int) -> Option<
    int,
>
    decreases files.len() - i,
{
    if i < 0 || i >= files.len() {
        None
    } else if files[i].name == name {
        Some(i)
    } else {
        first_file_named_from(files, name, i + 1)
    }
}

/// The first file stored under `name`.
pub open spec fn first_file_named(files: Seq<NamedFileModel>, name: Seq<char>) -> Option<int> {
    first_file_named_from(files, name, 0)
}

/// A match found at or after `i` lies within the file sequence.
pub proof fn lemma_file_match_in_range(files: Seq<NamedFileModel>, name: Seq<char>, i: int)
    ensures
        match first_file_named_from(files, name, i) {
            Some(k) => i <= k < files.len() && files[k].name == name,
            None => true,
        },
    decreases files.len() - i,
{
    if 0 <= i < files.len() && files[i].name != name {
        lemma_file_match_in_range(files, name, i + 1);
    }
}

/// The index of the bundle's primary file: the first file stored under the
/// bundle's own archive identifier, if both exist.
pub open spec fn primary_index(b: BundleModel) -> Option<int> {
    match b.cab {
        Some(c) => first_file_named(b.files, c),
        None => None,
    }
}

/// The fatal condition a pass raises before touching anything, if any.
pub open spec fn apply_error_of(b: BundleModel) -> Option<ApplyError> {
    match b.cab {
        None => Some(ApplyError::MissingIdentifier),
        Some(c) => if first_file_named(b.files, c) is Some {
            None
        } else {
            Some(ApplyError::PrimaryNotFound)
        },
    }
}

/// What a whole bundle becomes: its primary file rewritten, every other
/// file and the identifier untouched; a bundle with no resolvable primary
/// file is left exactly as it is.
pub open spec fn remapped_bundle(rules: Seq<Dependency>, b: BundleModel) -> BundleModel {
    match primary_index(b) {
        Some(i) => BundleModel {
            cab: b.cab,
            files: b.files.update(
                i,
                NamedFileModel {
                    name: b.files[i].name,
                    file: remapped_bundle_file(rules, b.files[i].file),
                },
            ),
        },
        None => b,
    }
}

// ---------------------------------------------------------------------------
// The report one pass produces
// ---------------------------------------------------------------------------

/// The report record of one dependency-path site.
pub open spec fn path_site(rules: Seq<Dependency>, p: Seq<char>) -> SiteReportModel {
    SiteReportModel {
        shape: SiteShape::DependencyPath,
        matched: first_path_match(rules, p),
        before: SiteKeyModel::Path(p),
        after: SiteKeyModel::Path(remapped_path(rules, p)),
    }
}

/// The report record of one shader or texture site.
pub open spec fn ref_site(rules: Seq<Dependency>, shape: SiteShape, r: NodeKey) -> SiteReportModel {
    SiteReportModel {
        shape: shape,
        matched: first_id_match(rules, r.path_id),
        before: SiteKeyModel::Object(r),
        after: SiteKeyModel::Object(remapped_ref(rules, r)),
    }
}

/// The report records of one material: its shader slot first, then its
/// texture bindings in map order.
pub open spec fn material_sites(rules: Seq<Dependency>, m: MaterialModel) -> Seq<SiteReportModel> {
    seq![ref_site(rules, SiteShape::ShaderSlot, m.shader)] + m.text_envs.map_values(
        |b: BindingKey| ref_site(rules, SiteShape::TextureSlot, b.texture),
    )
}

/// The report records of one asset: only materials carry sites.
pub open spec fn asset_sites(rules: Seq<Dependency>, a: AssetModel) -> Seq<SiteReportModel> {
    match a {
        AssetModel::Material(m) => material_sites(rules, m),
        AssetModel::Other => Seq::empty(),
    }
}

/// The report records of a whole asset list, in asset order.
pub open spec fn assets_sites(rules: Seq<Dependency>, assets: Seq<AssetModel>) -> Seq<
    SiteReportModel,
>
    decreases assets.len(),
{
    if assets.len() == 0 {
        Seq::empty()
    } else {
        assets_sites(rules, assets.drop_last()) + asset_sites(rules, assets.last())
    }
}

/// The report records of one asset file: every dependency entry first, then
/// every asset's sites.
pub open spec fn file_sites(rules: Seq<Dependency>, f: AssetFileModel) -> Seq<SiteReportModel> {
    f.externals.map_values(|p: Seq<char>| path_site(rules, p)) + assets_sites(rules, f.assets)
}

/// The report records of one top-level file.
pub open spec fn bundle_file_sites(rules: Seq<Dependency>, bf: BundleFileModel) -> Seq<
    SiteReportModel,
> {
    match bf {
        BundleFileModel::Assets(f) => file_sites(rules, f),
        BundleFileModel::Other => Seq::empty(),
    }
}

/// The full report of one pass over a bundle: the sites of its primary
/// file, in processing order.
pub open spec fn bundle_sites(rules: Seq<Dependency>, b: BundleModel) -> Seq<SiteReportModel> {
    match primary_index(b) {
        Some(i) => bundle_file_sites(rules, b.files[i].file),
        None => Seq::empty(),
    }
}

// ---------------------------------------------------------------------------
// Executable pass
// ---------------------------------------------------------------------------

/// Index of the first rule whose rendered source path equals `path`.
fn find_path_match(rules: &Vec<Dependency>, path: &String) -> (r: Option<usize>)
    ensures
        match r {
            Some(i) => i < rules@.len() && first_path_match(rules@, path@) == Some(i as int),
            None => first_path_match(rules@, path@) is None,
        },
{
    let n = rules.len();
    let mut i: usize = 0;
    while i < n
        invariant
            n == rules@.len(),
            i <= n,
            first_path_match(rules@, path@) == first_path_match_from(rules@, path@, i as int),
        decreases n - i,
    {
        let candidate = rules[i].custom_bundle_node.get_file_path();
        if candidate == *path {
            assert(first_path_match_from(rules@, path@, i as int) == Some(i as int));
            return Some(i);
        }
        assert(first_path_match_from(rules@, path@, i as int) == first_path_match_from(
            rules@,
            path@,
            i + 1,
        ));
        i = i + 1;
    }
    None
}

/// Index of the first rule whose source local identifier equals `id`.
fn find_id_match(rules: &Vec<Dependency>, id: i64) -> (r: Option<usize>)
    ensures
        match r {
            Some(i) => i < rules@.len() && first_id_match(rules@, id as int) == Some(i as int),
            None => first_id_match(rules@, id as int) is None,
        },
{
    let n = rules.len();
    let mut i: usize = 0;
    while i < n
        invariant
            n == rules@.len(),
            i <= n,
            first_id_match(rules@, id as int) == first_id_match_from(rules@, id as int, i as int),
        decreases n - i,
    {
        if rules[i].custom_bundle_node.path_id == id {
            assert(first_id_match_from(rules@, id as int, i as int) == Some(i as int));
            return Some(i);
        }
        assert(first_id_match_from(rules@, id as int, i as int) == first_id_match_from(
            rules@,
            id as int,
            i + 1,
        ));
        i = i + 1;
    }
    None
}

/// Rewrites every entry of an external-dependency list and appends one
/// report record per entry, in list order.
fn remap_externals(
    externals: &mut Vec<ExternalRef>,
    rules: &Vec<Dependency>,
    report: &mut Vec<SiteReport>,
)
    ensures
        externals_model(final(externals)@) == externals_model(old(externals)@).map_values(
            |p: Seq<char>| remapped_path(rules@, p),
        ),
        sites_model(final(report)@) == sites_model(old(report)@) + externals_model(
            old(externals)@,
        ).map_values(|p: Seq<char>| path_site(rules@, p)),
{
    let n = externals.len();
    let mut i: usize = 0;
    while i < n
        invariant
            n == externals@.len(),
            externals@.len() == old(externals)@.len(),
            i <= n,
            forall|j: int| i <= j < n ==> externals@[j] == old(externals)@[j],
            forall|j: int|
                0 <= j < i ==> externals@[j]@ == remapped_path(rules@, old(externals)@[j]@),
            sites_model(report@) == sites_model(old(report)@) + externals_model(
                old(externals)@,
            ).take(i as int).map_values(|p: Seq<char>| path_site(rules@, p)),
        decreases n - i,
    {
        let before_path = externals[i].path.clone();
        let m = find_path_match(rules, &before_path);
        let ghost site = path_site(rules@, old(externals)@[i as int]@);
        let ghost prev_report = report@;
        match m {
            Some(k) => {
                let after_path = rules[k].game_node.get_file_path();
                externals[i] = ExternalRef { path: after_path.clone() };
                report.push(
                    SiteReport {
                        shape: SiteShape::DependencyPath,
                        matched: Some(k),
                        before: SiteKey::Path(before_path),
                        after: SiteKey::Path(after_path),
                    },
                );
            },
            None => {
                report.push(
                    SiteReport {
                        shape: SiteShape::DependencyPath,
                        matched: None,
                        before: SiteKey::Path(before_path.clone()),
                        after: SiteKey::Path(before_path),
                    },
                );
            },
        }
        proof {
            let rec = report@.last();
            assert(rec@ == site);
            assert(report@ == prev_report.push(rec));
            prev_report.lemma_push_map_commute(|r: SiteReport| r@, rec);
            assert(sites_model(report@) == sites_model(prev_report).push(site));
            externals_model(old(externals)@).lemma_map_take_succ(
                |p: Seq<char>| path_site(rules@, p),
                i as int,
            );
            assert((sites_model(old(report)@) + externals_model(old(externals)@).take(
                i as int,
            ).map_values(|p: Seq<char>| path_site(rules@, p))).push(site) =~= sites_model(
                old(report)@,
            ) + externals_model(old(externals)@).take(i as int).map_values(
                |p: Seq<char>| path_site(rules@, p),
            ).push(site));
            assert(sites_model(report@) == sites_model(old(report)@) + externals_model(
                old(externals)@,
            ).take(i + 1).map_values(|p: Seq<char>| path_site(rules@, p)));
        }
        i = i + 1;
    }
    proof {
        assert(externals_model(old(externals)@).take(n as int) =~= externals_model(
            old(externals)@,
        ));
        assert(externals_model(externals@) =~= externals_model(old(externals)@).map_values(
            |p: Seq<char>| remapped_path(rules@, p),
        ));
    }
}

/// Rewrites one material: its shader slot first, then each texture binding
/// in map order, appending one report record per site.
fn remap_material(mat: &Material, rules: &Vec<Dependency>, report: &mut Vec<SiteReport>) -> (r:
    Material)
    ensures
        r@ == remapped_material(rules@, mat@),
        sites_model(final(report)@) == sites_model(old(report)@) + material_sites(rules@, mat@),
{
    let shader_match = find_id_match(rules, mat.shader.path_id);
    let ghost shader_site = ref_site(rules@, SiteShape::ShaderSlot, mat@.shader);
    let ghost report0 = report@;
    let new_shader = match shader_match {
        Some(k) => {
            let t = rules[k].game_node.duplicate();
            report.push(
                SiteReport {
                    shape: SiteShape::ShaderSlot,
                    matched: Some(k),
                    before: SiteKey::Object(mat.shader.duplicate()),
                    after: SiteKey::Object(t.duplicate()),
                },
            );
            t
        },
        None => {
            report.push(
                SiteReport {
                    shape: SiteShape::ShaderSlot,
                    matched: None,
                    before: SiteKey::Object(mat.shader.duplicate()),
                    after: SiteKey::Object(mat.shader.duplicate()),
                },
            );
            mat.shader.duplicate()
        },
    };
    proof {
        assert(new_shader@ == remapped_ref(rules@, mat@.shader));
        let rec = report@.last();
        assert(rec@ == shader_site);
        assert(report@ == report0.push(rec));
        report0.lemma_push_map_commute(|r: SiteReport| r@, rec);
        assert(sites_model(report@) =~= sites_model(old(report)@) + seq![shader_site]);
    }
    let n = mat.text_envs.len();
    let mut new_bindings: Vec<TextureBinding> = Vec::new();
    let mut i: usize = 0;
    while i < n
        invariant
            n == mat.text_envs@.len(),
            i <= n,
            new_shader@ == remapped_ref(rules@, mat@.shader),
            bindings_model(new_bindings@) == mat@.text_envs.take(i as int).map_values(
                |b: BindingKey| remapped_binding(rules@, b),
            ),
            sites_model(report@) == sites_model(old(report)@) + seq![shader_site]
                + mat@.text_envs.take(i as int).map_values(
                |b: BindingKey| ref_site(rules@, SiteShape::TextureSlot, b.texture),
            ),
        decreases n - i,
    {
        let binding = &mat.text_envs[i];
        let m = find_id_match(rules, binding.texture.path_id);
        let ghost site = ref_site(rules@, SiteShape::TextureSlot, mat@.text_envs[i as int].texture);
        let ghost prev_report = report@;
        let ghost prev_bindings = new_bindings@;
        let new_texture = match m {
            Some(k) => {
                let t = rules[k].game_node.duplicate();
                report.push(
                    SiteReport {
                        shape: SiteShape::TextureSlot,
                        matched: Some(k),
                        before: SiteKey::Object(binding.texture.duplicate()),
                        after: SiteKey::Object(t.duplicate()),
                    },
                );
                t
            },
            None => {
                report.push(
                    SiteReport {
                        shape: SiteShape::TextureSlot,
                        matched: None,
                        before: SiteKey::Object(binding.texture.duplicate()),
                        after: SiteKey::Object(binding.texture.duplicate()),
                    },
                );
                binding.texture.duplicate()
            },
        };
        new_bindings.push(TextureBinding { name: binding.name.clone(), texture: new_texture });
        proof {
            assert(mat@.text_envs[i as int] == mat.text_envs@[i as int]@);
            let rec = report@.last();
            assert(rec@ == site);
            assert(report@ == prev_report.push(rec));
            prev_report.lemma_push_map_commute(|r: SiteReport| r@, rec);
            mat@.text_envs.lemma_map_take_succ(
                |b: BindingKey| ref_site(rules@, SiteShape::TextureSlot, b.texture),
                i as int,
            );
            assert(sites_model(report@) =~= sites_model(old(report)@) + seq![shader_site]
                + mat@.text_envs.take(i + 1).map_values(
                |b: BindingKey| ref_site(rules@, SiteShape::TextureSlot, b.texture),
            ));
            let nb = new_bindings@.last();
            assert(nb@ == remapped_binding(rules@, mat@.text_envs[i as int]));
            assert(new_bindings@ == prev_bindings.push(nb));
            prev_bindings.lemma_push_map_commute(|b: TextureBinding| b@, nb);
            mat@.text_envs.lemma_map_take_succ(
                |b: BindingKey| remapped_binding(rules@, b),
                i as int,
            );
            assert(bindings_model(new_bindings@) =~= mat@.text_envs.take(i + 1).map_values(
                |b: BindingKey| remapped_binding(rules@, b),
            ));
        }
        i = i + 1;
    }
    proof {
        assert(mat@.text_envs.take(n as int) =~= mat@.text_envs);
        assert(sites_model(report@) =~= sites_model(old(report)@) + material_sites(rules@, mat@));
    }
    let result = Material { shader: new_shader, text_envs: new_bindings };
    proof {
        assert(result@ =~= remapped_material(rules@, mat@));
    }
    result
}

/// The sites of a one-longer asset prefix are the sites of the shorter
/// prefix followed by the sites of the added asset.
proof fn lemma_assets_sites_take_succ(rules: Seq<Dependency>, assets: Seq<AssetModel>, i: int)
    requires
        0 <= i < assets.len(),
    ensures
        assets_sites(rules, assets.take(i + 1)) == assets_sites(rules, assets.take(i))
            + asset_sites(rules, assets[i]),
{
    assert(assets.take(i + 1).drop_last() =~= assets.take(i));
    assert(assets.take(i + 1).last() == assets[i]);
}

/// Rewrites every reference site of one asset file: its dependency entries
/// first, then every material's sites, in asset order.
fn remap_asset_file(f: &mut AssetFile, rules: &Vec<Dependency>, report: &mut Vec<SiteReport>)
    ensures
        final(f)@ == remapped_file(rules@, old(f)@),
        sites_model(final(report)@) == sites_model(old(report)@) + file_sites(rules@, old(f)@),
{
    remap_externals(&mut f.externals, rules, report);
    let n = f.assets.len();
    let mut i: usize = 0;
    while i < n
        invariant
            n == f.assets@.len(),
            f.assets@.len() == old(f).assets@.len(),
            i <= n,
            externals_model(f.externals@) == old(f)@.externals.map_values(
                |p: Seq<char>| remapped_path(rules@, p),
            ),
            forall|j: int| i <= j < n ==> f.assets@[j] == old(f).assets@[j],
            forall|j: int|
                0 <= j < i ==> f.assets@[j]@ == remapped_asset(rules@, old(f).assets@[j]@),
            sites_model(report@) == sites_model(old(report)@) + old(f)@.externals.map_values(
                |p: Seq<char>| path_site(rules@, p),
            ) + assets_sites(rules@, assets_model(old(f).assets@).take(i as int)),
        decreases n - i,
    {
        let ghost prev_report = report@;
        let ghost old_asset = assets_model(old(f).assets@)[i as int];
        let replacement: Option<Material> = match &f.assets[i] {
            Asset::Material(mat) => Some(remap_material(mat, rules, report)),
            Asset::Other => None,
        };
        match replacement {
            Some(m2) => {
                f.assets[i] = Asset::Material(m2);
            },
            None => {},
        }
        proof {
            lemma_assets_sites_take_succ(rules@, assets_model(old(f).assets@), i as int);
            assert(f.assets@[i as int]@ == remapped_asset(rules@, old(f).assets@[i as int]@));
            assert(sites_model(report@) =~= prev_report.map_values(|r: SiteReport| r@)
                + asset_sites(rules@, old_asset));
            assert(sites_model(report@) =~= sites_model(old(report)@)
                + old(f)@.externals.map_values(|p: Seq<char>| path_site(rules@, p))
                + assets_sites(rules@, assets_model(old(f).assets@).take(i + 1)));
        }
        i = i + 1;
    }
    proof {
        assert(assets_model(old(f).assets@).take(n as int) =~= assets_model(old(f).assets@));
        assert(assets_model(f.assets@) =~= old(f)@.assets.map_values(
            |a: AssetModel| remapped_asset(rules@, a),
        ));
        assert(f@ =~= remapped_file(rules@, old(f)@));
        assert(sites_model(report@) =~= sites_model(old(report)@) + file_sites(rules@, old(f)@));
    }
}

/// Index of the first top-level file stored under `name`.
fn find_file_named(files: &Vec<NamedFile>, name: &String) -> (r: Option<usize>)
    ensures
        match r {
            Some(i) => i < files@.len() && first_file_named(files_model(files@), name@) == Some(
                i as int,
            ),
            None => first_file_named(files_model(files@), name@) is None,
        },
{
    let n = files.len();
    let mut i: usize = 0;
    while i < n
        invariant
            n == files@.len(),
            i <= n,
            first_file_named(files_model(files@), name@) == first_file_named_from(
                files_model(files@),
                name@,
                i as int,
            ),
        decreases n - i,
    {
        if files[i].name == *name {
            assert(first_file_named_from(files_model(files@), name@, i as int) == Some(i as int));
            return Some(i);
        }
        assert(first_file_named_from(files_model(files@), name@, i as int)
            == first_file_named_from(files_model(files@), name@, i + 1));
        i = i + 1;
    }
    None
}

/// One full stateless pass over a bundle: resolves the bundle's primary
/// file, rewrites every reference site in it against the rules — first
/// match wins, at most one rewrite per site — and returns one report record
/// per processed site, in processing order. A bundle whose primary file
/// cannot be resolved is refused before anything is touched; an unmatched
/// site is never a failure, only a report entry.
pub fn apply(bundle: &mut Bundle, rules: &Vec<Dependency>) -> (r: Result<RemapReport, ApplyError>)
    ensures
        final(bundle)@ == remapped_bundle(rules@, old(bundle)@),
        match r {
            Ok(report) => apply_error_of(old(bundle)@) is None && sites_model(report.sites@)
                == bundle_sites(rules@, old(bundle)@),
            Err(e) => apply_error_of(old(bundle)@) == Some(e) && final(bundle)@ == old(bundle)@,
        },
{
    let cab = match &bundle.cab {
        Some(c) => c.clone(),
        None => {
            return Err(ApplyError::MissingIdentifier);
        },
    };
    let idx = match find_file_named(&bundle.files, &cab) {
        Some(i) => i,
        None => {
            return Err(ApplyError::PrimaryNotFound);
        },
    };
    assert(primary_index(bundle@) == Some(idx as int));
    let mut sites: Vec<SiteReport> = Vec::new();
    assert(sites_model(sites@) =~= Seq::<SiteReportModel>::empty());
    let nf = &mut bundle.files[idx];
    let ghost old_nf = *nf;
    match &mut nf.file {
        BundleFile::Assets(af) => {
            remap_asset_file(af, rules, &mut sites);
        },
        BundleFile::Other => {},
    }
    proof {
        assert(nf.name@ == old_nf.name@);
        assert(nf.file@ == remapped_bundle_file(rules@, old_nf.file@));
        assert(nf@ =~= NamedFileModel {
            name: old(bundle)@.files[idx as int].name,
            file: remapped_bundle_file(rules@, old(bundle)@.files[idx as int].file),
        });
        assert(files_model(bundle.files@) =~= old(bundle)@.files.update(idx as int, nf@));
        assert(bundle@ =~= remapped_bundle(rules@, old(bundle)@));
        assert(sites_model(sites@) == bundle_sites(rules@, old(bundle)@));
    }
    Ok(RemapReport { sites })
}

} // verus!
