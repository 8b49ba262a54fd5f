use bundle_remap::engine::apply;
use bundle_remap::model::{
    ApplyError, Asset, AssetFile, Bundle, BundleFile, Dependency, DependencyNode, ExternalRef,
    Material, NamedFile, SiteKey, SiteShape, TextureBinding,
};

fn node(cab: &str, path_id: i64) -> DependencyNode {
    DependencyNode { cab: cab.to_string(), path_id }
}

fn rule(path: &str, custom: DependencyNode, game: DependencyNode) -> Dependency {
    Dependency { path: path.to_string(), custom_bundle_node: custom, game_node: game }
}

fn external(path: &str) -> ExternalRef {
    ExternalRef { path: path.to_string() }
}

fn binding(name: &str, texture: DependencyNode) -> TextureBinding {
    TextureBinding { name: name.to_string(), texture }
}

/// A bundle whose single file carries the given externals and assets under
/// the bundle's own identifier.
fn bundle_with(cab: &str, externals: Vec<ExternalRef>, assets: Vec<Asset>) -> Bundle {
    Bundle {
        cab: Some(cab.to_string()),
        files: vec![NamedFile {
            name: cab.to_string(),
            file: BundleFile::Assets(AssetFile { externals, assets }),
        }],
    }
}

fn primary_file(bundle: &Bundle) -> &AssetFile {
    match &bundle.files[0].file {
        BundleFile::Assets(f) => f,
        BundleFile::Other => panic!("primary file is not an asset file"),
    }
}

#[test]
fn file_path_renders_archive_token_twice() {
    let n = node("CAB-x", 3);
    assert_eq!(n.get_file_path(), "archive:/CAB-x/CAB-x");
}

#[test]
fn dependency_entry_rewritten_on_path_match() {
    // A dependency entry matching a rule's rendered source path takes the
    // rule's rendered target path.
    let mut bundle = bundle_with("CAB-main", vec![external("archive:/CAB-aaa/CAB-aaa")], vec![]);
    let rules = vec![rule("assets/a", node("CAB-aaa", 0), node("CAB-bbb", 0))];
    let report = apply(&mut bundle, &rules).unwrap();
    assert_eq!(primary_file(&bundle).externals[0].path, "archive:/CAB-bbb/CAB-bbb");
    assert_eq!(report.sites.len(), 1);
    assert_eq!(report.sites[0].shape, SiteShape::DependencyPath);
    assert_eq!(report.sites[0].matched, Some(0));
    match &report.sites[0].before {
        SiteKey::Path(p) => assert_eq!(p, "archive:/CAB-aaa/CAB-aaa"),
        SiteKey::Object(_) => panic!("dependency site reported with an object key"),
    }
    match &report.sites[0].after {
        SiteKey::Path(p) => assert_eq!(p, "archive:/CAB-bbb/CAB-bbb"),
        SiteKey::Object(_) => panic!("dependency site reported with an object key"),
    }
}

#[test]
fn shader_rewritten_on_local_id_match() {
    // A shader slot is matched on its local identifier alone; both fields
    // take the target's values.
    let mat = Material { shader: node("CAB-old", 42), text_envs: vec![] };
    let mut bundle = bundle_with("CAB-main", vec![], vec![Asset::Material(mat)]);
    let rules = vec![rule("assets/s", node("CAB-src", 42), node("CAB-ccc", 99))];
    let report = apply(&mut bundle, &rules).unwrap();
    let mat = match &primary_file(&bundle).assets[0] {
        Asset::Material(m) => m,
        Asset::Other => panic!("material asset lost"),
    };
    assert_eq!(mat.shader.cab, "CAB-ccc");
    assert_eq!(mat.shader.path_id, 99);
    assert_eq!(report.sites.len(), 1);
    assert_eq!(report.sites[0].shape, SiteShape::ShaderSlot);
    assert_eq!(report.sites[0].matched, Some(0));
}

#[test]
fn only_matching_texture_binding_rewritten() {
    // Two bindings, one rule: the matching binding is rewritten, the other
    // is untouched and reported as unmatched.
    let mat = Material {
        shader: node("CAB-old", 1),
        text_envs: vec![binding("Base", node("CAB-old", 5)), binding("Normal", node("CAB-old", 6))],
    };
    let mut bundle = bundle_with("CAB-main", vec![], vec![Asset::Material(mat)]);
    let rules = vec![rule("assets/t", node("CAB-src", 5), node("CAB-new", 50))];
    let report = apply(&mut bundle, &rules).unwrap();
    let mat = match &primary_file(&bundle).assets[0] {
        Asset::Material(m) => m,
        Asset::Other => panic!("material asset lost"),
    };
    assert_eq!(mat.text_envs[0].name, "Base");
    assert_eq!(mat.text_envs[0].texture.cab, "CAB-new");
    assert_eq!(mat.text_envs[0].texture.path_id, 50);
    assert_eq!(mat.text_envs[1].name, "Normal");
    assert_eq!(mat.text_envs[1].texture.cab, "CAB-old");
    assert_eq!(mat.text_envs[1].texture.path_id, 6);
    // Sites come in order: shader first, then the bindings in map order.
    assert_eq!(report.sites.len(), 3);
    assert_eq!(report.sites[0].shape, SiteShape::ShaderSlot);
    assert_eq!(report.sites[0].matched, None);
    assert_eq!(report.sites[1].shape, SiteShape::TextureSlot);
    assert_eq!(report.sites[1].matched, Some(0));
    assert_eq!(report.sites[2].shape, SiteShape::TextureSlot);
    assert_eq!(report.sites[2].matched, None);
}

#[test]
fn empty_rule_set_changes_nothing() {
    // A pass with no rules reports every site as unmatched and leaves the
    // graph exactly as it was.
    let mat = Material {
        shader: node("CAB-a", 7),
        text_envs: vec![binding("Base", node("CAB-b", 8))],
    };
    let mut bundle = bundle_with(
        "CAB-main",
        vec![external("archive:/CAB-dep/CAB-dep")],
        vec![Asset::Material(mat), Asset::Other],
    );
    let report = apply(&mut bundle, &vec![]).unwrap();
    let file = primary_file(&bundle);
    assert_eq!(file.externals.len(), 1);
    assert_eq!(file.externals[0].path, "archive:/CAB-dep/CAB-dep");
    let mat = match &file.assets[0] {
        Asset::Material(m) => m,
        Asset::Other => panic!("material asset lost"),
    };
    assert_eq!(mat.shader.cab, "CAB-a");
    assert_eq!(mat.shader.path_id, 7);
    assert_eq!(mat.text_envs[0].name, "Base");
    assert_eq!(mat.text_envs[0].texture.cab, "CAB-b");
    assert_eq!(mat.text_envs[0].texture.path_id, 8);
    assert!(matches!(file.assets[1], Asset::Other));
    assert_eq!(report.sites.len(), 3);
    assert!(report.sites.iter().all(|s| s.matched.is_none()));
}

#[test]
fn first_matching_rule_wins() {
    // Two rules with the same source key: only the first one's target is
    // ever applied.
    let mat = Material { shader: node("CAB-old", 42), text_envs: vec![] };
    let mut bundle = bundle_with("CAB-main", vec![], vec![Asset::Material(mat)]);
    let rules = vec![
        rule("assets/first", node("CAB-src", 42), node("CAB-one", 100)),
        rule("assets/second", node("CAB-src", 42), node("CAB-two", 200)),
    ];
    let report = apply(&mut bundle, &rules).unwrap();
    let mat = match &primary_file(&bundle).assets[0] {
        Asset::Material(m) => m,
        Asset::Other => panic!("material asset lost"),
    };
    assert_eq!(mat.shader.cab, "CAB-one");
    assert_eq!(mat.shader.path_id, 100);
    assert_eq!(report.sites[0].matched, Some(0));
}

#[test]
fn second_pass_finds_nothing_to_rewrite() {
    // With every rule's target clear of every rule's source, a second pass
    // with the same rules is the identity on the once-patched graph.
    let mat = Material {
        shader: node("CAB-old", 42),
        text_envs: vec![binding("Base", node("CAB-old", 5))],
    };
    let mut bundle = bundle_with(
        "CAB-main",
        vec![external("archive:/CAB-aaa/CAB-aaa")],
        vec![Asset::Material(mat)],
    );
    let rules = vec![
        rule("assets/a", node("CAB-aaa", 0), node("CAB-bbb", 1)),
        rule("assets/s", node("CAB-src", 42), node("CAB-ccc", 99)),
        rule("assets/t", node("CAB-src", 5), node("CAB-ddd", 50)),
    ];
    apply(&mut bundle, &rules).unwrap();
    let deps_once = primary_file(&bundle).externals[0].path.clone();
    let mat_once = match &primary_file(&bundle).assets[0] {
        Asset::Material(m) => (m.shader.cab.clone(), m.shader.path_id, m.text_envs[0].texture.cab.clone(), m.text_envs[0].texture.path_id),
        Asset::Other => panic!("material asset lost"),
    };
    let report = apply(&mut bundle, &rules).unwrap();
    assert_eq!(primary_file(&bundle).externals[0].path, deps_once);
    let mat_twice = match &primary_file(&bundle).assets[0] {
        Asset::Material(m) => (m.shader.cab.clone(), m.shader.path_id, m.text_envs[0].texture.cab.clone(), m.text_envs[0].texture.path_id),
        Asset::Other => panic!("material asset lost"),
    };
    assert_eq!(mat_once, mat_twice);
    assert!(report.sites.iter().all(|s| s.matched.is_none()));
}

#[test]
fn negative_identifier_is_its_own_key() {
    // Negative and positive local identifiers are distinct keys: a rule for
    // -5 must not catch a reference to 5.
    let mat = Material {
        shader: node("CAB-old", 5),
        text_envs: vec![binding("Base", node("CAB-old", -5))],
    };
    let mut bundle = bundle_with("CAB-main", vec![], vec![Asset::Material(mat)]);
    let rules = vec![rule("assets/n", node("CAB-src", -5), node("CAB-new", -50))];
    apply(&mut bundle, &rules).unwrap();
    let mat = match &primary_file(&bundle).assets[0] {
        Asset::Material(m) => m,
        Asset::Other => panic!("material asset lost"),
    };
    assert_eq!(mat.shader.cab, "CAB-old");
    assert_eq!(mat.shader.path_id, 5);
    assert_eq!(mat.text_envs[0].texture.cab, "CAB-new");
    assert_eq!(mat.text_envs[0].texture.path_id, -50);
}

#[test]
fn dependency_match_compares_whole_path() {
    // Dependency entries are matched on the rendered path, not on the
    // local identifier: a rule whose cab differs leaves the entry alone.
    let mut bundle = bundle_with("CAB-main", vec![external("archive:/CAB-aaa/CAB-aaa")], vec![]);
    let rules = vec![rule("assets/a", node("CAB-zzz", 0), node("CAB-bbb", 0))];
    let report = apply(&mut bundle, &rules).unwrap();
    assert_eq!(primary_file(&bundle).externals[0].path, "archive:/CAB-aaa/CAB-aaa");
    assert_eq!(report.sites[0].matched, None);
}

#[test]
fn missing_identifier_is_fatal_before_any_mutation() {
    let mut bundle = Bundle { cab: None, files: vec![] };
    assert_eq!(apply(&mut bundle, &vec![]).unwrap_err(), ApplyError::MissingIdentifier);
}

#[test]
fn unresolvable_primary_file_is_fatal_before_any_mutation() {
    let mut bundle = Bundle {
        cab: Some("CAB-main".to_string()),
        files: vec![NamedFile { name: "CAB-other".to_string(), file: BundleFile::Other }],
    };
    let rules = vec![rule("assets/a", node("CAB-aaa", 0), node("CAB-bbb", 0))];
    assert_eq!(apply(&mut bundle, &rules).unwrap_err(), ApplyError::PrimaryNotFound);
    assert_eq!(bundle.files[0].name, "CAB-other");
}

#[test]
fn non_asset_primary_file_yields_empty_report() {
    let mut bundle = Bundle {
        cab: Some("CAB-main".to_string()),
        files: vec![NamedFile { name: "CAB-main".to_string(), file: BundleFile::Other }],
    };
    let rules = vec![rule("assets/a", node("CAB-aaa", 0), node("CAB-bbb", 0))];
    let report = apply(&mut bundle, &rules).unwrap();
    assert_eq!(report.sites.len(), 0);
    assert!(matches!(bundle.files[0].file, BundleFile::Other));
}

#[test]
fn only_primary_file_is_touched() {
    // A second file of the same bundle, even one holding rewritable shapes,
    // is not part of the pass.
    let mut bundle = Bundle {
        cab: Some("CAB-main".to_string()),
        files: vec![
            NamedFile {
                name: "CAB-main".to_string(),
                file: BundleFile::Assets(AssetFile {
                    externals: vec![external("archive:/CAB-aaa/CAB-aaa")],
                    assets: vec![],
                }),
            },
            NamedFile {
                name: "CAB-side".to_string(),
                file: BundleFile::Assets(AssetFile {
                    externals: vec![external("archive:/CAB-aaa/CAB-aaa")],
                    assets: vec![],
                }),
            },
        ],
    };
    let rules = vec![rule("assets/a", node("CAB-aaa", 0), node("CAB-bbb", 0))];
    apply(&mut bundle, &rules).unwrap();
    match &bundle.files[0].file {
        BundleFile::Assets(f) => assert_eq!(f.externals[0].path, "archive:/CAB-bbb/CAB-bbb"),
        BundleFile::Other => panic!("primary file lost"),
    }
    match &bundle.files[1].file {
        BundleFile::Assets(f) => assert_eq!(f.externals[0].path, "archive:/CAB-aaa/CAB-aaa"),
        BundleFile::Other => panic!("side file lost"),
    }
}

#[test]
fn dependency_rules_do_not_reach_object_slots() {
    // A rule whose rendered source path happens to equal nothing, but whose
    // identifier matches a shader, still rewrites the shader; and a path
    // match never alters a material. The two matchers are disjoint.
    let mat = Material { shader: node("CAB-old", 0), text_envs: vec![] };
    let mut bundle = bundle_with(
        "CAB-main",
        vec![external("archive:/CAB-aaa/CAB-aaa")],
        vec![Asset::Material(mat)],
    );
    let rules = vec![rule("assets/a", node("CAB-aaa", 0), node("CAB-bbb", 77))];
    apply(&mut bundle, &rules).unwrap();
    let file = primary_file(&bundle);
    assert_eq!(file.externals[0].path, "archive:/CAB-bbb/CAB-bbb");
    // The shader's identifier 0 equals the rule's source identifier, so the
    // object matcher rewrites it independently of the path rewrite.
    match &file.assets[0] {
        Asset::Material(m) => {
            assert_eq!(m.shader.cab, "CAB-bbb");
            assert_eq!(m.shader.path_id, 77);
        },
        Asset::Other => panic!("material asset lost"),
    }
}
