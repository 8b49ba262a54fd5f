//! The data the engine works on: remap rules, the reference-bearing slice of
//! a container's object graph, and the report the engine hands back.
//!
//! Each executable type has a ghost model (its `View`) over `Seq`, `int` and
//! `Option`; the engine's contracts are stated over those models.

use vstd::prelude::*;
use vstd::string::StringExecFns;

verus! {

/// One end of a remap rule, and also the shape of a single-object reference
/// site: the archive identifier ("cab") of a container together with the
/// signed local identifier of an object inside it.
#[derive(Debug)]
pub struct DependencyNode {
    pub cab: String,
    pub path_id: i64,
}

/// Ghost image of a `DependencyNode`: the archive token as a character
/// sequence, the local identifier as an unbounded integer.
#[verifier::ext_equal]
pub ghost struct NodeKey {
    pub cab: Seq<char>,
    pub path_id: int,
}

impl View for DependencyNode {
    type V = NodeKey;

    open spec fn view(&self) -> NodeKey {
        NodeKey { cab: self.cab@, path_id: self.path_id as int }
    }
}

/// The path-string rendering of an archive identifier: the token standing
/// twice behind the `archive:/` prefix.
pub open spec fn path_ref_of(cab: Seq<char>) -> Seq<char> {
    "archive:/"@ + cab + "/"@ + cab
}

impl DependencyNode {
    /// Renders this node's archive identifier as the path reference string
    /// `archive:/{cab}/{cab}` used by external dependency entries.
    pub fn get_file_path(&self) -> (r: String)
        ensures
            r@ == path_ref_of(self.cab@),
    {
        let mut s = String::from_str("archive:/");
        s.append(self.cab.as_str());
        s.append("/");
        s.append(self.cab.as_str());
        proof {
            assert(s@ =~= path_ref_of(self.cab@));
        }
        s
    }

    /// An owned copy of this node.
    pub fn duplicate(&self) -> (r: DependencyNode)
        ensures
            r == *self,
    {
        DependencyNode { cab: self.cab.clone(), path_id: self.path_id }
    }
}

/// One remap rule: a human-readable path annotation (never matched on), the
/// key inside the custom-built container (`custom_bundle_node`, the source of
/// the rewrite) and the key inside the original container it must point to
/// afterwards (`game_node`, the target).
#[derive(Debug)]
pub struct Dependency {
    pub path: String,
    pub game_node: DependencyNode,
    pub custom_bundle_node: DependencyNode,
}

/// A whole-container dependency reference held in a container's
/// external-dependency list, expressed as a path string.
#[derive(Debug)]
pub struct ExternalRef {
    pub path: String,
}

impl View for ExternalRef {
    type V = Seq<char>;

    open spec fn view(&self) -> Seq<char> {
        self.path@
    }
}

/// One named texture binding of a material: the binding name and the
/// reference to the bound texture object.
#[derive(Debug)]
pub struct TextureBinding {
    pub name: String,
    pub texture: DependencyNode,
}

/// Ghost image of a `TextureBinding`.
#[verifier::ext_equal]
pub ghost struct BindingKey {
    pub name: Seq<char>,
    pub texture: NodeKey,
}

impl View for TextureBinding {
    type V = BindingKey;

    open spec fn view(&self) -> BindingKey {
        BindingKey { name: self.name@, texture: self.texture@ }
    }
}

/// A material object: the single shader reference slot and the ordered
/// named-texture-binding map (insertion order, stable within one run).
#[derive(Debug)]
pub struct Material {
    pub shader: DependencyNode,
    pub text_envs: Vec<TextureBinding>,
}

/// Ghost image of a `Material`.
#[verifier::ext_equal]
pub ghost struct MaterialModel {
    pub shader: NodeKey,
    pub text_envs: Seq<BindingKey>,
}

/// The bindings of a texture-binding list, element by element.
pub open spec fn bindings_model(s: Seq<TextureBinding>) -> Seq<BindingKey> {
    s.map_values(|b: TextureBinding| b@)
}

impl View for Material {
    type V = MaterialModel;

    open spec fn view(&self) -> MaterialModel {
        MaterialModel { shader: self.shader@, text_envs: bindings_model(self.text_envs@) }
    }
}

/// One object of an asset file. Only materials carry reference shapes the
/// engine understands; every other kind contributes no sites and is left
/// untouched.
#[derive(Debug)]
pub enum Asset {
    Material(Material),
    Other,
}

/// Ghost image of an `Asset`.
#[verifier::ext_equal]
pub ghost enum AssetModel {
    Material(MaterialModel),
    Other,
}

impl View for Asset {
    type V = AssetModel;

    open spec fn view(&self) -> AssetModel {
        match self {
            Asset::Material(m) => AssetModel::Material(m@),
            Asset::Other => AssetModel::Other,
        }
    }
}

/// The paths of an external-dependency list, element by element.
pub open spec fn externals_model(s: Seq<ExternalRef>) -> Seq<Seq<char>> {
    s.map_values(|e: ExternalRef| e@)
}

/// The models of an asset list, element by element.
pub open spec fn assets_model(s: Seq<Asset>) -> Seq<AssetModel> {
    s.map_values(|a: Asset| a@)
}

/// The reference-bearing content of one serialized asset file: its
/// external-dependency list and its objects.
#[derive(Debug)]
pub struct AssetFile {
    pub externals: Vec<ExternalRef>,
    pub assets: Vec<Asset>,
}

/// Ghost image of an `AssetFile`.
#[verifier::ext_equal]
pub ghost struct AssetFileModel {
    pub externals: Seq<Seq<char>>,
    pub assets: Seq<AssetModel>,
}

impl View for AssetFile {
    type V = AssetFileModel;

    open spec fn view(&self) -> AssetFileModel {
        AssetFileModel {
            externals: externals_model(self.externals@),
            assets: assets_model(self.assets@),
        }
    }
}

/// One top-level file of a bundle: either a serialized asset file or some
/// other payload the engine does not look into.
#[derive(Debug)]
pub enum BundleFile {
    Assets(AssetFile),
    Other,
}

/// Ghost image of a `BundleFile`.
#[verifier::ext_equal]
pub ghost enum BundleFileModel {
    Assets(AssetFileModel),
    Other,
}

impl View for BundleFile {
    type V = BundleFileModel;

    open spec fn view(&self) -> BundleFileModel {
        match self {
            BundleFile::Assets(f) => BundleFileModel::Assets(f@),
            BundleFile::Other => BundleFileModel::Other,
        }
    }
}

/// A top-level file together with the name it is stored under.
#[derive(Debug)]
pub struct NamedFile {
    pub name: String,
    pub file: BundleFile,
}

/// Ghost image of a `NamedFile`.
#[verifier::ext_equal]
pub ghost struct NamedFileModel {
    pub name: Seq<char>,
    pub file: BundleFileModel,
}

impl View for NamedFile {
    type V = NamedFileModel;

    open spec fn view(&self) -> NamedFileModel {
        NamedFileModel { name: self.name@, file: self.file@ }
    }
}

/// The models of a file list, element by element.
pub open spec fn files_model(s: Seq<NamedFile>) -> Seq<NamedFileModel> {
    s.map_values(|f: NamedFile| f@)
}

/// A loaded bundle: its own primary archive identifier, if the container
/// declared one, and its named top-level files in storage order.
#[derive(Debug)]
pub struct Bundle {
    pub cab: Option<String>,
    pub files: Vec<NamedFile>,
}

/// Ghost image of a `Bundle`.
#[verifier::ext_equal]
pub ghost struct BundleModel {
    pub cab: Option<Seq<char>>,
    pub files: Seq<NamedFileModel>,
}

impl View for Bundle {
    type V = BundleModel;

    open spec fn view(&self) -> BundleModel {
        BundleModel {
            cab: match self.cab {
                Some(c) => Some(c@),
                None => None,
            },
            files: files_model(self.files@),
        }
    }
}

/// The three reference shapes the engine rewrites.
#[derive(Debug, Clone, Copy, PartialEq, Eq, Structural)]
pub enum SiteShape {
    DependencyPath,
    ShaderSlot,
    TextureSlot,
}

/// The key found at one reference site, before or after rewriting: a path
/// string for dependency entries, a structured object reference for shader
/// and texture slots.
#[derive(Debug)]
pub enum SiteKey {
    Path(String),
    Object(DependencyNode),
}

/// Ghost image of a `SiteKey`.
#[verifier::ext_equal]
pub ghost enum SiteKeyModel {
    Path(Seq<char>),
    Object(NodeKey),
}

impl View for SiteKey {
    type V = SiteKeyModel;

    open spec fn view(&self) -> SiteKeyModel {
        match self {
            SiteKey::Path(p) => SiteKeyModel::Path(p@),
            SiteKey::Object(n) => SiteKeyModel::Object(n@),
        }
    }
}

/// What happened at one processed reference site: its shape, the index of
/// the first rule whose source key matched (if any), and the site's key
/// before and after the pass.
#[derive(Debug)]
pub struct SiteReport {
    pub shape: SiteShape,
    pub matched: Option<usize>,
    pub before: SiteKey,
    pub after: SiteKey,
}

/// Ghost image of a `SiteReport`.
#[verifier::ext_equal]
pub ghost struct SiteReportModel {
    pub shape: SiteShape,
    pub matched: Option<int>,
    pub before: SiteKeyModel,
    pub after: SiteKeyModel,
}

impl View for SiteReport {
    type V = SiteReportModel;

    open spec fn view(&self) -> SiteReportModel {
        SiteReportModel {
            shape: self.shape,
            matched: match self.matched {
                Some(i) => Some(i as int),
                None => None,
            },
            before: self.before@,
            after: self.after@,
        }
    }
}

/// The models of a site-report list, element by element.
pub open spec fn sites_model(s: Seq<SiteReport>) -> Seq<SiteReportModel> {
    s.map_values(|r: SiteReport| r@)
}

/// What one full pass over a graph found and did, one record per processed
/// reference site, in processing order.
#[derive(Debug)]
pub struct RemapReport {
    pub sites: Vec<SiteReport>,
}

/// Why a pass refused to touch a graph. Both conditions are raised before
/// any mutation occurs.
#[derive(Debug, Clone, Copy, PartialEq, Eq, Structural)]
pub enum ApplyError {
    /// The bundle declares no primary archive identifier of its own.
    MissingIdentifier,
    /// No file in the bundle is stored under the bundle's own primary
    /// archive identifier.
    PrimaryNotFound,
}

} // verus!
