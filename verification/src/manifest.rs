use vstd::prelude::*;

verus! {

/// What a rule does when it matches the host.
#[derive(Debug, Clone, Copy, PartialEq, Eq, Structural)]
pub enum RuleAction {
    Allow,
    Disallow,
}

impl DeepView for RuleAction {
    type V = RuleAction;

    open spec fn deep_view(&self) -> RuleAction {
        *self
    }
}

/// The kind of a release.
#[derive(Debug, Clone, Copy, PartialEq, Eq, Structural)]
pub enum ReleaseType {
    Snapshot,
    Release,
    OldBeta,
    OldAlpha,
}

impl DeepView for ReleaseType {
    type V = ReleaseType;

    open spec fn deep_view(&self) -> ReleaseType {
        *self
    }
}

impl Default for ReleaseType {
    fn default() -> (r: Self)
        ensures
            r == ReleaseType::Release,
    {
        ReleaseType::Release
    }
}

/// Reference to the asset-index document.
#[derive(Default, Debug, Clone, PartialEq, Eq)]
pub struct AssetIndex {
    pub id: String,
    pub sha1: String,
    pub url: String,
}

/// The mathematical value of a [`AssetIndex`].
pub struct AssetIndexView {
    pub id: Seq<char>,
    pub sha1: Seq<char>,
    pub url: Seq<char>,
}

impl View for AssetIndex {
    type V = AssetIndexView;

    open spec fn view(&self) -> AssetIndexView {
        AssetIndexView {
            id: self.id.deep_view(),
            sha1: self.sha1.deep_view(),
            url: self.url.deep_view(),
        }
    }
}

impl DeepView for AssetIndex {
    type V = AssetIndexView;

    open spec fn deep_view(&self) -> AssetIndexView {
        self@
    }
}

/// Where the client jar is fetched from.
#[derive(Default, Debug, Clone, PartialEq, Eq)]
pub struct Client {
    pub sha1: String,
    pub url: String,
}

/// The mathematical value of a [`Client`].
pub struct ClientView {
    pub sha1: Seq<char>,
    pub url: Seq<char>,
}

impl View for Client {
    type V = ClientView;

    open spec fn view(&self) -> ClientView {
        ClientView {
            sha1: self.sha1.deep_view(),
            url: self.url.deep_view(),
        }
    }
}

impl DeepView for Client {
    type V = ClientView;

    open spec fn deep_view(&self) -> ClientView {
        self@
    }
}

/// The downloads of a version.
#[derive(Default, Debug, Clone, PartialEq, Eq)]
pub struct Downloads {
    pub client: Client,
}

/// The mathematical value of a [`Downloads`].
pub struct DownloadsView {
    pub client: ClientView,
}

impl View for Downloads {
    type V = DownloadsView;

    open spec fn view(&self) -> DownloadsView {
        DownloadsView {
            client: self.client.deep_view(),
        }
    }
}

impl DeepView for Downloads {
    type V = DownloadsView;

    open spec fn deep_view(&self) -> DownloadsView {
        self@
    }
}

/// The Java runtime a version needs.
#[derive(Default, Debug, Clone, PartialEq, Eq)]
pub struct JavaVersion {
    pub major_version: u8,
}

/// The mathematical value of a [`JavaVersion`].
pub struct JavaVersionView {
    pub major_version: u8,
}

impl View for JavaVersion {
    type V = JavaVersionView;

    open spec fn view(&self) -> JavaVersionView {
        JavaVersionView {
            major_version: self.major_version,
        }
    }
}

impl DeepView for JavaVersion {
    type V = JavaVersionView;

    open spec fn deep_view(&self) -> JavaVersionView {
        self@
    }
}

/// One downloadable file; `path` is relative to the libraries directory.
#[derive(Default, Debug, Clone, PartialEq, Eq)]
pub struct Artifact {
    pub path: String,
    pub sha1: String,
    pub url: String,
}

/// The mathematical value of a [`Artifact`].
pub struct ArtifactView {
    pub path: Seq<char>,
    pub sha1: Seq<char>,
    pub url: Seq<char>,
}

impl View for Artifact {
    type V = ArtifactView;

    open spec fn view(&self) -> ArtifactView {
        ArtifactView {
            path: self.path.deep_view(),
            sha1: self.sha1.deep_view(),
            url: self.url.deep_view(),
        }
    }
}

impl DeepView for Artifact {
    type V = ArtifactView;

    open spec fn deep_view(&self) -> ArtifactView {
        self@
    }
}

/// The further archives of a library, each under its classifier key: those
/// of the three platforms under `natives-osx`, `natives-linux` and
/// `natives-windows`, and in `others` those under any other key, such as
/// `natives-windows-64`.
#[derive(Default, Debug, Clone, PartialEq, Eq)]
pub struct Classifiers {
    pub natives_osx: Option<Artifact>,
    pub natives_linux: Option<Artifact>,
    pub natives_windows: Option<Artifact>,
    /// The archives under other keys; of two entries with one key the
    /// later counts.
    pub others: Vec<(String, Artifact)>,
}

/// The mathematical value of a [`Classifiers`].
pub struct ClassifiersView {
    pub natives_osx: Option<ArtifactView>,
    pub natives_linux: Option<ArtifactView>,
    pub natives_windows: Option<ArtifactView>,
    pub others: Seq<(Seq<char>, ArtifactView)>,
}

impl View for Classifiers {
    type V = ClassifiersView;

    open spec fn view(&self) -> ClassifiersView {
        ClassifiersView {
            natives_osx: self.natives_osx.deep_view(),
            natives_linux: self.natives_linux.deep_view(),
            natives_windows: self.natives_windows.deep_view(),
            others: self.others.deep_view(),
        }
    }
}

impl DeepView for Classifiers {
    type V = ClassifiersView;

    open spec fn deep_view(&self) -> ClassifiersView {
        self@
    }
}

/// What a library offers for download.
#[derive(Default, Debug, Clone, PartialEq, Eq)]
pub struct LibraryDownload {
    pub artifact: Option<Artifact>,
    pub classifiers: Option<Classifiers>,
}

/// The mathematical value of a [`LibraryDownload`].
pub struct LibraryDownloadView {
    pub artifact: Option<ArtifactView>,
    pub classifiers: Option<ClassifiersView>,
}

impl View for LibraryDownload {
    type V = LibraryDownloadView;

    open spec fn view(&self) -> LibraryDownloadView {
        LibraryDownloadView {
            artifact: self.artifact.deep_view(),
            classifiers: self.classifiers.deep_view(),
        }
    }
}

impl DeepView for LibraryDownload {
    type V = LibraryDownloadView;

    open spec fn deep_view(&self) -> LibraryDownloadView {
        self@
    }
}

/// How a native archive is unpacked.
#[derive(Default, Debug, Clone, PartialEq, Eq)]
pub struct Extract {
    pub exclude: Vec<String>,
}

/// The mathematical value of a [`Extract`].
pub struct ExtractView {
    pub exclude: Seq<Seq<char>>,
}

impl View for Extract {
    type V = ExtractView;

    open spec fn view(&self) -> ExtractView {
        ExtractView {
            exclude: self.exclude.deep_view(),
        }
    }
}

impl DeepView for Extract {
    type V = ExtractView;

    open spec fn deep_view(&self) -> ExtractView {
        self@
    }
}

/// The operating-system part of a rule; an absent field matches every host.
#[derive(Default, Debug, Clone, PartialEq, Eq)]
pub struct Os {
    pub name: Option<String>,
    pub arch: Option<String>,
    pub version: Option<String>,
}

/// The mathematical value of a [`Os`].
pub struct OsView {
    pub name: Option<Seq<char>>,
    pub arch: Option<Seq<char>>,
    pub version: Option<Seq<char>>,
}

impl View for Os {
    type V = OsView;

    open spec fn view(&self) -> OsView {
        OsView {
            name: self.name.deep_view(),
            arch: self.arch.deep_view(),
            version: self.version.deep_view(),
        }
    }
}

impl DeepView for Os {
    type V = OsView;

    open spec fn deep_view(&self) -> OsView {
        self@
    }
}

/// One allow or disallow predicate over a host.
#[derive(Debug, Clone, PartialEq, Eq)]
pub struct Rule {
    pub action: RuleAction,
    pub os: Option<Os>,
    pub features: Option<Vec<(String, bool)>>,
}

/// The mathematical value of a [`Rule`].
pub struct RuleView {
    pub action: RuleAction,
    pub os: Option<OsView>,
    pub features: Option<Seq<(Seq<char>, bool)>>,
}

impl View for Rule {
    type V = RuleView;

    open spec fn view(&self) -> RuleView {
        RuleView {
            action: self.action,
            os: self.os.deep_view(),
            features: self.features.deep_view(),
        }
    }
}

impl DeepView for Rule {
    type V = RuleView;

    open spec fn deep_view(&self) -> RuleView {
        self@
    }
}

/// One library of a version; the order of libraries is the classpath order.
#[derive(Default, Debug, Clone, PartialEq, Eq)]
pub struct Library {
    pub downloads: LibraryDownload,
    pub name: String,
    pub rules: Vec<Rule>,
    pub natives: Option<Vec<(String, String)>>,
    pub extract: Option<Extract>,
}

/// The mathematical value of a [`Library`].
pub struct LibraryView {
    pub downloads: LibraryDownloadView,
    pub name: Seq<char>,
    pub rules: Seq<RuleView>,
    pub natives: Option<Seq<(Seq<char>, Seq<char>)>>,
    pub extract: Option<ExtractView>,
}

impl View for Library {
    type V = LibraryView;

    open spec fn view(&self) -> LibraryView {
        LibraryView {
            downloads: self.downloads.deep_view(),
            name: self.name.deep_view(),
            rules: self.rules.deep_view(),
            natives: self.natives.deep_view(),
            extract: self.extract.deep_view(),
        }
    }
}

impl DeepView for Library {
    type V = LibraryView;

    open spec fn deep_view(&self) -> LibraryView {
        self@
    }
}

/// The logging configuration file.
#[derive(Default, Debug, Clone, PartialEq, Eq)]
pub struct File {
    pub id: String,
    pub sha1: String,
    pub url: String,
}

/// The mathematical value of a [`File`].
pub struct FileView {
    pub id: Seq<char>,
    pub sha1: Seq<char>,
    pub url: Seq<char>,
}

impl View for File {
    type V = FileView;

    open spec fn view(&self) -> FileView {
        FileView {
            id: self.id.deep_view(),
            sha1: self.sha1.deep_view(),
            url: self.url.deep_view(),
        }
    }
}

impl DeepView for File {
    type V = FileView;

    open spec fn deep_view(&self) -> FileView {
        self@
    }
}

/// The client logging configuration.
#[derive(Default, Debug, Clone, PartialEq, Eq)]
pub struct Client2 {
    pub argument: String,
    pub file: File,
    pub type_field: String,
}

/// The mathematical value of a [`Client2`].
pub struct Client2View {
    pub argument: Seq<char>,
    pub file: FileView,
    pub type_field: Seq<char>,
}

impl View for Client2 {
    type V = Client2View;

    open spec fn view(&self) -> Client2View {
        Client2View {
            argument: self.argument.deep_view(),
            file: self.file.deep_view(),
            type_field: self.type_field.deep_view(),
        }
    }
}

impl DeepView for Client2 {
    type V = Client2View;

    open spec fn deep_view(&self) -> Client2View {
        self@
    }
}

/// The logging section of a version.
#[derive(Default, Debug, Clone, PartialEq, Eq)]
pub struct Logging {
    pub client: Client2,
}

/// The mathematical value of a [`Logging`].
pub struct LoggingView {
    pub client: Client2View,
}

impl View for Logging {
    type V = LoggingView;

    open spec fn view(&self) -> LoggingView {
        LoggingView {
            client: self.client.deep_view(),
        }
    }
}

impl DeepView for Logging {
    type V = LoggingView;

    open spec fn deep_view(&self) -> LoggingView {
        self@
    }
}

/// A conditional argument entry: `value` is emitted when `rules` admit the host.
#[derive(Debug, Clone, PartialEq, Eq)]
pub struct ArgumentRule {
    pub rules: Vec<Rule>,
    pub value: Vec<String>,
}

/// The mathematical value of a [`ArgumentRule`].
pub struct ArgumentRuleView {
    pub rules: Seq<RuleView>,
    pub value: Seq<Seq<char>>,
}

impl View for ArgumentRule {
    type V = ArgumentRuleView;

    open spec fn view(&self) -> ArgumentRuleView {
        ArgumentRuleView {
            rules: self.rules.deep_view(),
            value: self.value.deep_view(),
        }
    }
}

impl DeepView for ArgumentRule {
    type V = ArgumentRuleView;

    open spec fn deep_view(&self) -> ArgumentRuleView {
        self@
    }
}

/// One entry of a modern argument list.
#[derive(Debug, Clone, PartialEq, Eq)]
pub enum ModernArgumentsItem {
    /// Always emitted.
    Simple(String),
    /// Emitted when its rules admit the host.
    Rule(ArgumentRule),
}

/// The mathematical value of a [`ModernArgumentsItem`].
pub enum ModernArgumentsItemView {
    Simple(Seq<char>),
    Rule(ArgumentRuleView),
}

impl View for ModernArgumentsItem {
    type V = ModernArgumentsItemView;

    open spec fn view(&self) -> ModernArgumentsItemView {
        match self {
            ModernArgumentsItem::Simple(s) => ModernArgumentsItemView::Simple(s@),
            ModernArgumentsItem::Rule(r) => ModernArgumentsItemView::Rule(r@),
        }
    }
}

impl DeepView for ModernArgumentsItem {
    type V = ModernArgumentsItemView;

    open spec fn deep_view(&self) -> ModernArgumentsItemView {
        self@
    }
}

/// The structured argument lists of the modern schema.
#[derive(Debug, Clone, PartialEq, Eq)]
pub struct ModernArguments {
    pub game: Vec<ModernArgumentsItem>,
    pub jvm: Vec<ModernArgumentsItem>,
}

/// The mathematical value of a [`ModernArguments`].
pub struct ModernArgumentsView {
    pub game: Seq<ModernArgumentsItemView>,
    pub jvm: Seq<ModernArgumentsItemView>,
}

impl View for ModernArguments {
    type V = ModernArgumentsView;

    open spec fn view(&self) -> ModernArgumentsView {
        ModernArgumentsView {
            game: self.game.deep_view(),
            jvm: self.jvm.deep_view(),
        }
    }
}

impl DeepView for ModernArguments {
    type V = ModernArgumentsView;

    open spec fn deep_view(&self) -> ModernArgumentsView {
        self@
    }
}

/// A version manifest. Exactly one of `minecraft_arguments` (the legacy
/// schema) and `arguments` (the modern schema) is populated in a valid manifest.
#[derive(Default, Debug, Clone, PartialEq, Eq)]
pub struct MinecraftManifest {
    pub asset_index: AssetIndex,
    pub downloads: Downloads,
    pub java_version: JavaVersion,
    pub libraries: Vec<Library>,
    pub logging: Option<Logging>,
    pub main_class: String,
    pub release_time: String,
    pub version: String,
    pub release_type: ReleaseType,
    pub minecraft_arguments: Option<String>,
    pub arguments: Option<ModernArguments>,
}

/// The mathematical value of a [`MinecraftManifest`].
pub struct MinecraftManifestView {
    pub asset_index: AssetIndexView,
    pub downloads: DownloadsView,
    pub java_version: JavaVersionView,
    pub libraries: Seq<LibraryView>,
    pub logging: Option<LoggingView>,
    pub main_class: Seq<char>,
    pub release_time: Seq<char>,
    pub version: Seq<char>,
    pub release_type: ReleaseType,
    pub minecraft_arguments: Option<Seq<char>>,
    pub arguments: Option<ModernArgumentsView>,
}

impl View for MinecraftManifest {
    type V = MinecraftManifestView;

    open spec fn view(&self) -> MinecraftManifestView {
        MinecraftManifestView {
            asset_index: self.asset_index.deep_view(),
            downloads: self.downloads.deep_view(),
            java_version: self.java_version.deep_view(),
            libraries: self.libraries.deep_view(),
            logging: self.logging.deep_view(),
            main_class: self.main_class.deep_view(),
            release_time: self.release_time.deep_view(),
            version: self.version.deep_view(),
            release_type: self.release_type,
            minecraft_arguments: self.minecraft_arguments.deep_view(),
            arguments: self.arguments.deep_view(),
        }
    }
}

impl DeepView for MinecraftManifest {
    type V = MinecraftManifestView;

    open spec fn deep_view(&self) -> MinecraftManifestView {
        self@
    }
}

} // verus!
