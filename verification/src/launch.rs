use vstd::prelude::*;
use vstd::string::*;

verus! {

/// Why a manifest is refused.
#[derive(Debug, Clone, Copy, PartialEq, Eq, Structural)]
pub enum InvalidReason {
    /// The text is no JSON document.
    NotJson,
    /// A field that the format requires is absent.
    MissingField,
    /// A field holds a value of another shape than the format gives it.
    WrongShape,
    /// Both the legacy and the modern arguments are populated.
    BothArgumentForms,
    /// Neither the legacy nor the modern arguments are populated.
    NoArguments,
    /// The main class is empty.
    MissingMainClass,
    /// The asset index has no identifier.
    MissingAssetIndex,
}

impl InvalidReason {
    /// What is wrong, in words.
    pub fn describe(&self) -> (r: &'static str)
        ensures
            r@ == reason_text(*self),
    {
        match self {
            InvalidReason::NotJson => "the text is no JSON document",
            InvalidReason::MissingField => "a required field is missing",
            InvalidReason::WrongShape => "a field has the wrong shape",
            InvalidReason::BothArgumentForms => "both argument forms are present",
            InvalidReason::NoArguments => "no argument form is present",
            InvalidReason::MissingMainClass => "the main class is missing",
            InvalidReason::MissingAssetIndex => "the asset index is missing",
        }
    }
}

/// What is wrong with a manifest, in words.
pub open spec fn reason_text(reason: InvalidReason) -> Seq<char> {
    match reason {
        InvalidReason::NotJson => "the text is no JSON document"@,
        InvalidReason::MissingField => "a required field is missing"@,
        InvalidReason::WrongShape => "a field has the wrong shape"@,
        InvalidReason::BothArgumentForms => "both argument forms are present"@,
        InvalidReason::NoArguments => "no argument form is present"@,
        InvalidReason::MissingMainClass => "the main class is missing"@,
        InvalidReason::MissingAssetIndex => "the asset index is missing"@,
    }
}

/// What the resolver and the planner report instead of a result.
#[derive(Debug, Clone, PartialEq, Eq)]
pub enum LaunchError {
    /// The manifest breaks a rule of its format.
    InvalidManifest(InvalidReason),
    /// No library of the manifest admits the host.
    UnsupportedHost,
    /// In strict mode: the file at this path is needed and is not in place.
    AssetMissing(String),
}

/// The mathematical value of a [`LaunchError`].
pub enum LaunchErrorView {
    InvalidManifest(InvalidReason),
    UnsupportedHost,
    AssetMissing(Seq<char>),
}

impl View for LaunchError {
    type V = LaunchErrorView;

    open spec fn view(&self) -> LaunchErrorView {
        match self {
            LaunchError::InvalidManifest(reason) => LaunchErrorView::InvalidManifest(*reason),
            LaunchError::UnsupportedHost => LaunchErrorView::UnsupportedHost,
            LaunchError::AssetMissing(path) => LaunchErrorView::AssetMissing(path@),
        }
    }
}

/// An error in words, for the user.
pub open spec fn error_text(error: LaunchErrorView) -> Seq<char> {
    match error {
        LaunchErrorView::InvalidManifest(reason) => "invalid manifest: "@ + reason_text(reason),
        LaunchErrorView::UnsupportedHost => "this version is incompatible with your OS"@,
        LaunchErrorView::AssetMissing(path) => "missing file: "@ + path,
    }
}

impl LaunchError {
    /// The error in words, for the user.
    pub fn describe(&self) -> (r: String)
        ensures
            r@ == error_text(self@),
    {
        match self {
            LaunchError::InvalidManifest(reason) => "invalid manifest: ".to_owned().concat(
                reason.describe(),
            ),
            LaunchError::UnsupportedHost => "this version is incompatible with your OS".to_owned(),
            LaunchError::AssetMissing(path) => "missing file: ".to_owned().concat(path.as_str()),
        }
    }
}

impl DeepView for LaunchError {
    type V = LaunchErrorView;

    open spec fn deep_view(&self) -> LaunchErrorView {
        self@
    }
}

/// Where an installation keeps its files.
#[derive(Default, Debug, Clone, PartialEq, Eq)]
pub struct InstallRoots {
    pub libraries_dir: String,
    pub natives_dir: String,
    pub assets_dir: String,
    pub game_dir: String,
    pub client_jar_path: String,
}

/// The mathematical value of a [`InstallRoots`].
pub struct InstallRootsView {
    pub libraries_dir: Seq<char>,
    pub natives_dir: Seq<char>,
    pub assets_dir: Seq<char>,
    pub game_dir: Seq<char>,
    pub client_jar_path: Seq<char>,
}

impl View for InstallRoots {
    type V = InstallRootsView;

    open spec fn view(&self) -> InstallRootsView {
        InstallRootsView {
            libraries_dir: self.libraries_dir.deep_view(),
            natives_dir: self.natives_dir.deep_view(),
            assets_dir: self.assets_dir.deep_view(),
            game_dir: self.game_dir.deep_view(),
            client_jar_path: self.client_jar_path.deep_view(),
        }
    }
}

impl DeepView for InstallRoots {
    type V = InstallRootsView;

    open spec fn deep_view(&self) -> InstallRootsView {
        self@
    }
}

/// What the launcher knows of the player and of itself; these fill the
/// placeholders that the manifest and the host do not decide.
#[derive(Default, Debug, Clone, PartialEq, Eq)]
pub struct LaunchIdentity {
    pub auth_player_name: String,
    pub auth_uuid: String,
    pub auth_access_token: String,
    pub user_type: String,
    pub launcher_name: String,
    pub launcher_version: String,
    pub user_properties: Option<String>,
}

/// The mathematical value of a [`LaunchIdentity`].
pub struct LaunchIdentityView {
    pub auth_player_name: Seq<char>,
    pub auth_uuid: Seq<char>,
    pub auth_access_token: Seq<char>,
    pub user_type: Seq<char>,
    pub launcher_name: Seq<char>,
    pub launcher_version: Seq<char>,
    pub user_properties: Option<Seq<char>>,
}

impl View for LaunchIdentity {
    type V = LaunchIdentityView;

    open spec fn view(&self) -> LaunchIdentityView {
        LaunchIdentityView {
            auth_player_name: self.auth_player_name.deep_view(),
            auth_uuid: self.auth_uuid.deep_view(),
            auth_access_token: self.auth_access_token.deep_view(),
            user_type: self.user_type.deep_view(),
            launcher_name: self.launcher_name.deep_view(),
            launcher_version: self.launcher_version.deep_view(),
            user_properties: self.user_properties.deep_view(),
        }
    }
}

impl DeepView for LaunchIdentity {
    type V = LaunchIdentityView;

    open spec fn deep_view(&self) -> LaunchIdentityView {
        self@
    }
}

/// A file that is already in place, with the hash of its content.
#[derive(Default, Debug, Clone, PartialEq, Eq)]
pub struct LocalFile {
    pub path: String,
    pub sha1: String,
}

/// The mathematical value of a [`LocalFile`].
pub struct LocalFileView {
    pub path: Seq<char>,
    pub sha1: Seq<char>,
}

impl View for LocalFile {
    type V = LocalFileView;

    open spec fn view(&self) -> LocalFileView {
        LocalFileView {
            path: self.path.deep_view(),
            sha1: self.sha1.deep_view(),
        }
    }
}

impl DeepView for LocalFile {
    type V = LocalFileView;

    open spec fn deep_view(&self) -> LocalFileView {
        self@
    }
}

/// A native archive to unpack into the natives directory.
#[derive(Default, Debug, Clone, PartialEq, Eq)]
pub struct NativeEntry {
    pub source_archive_path: String,
    pub extract_to: String,
    pub exclude_globs: Vec<String>,
}

/// The mathematical value of a [`NativeEntry`].
pub struct NativeEntryView {
    pub source_archive_path: Seq<char>,
    pub extract_to: Seq<char>,
    pub exclude_globs: Seq<Seq<char>>,
}

impl View for NativeEntry {
    type V = NativeEntryView;

    open spec fn view(&self) -> NativeEntryView {
        NativeEntryView {
            source_archive_path: self.source_archive_path.deep_view(),
            extract_to: self.extract_to.deep_view(),
            exclude_globs: self.exclude_globs.deep_view(),
        }
    }
}

impl DeepView for NativeEntry {
    type V = NativeEntryView;

    open spec fn deep_view(&self) -> NativeEntryView {
        self@
    }
}

/// A file that has to be fetched before the launch.
#[derive(Default, Debug, Clone, PartialEq, Eq)]
pub struct Download {
    pub url: String,
    pub dest_path: String,
    pub sha1: String,
    pub size: Option<u64>,
}

/// The mathematical value of a [`Download`].
pub struct DownloadView {
    pub url: Seq<char>,
    pub dest_path: Seq<char>,
    pub sha1: Seq<char>,
    pub size: Option<u64>,
}

impl View for Download {
    type V = DownloadView;

    open spec fn view(&self) -> DownloadView {
        DownloadView {
            url: self.url.deep_view(),
            dest_path: self.dest_path.deep_view(),
            sha1: self.sha1.deep_view(),
            size: self.size.deep_view(),
        }
    }
}

impl DeepView for Download {
    type V = DownloadView;

    open spec fn deep_view(&self) -> DownloadView {
        self@
    }
}

/// The logging argument, with the path of the configuration file filled in.
#[derive(Default, Debug, Clone, PartialEq, Eq)]
pub struct LoggingPlan {
    pub argument_with_path: String,
}

/// The mathematical value of a [`LoggingPlan`].
pub struct LoggingPlanView {
    pub argument_with_path: Seq<char>,
}

impl View for LoggingPlan {
    type V = LoggingPlanView;

    open spec fn view(&self) -> LoggingPlanView {
        LoggingPlanView {
            argument_with_path: self.argument_with_path.deep_view(),
        }
    }
}

impl DeepView for LoggingPlan {
    type V = LoggingPlanView;

    open spec fn deep_view(&self) -> LoggingPlanView {
        self@
    }
}

/// The resolved, host-specific description of one launch.
#[derive(Default, Debug, Clone, PartialEq, Eq)]
pub struct LaunchPlan {
    pub classpath: Vec<String>,
    pub natives: Vec<NativeEntry>,
    pub jvm_args: Vec<String>,
    pub game_args: Vec<String>,
    pub main_class: String,
    pub asset_index_id: String,
    pub required_downloads: Vec<Download>,
    pub min_java_major: u8,
    pub logging: Option<LoggingPlan>,
}

/// The mathematical value of a [`LaunchPlan`].
pub struct LaunchPlanView {
    pub classpath: Seq<Seq<char>>,
    pub natives: Seq<NativeEntryView>,
    pub jvm_args: Seq<Seq<char>>,
    pub game_args: Seq<Seq<char>>,
    pub main_class: Seq<char>,
    pub asset_index_id: Seq<char>,
    pub required_downloads: Seq<DownloadView>,
    pub min_java_major: u8,
    pub logging: Option<LoggingPlanView>,
}

impl View for LaunchPlan {
    type V = LaunchPlanView;

    open spec fn view(&self) -> LaunchPlanView {
        LaunchPlanView {
            classpath: self.classpath.deep_view(),
            natives: self.natives.deep_view(),
            jvm_args: self.jvm_args.deep_view(),
            game_args: self.game_args.deep_view(),
            main_class: self.main_class.deep_view(),
            asset_index_id: self.asset_index_id.deep_view(),
            required_downloads: self.required_downloads.deep_view(),
            min_java_major: self.min_java_major,
            logging: self.logging.deep_view(),
        }
    }
}

impl DeepView for LaunchPlan {
    type V = LaunchPlanView;

    open spec fn deep_view(&self) -> LaunchPlanView {
        self@
    }
}

} // verus!
