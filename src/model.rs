//! The data the pipeline tracks: configuration, entry status, parsed beatmap
//! metadata and one tracked entry.

use vstd::prelude::*;
use vstd::string::*;
use crate::paths::{file_name_of, file_name_text, join_path, path_join};

verus! {

/// How a file is judged to have stopped changing.
#[derive(Clone, Copy, Debug)]
pub struct StabilityConfig {
    pub consecutive_checks: u32,
    pub interval_ms: u64,
    pub timeout_secs: u64,
}

impl StabilityConfig {
    pub fn default_checks() -> (r: u32)
        ensures
            r == 3,
    {
        3
    }

    pub fn default_interval_ms() -> (r: u64)
        ensures
            r == 700,
    {
        700
    }

    pub fn default_timeout_secs() -> (r: u64)
        ensures
            r == 120,
    {
        120
    }
}

impl Default for StabilityConfig {
    fn default() -> (r: Self)
        ensures
            r.consecutive_checks == 3,
            r.interval_ms == 700,
            r.timeout_secs == 120,
    {
        StabilityConfig {
            consecutive_checks: Self::default_checks(),
            interval_ms: Self::default_interval_ms(),
            timeout_secs: Self::default_timeout_secs(),
        }
    }
}

/// Folder name under the downloads folder that the default songs folder takes.
pub const DEFAULT_SONGS_NAME: &'static str = "McOsuSongs";

/// The settings the pipeline reads.
#[derive(Clone, Debug)]
pub struct AppConfig {
    pub downloads_dir: String,
    pub songs_dir: String,
    pub auto_import: bool,
    pub stability: StabilityConfig,
    pub auto_delete_source: bool,
    pub suppress_delete_prompt: bool,
    pub last_link: Option<String>,
}

impl AppConfig {
    /// The default settings around a given downloads folder: songs go to a
    /// folder inside it, nothing is automatic.
    pub fn with_downloads(downloads: String) -> (r: AppConfig)
        ensures
            r.downloads_dir@ == downloads@,
            r.songs_dir@ == path_join(downloads@, DEFAULT_SONGS_NAME@),
            !r.auto_import,
            !r.auto_delete_source,
            !r.suppress_delete_prompt,
            r.last_link is None,
            r.stability.consecutive_checks == 3,
            r.stability.interval_ms == 700,
            r.stability.timeout_secs == 120,
    {
        let songs = join_path(downloads.as_str(), DEFAULT_SONGS_NAME);
        AppConfig {
            downloads_dir: downloads,
            songs_dir: songs,
            auto_import: false,
            stability: StabilityConfig::default(),
            auto_delete_source: false,
            suppress_delete_prompt: false,
            last_link: None,
        }
    }
}

/// Relies on `directories::UserDirs::download_dir`: the user's downloads
/// folder, when the platform reports one.
#[verifier::external_body]
fn user_download_dir() -> (r: Option<String>) {
    directories::UserDirs::new().and_then(
        |u| u.download_dir().map(|p| p.to_string_lossy().to_string()),
    )
}

impl Default for AppConfig {
    fn default() -> (r: Self)
        ensures
            r.songs_dir@ == path_join(r.downloads_dir@, DEFAULT_SONGS_NAME@),
            !r.auto_import,
            !r.auto_delete_source,
            !r.suppress_delete_prompt,
            r.last_link is None,
    {
        let downloads = match user_download_dir() {
            Some(d) => d,
            None => String::from_str("."),
        };
        AppConfig::with_downloads(downloads)
    }
}

/// Where an entry stands in the pipeline.
#[derive(Clone, Copy, Debug, PartialEq, Eq, Structural)]
pub enum ImportStatus {
    Detected,
    WaitingStable,
    ReadingMetadata,
    Importing,
    Completed,
    DuplicateSkipped,
    Failed,
}

impl ImportStatus {
    pub open spec fn display_spec(self) -> Seq<char> {
        match self {
            ImportStatus::Detected => "Detectado"@,
            ImportStatus::WaitingStable => "Aguardando"@,
            ImportStatus::ReadingMetadata => "Metadados"@,
            ImportStatus::Importing => "Importando"@,
            ImportStatus::Completed => "Concluido"@,
            ImportStatus::DuplicateSkipped => "Duplicado"@,
            ImportStatus::Failed => "Falhou"@,
        }
    }

    /// The label shown for the status.
    pub fn as_display(&self) -> (r: &'static str)
        ensures
            r@ == self.display_spec(),
    {
        match self {
            ImportStatus::Detected => "Detectado",
            ImportStatus::WaitingStable => "Aguardando",
            ImportStatus::ReadingMetadata => "Metadados",
            ImportStatus::Importing => "Importando",
            ImportStatus::Completed => "Concluido",
            ImportStatus::DuplicateSkipped => "Duplicado",
            ImportStatus::Failed => "Falhou",
        }
    }

    /// Completed, skipped as a duplicate, or failed.
    pub open spec fn is_terminal(self) -> bool {
        self == ImportStatus::Completed || self == ImportStatus::DuplicateSkipped || self
            == ImportStatus::Failed
    }
}

/// What the descriptor files of one archive say, taken together.
#[derive(Clone, Debug)]
pub struct BeatmapMetadata {
    pub title: String,
    pub artist: String,
    pub creator: String,
    pub difficulties: Vec<String>,
    pub beatmap_set_id: Option<i32>,
    pub beatmap_ids: Vec<i32>,
    pub background_file: Option<String>,
    pub audio_file: Option<String>,
}

impl BeatmapMetadata {
    /// `"<artist> - <title>"`.
    pub fn display_title(&self) -> (r: String)
        ensures
            r@ == self.artist@ + " - "@ + self.title@,
    {
        let mut r = self.artist.clone();
        r.append(" - ");
        r.append(self.title.as_str());
        r
    }
}

/// State of the audio preview of an entry.
#[derive(Clone, Copy, Debug, PartialEq, Eq, Structural)]
pub enum AudioPreviewStatus {
    Unknown,
    Loading,
    Ready,
    Playing,
    Paused,
    Unavailable,
}

impl Default for AudioPreviewStatus {
    fn default() -> (r: Self)
        ensures
            r == AudioPreviewStatus::Unknown,
    {
        AudioPreviewStatus::Unknown
    }
}

#[derive(Clone, Debug)]
pub struct AudioPreview {
    pub status: AudioPreviewStatus,
    pub cached_path: Option<String>,
    pub last_error: Option<String>,
}

impl Default for AudioPreview {
    fn default() -> (r: Self)
        ensures
            r.status == AudioPreviewStatus::Unknown,
            r.cached_path is None,
            r.last_error is None,
    {
        AudioPreview { status: AudioPreviewStatus::Unknown, cached_path: None, last_error: None }
    }
}

/// One tracked archive. `detected_at` is in milliseconds since the Unix epoch.
#[derive(Clone, Debug)]
pub struct BeatmapEntry {
    pub id: u64,
    pub osz_path: String,
    pub status: ImportStatus,
    pub message: Option<String>,
    pub error_detail: Option<String>,
    pub error_short: Option<String>,
    pub metadata: Option<BeatmapMetadata>,
    pub thumbnail_path: Option<String>,
    pub detected_at: u64,
    pub destination: Option<String>,
    pub osz_hash: Option<String>,
    pub audio: AudioPreview,
}

impl BeatmapEntry {
    /// A freshly detected entry for the archive at `osz_path`.
    pub fn new(id: u64, osz_path: String, detected_at: u64) -> (r: BeatmapEntry)
        ensures
            r.id == id,
            r.osz_path@ == osz_path@,
            r.detected_at == detected_at,
            r.status == ImportStatus::Detected,
            r.message is None,
            r.error_detail is None,
            r.error_short is None,
            r.metadata is None,
            r.thumbnail_path is None,
            r.destination is None,
            r.osz_hash is None,
            r.wf(),
    {
        BeatmapEntry {
            id,
            osz_path,
            status: ImportStatus::Detected,
            message: None,
            error_detail: None,
            error_short: None,
            metadata: None,
            thumbnail_path: None,
            detected_at,
            destination: None,
            osz_hash: None,
            audio: AudioPreview::default(),
        }
    }

    /// An entry in Importing has metadata; one Completed or skipped as a
    /// duplicate has a destination.
    pub open spec fn wf(&self) -> bool {
        &&& self.status == ImportStatus::Importing ==> self.metadata is Some
        &&& (self.status == ImportStatus::Completed || self.status
            == ImportStatus::DuplicateSkipped) ==> self.destination is Some
    }

    /// The file name of the source archive; empty when the path has none.
    pub fn source_file_name(&self) -> (r: String)
        ensures
            r@ == match file_name_of(self.osz_path@) {
                Some(n) => n,
                None => Seq::empty(),
            },
    {
        file_name_text(self.osz_path.as_str())
    }
}

} // verus!
