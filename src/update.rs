use vstd::prelude::*;
use crate::text::trimmed;
use crate::timestamp::{
    format_rfc3339, now_utc, parse_rfc3339, parse_timestamp, rfc3339_instant, rfc3339_text, Timestamp,
};

verus! {

/// Minimum time between two contacts with the release server: one hour.
pub const COOL_DOWN_NANOS: i128 = 3_600_000_000_000;

/// Why an update check failed.
pub enum UpdateError {
    /// The operating system has no known asset name.
    UnsupportedOs(String),
    /// The release metadata is not a JSON document; the parser's message.
    BadMetadata(String),
    /// The release metadata has no publish timestamp.
    MissingPublishedAt,
    /// The release metadata has no asset list.
    NoAssets,
    /// No asset (with a download URL) carries this name.
    AssetNotFound(String),
    /// The publish timestamp is not a string, so it cannot be recorded.
    PublishedAtNotText,
    /// The current time cannot be written as RFC 3339.
    TimeFormat,
}

impl UpdateError {
    /// A human-readable description of the failure.
    pub fn message(&self) -> (r: String)
        ensures
            r@ == match self {
                UpdateError::UnsupportedOs(os) => "Unsupported OS: "@ + os@,
                UpdateError::BadMetadata(m) => m@,
                UpdateError::MissingPublishedAt => "Could not find published_at in release info"@,
                UpdateError::NoAssets => "No assets found in release info"@,
                UpdateError::AssetNotFound(n) => "Asset not found: "@ + n@,
                UpdateError::PublishedAtNotText => "published_at is not a string"@,
                UpdateError::TimeFormat => "Failed to format current time"@,
            },
    {
        match self {
            UpdateError::UnsupportedOs(os) => String::from_str("Unsupported OS: ").concat(os.as_str()),
            UpdateError::BadMetadata(m) => m.clone(),
            UpdateError::MissingPublishedAt => String::from_str("Could not find published_at in release info"),
            UpdateError::NoAssets => String::from_str("No assets found in release info"),
            UpdateError::AssetNotFound(n) => String::from_str("Asset not found: ").concat(n.as_str()),
            UpdateError::PublishedAtNotText => String::from_str("published_at is not a string"),
            UpdateError::TimeFormat => String::from_str("Failed to format current time"),
        }
    }
}

/// How an update check ended.
#[derive(Clone, Copy, Debug, PartialEq, Eq, Structural)]
pub enum UpdateOutcome {
    /// The server was contacted less than the cool-down window ago.
    Skipped,
    /// The installed binary works and is at least as new as the latest release.
    UpToDate,
    /// A new binary was downloaded and installed.
    Downloaded,
}

impl UpdateOutcome {
    /// A human-readable description of the outcome, for a download naming
    /// the installed binary's path.
    pub fn message(&self, binary_path: &str) -> (r: String)
        ensures
            r@ == match self {
                UpdateOutcome::Skipped => "yt-dlp is up to date (last checked less than 1 hour ago)"@,
                UpdateOutcome::UpToDate => "yt-dlp is already up to date."@,
                UpdateOutcome::Downloaded => "yt-dlp downloaded successfully: "@ + binary_path@,
            },
    {
        match self {
            UpdateOutcome::Skipped => String::from_str("yt-dlp is up to date (last checked less than 1 hour ago)"),
            UpdateOutcome::UpToDate => String::from_str("yt-dlp is already up to date."),
            UpdateOutcome::Downloaded => String::from_str("yt-dlp downloaded successfully: ").concat(binary_path),
        }
    }
}

/// One downloadable file of a release.
pub struct AssetEntry {
    pub name: Option<String>,
    pub url: Option<String>,
}

/// What the update procedure reads from the release metadata.
pub struct ReleaseInfo {
    /// The publish timestamp's text; `None` when the field is not a string.
    pub published_at: Option<String>,
    /// The asset list; `None` when the metadata has none.
    pub assets: Option<Vec<AssetEntry>>,
}

/// What to do once the release metadata is known.
pub enum Decision {
    /// The installed binary is current: only refresh the last-check time.
    UpToDate,
    /// Download the asset at this URL over the installed binary.
    Download(String),
}

/// A decision or its failure, as a mathematical value.
pub enum PlanView {
    UpToDate,
    Download(Seq<char>),
    NoAssets,
    AssetNotFound(Seq<char>),
    Other,
}

/// The texts to persist at the end of a check: the release time only when a
/// new binary was installed, and the last-check time always.
pub struct StateWrites {
    pub release_time: Option<String>,
    pub last_check: String,
}

/// The asset file name published for an operating system (as Rust names it).
pub open spec fn asset_name_of(os: Seq<char>) -> Option<Seq<char>> {
    if os == "windows"@ {
        Some("yt-dlp.exe"@)
    } else if os == "macos"@ {
        Some("yt-dlp_macos"@)
    } else if os == "linux"@ {
        Some("yt-dlp_linux"@)
    } else {
        None
    }
}

/// Whether the server was contacted less than the cool-down window before `now`.
pub open spec fn recently_checked(last_check: Option<Timestamp>, now: Timestamp) -> bool {
    match last_check {
        Some(t) => now.unix_nanos - t.unix_nanos < COOL_DOWN_NANOS,
        None => false,
    }
}

/// The instant recorded in an optional state file's text.
pub open spec fn recorded_instant(text: Option<Seq<char>>) -> Option<Timestamp> {
    match text {
        Some(s) => rfc3339_instant(trimmed(s)),
        None => None,
    }
}

pub open spec fn opt_view(s: Option<String>) -> Option<Seq<char>> {
    match s {
        Some(x) => Some(x@),
        None => None,
    }
}

/// Whether the installed binary is current: it answered a version query and
/// its recorded release time is at least the remote publish time.
pub open spec fn up_to_date(local: Option<Timestamp>, remote: Option<Timestamp>, confirmed: bool) -> bool {
    confirmed && local is Some && remote is Some && local->0.unix_nanos >= remote->0.unix_nanos
}

pub open spec fn names(a: AssetEntry, name: Seq<char>) -> bool {
    a.name is Some && a.name->0@ == name
}

/// The download URL of the first asset named `name`, if that asset has one.
pub open spec fn download_url(assets: Seq<AssetEntry>, name: Seq<char>) -> Option<Seq<char>>
    decreases assets.len(),
{
    if assets.len() == 0 {
        None
    } else if names(assets[0], name) {
        opt_view(assets[0].url)
    } else {
        download_url(assets.drop_first(), name)
    }
}

pub open spec fn assets_view(assets: Option<Vec<AssetEntry>>) -> Option<Seq<AssetEntry>> {
    match assets {
        Some(v) => Some(v@),
        None => None,
    }
}

/// What is decided once the metadata is known.
pub open spec fn plan(
    assets: Option<Seq<AssetEntry>>,
    local: Option<Timestamp>,
    remote: Option<Timestamp>,
    confirmed: bool,
    asset: Seq<char>,
) -> PlanView {
    if up_to_date(local, remote, confirmed) {
        PlanView::UpToDate
    } else {
        match assets {
            None => PlanView::NoAssets,
            Some(v) => match download_url(v, asset) {
                Some(u) => PlanView::Download(u),
                None => PlanView::AssetNotFound(asset),
            },
        }
    }
}

pub open spec fn decision_view(r: Result<Decision, UpdateError>) -> PlanView {
    match r {
        Ok(Decision::UpToDate) => PlanView::UpToDate,
        Ok(Decision::Download(u)) => PlanView::Download(u@),
        Err(UpdateError::NoAssets) => PlanView::NoAssets,
        Err(UpdateError::AssetNotFound(n)) => PlanView::AssetNotFound(n@),
        Err(_) => PlanView::Other,
    }
}

/// The texts to persist after `decision`, given the publish timestamp's text
/// and the current time's text.
pub open spec fn writes_view(r: Result<StateWrites, UpdateError>) -> Option<(Option<Seq<char>>, Seq<char>)> {
    match r {
        Ok(w) => Some((opt_view(w.release_time), w.last_check@)),
        Err(_) => None,
    }
}

fn text_eq(a: &str, b: &str) -> (r: bool)
    ensures
        r == (a@ == b@),
{
    let x = String::from_str(a);
    let y = String::from_str(b);
    x == y
}

/// The asset name for an operating system; other systems are not supported.
pub fn asset_name(os: &str) -> (r: Result<String, UpdateError>)
    ensures
        match r {
            Ok(n) => asset_name_of(os@) == Some(n@),
            Err(e) => asset_name_of(os@) is None && (e matches UpdateError::UnsupportedOs(o) && o@ == os@),
        },
{
    if text_eq(os, "windows") {
        Ok(String::from_str("yt-dlp.exe"))
    } else if text_eq(os, "macos") {
        Ok(String::from_str("yt-dlp_macos"))
    } else if text_eq(os, "linux") {
        Ok(String::from_str("yt-dlp_linux"))
    } else {
        Err(UpdateError::UnsupportedOs(String::from_str(os)))
    }
}

/// Whether the last contact with the server lies within the cool-down window.
pub fn is_recently_checked(last_check: Option<Timestamp>, now: Timestamp) -> (r: bool)
    ensures
        r == recently_checked(last_check, now),
{
    match last_check {
        Some(t) => {
            if t.unix_nanos > i128::MAX - COOL_DOWN_NANOS {
                true
            } else {
                now.unix_nanos < t.unix_nanos + COOL_DOWN_NANOS
            }
        },
        None => false,
    }
}

/// Whether a check at `now` is skipped, given the last-check file's text.
pub fn should_skip(last_check_text: Option<String>, now: Timestamp) -> (r: bool)
    ensures
        r == recently_checked(recorded_instant(opt_view(last_check_text)), now),
{
    let last = match last_check_text {
        Some(s) => parse_timestamp(s.as_str()),
        None => None,
    };
    is_recently_checked(last, now)
}

/// Whether a check that starts now is skipped, given the last-check file's text.
pub fn should_skip_now(last_check_text: Option<String>) -> (r: bool)
    ensures
        exists|now: Timestamp| r == recently_checked(recorded_instant(opt_view(last_check_text)), now),
{
    let now = now_utc();
    should_skip(last_check_text, now)
}

/// Whether the installed binary is current.
pub fn is_up_to_date(local: Option<Timestamp>, remote: Option<Timestamp>, confirmed: bool) -> (r: bool)
    ensures
        r == up_to_date(local, remote, confirmed),
{
    match (local, remote) {
        (Some(l), Some(g)) => confirmed && l.unix_nanos >= g.unix_nanos,
        _ => false,
    }
}

/// The download URL of the first asset named `name`.
pub fn find_download_url(assets: &Vec<AssetEntry>, name: &str) -> (r: Option<String>)
    ensures
        opt_view(r) == download_url(assets@, name@),
{
    let mut i: usize = 0;
    assert(assets@.subrange(0, assets@.len() as int) =~= assets@);
    while i < assets.len()
        invariant
            i <= assets@.len(),
            download_url(assets@, name@) == download_url(assets@.subrange(i as int, assets@.len() as int), name@),
        decreases assets.len() - i,
    {
        let ghost rest = assets@.subrange(i as int, assets@.len() as int);
        let a = &assets[i];
        let hit = match &a.name {
            Some(n) => text_eq(n.as_str(), name),
            None => false,
        };
        if hit {
            assert(rest[0] == assets@[i as int]);
            return match &a.url {
                Some(u) => Some(u.clone()),
                None => None,
            };
        }
        assert(rest.drop_first() =~= assets@.subrange(i + 1, assets@.len() as int));
        i = i + 1;
    }
    None
}

/// Decides, from the parsed timestamps, whether to download and from where.
pub fn decide(
    release: &ReleaseInfo,
    local: Option<Timestamp>,
    remote: Option<Timestamp>,
    confirmed: bool,
    asset: &str,
) -> (r: Result<Decision, UpdateError>)
    ensures
        decision_view(r) == plan(assets_view(release.assets), local, remote, confirmed, asset@),
{
    if is_up_to_date(local, remote, confirmed) {
        return Ok(Decision::UpToDate);
    }
    match &release.assets {
        None => Err(UpdateError::NoAssets),
        Some(v) => match find_download_url(v, asset) {
            Some(u) => Ok(Decision::Download(u)),
            None => Err(UpdateError::AssetNotFound(String::from_str(asset))),
        },
    }
}

/// Decides from the release metadata and the release-time file's text.
pub fn decide_from_texts(
    release: &ReleaseInfo,
    local_text: Option<String>,
    confirmed: bool,
    asset: &str,
) -> (r: Result<Decision, UpdateError>)
    ensures
        decision_view(r) == plan(
            assets_view(release.assets),
            recorded_instant(opt_view(local_text)),
            match release.published_at {
                Some(p) => rfc3339_instant(p@),
                None => None,
            },
            confirmed,
            asset@,
        ),
{
    let local = match local_text {
        Some(s) => parse_timestamp(s.as_str()),
        None => None,
    };
    let remote = match &release.published_at {
        Some(p) => parse_rfc3339(p.as_str()),
        None => None,
    };
    decide(release, local, remote, confirmed, asset)
}

/// The last-check text for `now`.
pub fn check_record(now: Timestamp) -> (r: Result<String, UpdateError>)
    ensures
        match r {
            Ok(s) => rfc3339_text(now) == Some(s@),
            Err(e) => rfc3339_text(now) is None && e is TimeFormat,
        },
{
    match format_rfc3339(now) {
        Some(s) => Ok(s),
        None => Err(UpdateError::TimeFormat),
    }
}

/// The last-check text for the current time.
pub fn check_record_now() -> (r: Result<String, UpdateError>)
    ensures
        r matches Ok(s) ==> exists|now: Timestamp| rfc3339_text(now) == Some(s@),
        r matches Err(e) ==> e is TimeFormat,
{
    check_record(now_utc())
}

/// The texts to persist after a decision: the publish timestamp's text as the
/// release time only after a download, and `check_text` as the last-check time.
pub fn state_writes(decision: &Decision, published_at: &Option<String>, check_text: String) -> (r: Result<StateWrites, UpdateError>)
    ensures
        match decision {
            Decision::UpToDate => writes_view(r) == Some((None::<Seq<char>>, check_text@)),
            Decision::Download(_) => match published_at {
                Some(p) => writes_view(r) == Some((Some(p@), check_text@)),
                None => r matches Err(UpdateError::PublishedAtNotText),
            },
        },
{
    match decision {
        Decision::UpToDate => Ok(StateWrites { release_time: None, last_check: check_text }),
        Decision::Download(_) => match published_at {
            Some(p) => Ok(StateWrites { release_time: Some(p.clone()), last_check: check_text }),
            None => Err(UpdateError::PublishedAtNotText),
        },
    }
}

/// A check records the time it ran as its last-check text; when that text
/// reads back as that time, any check that starts within the cool-down
/// window after it is skipped, so it contacts no server.
pub proof fn lemma_second_check_skipped(first: Timestamp, record: Seq<char>, second: Timestamp)
    requires
        rfc3339_instant(trimmed(record)) == Some(first),
        first.unix_nanos <= second.unix_nanos < first.unix_nanos + COOL_DOWN_NANOS,
    ensures
        recently_checked(recorded_instant(Some(record)), second),
{
}

/// When the remote release is strictly newer than the recorded one, the
/// check never ends as up to date, whether or not the installed binary
/// answered: it downloads the named asset when the release has one.
pub proof fn lemma_newer_release_downloads(
    assets: Option<Seq<AssetEntry>>,
    local: Timestamp,
    remote: Timestamp,
    confirmed: bool,
    asset: Seq<char>,
)
    requires
        remote.unix_nanos > local.unix_nanos,
    ensures
        plan(assets, Some(local), Some(remote), confirmed, asset) == plan(assets, Some(local), Some(remote), false, asset),
        !(plan(assets, Some(local), Some(remote), confirmed, asset) is UpToDate),
        assets is Some && download_url(assets->0, asset) is Some ==> plan(assets, Some(local), Some(remote), confirmed, asset)
            == PlanView::Download(download_url(assets->0, asset)->0),
{
}

/// The asset downloaded is the first one that carries the platform's name:
/// its URL, when it has one.
pub proof fn lemma_first_named_asset(assets: Seq<AssetEntry>, i: int, name: Seq<char>)
    requires
        0 <= i < assets.len(),
        names(assets[i], name),
        forall|j: int| 0 <= j < i ==> !names(#[trigger] assets[j], name),
    ensures
        download_url(assets, name) == opt_view(assets[i].url),
    decreases i,
{
    if i > 0 {
        assert(!names(assets[0], name));
        let rest = assets.drop_first();
        assert forall|j: int| 0 <= j < i - 1 implies !names(#[trigger] rest[j], name) by {
            assert(rest[j] == assets[j + 1]);
        }
        lemma_first_named_asset(rest, i - 1, name);
    }
}

/// A binary that answered its version query and whose recorded release time
/// is at least the remote one is not downloaded again; only the last-check
/// time is written.
pub proof fn lemma_current_binary_kept(
    assets: Option<Seq<AssetEntry>>,
    local: Timestamp,
    remote: Timestamp,
    asset: Seq<char>,
)
    requires
        local.unix_nanos >= remote.unix_nanos,
    ensures
        plan(assets, Some(local), Some(remote), true, asset) == PlanView::UpToDate,
{
}

} // verus!
