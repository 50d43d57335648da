//! The update check: what is asked of the release feed, and what its answer
//! means for the running version.

use crate::decode::result_text;
use crate::text::{chars_of, glue, has_suffix, texts};
use crate::version::{components, later_version, newer};
use vstd::prelude::*;
use vstd::slice::slice_subrange;

verus! {

/// The repository whose releases are watched.
pub const GITHUB_REPO: &'static str = "Y-ASLant/UPX-Tools";

/// The name under which requests are sent.
pub const USER_AGENT: &'static str = "UPX-Tools/1.0";

/// The environment variable that may hold a token for the feed.
pub const TOKEN_VARIABLE: &'static str = "GITHUB_TOKEN";

/// A file attached to a release.
#[derive(Debug, PartialEq, Eq)]
pub struct GitHubAsset {
    pub name: String,
    pub browser_download_url: String,
    pub size: u64,
}

/// A release as the feed describes it.
#[derive(Debug, PartialEq, Eq)]
pub struct GitHubRelease {
    pub tag_name: String,
    pub html_url: String,
    pub name: String,
    pub body: Option<String>,
    pub published_at: String,
    pub assets: Vec<GitHubAsset>,
}

/// What the update check reports.
#[derive(Debug, PartialEq, Eq)]
pub struct UpdateInfo {
    pub has_update: bool,
    pub current_version: String,
    pub latest_version: String,
    pub release_url: String,
    pub release_name: String,
    pub release_notes: String,
    pub published_at: String,
    pub download_url: Option<String>,
    pub download_size: Option<u64>,
}

/// One header of a request.
#[derive(Debug, PartialEq, Eq)]
pub struct Header {
    pub name: String,
    pub value: String,
}

/// A request to the release feed.
#[derive(Debug, PartialEq, Eq)]
pub struct FeedRequest {
    pub url: String,
    pub headers: Vec<Header>,
}

/// How asking the feed ended.
#[derive(Debug, PartialEq, Eq)]
pub enum FeedReply {
    /// No client could be made; the cause.
    NoClient(String),
    /// The request could not be sent; the cause.
    Unreachable(String),
    /// The feed answered with a status other than success; the status.
    Refused(String),
    /// The answer could not be read as a release; the cause.
    Malformed(String),
    /// The latest release.
    Release(GitHubRelease),
}

/// The address of the latest release of the repository.
pub open spec fn feed_url() -> Seq<char> {
    "https://api.github.com/repos/"@ + GITHUB_REPO@ + "/releases/latest"@
}

/// Names and values of a list of headers.
pub open spec fn header_pairs(headers: Seq<Header>) -> Seq<(Seq<char>, Seq<char>)> {
    headers.map_values(|h: Header| (h.name@, h.value@))
}

/// The headers of a request to the feed: two that are always sent, and the
/// token as a bearer authorization where there is one and it is not empty.
pub open spec fn feed_headers(token: Option<&str>) -> Seq<(Seq<char>, Seq<char>)> {
    let fixed = seq![
        ("Accept"@, "application/vnd.github+json"@),
        ("X-GitHub-Api-Version"@, "2022-11-28"@),
    ];
    match token {
        Some(t) => if t@.len() > 0 {
            fixed.push(("Authorization"@, "Bearer "@ + t@))
        } else {
            fixed
        },
        None => fixed,
    }
}

/// `version` without the `v` that may stand before it.
pub open spec fn without_v(version: Seq<char>) -> Seq<char> {
    if version.len() > 0 && version[0] == 'v' {
        version.skip(1)
    } else {
        version
    }
}

/// Whether a file of this name is offered for download: a portable build or
/// an installer.
pub open spec fn is_installer_name(name: Seq<char>) -> bool {
    "-portable.exe"@.is_suffix_of(name) || "-setup.exe"@.is_suffix_of(name)
}

/// The place of the first asset that is offered for download, if there is one.
pub open spec fn first_installer(assets: Seq<GitHubAsset>) -> Option<int>
    decreases assets.len(),
{
    if assets.len() == 0 {
        None
    } else if is_installer_name(assets[0].name@) {
        Some(0)
    } else {
        match first_installer(assets.skip(1)) {
            Some(i) => Some(i + 1),
            None => None,
        }
    }
}

/// Whether `info` is the report on `release` for the running version `current`.
pub open spec fn reports(info: UpdateInfo, release: GitHubRelease, current: Seq<char>) -> bool {
    &&& info.has_update == newer(
        components(without_v(release.tag_name@)),
        components(without_v(current)),
    )
    &&& info.current_version@ == "v"@ + current
    &&& info.latest_version@ == release.tag_name@
    &&& info.release_url@ == release.html_url@
    &&& info.release_name@ == release.name@
    &&& info.release_notes@ == match release.body {
        Some(notes) => notes@,
        None => Seq::empty(),
    }
    &&& info.published_at@ == release.published_at@
    &&& match first_installer(release.assets@) {
        Some(i) => {
            &&& info.download_url matches Some(url)
            &&& url@ == release.assets@[i].browser_download_url@
            &&& info.download_size == Some(release.assets@[i].size)
        },
        None => info.download_url is None && info.download_size is None,
    }
}

/// Why an update check failed, for a reply that holds no release.
pub open spec fn feed_failure(reply: FeedReply) -> Seq<char> {
    match reply {
        FeedReply::NoClient(cause) => "创建 HTTP 客户端失败: "@ + cause@,
        FeedReply::Unreachable(cause) => "网络请求失败: "@ + cause@,
        FeedReply::Refused(status) => "GitHub API 请求失败: "@ + status@,
        FeedReply::Malformed(cause) => "解析响应失败: "@ + cause@,
        FeedReply::Release(_) => Seq::empty(),
    }
}

/// The first asset offered for download is the first with such a name, and
/// there is none exactly when no asset has such a name.
pub proof fn lemma_first_installer(assets: Seq<GitHubAsset>)
    ensures
        match first_installer(assets) {
            Some(i) => {
                &&& 0 <= i < assets.len()
                &&& is_installer_name(assets[i].name@)
                &&& forall|j: int| 0 <= j < i ==> !is_installer_name(#[trigger] assets[j].name@)
            },
            None => forall|j: int|
                0 <= j < assets.len() ==> !is_installer_name(#[trigger] assets[j].name@),
        },
    decreases assets.len(),
{
    if assets.len() > 0 && !is_installer_name(assets[0].name@) {
        let rest = assets.skip(1);
        lemma_first_installer(rest);
        match first_installer(rest) {
            Some(i) => {
                assert forall|j: int| 0 <= j < i + 1 implies !is_installer_name(
                    #[trigger] assets[j].name@,
                ) by {
                    if j > 0 {
                        assert(!is_installer_name(rest[j - 1].name@));
                    }
                }
            },
            None => {
                assert forall|j: int| 0 <= j < assets.len() implies !is_installer_name(
                    #[trigger] assets[j].name@,
                ) by {
                    if j > 0 {
                        assert(!is_installer_name(rest[j - 1].name@));
                    }
                }
            },
        }
    }
}

/// The request that asks the feed for the latest release.
pub fn feed_request(token: Option<&str>) -> (request: FeedRequest)
    ensures
        request.url@ == feed_url(),
        header_pairs(request.headers@) == feed_headers(token),
{
    let url = glue("https://api.github.com/repos/", GITHUB_REPO).concat("/releases/latest");
    let mut headers: Vec<Header> = Vec::new();
    headers.push(
        Header {
            name: String::from_str("Accept"),
            value: String::from_str("application/vnd.github+json"),
        },
    );
    headers.push(
        Header {
            name: String::from_str("X-GitHub-Api-Version"),
            value: String::from_str("2022-11-28"),
        },
    );
    if let Some(t) = token {
        if t.unicode_len() > 0 {
            headers.push(
                Header { name: String::from_str("Authorization"), value: glue("Bearer ", t) },
            );
        }
    }
    FeedRequest { url, headers }
}

/// Tells whether a file of this name is offered for download.
pub fn is_installer(name: &str) -> (b: bool)
    ensures
        b == is_installer_name(name@),
{
    let chars = chars_of(name);
    let portable = chars_of("-portable.exe");
    let setup = chars_of("-setup.exe");
    has_suffix(chars.as_slice(), portable.as_slice()) || has_suffix(
        chars.as_slice(),
        setup.as_slice(),
    )
}

/// The place of the first asset that is offered for download.
pub fn select_asset(assets: &Vec<GitHubAsset>) -> (found: Option<usize>)
    ensures
        match found {
            Some(i) => first_installer(assets@) == Some(i as int),
            None => first_installer(assets@) is None,
        },
{
    let mut i: usize = 0;
    assert(assets@.skip(0) == assets@);
    while i < assets.len()
        invariant
            i <= assets@.len(),
            first_installer(assets@) == match first_installer(assets@.skip(i as int)) {
                Some(k) => Some(k + i),
                None => None,
            },
        decreases assets@.len() - i,
    {
        proof {
            assert(assets@.skip(i as int).skip(1) == assets@.skip(i + 1));
        }
        if is_installer(assets[i].name.as_str()) {
            return Some(i);
        }
        i += 1;
    }
    None
}

/// The characters of a version without the `v` that may stand before them.
fn strip_v(version: &[char]) -> (rest: &[char])
    ensures
        rest@ == without_v(version@),
{
    if version.len() > 0 && version[0] == 'v' {
        slice_subrange(version, 1, version.len())
    } else {
        version
    }
}

/// What the answer of the feed means for the running version `current_version`.
/// A release is reported on: whether it is later than the running version,
/// and the first of its assets that is offered for download, if there is one.
/// Any other reply is the failure it describes.
pub fn check_update(reply: FeedReply, current_version: &str) -> (result: Result<
    UpdateInfo,
    String,
>)
    ensures
        match reply {
            FeedReply::Release(release) => result matches Ok(info) && reports(
                info,
                release,
                current_version@,
            ),
            _ => result matches Err(why) && why@ == feed_failure(reply),
        },
{
    match reply {
        FeedReply::NoClient(cause) => Err(glue("创建 HTTP 客户端失败: ", cause.as_str())),
        FeedReply::Unreachable(cause) => Err(glue("网络请求失败: ", cause.as_str())),
        FeedReply::Refused(status) => Err(glue("GitHub API 请求失败: ", status.as_str())),
        FeedReply::Malformed(cause) => Err(glue("解析响应失败: ", cause.as_str())),
        FeedReply::Release(release) => {
            let latest = chars_of(release.tag_name.as_str());
            let current = chars_of(current_version);
            let has_update = later_version(strip_v(latest.as_slice()), strip_v(current.as_slice()));
            let found = select_asset(&release.assets);
            let (download_url, download_size) = match found {
                Some(i) => {
                    proof {
                        lemma_first_installer(release.assets@);
                    }
                    (
                        Some(release.assets[i].browser_download_url.clone()),
                        Some(release.assets[i].size),
                    )
                },
                None => (None, None),
            };
            let release_notes = match release.body {
                Some(notes) => notes,
                None => String::new(),
            };
            Ok(
                UpdateInfo {
                    has_update,
                    current_version: glue("v", current_version),
                    latest_version: release.tag_name,
                    release_url: release.html_url,
                    release_name: release.name,
                    release_notes,
                    published_at: release.published_at,
                    download_url,
                    download_size,
                },
            )
        },
    }
}

/// The directory below the system's temporary directory that a download is
/// kept in.
pub const DOWNLOAD_DIR: &'static str = "upx-tools-update";

/// How fetching and starting an installer ended.
#[derive(Debug, PartialEq, Eq)]
pub enum Download {
    /// No client could be made; the cause.
    NoClient(String),
    /// The request could not be sent; the cause.
    Unreachable(String),
    /// The server answered with a status other than success; the status.
    Refused(String),
    /// The answer could not be read to its end; the cause.
    Unreadable(String),
    /// The directory for the download could not be made; the cause.
    NoDirectory(String),
    /// The file could not be written; the cause.
    NotSaved(String),
    /// The installer could not be started; the cause.
    NotStarted(String),
    /// The installer runs; where its file lies.
    Started(String),
}

/// What fetching and starting an installer came to: where the file lies, or
/// why there is none.
pub open spec fn installed_from(download: Download) -> Result<Seq<char>, Seq<char>> {
    match download {
        Download::NoClient(cause) => Err("创建 HTTP 客户端失败: "@ + cause@),
        Download::Unreachable(cause) => Err("下载失败: "@ + cause@),
        Download::Refused(status) => Err("下载失败: HTTP "@ + status@),
        Download::Unreadable(cause) => Err("读取下载内容失败: "@ + cause@),
        Download::NoDirectory(cause) => Err("创建临时目录失败: "@ + cause@),
        Download::NotSaved(cause) => Err("保存文件失败: "@ + cause@),
        Download::NotStarted(cause) => Err("启动安装程序失败: "@ + cause@),
        Download::Started(path) => Ok(path@),
    }
}

/// The arguments that the command interpreter starts the installer with.
pub open spec fn launch_tokens(path: Seq<char>) -> Seq<Seq<char>> {
    seq!["/C"@, "start"@, ""@, path]
}

/// The arguments that the command interpreter starts the installer with.
pub fn launch_args(path: &str) -> (args: Vec<String>)
    ensures
        texts(args@) == launch_tokens(path@),
{
    let mut args: Vec<String> = Vec::new();
    args.push(String::from_str("/C"));
    args.push(String::from_str("start"));
    args.push(String::from_str(""));
    args.push(String::from_str(path));
    args
}

/// What fetching and starting an installer came to, from how it ended.
pub fn download_and_install(download: Download) -> (result: Result<String, String>)
    ensures
        result_text(result) == installed_from(download),
{
    match download {
        Download::NoClient(cause) => Err(glue("创建 HTTP 客户端失败: ", cause.as_str())),
        Download::Unreachable(cause) => Err(glue("下载失败: ", cause.as_str())),
        Download::Refused(status) => Err(glue("下载失败: HTTP ", status.as_str())),
        Download::Unreadable(cause) => Err(glue("读取下载内容失败: ", cause.as_str())),
        Download::NoDirectory(cause) => Err(glue("创建临时目录失败: ", cause.as_str())),
        Download::NotSaved(cause) => Err(glue("保存文件失败: ", cause.as_str())),
        Download::NotStarted(cause) => Err(glue("启动安装程序失败: ", cause.as_str())),
        Download::Started(path) => Ok(path),
    }
}

} // verus!
