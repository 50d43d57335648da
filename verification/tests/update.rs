use upx_tools::update::{
    check_update, download_and_install, feed_request, is_installer, launch_args, select_asset,
    Download, FeedReply, GitHubAsset, GitHubRelease, DOWNLOAD_DIR, GITHUB_REPO, TOKEN_VARIABLE,
    USER_AGENT,
};

fn asset(name: &str, size: u64) -> GitHubAsset {
    GitHubAsset {
        name: name.to_string(),
        browser_download_url: format!("https://example.invalid/{}", name),
        size,
    }
}

fn release(tag: &str, assets: Vec<GitHubAsset>) -> GitHubRelease {
    GitHubRelease {
        tag_name: tag.to_string(),
        html_url: "https://example.invalid/release".to_string(),
        name: "Release".to_string(),
        body: Some("notes".to_string()),
        published_at: "2024-01-01T00:00:00Z".to_string(),
        assets,
    }
}

fn pairs(request: &upx_tools::update::FeedRequest) -> Vec<(String, String)> {
    request.headers.iter().map(|h| (h.name.clone(), h.value.clone())).collect()
}

#[test]
fn names_of_the_feed() {
    assert_eq!(GITHUB_REPO, "Y-ASLant/UPX-Tools");
    assert_eq!(USER_AGENT, "UPX-Tools/1.0");
    assert_eq!(TOKEN_VARIABLE, "GITHUB_TOKEN");
    assert_eq!(DOWNLOAD_DIR, "upx-tools-update");
}

#[test]
fn request_without_a_token() {
    let expected = vec![
        ("Accept".to_string(), "application/vnd.github+json".to_string()),
        ("X-GitHub-Api-Version".to_string(), "2022-11-28".to_string()),
    ];
    let request = feed_request(None);
    assert_eq!(request.url, "https://api.github.com/repos/Y-ASLant/UPX-Tools/releases/latest");
    assert_eq!(pairs(&request), expected);
    assert_eq!(pairs(&feed_request(Some(""))), expected);
}

#[test]
fn request_with_a_token() {
    let request = feed_request(Some("abc123"));
    assert_eq!(
        pairs(&request),
        vec![
            ("Accept".to_string(), "application/vnd.github+json".to_string()),
            ("X-GitHub-Api-Version".to_string(), "2022-11-28".to_string()),
            ("Authorization".to_string(), "Bearer abc123".to_string()),
        ]
    );
}

#[test]
fn installers_are_told_by_their_names() {
    assert!(is_installer("UPX-Tools-1.2.0-portable.exe"));
    assert!(is_installer("UPX-Tools-1.2.0-setup.exe"));
    assert!(is_installer("-setup.exe"));
    assert!(!is_installer("setup.exe"));
    assert!(!is_installer("UPX-Tools-1.2.0-setup.exe.sig"));
    assert!(!is_installer("UPX-Tools-1.2.0-Setup.exe"));
    assert!(!is_installer("source.zip"));
    assert!(!is_installer(""));
}

#[test]
fn first_installer_is_selected() {
    assert_eq!(select_asset(&vec![]), None);
    assert_eq!(select_asset(&vec![asset("a.zip", 1), asset("b.tar.gz", 2)]), None);
    assert_eq!(
        select_asset(&vec![asset("a.zip", 1), asset("x-setup.exe", 2), asset("x-portable.exe", 3)]),
        Some(1)
    );
    assert_eq!(select_asset(&vec![asset("x-portable.exe", 3)]), Some(0));
}

#[test]
fn later_release_is_an_update() {
    let r = release("v1.2.0", vec![asset("a.zip", 1), asset("x-setup.exe", 20), asset("x-portable.exe", 30)]);
    let info = check_update(FeedReply::Release(r), "1.1.9").unwrap();
    assert!(info.has_update);
    assert_eq!(info.current_version, "v1.1.9");
    assert_eq!(info.latest_version, "v1.2.0");
    assert_eq!(info.release_url, "https://example.invalid/release");
    assert_eq!(info.release_name, "Release");
    assert_eq!(info.release_notes, "notes");
    assert_eq!(info.published_at, "2024-01-01T00:00:00Z");
    assert_eq!(info.download_url, Some("https://example.invalid/x-setup.exe".to_string()));
    assert_eq!(info.download_size, Some(20));
}

#[test]
fn same_release_is_no_update() {
    let info = check_update(FeedReply::Release(release("v1.2", vec![])), "1.2.0").unwrap();
    assert!(!info.has_update);
    let info = check_update(FeedReply::Release(release("1.2.0", vec![])), "v1.2.0").unwrap();
    assert!(!info.has_update);
    assert_eq!(info.current_version, "vv1.2.0");
    let info = check_update(FeedReply::Release(release("v1.1.0", vec![])), "1.2.0").unwrap();
    assert!(!info.has_update);
}

#[test]
fn release_without_installer_offers_no_download() {
    let mut r = release("v3.0.0", vec![asset("source.zip", 9)]);
    r.body = None;
    let info = check_update(FeedReply::Release(r), "1.2.0").unwrap();
    assert!(info.has_update);
    assert_eq!(info.release_notes, "");
    assert_eq!(info.download_url, None);
    assert_eq!(info.download_size, None);
}

#[test]
fn one_leading_v_is_dropped() {
    // "vv2.0" reads as the parts "v2" and "0": only the zero is a number
    let info = check_update(FeedReply::Release(release("vv2.0", vec![])), "0.0.1").unwrap();
    assert!(!info.has_update);
    let info = check_update(FeedReply::Release(release("v2.0", vec![])), "0.0.1").unwrap();
    assert!(info.has_update);
}

#[test]
fn failed_checks_say_why() {
    let cases = [
        (FeedReply::NoClient("x".to_string()), "创建 HTTP 客户端失败: x"),
        (FeedReply::Unreachable("timed out".to_string()), "网络请求失败: timed out"),
        (FeedReply::Refused("403 Forbidden".to_string()), "GitHub API 请求失败: 403 Forbidden"),
        (FeedReply::Malformed("eof".to_string()), "解析响应失败: eof"),
    ];
    for (reply, expected) in cases {
        match check_update(reply, "1.0.0") {
            Err(why) => assert_eq!(why, expected),
            Ok(_) => panic!("a failure was expected"),
        }
    }
}

#[test]
fn downloads_say_how_they_ended() {
    let cases = [
        (Download::NoClient("x".to_string()), Err("创建 HTTP 客户端失败: x")),
        (Download::Unreachable("x".to_string()), Err("下载失败: x")),
        (Download::Refused("404 Not Found".to_string()), Err("下载失败: HTTP 404 Not Found")),
        (Download::Unreadable("x".to_string()), Err("读取下载内容失败: x")),
        (Download::NoDirectory("x".to_string()), Err("创建临时目录失败: x")),
        (Download::NotSaved("x".to_string()), Err("保存文件失败: x")),
        (Download::NotStarted("x".to_string()), Err("启动安装程序失败: x")),
        (Download::Started("C:\\tmp\\setup.exe".to_string()), Ok("C:\\tmp\\setup.exe")),
    ];
    for (download, expected) in cases {
        let expected = expected.map(|s: &str| s.to_string()).map_err(|s: &str| s.to_string());
        assert_eq!(download_and_install(download), expected);
    }
}

#[test]
fn installer_is_started_through_the_shell() {
    assert_eq!(launch_args("C:\\tmp\\x-setup.exe"), vec!["/C", "start", "", "C:\\tmp\\x-setup.exe"]);
}
