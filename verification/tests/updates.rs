use witchops::commands::updates::{
    check_app_update, is_later, is_success_status, parse_version, release_reply, release_request,
    update_available, GithubRelease, ReleaseReply,
};
use witchops::error::AppError;

#[test]
fn parse_version_handles_common_forms() {
    assert_eq!(parse_version("0.1.0"), Some((0, 1, 0)));
    assert_eq!(parse_version("v0.1.0"), Some((0, 1, 0)));
    assert_eq!(parse_version("V1.2.3"), Some((1, 2, 3)));
    assert_eq!(parse_version("0.1"), Some((0, 1, 0)));
    assert_eq!(parse_version("2"), Some((2, 0, 0)));
    assert_eq!(parse_version(""), None);
    assert_eq!(parse_version("abc"), None);
    assert_eq!(parse_version("0.1.x"), None);
    assert_eq!(parse_version("0.1.0.1"), None);
}

#[test]
fn newer_version_detected() {
    let cur = parse_version("0.1.0").unwrap();
    assert!(parse_version("0.1.1").unwrap() > cur);
    assert!(parse_version("0.2.0").unwrap() > cur);
    assert!(parse_version("v1.0.0").unwrap() > cur);
    assert!(!(parse_version("0.1.0").unwrap() > cur));
    assert!(!(parse_version("0.0.9").unwrap() > cur));
}

#[test]
fn parse_version_handles_odd_forms() {
    assert_eq!(parse_version("  v1.2 \n"), Some((1, 2, 0)));
    assert_eq!(parse_version("v"), None);
    assert_eq!(parse_version("vv1"), None);
    assert_eq!(parse_version("v 1"), None);
    assert_eq!(parse_version("1."), None);
    assert_eq!(parse_version(".1"), None);
    assert_eq!(parse_version("1..2"), None);
    assert_eq!(parse_version("1.2.3."), None);
    assert_eq!(parse_version("+1.+2"), Some((1, 2, 0)));
    assert_eq!(parse_version("1.-2"), None);
    assert_eq!(parse_version("01.002"), Some((1, 2, 0)));
    assert_eq!(
        parse_version("18446744073709551615.0.1"),
        Some((18446744073709551615, 0, 1))
    );
    assert_eq!(parse_version("18446744073709551616"), None);
}

#[test]
fn version_order_agrees_with_tuples() {
    let versions = [(0, 0, 9), (0, 1, 0), (0, 1, 1), (0, 2, 0), (1, 0, 0), (1, 0, u64::MAX)];
    for a in versions {
        assert!(!is_later(a, a));
        for b in versions {
            assert_eq!(is_later(a, b), a > b);
        }
    }
}

#[test]
fn updates_are_one_way() {
    assert!(update_available("0.1.0", "0.1.1"));
    assert!(!update_available("0.1.1", "0.1.0"));
    assert!(!update_available("0.1.0", "0.1.0"));
    assert!(!update_available("0.1", "0.1.0"));
    assert!(!update_available("nightly", "9.9.9"));
    assert!(!update_available("0.1.0", "nightly"));
}

fn release(tag: &str, url: &str) -> ReleaseReply {
    ReleaseReply::Release(GithubRelease {
        tag_name: tag.to_string(),
        html_url: url.to_string(),
        published_at: Some("2025-01-01T00:00:00Z".to_string()),
    })
}

const PAGE: &str = "https://github.com/witchscottishfoldcat/WitchOps/releases/tag/v0.2.0";

#[test]
fn a_newer_release_is_reported() {
    let r = check_app_update("0.1.0", release("v0.2.0", PAGE)).unwrap();
    assert_eq!(r.current_version, "0.1.0");
    assert_eq!(r.latest_tag, "v0.2.0");
    assert_eq!(r.latest_version, "0.2.0");
    assert_eq!(r.release_url, PAGE);
    assert_eq!(r.published_at.as_deref(), Some("2025-01-01T00:00:00Z"));
    assert!(r.update_available);
}

#[test]
fn the_same_release_is_no_update() {
    let r = check_app_update("0.1.0", release("v0.1.0", PAGE)).unwrap();
    assert!(!r.update_available);
    let r = check_app_update("0.1.0", release("V0.2.0", PAGE)).unwrap();
    assert_eq!(r.latest_version, "V0.2.0");
    assert!(r.update_available);
    let r = check_app_update("0.1.0", release("", PAGE)).unwrap();
    assert_eq!(r.latest_version, "");
    assert!(!r.update_available);
}

fn internal(reply: ReleaseReply) -> String {
    match check_app_update("0.1.0", reply) {
        Err(AppError::Internal(text)) => text,
        other => panic!("unexpected: {other:?}"),
    }
}

#[test]
fn foreign_release_pages_are_refused() {
    for url in [
        "https://example.com/",
        "https://github.com/witchscottishfoldcat/WitchOps",
        "http://github.com/witchscottishfoldcat/WitchOps/",
        "",
    ] {
        assert_eq!(internal(release("v9.0.0", url)), "GitHub 返回的发布页地址异常");
    }
}

#[test]
fn failures_of_the_feed_are_reported() {
    assert_eq!(
        internal(ReleaseReply::NoClient("tls".to_string())),
        "构建 HTTP 客户端失败: tls"
    );
    assert_eq!(
        internal(ReleaseReply::NoAnswer("timeout".to_string())),
        "请求 GitHub Releases 失败: timeout"
    );
    assert_eq!(
        internal(ReleaseReply::Refused("403 Forbidden".to_string())),
        "GitHub API 返回 403 Forbidden(可能是限流,稍后再试)"
    );
    assert_eq!(
        internal(ReleaseReply::Unreadable("EOF".to_string())),
        "解析 GitHub 响应失败: EOF"
    );
}

#[test]
fn only_the_two_hundreds_are_success() {
    assert!(!is_success_status(199));
    assert!(is_success_status(200));
    assert!(is_success_status(299));
    assert!(!is_success_status(300));
    assert!(!is_success_status(403));
}

#[test]
fn the_release_feed_is_asked_by_name() {
    let r = release_request("0.1.0");
    assert_eq!(
        r.url,
        "https://api.github.com/repos/witchscottishfoldcat/WitchOps/releases/latest"
    );
    assert_eq!(r.user_agent, "WitchcatOps/0.1.0");
    assert_eq!(r.accept, "application/vnd.github+json");
    assert_eq!(r.timeout_seconds, 10);
}

#[test]
fn a_missing_segment_is_zero() {
    for s in ["2", "0.1", " v3", "V4.5"] {
        assert_eq!(parse_version(&format!("{s}.0")), parse_version(s));
        assert!(parse_version(s).is_some());
    }
    for s in ["", "v", " ", "x", "1.x", "1 x ", "1.2.3.4", "1.2."] {
        assert_eq!(parse_version(s), None);
        assert_eq!(parse_version(&format!("{s}.0")), None);
    }
    assert_eq!(parse_version("0.1 "), Some((0, 1, 0)));
    assert_eq!(parse_version("0.1 .0"), None);
}

#[test]
fn a_leading_v_makes_no_difference() {
    for s in ["1.2.3", "1 ", "", "x", "vx", " x", "1.2.3.4"] {
        assert_eq!(parse_version(&format!("v{s}")), parse_version(s));
        assert_eq!(parse_version(&format!("V{s}")), parse_version(s));
    }
}

#[test]
fn written_versions_are_read_back() {
    for (a, b, c) in [(0, 0, 0), (1, 20, 300), (u64::MAX, 0, u64::MAX)] {
        assert_eq!(parse_version(&format!("{a}.{b}.{c}")), Some((a, b, c)));
    }
}

#[test]
fn a_status_decides_whether_the_body_counts() {
    let found = || GithubRelease {
        tag_name: "v1".to_string(),
        html_url: PAGE.to_string(),
        published_at: None,
    };
    let reply = |code: u16, body| release_reply(code, format!("status {code}"), body);
    assert!(matches!(reply(200, Some(Ok(found()))), ReleaseReply::Release(r) if r.tag_name == "v1"));
    assert!(matches!(
        reply(299, Some(Err("EOF".to_string()))),
        ReleaseReply::Unreadable(why) if why == "EOF"
    ));
    assert!(matches!(reply(403, None), ReleaseReply::Refused(s) if s == "status 403"));
    assert!(matches!(reply(300, Some(Ok(found()))), ReleaseReply::Refused(s) if s == "status 300"));
    assert!(matches!(reply(199, None), ReleaseReply::Refused(_)));
}
