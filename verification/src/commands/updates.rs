//! Checking for a newer release of the application.
//!
//! The release feed is asked from outside; the request to send, the reading of version numbers and
//! the decision whether a release is an update are here.
use vstd::prelude::*;
use vstd::string::*;

use crate::decimal::{
    decimal, is_digit, is_digits, law_decimal_reads_back, law_u64_round_trip, read_u64, strip_plus,
    u64_of,
};
use crate::error::{AppError, AppResult, ErrorView};
use crate::text::{
    chars_of, find_char, has_prefix, is_blank, law_blank_trims_to_nothing, law_split_concat,
    law_split_single, law_trim_ignores_surrounding_blanks, lemma_first_index, lemma_split_last,
    lemma_trim_start_blank, lemma_trim_start_concat, split, trim, trim_bounds, trim_end, trim_start,
    white_space,
};

verus! {

/// What the user is told about the latest release.
#[derive(Debug)]
pub struct UpdateCheckResult {
    pub current_version: String,
    pub latest_tag: String,
    pub latest_version: String,
    pub release_url: String,
    pub published_at: Option<String>,
    pub update_available: bool,
}

/// What the release feed says about the latest release.
#[derive(Debug)]
pub struct GithubRelease {
    pub tag_name: String,
    pub html_url: String,
    pub published_at: Option<String>,
}

/// `s` without one leading `v` or `V`.
pub open spec fn strip_v(s: Seq<char>) -> Seq<char> {
    if s.len() > 0 && (s[0] == 'v' || s[0] == 'V') {
        s.skip(1)
    } else {
        s
    }
}

/// The number in segment `i` of a version, or 0 when the version has no such segment.
pub open spec fn segment(parts: Seq<Seq<char>>, i: int) -> u64 {
    if i < parts.len() {
        u64_of(parts[i])->0
    } else {
        0
    }
}

/// The version that `tag` names: one to three dot-separated numbers, with white space around them
/// and one leading `v` or `V` tolerated. Missing segments count as 0.
pub open spec fn version_of(tag: Seq<char>) -> Option<(u64, u64, u64)> {
    let parts = split(strip_v(trim(tag)), '.');
    if parts.len() <= 3 && forall|i: int|
        0 <= i < parts.len() ==> u64_of(#[trigger] parts[i]) is Some {
        Some((segment(parts, 0), segment(parts, 1), segment(parts, 2)))
    } else {
        None
    }
}

/// Reads a version number.
pub fn parse_version(tag: &str) -> (r: Option<(u64, u64, u64)>)
    ensures
        r == version_of(tag@),
{
    let v = chars_of(tag);
    let (start, hi) = trim_bounds(&v);
    let lo: usize = if start < hi && (v[start] == 'v' || v[start] == 'V') {
        start + 1
    } else {
        start
    };
    let ghost raw = strip_v(trim(tag@));
    assert(raw =~= v@.subrange(lo as int, hi as int));
    let ghost parts = split(raw, '.');
    let mut major: u64 = 0;
    let mut minor: u64 = 0;
    let mut patch: u64 = 0;
    let mut count: usize = 0;
    let mut pos: usize = lo;
    let mut done: bool = false;
    assert(parts.skip(0) =~= parts);
    while !done && count < 3
        invariant
            v@ == tag@,
            parts == split(strip_v(trim(tag@)), '.'),
            lo <= pos <= hi <= v@.len(),
            count <= 3,
            count <= parts.len(),
            done ==> count == parts.len(),
            !done ==> count < parts.len() && parts.skip(count as int) == split(
                v@.subrange(pos as int, hi as int),
                '.',
            ),
            forall|i: int| 0 <= i < count ==> u64_of(#[trigger] parts[i]) is Some,
            major == if count > 0 { segment(parts, 0) } else { 0 },
            minor == if count > 1 { segment(parts, 1) } else { 0 },
            patch == if count > 2 { segment(parts, 2) } else { 0 },
        decreases 3 - count,
    {
        let dot = find_char(&v, pos, hi, '.');
        let ghost rest = v@.subrange(pos as int, hi as int);
        let ghost tail = parts.skip(count as int);
        assert(tail[0] == parts[count as int]);
        assert(v@.subrange(pos as int, dot as int) =~= parts[count as int]) by {
            assert(rest.take(dot - pos) =~= v@.subrange(pos as int, dot as int));
            if dot == hi {
                assert(rest =~= v@.subrange(pos as int, dot as int));
            }
        }
        match read_u64(&v, pos, dot) {
            None => {
                return None;
            },
            Some(n) => {
                if count == 0 {
                    major = n;
                } else if count == 1 {
                    minor = n;
                } else {
                    patch = n;
                }
            },
        }
        proof {
            assert(parts.skip(count + 1) =~= tail.skip(1));
            if dot < hi {
                assert(rest.skip(dot - pos + 1) =~= v@.subrange(dot + 1, hi as int));
                assert(tail.skip(1) =~= split(v@.subrange(dot + 1, hi as int), '.'));
            }
        }
        count += 1;
        if dot < hi {
            pos = dot + 1;
        } else {
            done = true;
        }
    }
    if !done {
        return None;
    }
    Some((major, minor, patch))
}

/// Where the latest release is asked for.
pub const RELEASES_API_URL: &'static str = "https://api.github.com/repos/witchscottishfoldcat/WitchOps/releases/latest";

/// What the address of a release page has to start with.
pub const RELEASE_PAGES: &'static str = "https://github.com/witchscottishfoldcat/WitchOps/";

/// How long to wait for the release feed, in seconds.
pub const TIMEOUT_SECONDS: u64 = 10;

/// The request to the release feed.
#[derive(Debug)]
pub struct ReleaseRequest {
    pub url: String,
    pub user_agent: String,
    pub accept: String,
    pub timeout_seconds: u64,
}

/// The request that asks for the latest release on behalf of version `current` of the application.
pub fn release_request(current: &str) -> (r: ReleaseRequest)
    ensures
        r.url@ == RELEASES_API_URL@,
        r.user_agent@ == "WitchcatOps/"@ + current@,
        r.accept@ == "application/vnd.github+json"@,
        r.timeout_seconds == TIMEOUT_SECONDS,
{
    ReleaseRequest {
        url: RELEASES_API_URL.to_owned(),
        user_agent: "WitchcatOps/".to_owned().concat(current),
        accept: "application/vnd.github+json".to_owned(),
        timeout_seconds: TIMEOUT_SECONDS,
    }
}

/// Whether an HTTP status code reports success. The body of any other answer is not read.
pub fn is_success_status(code: u16) -> (r: bool)
    ensures
        r == (200 <= code < 300),
{
    200 <= code && code < 300
}

/// What came of asking for the latest release. The texts say what went wrong.
#[derive(Debug)]
pub enum ReleaseReply {
    /// The HTTP client could not be built.
    NoClient(String),
    /// The request could not be sent or was not answered.
    NoAnswer(String),
    /// The answer carries this status, which is none of success.
    Refused(String),
    /// The answer could not be read.
    Unreadable(String),
    /// The answer.
    Release(GithubRelease),
}

/// What a status and a body mean. The body is read, or found unreadable, only where the status
/// reports success.
pub fn release_reply(
    code: u16,
    status: String,
    body: Option<Result<GithubRelease, String>>,
) -> (r: ReleaseReply)
    requires
        200 <= code < 300 ==> body is Some,
    ensures
        r == if !(200 <= code < 300) {
            ReleaseReply::Refused(status)
        } else {
            match body->0 {
                Ok(release) => ReleaseReply::Release(release),
                Err(why) => ReleaseReply::Unreadable(why),
            }
        },
{
    if !is_success_status(code) {
        return ReleaseReply::Refused(status);
    }
    match body {
        Some(Ok(release)) => ReleaseReply::Release(release),
        Some(Err(why)) => ReleaseReply::Unreadable(why),
        None => ReleaseReply::Refused(status),
    }
}

/// `s` without one leading `v`.
pub open spec fn strip_small_v(s: Seq<char>) -> Seq<char> {
    if s.len() > 0 && s[0] == 'v' {
        s.skip(1)
    } else {
        s
    }
}

/// Whether version `a` is later than version `b`: the first segment in which they differ decides.
pub open spec fn later(a: (u64, u64, u64), b: (u64, u64, u64)) -> bool {
    a.0 > b.0 || a.0 == b.0 && (a.1 > b.1 || a.1 == b.1 && a.2 > b.2)
}

/// Whether `latest` is an update for `current`. Text that names no version never is one, nor does
/// it have one.
pub open spec fn is_update(current: Seq<char>, latest: Seq<char>) -> bool {
    match (version_of(current), version_of(latest)) {
        (Some(c), Some(l)) => later(l, c),
        _ => false,
    }
}

/// The error for a reply, if it does not describe a release on a page of this project.
pub open spec fn reply_error(reply: ReleaseReply) -> Option<ErrorView> {
    match reply {
        ReleaseReply::NoClient(why) => Some(
            ErrorView::Internal("构建 HTTP 客户端失败: "@ + why@),
        ),
        ReleaseReply::NoAnswer(why) => Some(
            ErrorView::Internal("请求 GitHub Releases 失败: "@ + why@),
        ),
        ReleaseReply::Refused(status) => Some(
            ErrorView::Internal("GitHub API 返回 "@ + status@ + "(可能是限流,稍后再试)"@),
        ),
        ReleaseReply::Unreadable(why) => Some(
            ErrorView::Internal("解析 GitHub 响应失败: "@ + why@),
        ),
        ReleaseReply::Release(release) => if RELEASE_PAGES@.is_prefix_of(release.html_url@) {
            None
        } else {
            Some(ErrorView::Internal("GitHub 返回的发布页地址异常"@))
        },
    }
}

/// Compares versions.
pub fn is_later(a: (u64, u64, u64), b: (u64, u64, u64)) -> (r: bool)
    ensures
        r == later(a, b),
{
    if a.0 != b.0 {
        a.0 > b.0
    } else if a.1 != b.1 {
        a.1 > b.1
    } else {
        a.2 > b.2
    }
}

/// Whether `latest` is an update for `current`.
pub fn update_available(current: &str, latest: &str) -> (r: bool)
    ensures
        r == is_update(current@, latest@),
{
    match (parse_version(current), parse_version(latest)) {
        (Some(c), Some(l)) => is_later(l, c),
        _ => false,
    }
}

/// What the user is told after the latest release was asked for. A release whose page is not one of
/// this project is not trusted.
pub fn check_app_update(current: &str, reply: ReleaseReply) -> (r: AppResult<UpdateCheckResult>)
    ensures
        r is Ok <==> reply_error(reply) is None,
        r matches Err(e) ==> reply_error(reply) == Some(e@),
        r matches Ok(u) ==> {
            let release = reply->Release_0;
            &&& u.current_version@ == current@
            &&& u.latest_tag@ == release.tag_name@
            &&& u.latest_version@ == strip_small_v(release.tag_name@)
            &&& u.release_url@ == release.html_url@
            &&& u.published_at == release.published_at
            &&& u.update_available == is_update(current@, strip_small_v(release.tag_name@))
        },
{
    let release = match reply {
        ReleaseReply::NoClient(why) => {
            return Err(
                AppError::Internal("构建 HTTP 客户端失败: ".to_owned().concat(why.as_str())),
            );
        },
        ReleaseReply::NoAnswer(why) => {
            return Err(
                AppError::Internal("请求 GitHub Releases 失败: ".to_owned().concat(why.as_str())),
            );
        },
        ReleaseReply::Refused(status) => {
            return Err(
                AppError::Internal(
                    "GitHub API 返回 ".to_owned().concat(status.as_str()).concat(
                        "(可能是限流,稍后再试)",
                    ),
                ),
            );
        },
        ReleaseReply::Unreadable(why) => {
            return Err(
                AppError::Internal("解析 GitHub 响应失败: ".to_owned().concat(why.as_str())),
            );
        },
        ReleaseReply::Release(release) => release,
    };
    if !has_prefix(release.html_url.as_str(), RELEASE_PAGES) {
        return Err(AppError::Internal("GitHub 返回的发布页地址异常".to_owned()));
    }
    let tag = release.tag_name.as_str();
    let length = tag.unicode_len();
    let latest = if length > 0 && tag.get_char(0) == 'v' {
        tag.substring_char(1, length).to_owned()
    } else {
        tag.to_owned()
    };
    assert(latest@ =~= strip_small_v(release.tag_name@));
    let available = update_available(current, latest.as_str());
    Ok(
        UpdateCheckResult {
            current_version: current.to_owned(),
            latest_tag: release.tag_name,
            latest_version: latest,
            release_url: release.html_url,
            published_at: release.published_at,
            update_available: available,
        },
    )
}

/// Being later is a strict total order on versions.
pub proof fn law_later_is_a_strict_total_order(
    a: (u64, u64, u64),
    b: (u64, u64, u64),
    c: (u64, u64, u64),
)
    ensures
        !later(a, a),
        later(a, b) ==> !later(b, a),
        later(a, b) && later(b, c) ==> later(a, c),
        a == b || later(a, b) || later(b, a),
{
}

/// No text is an update for itself, two texts are never updates for each other, and text that names
/// no version takes part in no update.
pub proof fn law_updates_are_one_way(a: Seq<char>, b: Seq<char>)
    ensures
        !is_update(a, a),
        is_update(a, b) ==> !is_update(b, a),
        version_of(a) is None ==> !is_update(a, b) && !is_update(b, a),
{
}

/// White space around a version does not change it.
pub proof fn law_version_ignores_surrounding_white_space(a: Seq<char>, s: Seq<char>, b: Seq<char>)
    requires
        is_blank(a),
        is_blank(b),
    ensures
        version_of(a + s + b) == version_of(s),
{
    law_trim_ignores_surrounding_blanks(a, s, b);
}

/// A leading `v` or `V` does not change a version, unless what follows names a version and has a
/// `v`, a `V` or white space in front itself.
pub proof fn law_version_ignores_leading_v(s: Seq<char>, v: char)
    requires
        v == 'v' || v == 'V',
        s.len() > 0 && (s[0] == 'v' || s[0] == 'V' || white_space(s[0])) ==> version_of(s) is None,
    ensures
        version_of(seq![v] + s) == version_of(s),
{
    let body = trim_end(s);
    lemma_trim_keeps_front(seq![v], s);
    assert(trim_start(seq![v] + s) == seq![v] + s);
    assert((seq![v] + body).skip(1) =~= body);
    lemma_trim_end_is_prefix(s);
    if s.len() > 0 && (s[0] == 'v' || s[0] == 'V' || white_space(s[0])) {
        lemma_no_version_without_digit(body);
    } else {
        assert(trim_start(s) == s);
        assert(strip_v(trim(s)) == body);
    }
}

/// Segments can be read only from text that starts with a digit or a plus sign.
proof fn lemma_no_version_without_digit(body: Seq<char>)
    requires
        body.len() > 0 ==> !is_digit(body[0]) && body[0] != '+' && body[0] != '.',
    ensures
        u64_of(split(body, '.')[0]) is None,
{
    let first = split(body, '.')[0];
    lemma_first_index(body, '.');
    if body.len() > 0 {
        assert(first[0] == body[0]);
        assert(strip_plus(first) == first);
        assert(!is_digit(first[0]));
    } else {
        assert(first == body);
    }
}

/// What is left after trimming the end is a prefix.
proof fn lemma_trim_end_is_prefix(s: Seq<char>)
    ensures
        trim_end(s).len() <= s.len(),
        trim_end(s).len() > 0 ==> trim_end(s)[0] == s[0],
    decreases s.len(),
{
    if s.len() > 0 && white_space(s.last()) {
        lemma_trim_end_is_prefix(s.drop_last());
    }
}

/// Trimming the end does not reach past text that ends with something else than white space.
proof fn lemma_trim_keeps_front(front: Seq<char>, s: Seq<char>)
    requires
        front.len() > 0,
        !white_space(front.last()),
    ensures
        trim_end(front + s) == front + trim_end(s),
    decreases s.len(),
{
    if s.len() == 0 {
        assert(front + s =~= front);
    } else if white_space(s.last()) {
        assert((front + s).drop_last() =~= front + s.drop_last());
        lemma_trim_keeps_front(front, s.drop_last());
    }
}

/// `major.minor.patch` in decimal.
pub open spec fn version_text(v: (u64, u64, u64)) -> Seq<char> {
    decimal(v.0 as nat) + seq!['.'] + decimal(v.1 as nat) + seq!['.'] + decimal(v.2 as nat)
}

/// Digits are no white space, no dot, no sign and no letter.
proof fn lemma_digits_are_plain(s: Seq<char>)
    requires
        is_digits(s),
    ensures
        forall|i: int|
            0 <= i < s.len() ==> !white_space(#[trigger] s[i]) && s[i] != '.' && s[i] != '+' && s[i]
                != 'v' && s[i] != 'V',
{
    assert forall|i: int| 0 <= i < s.len() implies !white_space(#[trigger] s[i]) && s[i] != '.' && s[i]
        != '+' && s[i] != 'v' && s[i] != 'V' by {
        assert(is_digit(s[i]));
    }
}

/// Text that neither starts nor ends with white space is left alone by trimming, and without a
/// leading `v` nothing is stripped.
proof fn lemma_version_body(s: Seq<char>)
    requires
        s.len() > 0,
        !white_space(s[0]),
        !white_space(s.last()),
        s[0] != 'v',
        s[0] != 'V',
    ensures
        strip_v(trim(s)) == s,
{
}

/// A version written in decimal is read back as itself.
pub proof fn law_version_round_trip(v: (u64, u64, u64))
    ensures
        version_of(version_text(v)) == Some(v),
{
    let a = decimal(v.0 as nat);
    let b = decimal(v.1 as nat);
    let c = decimal(v.2 as nat);
    law_u64_round_trip(v.0);
    law_u64_round_trip(v.1);
    law_u64_round_trip(v.2);
    law_decimal_reads_back(v.0 as nat);
    law_decimal_reads_back(v.1 as nat);
    law_decimal_reads_back(v.2 as nat);
    lemma_digits_are_plain(a);
    lemma_digits_are_plain(b);
    lemma_digits_are_plain(c);
    let s = version_text(v);
    assert(s[0] == a[0]);
    assert(s.last() == c[c.len() - 1]);
    lemma_version_body(s);
    law_split_concat(a + seq!['.'] + b, '.', c);
    law_split_concat(a, '.', b);
    law_split_single(a, '.');
    law_split_single(b, '.');
    law_split_single(c, '.');
    let parts = split(s, '.');
    assert(parts =~= seq![a, b, c]);
}

/// A missing segment counts as 0: with `.0` appended, text names the version that it named before,
/// unless that version has three segments already or white space at its end.
pub proof fn law_missing_segments_are_zero(s: Seq<char>)
    requires
        version_of(s) is Some ==> split(strip_v(trim(s)), '.').len() < 3 && !white_space(s.last()),
    ensures
        version_of(s + ".0"@) == version_of(s),
{
    reveal_strlit(".0");
    let t = s + ".0"@;
    let zero = seq!['0'];
    assert(".0"@ =~= seq!['.'] + zero);
    law_blank_trims_to_nothing(s);
    law_split_single(zero, '.');
    if is_blank(s) {
        let nothing = Seq::<char>::empty();
        lemma_trim_start_blank(s, ".0"@);
        assert(trim(t) == ".0"@);
        assert(".0"@ =~= nothing + seq!['.'] + zero);
        law_split_concat(nothing, '.', zero);
        lemma_no_version_without_digit(nothing);
        assert(trim(s) =~= nothing);
        assert(split(strip_v(trim(t)), '.')[0] == split(nothing, '.')[0]);
    } else {
        let core = trim_start(s);
        let body = strip_v(core);
        let parts = split(body, '.');
        let longer = split(strip_v(trim(t)), '.');
        lemma_trim_start_is_suffix(s);
        lemma_trim_start_concat(s, ".0"@);
        assert((core + ".0"@).last() == '0');
        assert(trim(t) == core + ".0"@);
        lemma_trim_end_is_prefix(core);
        assert(strip_v(trim(t)) =~= body + seq!['.'] + zero);
        law_split_concat(body, '.', zero);
        law_u64_round_trip(0);
        assert(decimal(0) =~= zero);
        assert(longer =~= parts.push(zero));
        assert forall|i: int| 0 <= i < parts.len() implies longer[i] == #[trigger] parts[i] by {}
        if white_space(s.last()) {
            lemma_trimmed_start(s);
            assert(body.last() == s.last());
            lemma_split_last(body, '.');
            let part = parts.last();
            assert(strip_plus(part).last() == s.last());
            assert(u64_of(part) is None);
            assert(longer[parts.len() - 1] == part);
        } else {
            assert(trim(s) == core);
            assert(longer[longer.len() - 1] == zero);
        }
    }
}

/// What is left after trimming the start does not start with white space.
proof fn lemma_trimmed_start(s: Seq<char>)
    ensures
        trim_start(s).len() > 0 ==> !white_space(trim_start(s)[0]),
    decreases s.len(),
{
    if s.len() > 0 && white_space(s[0]) {
        lemma_trimmed_start(s.skip(1));
    }
}

/// What is left after trimming the start is a suffix.
proof fn lemma_trim_start_is_suffix(s: Seq<char>)
    ensures
        trim_start(s).len() <= s.len(),
        trim_start(s).len() > 0 ==> trim_start(s).last() == s.last(),
    decreases s.len(),
{
    if s.len() > 0 && white_space(s[0]) {
        lemma_trim_start_is_suffix(s.skip(1));
    }
}

/// The first segment in which two versions differ decides which is later, by its number: a higher
/// major number is later whatever follows, with the same major number a higher minor number whatever
/// the patch, and with both the same a higher patch. Equal versions are not later than each other.
pub proof fn law_first_differing_segment_decides(a: (u64, u64, u64), b: (u64, u64, u64))
    ensures
        a.0 != b.0 ==> (later(a, b) <==> a.0 > b.0),
        a.0 == b.0 && a.1 != b.1 ==> (later(a, b) <==> a.1 > b.1),
        a.0 == b.0 && a.1 == b.1 ==> (later(a, b) <==> a.2 > b.2),
{
}

/// Raising a segment makes a version later, whatever the segments behind it become, and lowering it
/// makes it earlier.
pub proof fn law_raising_a_segment_is_later(
    major: u64,
    minor: u64,
    patch: u64,
    up: u64,
    x: u64,
    y: u64,
)
    ensures
        up > major ==> later((up, x, y), (major, minor, patch)) && !later(
            (major, minor, patch),
            (up, x, y),
        ),
        up > minor ==> later((major, up, y), (major, minor, patch)) && !later(
            (major, minor, patch),
            (major, up, y),
        ),
        up > patch ==> later((major, minor, up), (major, minor, patch)) && !later(
            (major, minor, patch),
            (major, minor, up),
        ),
{
}

/// A release is an update exactly when both texts name versions and the first segment in which
/// these differ is greater in the release.
pub proof fn law_updates_have_greater_numbers(current: Seq<char>, latest: Seq<char>)
    ensures
        version_of(current) is None || version_of(latest) is None ==> !is_update(current, latest),
        version_of(current) matches Some(c) ==> (version_of(latest) matches Some(l) ==> (is_update(
            current,
            latest,
        ) <==> l.0 > c.0 || (l.0 == c.0 && l.1 > c.1) || (l.0 == c.0 && l.1 == c.1 && l.2 > c.2))),
{
}

/// With versions written in decimal, a release with a greater number in the first segment that
/// differs is an update, with or without a leading `v` on its tag.
pub proof fn law_written_versions_are_compared_by_number(
    c: (u64, u64, u64),
    l: (u64, u64, u64),
)
    ensures
        is_update(version_text(c), version_text(l)) <==> l.0 > c.0 || (l.0 == c.0 && l.1 > c.1) || (
        l.0 == c.0 && l.1 == c.1 && l.2 > c.2),
        strip_small_v(seq!['v'] + version_text(l)) == version_text(l),
        strip_small_v(version_text(l)) == version_text(l),
{
    law_version_round_trip(c);
    law_version_round_trip(l);
    law_decimal_reads_back(l.0 as nat);
    assert(is_digit(decimal(l.0 as nat)[0]));
    assert(version_text(l)[0] == decimal(l.0 as nat)[0]);
    assert((seq!['v'] + version_text(l)).skip(1) =~= version_text(l));
}

/// A tag loses one leading `v` and nothing else.
pub proof fn law_tags_lose_one_leading_v(s: Seq<char>)
    ensures
        strip_small_v(seq!['v'] + s) == s,
        s.len() == 0 || s[0] != 'v' ==> strip_small_v(s) == s,
{
    assert((seq!['v'] + s).skip(1) =~= s);
}

/// What text names a version: without white space at its ends and without a leading `v` or `V`, it
/// names one exactly when it consists of at most three segments with dots between them that are all
/// read as numbers. These numbers are the segments of the version, and missing ones are 0.
pub proof fn law_versions_are_read_segment_by_segment(s: Seq<char>)
    requires
        s.len() > 0 ==> !white_space(s[0]) && !white_space(s.last()) && s[0] != 'v' && s[0] != 'V',
    ensures
        ({
            let parts = split(s, '.');
            &&& version_of(s) is Some <==> parts.len() <= 3 && forall|i: int|
                0 <= i < parts.len() ==> u64_of(#[trigger] parts[i]) is Some
            &&& version_of(s) matches Some(v) ==> {
                &&& u64_of(parts[0]) == Some(v.0)
                &&& parts.len() > 1 ==> u64_of(parts[1]) == Some(v.1)
                &&& parts.len() <= 1 ==> v.1 == 0
                &&& parts.len() > 2 ==> u64_of(parts[2]) == Some(v.2)
                &&& parts.len() <= 2 ==> v.2 == 0
            }
        }),
{
    assert(trim_start(s) == s);
    assert(strip_v(trim(s)) == s);
    let parts = split(s, '.');
    if version_of(s) is Some {
        assert(parts.len() > 0);
        assert(u64_of(parts[0]) is Some);
    }
}

/// A leading `v` or `V` is tolerated once: before another one, and before white space, it keeps text
/// from naming a version.
pub proof fn law_a_second_v_names_no_version(s: Seq<char>, v: char)
    requires
        v == 'v' || v == 'V',
        s.len() > 0,
        s[0] == 'v' || s[0] == 'V' || white_space(s[0]),
    ensures
        version_of(seq![v] + s) is None,
{
    let body = trim_end(s);
    lemma_trim_keeps_front(seq![v], s);
    assert(trim_start(seq![v] + s) == seq![v] + s);
    assert((seq![v] + body).skip(1) =~= body);
    lemma_trim_end_is_prefix(s);
    lemma_no_version_without_digit(body);
    assert(split(body, '.').len() > 0);
    assert(u64_of(split(body, '.')[0]) is None);
}

/// What becomes of each reply of the release feed: failures are reported with what went wrong, and
/// a release is refused exactly when its page is not one of this project.
pub proof fn law_replies_are_reported_as_they_are(
    why: String,
    release: GithubRelease,
    rest: Seq<char>,
)
    ensures
        reply_error(ReleaseReply::NoClient(why)) == Some(
            ErrorView::Internal("构建 HTTP 客户端失败: "@ + why@),
        ),
        reply_error(ReleaseReply::NoAnswer(why)) == Some(
            ErrorView::Internal("请求 GitHub Releases 失败: "@ + why@),
        ),
        reply_error(ReleaseReply::Refused(why)) == Some(
            ErrorView::Internal("GitHub API 返回 "@ + why@ + "(可能是限流,稍后再试)"@),
        ),
        reply_error(ReleaseReply::Unreadable(why)) == Some(
            ErrorView::Internal("解析 GitHub 响应失败: "@ + why@),
        ),
        release.html_url@ == "https://github.com/witchscottishfoldcat/WitchOps/"@ + rest
            ==> reply_error(ReleaseReply::Release(release)) is None,
        !"https://github.com/witchscottishfoldcat/WitchOps/"@.is_prefix_of(release.html_url@)
            ==> reply_error(ReleaseReply::Release(release)) == Some(
            ErrorView::Internal("GitHub 返回的发布页地址异常"@),
        ),
{
    let pages = RELEASE_PAGES@;
    if release.html_url@ == pages + rest {
        assert(pages =~= release.html_url@.subrange(0, pages.len() as int));
    }
}

} // verus!
