//! Audiobookshelf podcasts: the library and podcast records, the addresses and headers of
//! the server's API, and the labels shown for an episode. The requests are the caller's part.
use crate::config::AbsSourceConfig;
use crate::text::{
    decimal, owned, push_all, push_decimal, push_padded, push_strip_leading, push_strip_trailing,
    starts_with_at, chars_of, strip_leading, strip_trailing, zero_padded,
};
use vstd::prelude::*;

verus! {

/// A library of the server.
#[derive(Debug)]
pub struct AbsLibrary {
    pub id: String,
    pub name: String,
    pub media_type: String,
}

/// A podcast of a library.
#[derive(Debug)]
pub struct AbsPodcast {
    pub id: String,
    pub media: AbsPodcastMedia,
}

/// What the server says of a podcast's media. Its episodes are listed apart.
#[derive(Debug)]
pub struct AbsPodcastMedia {
    pub metadata: AbsPodcastMetadata,
    pub num_episodes: Option<u32>,
}

/// A podcast's title, author and description.
#[derive(Debug)]
pub struct AbsPodcastMetadata {
    pub title: String,
    pub author: Option<String>,
    pub description: Option<String>,
}

impl AbsPodcast {
    pub fn title(&self) -> (r: &str)
        ensures
            r@ == self.media.metadata.title@,
    {
        self.media.metadata.title.as_str()
    }

    pub fn author(&self) -> (r: Option<&str>)
        ensures
            r is Some == self.media.metadata.author is Some,
            r matches Some(a) ==> a@ == self.media.metadata.author->0@,
    {
        match &self.media.metadata.author {
            Some(a) => Some(a.as_str()),
            None => None,
        }
    }

    /// The number of episodes, 0 when the server does not say.
    pub fn num_episodes(&self) -> (n: u32)
        ensures
            n == match self.media.num_episodes {
                Some(k) => k,
                None => 0,
            },
    {
        match self.media.num_episodes {
            Some(k) => k,
            None => 0,
        }
    }
}

/// The libraries that hold podcasts, in order.
pub open spec fn podcast_libraries_of(libs: Seq<AbsLibrary>) -> Seq<AbsLibrary>
    decreases libs.len(),
{
    if libs.len() == 0 {
        Seq::empty()
    } else {
        let r = podcast_libraries_of(libs.drop_last());
        if libs.last().media_type@ == "podcast"@ {
            r.push(libs.last())
        } else {
            r
        }
    }
}

/// The libraries whose media type is `podcast`.
pub fn podcast_libraries(libs: Vec<AbsLibrary>) -> (r: Vec<AbsLibrary>)
    ensures
        r@ == podcast_libraries_of(libs@),
{
    let ghost all = libs@;
    let mut r: Vec<AbsLibrary> = Vec::new();
    let mut rest = libs;
    let ghost mut i: int = 0;
    while rest.len() > 0
        invariant
            0 <= i <= all.len(),
            rest@ == all.subrange(i, all.len() as int),
            r@ == podcast_libraries_of(all.take(i)),
        decreases rest@.len(),
    {
        let l = rest.remove(0);
        proof {
            assert(l == all[i]);
            assert(all.take(i + 1).drop_last() =~= all.take(i));
            assert(all.take(i + 1).last() == l);
            assert(rest@ =~= all.subrange(i + 1, all.len() as int));
        }
        if crate::text::same_text(l.media_type.as_str(), "podcast") {
            r.push(l);
        }
        proof {
            i = i + 1;
        }
    }
    assert(all.take(i) =~= all);
    r
}

/// The client's view of one server: where it is and the token it uses.
#[derive(Debug)]
pub struct AudioBookshelfClient {
    pub config: AbsSourceConfig,
}

/// The server address without trailing slashes, then `/`, then `path` without leading ones.
pub open spec fn api_url(server: Seq<char>, path: Seq<char>) -> Seq<char> {
    strip_trailing(server, '/') + "/"@ + strip_leading(path, '/')
}

/// The address of a track: as given when it starts with `http`, else under the server;
/// then the token as query.
pub open spec fn stream_url_spec(server: Seq<char>, token: Seq<char>, content_url: Seq<char>) -> Seq<
    char,
> {
    let base = if content_url.len() >= 4 && content_url.take(4) == "http"@ {
        content_url
    } else {
        strip_trailing(server, '/') + content_url
    };
    base + "?token="@ + token
}

impl AudioBookshelfClient {
    pub fn new(config: AbsSourceConfig) -> (c: Self)
        ensures
            c.config == config,
    {
        AudioBookshelfClient { config }
    }

    /// The `Authorization` header: `Bearer` and the token.
    pub fn auth_header(&self) -> (h: String)
        ensures
            h@ == "Bearer "@ + self.config.api_token@,
    {
        let mut h = owned("Bearer ");
        push_all(&mut h, self.config.api_token.as_str());
        h
    }

    /// The address of the API path `path` on the server.
    pub fn build_url(&self, path: &str) -> (u: String)
        ensures
            u@ == api_url(self.config.server_url@, path@),
    {
        let mut u = String::new();
        push_strip_trailing(&mut u, self.config.server_url.as_str(), '/');
        push_all(&mut u, "/");
        push_strip_leading(&mut u, path, '/');
        proof {
            reveal_strlit("/");
        }
        assert(u@ =~= api_url(self.config.server_url@, path@));
        u
    }

    /// The address a track plays from, with the token as query.
    pub fn stream_url(&self, content_url: &str) -> (u: String)
        ensures
            u@ == stream_url_spec(self.config.server_url@, self.config.api_token@, content_url@),
    {
        let v = chars_of(content_url);
        let http = chars_of("http");
        proof {
            reveal_strlit("http");
        }
        let absolute = starts_with_at(&v, 0, v.len(), &http);
        assert(v@.subrange(0, v@.len() as int) =~= v@);
        let mut u = String::new();
        if !absolute {
            push_strip_trailing(&mut u, self.config.server_url.as_str(), '/');
        }
        push_all(&mut u, content_url);
        push_all(&mut u, "?token=");
        push_all(&mut u, self.config.api_token.as_str());
        proof {
            if absolute {
                assert(v@.take(4) =~= "http"@);
            } else if content_url@.len() >= 4 {
                assert(v@.subrange(0, 4) =~= content_url@.take(4));
            }
        }
        assert(u@ =~= stream_url_spec(self.config.server_url@, self.config.api_token@, content_url@));
        u
    }
}

/// The API path that opens a playback session of an episode.
pub open spec fn play_path_spec(item: Seq<char>, episode: Seq<char>) -> Seq<char> {
    "/api/items/"@ + item + "/play/"@ + episode
}

/// The API path that opens a playback session of episode `episode_id` of the item
/// `library_item_id`.
pub fn play_path(library_item_id: &str, episode_id: &str) -> (p: String)
    ensures
        p@ == play_path_spec(library_item_id@, episode_id@),
{
    let mut p = owned("/api/items/");
    push_all(&mut p, library_item_id);
    push_all(&mut p, "/play/");
    push_all(&mut p, episode_id);
    p
}

impl AudioBookshelfClient {
    /// The address an opened playback session plays from, given the content addresses of
    /// its audio tracks in order: that of the first track; an error when there is none.
    pub fn session_stream_url(&self, content_urls: &Vec<String>) -> (r: Result<String, String>)
        ensures
            match r {
                Ok(u) => content_urls@.len() > 0 && u@ == stream_url_spec(
                    self.config.server_url@,
                    self.config.api_token@,
                    content_urls@[0]@,
                ),
                Err(e) => content_urls@.len() == 0 && e@ == "ABS returned no audio tracks"@,
            },
    {
        if content_urls.len() == 0 {
            return Err(owned("ABS returned no audio tracks"));
        }
        Ok(self.stream_url(content_urls[0].as_str()))
    }
}

/// The address of the login request on the server at `server_url`.
pub fn login_url(server_url: &str) -> (u: String)
    ensures
        u@ == strip_trailing(server_url@, '/') + "/login"@,
{
    let mut u = String::new();
    push_strip_trailing(&mut u, server_url, '/');
    push_all(&mut u, "/login");
    u
}

/// The date of the day `n` days after 1970-01-01 (`n` not negative) in the proleptic
/// Gregorian calendar, as year, month and day, by splitting the days since 0000-03-01 into
/// 400-year eras, years of the era that start in March, and months of 153-day pairs.
pub open spec fn civil_date(n: int) -> (int, int, int) {
    let z = n + 719468;
    let era = z / 146097;
    let doe = z - era * 146097;
    let yoe = (doe - doe / 1460 + doe / 36524 - doe / 146096) / 365;
    let doy = doe - (365 * yoe + yoe / 4 - yoe / 100);
    let mp = (5 * doy + 2) / 153;
    let d = doy - (153 * mp + 2) / 5 + 1;
    let m = if mp < 10 {
        mp + 3
    } else {
        mp - 9
    };
    let y = yoe + era * 400;
    (if m <= 2 {
        y + 1
    } else {
        y
    }, m, d)
}

/// A date as `YYYY-MM-DD`, each part zero-padded.
pub open spec fn date_text(y: nat, m: nat, d: nat) -> Seq<char> {
    zero_padded(y, 4) + "-"@ + zero_padded(m, 2) + "-"@ + zero_padded(d, 2)
}

/// The date, as `YYYY-MM-DD`, of the day that holds the time `ts`, in milliseconds
/// since 1970.
pub open spec fn date_of_ms(ts: int) -> Seq<char> {
    let (y, m, d) = civil_date(ts / 86400000);
    date_text(y as nat, m as nat, d as nat)
}

/// The date shown for a publication time in milliseconds since 1970.
pub open spec fn published_date_spec(published_at: Option<i64>) -> Seq<char> {
    match published_at {
        Some(ts) => if ts > 0 {
            date_of_ms(ts as int)
        } else {
            "Unknown"@
        },
        None => "Unknown"@,
    }
}

/// The year of a 400-year era that holds day `doe` of the era starts on or before it, and
/// the day of that year is 365 (its 366th day) only in a year that ends with a leap day.
proof fn lemma_year_of_era(doe: u32)
    by (bit_vector)
    requires
        doe <= 146096,
    ensures
        ({
            let yoe = (doe - doe / 1460 + doe / 36524 - doe / 146096) / 365;
            let start = 365 * yoe + yoe / 4 - yoe / 100;
            &&& yoe <= 399
            &&& start <= doe
            &&& doe - start <= 365
            &&& doe - start == 365 ==> (yoe % 4 == 3 && (yoe % 100 != 99 || yoe == 399))
        }),
{
}

/// The month of a year that starts in March, by the 153-days-per-5-months rule, and the
/// day in it: within the month's length; February's 29th only on the year's 366th day.
proof fn lemma_month_of_year(doy: u32)
    by (bit_vector)
    requires
        doy <= 365,
    ensures
        ({
            let mp = (5 * doy + 2) / 153;
            let d = doy - (153 * mp + 2) / 5 + 1;
            &&& mp <= 11
            &&& 1 <= d
            &&& d <= 31
            &&& (mp == 1 || mp == 3 || mp == 6 || mp == 8) ==> d <= 30
            &&& mp == 11 ==> d <= 29
            &&& (mp == 11 && d == 29) ==> doy == 365
        }),
{
}

/// Whether `y` is a leap year of the Gregorian calendar.
pub open spec fn is_leap_year(y: int) -> bool {
    y % 4 == 0 && (y % 100 != 0 || y % 400 == 0)
}

/// The number of days of month `m` of year `y`.
pub open spec fn days_in_month(y: int, m: int) -> int {
    if m == 2 {
        if is_leap_year(y) {
            29
        } else {
            28
        }
    } else if m == 4 || m == 6 || m == 9 || m == 11 {
        30
    } else {
        31
    }
}

/// The date is a day of the calendar: the day is within its month, February 29th falling
/// only in leap years.
pub proof fn law_civil_date_in_month(n: int)
    requires
        n >= 0,
    ensures
        ({
            let (y, m, d) = civil_date(n);
            1 <= d <= days_in_month(y, m)
        }),
{
    let z = n + 719468;
    let era = z / 146097;
    let doe = z - era * 146097;
    assert(0 <= doe < 146097 && era >= 0) by (nonlinear_arith)
        requires
            z >= 0,
            era == z / 146097,
            doe == z - era * 146097,
    ;
    let yoe = (doe - doe / 1460 + doe / 36524 - doe / 146096) / 365;
    let doy = doe - (365 * yoe + yoe / 4 - yoe / 100);
    lemma_year_of_era(doe as u32);
    assert(yoe == ((doe as u32) - (doe as u32) / 1460 + (doe as u32) / 36524 - (doe as u32) / 146096) / 365);
    assert(0 <= yoe <= 399);
    assert(0 <= doy <= 365);
    lemma_month_of_year(doy as u32);
    let mp = (5 * doy + 2) / 153;
    let d = doy - (153 * mp + 2) / 5 + 1;
    let (y, m, dd) = civil_date(n);
    assert(dd == d);
    if mp == 11 && d == 29 {
        assert(doy == 365);
        assert(yoe % 4 == 3 && (yoe % 100 != 99 || yoe == 399));
        assert(m == 2);
        assert(y == yoe + era * 400 + 1);
        assert(is_leap_year(y)) by (nonlinear_arith)
            requires
                y == yoe + era * 400 + 1,
                0 <= yoe <= 399,
                era >= 0,
                yoe % 4 == 3,
                yoe % 100 != 99 || yoe == 399,
        ;
    }
}

/// The number of leap years from year 1 through year `p`.
pub open spec fn leap_years_through(p: int) -> int {
    p / 4 - p / 100 + p / 400
}

/// The days from 1970-01-01 to the first of January of year `y`.
pub open spec fn days_before_year(y: int) -> int {
    365 * (y - 1970) + leap_years_through(y - 1) - leap_years_through(1969)
}

/// The days of year `y` before the first of month `m`.
pub open spec fn days_before_month(y: int, m: int) -> int {
    let base: int = if m == 1 {
        0
    } else if m == 2 {
        31
    } else if m == 3 {
        59
    } else if m == 4 {
        90
    } else if m == 5 {
        120
    } else if m == 6 {
        151
    } else if m == 7 {
        181
    } else if m == 8 {
        212
    } else if m == 9 {
        243
    } else if m == 10 {
        273
    } else if m == 11 {
        304
    } else {
        334
    };
    base + if m > 2 && is_leap_year(y) {
        1int
    } else {
        0int
    }
}

/// The number of the day `d` of month `m` of year `y`, counting 1970-01-01 as day 0.
pub open spec fn day_number(y: int, m: int, d: int) -> int {
    days_before_year(y) + days_before_month(y, m) + d - 1
}

proof fn lemma_step_div(p: int, k: int)
    requires
        p >= 0,
        k > 0,
    ensures
        (p + 1) / k - p / k == if (p + 1) % k == 0 {
            1int
        } else {
            0int
        },
{
    assert((p + 1) / k - p / k == if (p + 1) % k == 0 {
        1int
    } else {
        0int
    }) by (nonlinear_arith)
        requires
            p >= 0,
            k > 0,
    ;
}

/// Whether `m`/`d` is a day of the calendar in year `y`.
pub open spec fn is_date(y: int, m: int, d: int) -> bool {
    1 <= m <= 12 && 1 <= d <= days_in_month(y, m)
}

proof fn lemma_leap_step(y: int)
    requires
        y >= 1,
    ensures
        leap_years_through(y) - leap_years_through(y - 1) == if is_leap_year(y) {
            1int
        } else {
            0int
        },
{
    lemma_step_div(y - 1, 4);
    lemma_step_div(y - 1, 100);
    lemma_step_div(y - 1, 400);
}

proof fn lemma_years_grow(a: int, b: int)
    requires
        1 <= a <= b,
    ensures
        days_before_year(a) <= days_before_year(b),
        a < b ==> days_before_year(a) + 365 <= days_before_year(b),
    decreases b - a,
{
    if a < b {
        lemma_years_grow(a, b - 1);
        lemma_leap_step(b - 1);
    }
}

/// The day of year `y` that a date has is within the year.
proof fn lemma_date_within_year(y: int, m: int, d: int)
    requires
        y >= 1,
        is_date(y, m, d),
    ensures
        days_before_year(y) <= day_number(y, m, d) < days_before_year(y + 1),
{
    lemma_leap_step(y);
}

/// Different dates of the calendar have different day numbers.
pub proof fn law_day_numbers_distinct(y1: int, m1: int, d1: int, y2: int, m2: int, d2: int)
    requires
        y1 >= 1,
        y2 >= 1,
        is_date(y1, m1, d1),
        is_date(y2, m2, d2),
        day_number(y1, m1, d1) == day_number(y2, m2, d2),
    ensures
        y1 == y2 && m1 == m2 && d1 == d2,
{
    lemma_date_within_year(y1, m1, d1);
    lemma_date_within_year(y2, m2, d2);
    if y1 < y2 {
        lemma_years_grow(y1 + 1, y2);
    } else if y2 < y1 {
        lemma_years_grow(y2 + 1, y1);
    }
    assert(y1 == y2);
}

/// Counting the days of the calendar from 1970-01-01 gives back the day number: the date
/// names day `n`.
pub proof fn law_civil_date_counts_days(n: int)
    requires
        n >= 0,
    ensures
        ({
            let (y, m, d) = civil_date(n);
            day_number(y, m, d) == n
        }),
{
    let z = n + 719468;
    let era = z / 146097;
    let doe = z - era * 146097;
    assert(0 <= doe < 146097 && era >= 4) by (nonlinear_arith)
        requires
            z >= 719468,
            era == z / 146097,
            doe == z - era * 146097,
    ;
    let yoe = (doe - doe / 1460 + doe / 36524 - doe / 146096) / 365;
    let start = 365 * yoe + yoe / 4 - yoe / 100;
    let doy = doe - start;
    lemma_year_of_era(doe as u32);
    assert(yoe == ((doe as u32) - (doe as u32) / 1460 + (doe as u32) / 36524 - (doe as u32)
        / 146096) / 365);
    assert(0 <= yoe <= 399);
    assert(0 <= doy <= 365);
    let y0 = yoe + era * 400;
    assert(era * 146097 + start == 365 * y0 + leap_years_through(y0)) by (nonlinear_arith)
        requires
            y0 == yoe + era * 400,
            0 <= yoe <= 399,
            era >= 0,
            start == 365 * yoe + yoe / 4 - yoe / 100,
    ;
    let mp = (5 * doy + 2) / 153;
    let d = doy - (153 * mp + 2) / 5 + 1;
    lemma_month_of_year(doy as u32);
    assert(0 <= mp <= 11);
    let (y, m, dd) = civil_date(n);
    assert(dd == d);
    assert(z == 365 * y0 + leap_years_through(y0) + (153 * mp + 2) / 5 + d - 1);
    lemma_step_div(y0 - 1, 4);
    lemma_step_div(y0 - 1, 100);
    lemma_step_div(y0 - 1, 400);
    assert(leap_years_through(y0) - leap_years_through(y0 - 1) == if is_leap_year(y0) {
        1int
    } else {
        0int
    });
    if mp < 10 {
        assert(y == y0 && m == mp + 3);
        assert(days_before_month(y, m) == 59 + (153 * mp + 2) / 5 + if is_leap_year(y) {
            1int
        } else {
            0int
        });
    } else {
        assert(y == y0 + 1 && m == mp - 9);
        assert(days_before_month(y, m) + 306 == (153 * mp + 2) / 5);
    }
}

/// The date is one of the calendar: a month of the year and a day of the month, in a year
/// from 1970 on.
pub proof fn law_civil_date_is_a_date(n: int)
    requires
        n >= 0,
    ensures
        ({
            let (y, m, d) = civil_date(n);
            &&& y >= 1970
            &&& 1 <= m <= 12
            &&& 1 <= d <= 31
        }),
{
    let z = n + 719468;
    let era = z / 146097;
    let doe = z - era * 146097;
    assert(era >= 4) by (nonlinear_arith)
        requires
            z >= 719468,
            era == z / 146097,
    ;
    assert(0 <= doe < 146097) by (nonlinear_arith)
        requires
            z >= 0,
            era == z / 146097,
            doe == z - era * 146097,
    ;
    let yoe = (doe - doe / 1460 + doe / 36524 - doe / 146096) / 365;
    assert(0 <= yoe <= 399) by (nonlinear_arith)
        requires
            0 <= doe < 146097,
            yoe == (doe - doe / 1460 + doe / 36524 - doe / 146096) / 365,
    ;
    let doy = doe - (365 * yoe + yoe / 4 - yoe / 100);
    assert(0 <= doy <= 365) by (nonlinear_arith)
        requires
            0 <= doe < 146097,
            0 <= yoe <= 399,
            yoe == (doe - doe / 1460 + doe / 36524 - doe / 146096) / 365,
            doy == doe - (365 * yoe + yoe / 4 - yoe / 100),
    ;
    let mp = (5 * doy + 2) / 153;
    assert(0 <= mp <= 11);
    let d = doy - (153 * mp + 2) / 5 + 1;
    assert(1 <= d <= 31) by (nonlinear_arith)
        requires
            0 <= doy <= 365,
            mp == (5 * doy + 2) / 153,
            d == doy - (153 * mp + 2) / 5 + 1,
    ;
}

/// The year, month and day of the day `days` days after 1970-01-01.
fn civil_parts(days: i64) -> (r: (i64, i64, i64))
    requires
        0 <= days <= 200_000_000_000,
    ensures
        (r.0 as int, r.1 as int, r.2 as int) == civil_date(days as int),
        r.0 >= 1970,
        1 <= r.1 <= 12,
        1 <= r.2 <= 31,
{
    proof {
        law_civil_date_is_a_date(days as int);
    }
    let z: i64 = days + 719468;
    let era: i64 = z / 146097;
    assert(0 <= era <= 2_000_000) by (nonlinear_arith)
        requires
            0 <= z <= 200_001_000_000,
            era == z / 146097,
    ;
    let doe: i64 = z - era * 146097;
    assert(0 <= doe < 146097) by (nonlinear_arith)
        requires
            z >= 0,
            era == z / 146097,
            doe == z - era * 146097,
    ;
    let yoe: i64 = (doe - doe / 1460 + doe / 36524 - doe / 146096) / 365;
    assert(0 <= yoe <= 399) by (nonlinear_arith)
        requires
            0 <= doe < 146097,
            yoe == (doe - doe / 1460 + doe / 36524 - doe / 146096) / 365,
    ;
    let y: i64 = yoe + era * 400;
    let doy: i64 = doe - (365 * yoe + yoe / 4 - yoe / 100);
    assert(0 <= doy <= 365) by (nonlinear_arith)
        requires
            0 <= doe < 146097,
            0 <= yoe <= 399,
            yoe == (doe - doe / 1460 + doe / 36524 - doe / 146096) / 365,
            doy == doe - (365 * yoe + yoe / 4 - yoe / 100),
    ;
    let mp: i64 = (5 * doy + 2) / 153;
    let d: i64 = doy - (153 * mp + 2) / 5 + 1;
    let m: i64 = if mp < 10 {
        mp + 3
    } else {
        mp - 9
    };
    let y: i64 = if m <= 2 {
        y + 1
    } else {
        y
    };
    (y, m, d)
}

/// Converts a time in milliseconds since 1970 (from its start on) to `YYYY-MM-DD`: the
/// date of the calendar, from 1970-01-01 on, that is `ts_ms / 86_400_000` days after it.
fn ts_ms_to_date(ts_ms: i64) -> (s: String)
    requires
        ts_ms >= 0,
    ensures
        s@ == date_of_ms(ts_ms as int),
        exists|y: int, m: int, d: int|
            #![trigger day_number(y, m, d)]
            1970 <= y && 1 <= m <= 12 && 1 <= d <= days_in_month(y, m) && day_number(y, m, d)
                == ts_ms / 86400000 && s@ == date_text(y as nat, m as nat, d as nat),
{
    let days: i64 = ts_ms / 1000 / 86400;
    assert(days == ts_ms / 86400000 && 0 <= days <= 200_000_000_000) by (nonlinear_arith)
        requires
            ts_ms >= 0,
            days == ts_ms / 1000 / 86400,
    ;
    let (y, m, d) = civil_parts(days);
    let mut s = String::new();
    push_padded(&mut s, y as u64, 4);
    push_all(&mut s, "-");
    push_padded(&mut s, m as u64, 2);
    push_all(&mut s, "-");
    push_padded(&mut s, d as u64, 2);
    proof {
        reveal_strlit("-");
    }
    assert(s@ =~= date_text(y as nat, m as nat, d as nat));
    proof {
        let n = days as int;
        law_civil_date_in_month(n);
        law_civil_date_counts_days(n);
        assert(day_number(y as int, m as int, d as int) == n);
    }
    s
}

/// The publication date of an episode as `YYYY-MM-DD`, or `Unknown` when there is no
/// time after 1970.
pub fn published_date(published_at: Option<i64>) -> (s: String)
    ensures
        s@ == published_date_spec(published_at),
        published_at is Some && published_at->0 > 0 ==> exists|y: int, m: int, d: int|
            #![trigger day_number(y, m, d)]
            1970 <= y && 1 <= m <= 12 && 1 <= d <= days_in_month(y, m) && day_number(y, m, d)
                == published_at->0 / 86400000 && s@ == date_text(y as nat, m as nat, d as nat),
{
    match published_at {
        Some(ts) => if ts > 0 {
            ts_ms_to_date(ts)
        } else {
            owned("Unknown")
        },
        None => owned("Unknown"),
    }
}

/// The length shown for an episode of `secs` whole seconds: minutes, `:`, and two-digit
/// seconds; `--:--` when the length is unknown or not positive.
pub open spec fn duration_text(secs: Option<u64>) -> Seq<char> {
    match secs {
        Some(s) => decimal((s / 60) as nat) + ":"@ + zero_padded((s % 60) as nat, 2),
        None => "--:--"@,
    }
}

/// The length of an episode as minutes and seconds; `secs` is its length in whole
/// seconds, none when it is unknown or not positive.
pub fn duration_str(secs: Option<u64>) -> (s: String)
    ensures
        s@ == duration_text(secs),
{
    match secs {
        Some(t) => {
            let mut s = String::new();
            push_decimal(&mut s, t / 60);
            push_all(&mut s, ":");
            push_padded(&mut s, t % 60, 2);
            s
        },
        None => owned("--:--"),
    }
}

} // verus!
