//! Subsonic-compatible music servers (Navidrome and others): the request addresses and
//! token authentication, and what the player takes from the server's replies. The HTTP
//! exchange itself is the caller's part.
use crate::config::NavidromeSourceConfig;
use crate::text::{
    hex_string, hex_upper_digit, is_ascii_alphanumeric, owned, push_all, push_hex,
    push_strip_trailing, same_text, strip_trailing,
};
use rand::distr::SampleString;
use vstd::prelude::*;

verus! {

/// The account and client identity used to talk to one server.
#[derive(Debug)]
pub struct SubsonicClient {
    pub config: NavidromeSourceConfig,
    pub client_name: String,
    pub version: String,
}

/// The envelope of every server reply.
#[derive(Debug)]
pub struct SubsonicResponse {
    pub subsonic_response: SubsonicResponseBody,
}

/// A server reply: its status and whichever listing was asked for.
#[derive(Debug)]
pub struct SubsonicResponseBody {
    pub status: String,
    pub version: String,
    pub artists: Option<ArtistsContainer>,
    pub artist: Option<ArtistWithAlbums>,
    pub album: Option<AlbumWithTracks>,
}

/// An artist with the albums the server lists for it.
#[derive(Debug)]
pub struct ArtistWithAlbums {
    pub id: String,
    pub name: String,
    pub album: Option<Vec<Album>>,
}

/// An album with the songs the server lists for it.
#[derive(Debug)]
pub struct AlbumWithTracks {
    pub id: String,
    pub name: String,
    pub song: Option<Vec<Track>>,
}

#[derive(Debug)]
pub struct Album {
    pub id: String,
    pub name: String,
    pub artist: Option<String>,
    pub artist_id: Option<String>,
    pub song_count: Option<u32>,
    pub duration: Option<u32>,
    pub year: Option<u32>,
}

#[derive(Debug)]
pub struct Track {
    pub id: String,
    pub parent: Option<String>,
    pub is_dir: bool,
    pub title: String,
    pub album: Option<String>,
    pub artist: Option<String>,
    pub track: Option<u32>,
    pub duration: Option<u32>,
    pub size: Option<u64>,
}

/// The artists of a server, grouped by index letter.
#[derive(Debug)]
pub struct ArtistsContainer {
    pub index: Vec<ArtistIndex>,
}

#[derive(Debug)]
pub struct ArtistIndex {
    pub name: String,
    pub artist: Vec<Artist>,
}

#[derive(Debug)]
pub struct Artist {
    pub id: String,
    pub name: String,
    pub album_count: Option<u32>,
}

impl Clone for Album {
    fn clone(&self) -> (r: Self)
        ensures
            r == *self,
    {
        Album {
            id: self.id.clone(),
            name: self.name.clone(),
            artist: self.artist.clone(),
            artist_id: self.artist_id.clone(),
            song_count: self.song_count,
            duration: self.duration,
            year: self.year,
        }
    }
}

impl Clone for Track {
    fn clone(&self) -> (r: Self)
        ensures
            r == *self,
    {
        Track {
            id: self.id.clone(),
            parent: self.parent.clone(),
            is_dir: self.is_dir,
            title: self.title.clone(),
            album: self.album.clone(),
            artist: self.artist.clone(),
            track: self.track,
            duration: self.duration,
            size: self.size,
        }
    }
}

impl Clone for Artist {
    fn clone(&self) -> (r: Self)
        ensures
            r == *self,
    {
        Artist { id: self.id.clone(), name: self.name.clone(), album_count: self.album_count }
    }
}

impl Clone for SubsonicClient {
    fn clone(&self) -> (r: Self)
        ensures
            r == *self,
    {
        SubsonicClient {
            config: self.config.clone(),
            client_name: self.client_name.clone(),
            version: self.version.clone(),
        }
    }
}

/// What `md5::compute` returns for the bytes `data`: their MD5 digest.
pub uninterp spec fn md5_of(data: Seq<u8>) -> Seq<u8>;

/// Calls `md5::compute`, which hashes the bytes with MD5 and gives the sixteen bytes of
/// the digest.
#[verifier::external_body]
fn md5_digest(data: &[u8]) -> (d: [u8; 16])
    ensures
        d@ == md5_of(data@),
{
    md5::compute(data).0
}

/// Calls `Alphanumeric.sample_string` with the thread's random generator, which draws
/// `len` characters, each an ASCII letter or digit. Which ones is left open.
#[verifier::external_body]
fn random_alphanumeric(len: usize) -> (s: String)
    ensures
        s@.len() == len,
        forall|i: int| 0 <= i < len ==> is_ascii_alphanumeric(#[trigger] s@[i]),
{
    rand::distr::Alphanumeric.sample_string(&mut rand::rng(), len)
}

/// A byte that percent-encoding keeps: an ASCII letter or digit, or one of `- . _ ~`.
pub open spec fn url_unreserved(b: u8) -> bool {
    (48 <= b <= 57) || (65 <= b <= 90) || (97 <= b <= 122) || b == 45 || b == 46 || b == 95
        || b == 126
}

/// The bytes percent-encoded: unreserved bytes as themselves, every other byte as `%`
/// and two uppercase hexadecimal digits.
pub open spec fn url_encoded(bytes: Seq<u8>) -> Seq<char>
    decreases bytes.len(),
{
    if bytes.len() == 0 {
        Seq::empty()
    } else {
        let b = bytes.last();
        url_encoded(bytes.drop_last()) + if url_unreserved(b) {
            seq![b as char]
        } else {
            seq!['%', hex_upper_digit(b / 16), hex_upper_digit(b % 16)]
        }
    }
}

/// Calls `urlencoding::encode`, which percent-encodes the UTF-8 bytes of `s` as
/// `url_encoded` describes.
#[verifier::external_body]
fn url_encode(s: &str) -> (r: String)
    ensures
        r@ == url_encoded(vstd::utf8::encode_utf8(s@)),
{
    urlencoding::encode(s).into_owned()
}

/// The request parameters of token authentication with the given salt: user, protocol
/// version, client name, reply format, token (the MD5 of password and salt in hex), salt.
pub open spec fn auth_params_spec(client: SubsonicClient, salt: Seq<char>) -> Seq<
    (Seq<char>, Seq<char>),
> {
    let password = match client.config.password {
        Some(p) => p@,
        None => Seq::empty(),
    };
    seq![
        ("u"@, client.config.username@),
        ("v"@, client.version@),
        ("c"@, client.client_name@),
        ("f"@, "json"@),
        ("t"@, hex_string(md5_of(vstd::utf8::encode_utf8(password + salt)))),
        ("s"@, salt),
    ]
}

pub open spec fn params_view(p: Seq<(String, String)>) -> Seq<(Seq<char>, Seq<char>)> {
    p.map_values(|kv: (String, String)| (kv.0@, kv.1@))
}

/// A query string: `key=value` pairs, values percent-encoded, joined by `&`.
pub open spec fn query_string(params: Seq<(Seq<char>, Seq<char>)>) -> Seq<char>
    decreases params.len(),
{
    if params.len() == 0 {
        Seq::empty()
    } else {
        let kv = params.last();
        let pair = kv.0 + "="@ + url_encoded(vstd::utf8::encode_utf8(kv.1));
        if params.len() == 1 {
            pair
        } else {
            query_string(params.drop_last()) + "&"@ + pair
        }
    }
}

/// The address of a REST endpoint of the server.
pub open spec fn endpoint_url(server_url: Seq<char>, endpoint: Seq<char>) -> Seq<char> {
    strip_trailing(server_url, '/') + "/rest/"@ + endpoint
}

impl SubsonicClient {
    /// A client for the server `config`, announcing itself as `cohors` speaking protocol
    /// version 1.16.1.
    pub fn new(config: NavidromeSourceConfig) -> (r: SubsonicClient)
        ensures
            r.config == config,
            r.client_name@ == "cohors"@,
            r.version@ == "1.16.1"@,
    {
        SubsonicClient { config, client_name: owned("cohors"), version: owned("1.16.1") }
    }

    /// The address of `endpoint` on this server.
    pub fn build_url(&self, endpoint: &str) -> (r: String)
        ensures
            r@ == endpoint_url(self.config.server_url@, endpoint@),
    {
        let mut s = String::new();
        push_strip_trailing(&mut s, self.config.server_url.as_str(), '/');
        push_all(&mut s, "/rest/");
        push_all(&mut s, endpoint);
        assert(s@ =~= endpoint_url(self.config.server_url@, endpoint@));
        s
    }

    /// The authentication parameters for the given salt.
    pub fn auth_params_with_salt(&self, salt: String) -> (r: Vec<(String, String)>)
        ensures
            params_view(r@) == auth_params_spec(*self, salt@),
    {
        let mut payload = String::new();
        match &self.config.password {
            Some(p) => push_all(&mut payload, p.as_str()),
            None => {},
        }
        push_all(&mut payload, salt.as_str());
        let digest = md5_digest(payload.as_str().as_bytes());
        let mut token = String::new();
        push_hex(&mut token, &digest);
        let mut r: Vec<(String, String)> = Vec::new();
        r.push((owned("u"), self.config.username.clone()));
        r.push((owned("v"), self.version.clone()));
        r.push((owned("c"), self.client_name.clone()));
        r.push((owned("f"), owned("json")));
        r.push((owned("t"), token));
        r.push((owned("s"), salt));
        proof {
            let password = match &self.config.password {
                Some(p) => p@,
                None => Seq::empty(),
            };
            assert(payload@ =~= password + salt@);
            assert(token@ =~= hex_string(md5_of(vstd::utf8::encode_utf8(password + salt@))));
            assert(params_view(r@) =~= auth_params_spec(*self, salt@));
        }
        r
    }

    /// The authentication parameters with a fresh random salt of six letters and digits.
    pub fn generate_auth_params(&self) -> (r: Vec<(String, String)>)
        ensures
            r@.len() == 6,
            r@[5].1@.len() == 6,
            forall|i: int| 0 <= i < 6 ==> is_ascii_alphanumeric(#[trigger] r@[5].1@[i]),
            params_view(r@) == auth_params_spec(*self, r@[5].1@),
    {
        let salt = random_alphanumeric(6);
        let ghost sv = salt@;
        let r = self.auth_params_with_salt(salt);
        assert(auth_params_spec(*self, sv).len() == 6);
        assert(params_view(r@).len() == r@.len());
        assert(params_view(r@)[5] == (r@[5].0@, r@[5].1@));
        assert(auth_params_spec(*self, sv)[5].1 == sv);
        r
    }

    /// The streaming address of a track, given the authentication parameters to send.
    pub fn stream_url_with(&self, params: Vec<(String, String)>, track_id: &str) -> (r: String)
        ensures
            r@ == endpoint_url(self.config.server_url@, "stream"@) + "?"@ + query_string(
                params_view(params@).push(("id"@, track_id@)),
            ),
    {
        let mut all = params;
        all.push((owned("id"), owned(track_id)));
        let mut s = self.build_url("stream");
        push_all(&mut s, "?");
        let ghost start = s@;
        let mut i: usize = 0;
        while i < all.len()
            invariant
                i <= all@.len(),
                s@ == start + query_string(params_view(all@.subrange(0, i as int))),
            decreases all@.len() - i,
        {
            if i > 0 {
                push_all(&mut s, "&");
            }
            push_all(&mut s, all[i].0.as_str());
            push_all(&mut s, "=");
            let enc = url_encode(all[i].1.as_str());
            push_all(&mut s, enc.as_str());
            proof {
                let pv = params_view(all@.subrange(0, i + 1));
                assert(pv.drop_last() =~= params_view(all@.subrange(0, i as int)));
                assert(pv.last() == (all@[i as int].0@, all@[i as int].1@));
                assert(s@ =~= start + query_string(pv));
            }
            i = i + 1;
        }
        proof {
            assert(all@.subrange(0, all@.len() as int) =~= all@);
            assert(params_view(all@) =~= params_view(params@).push(("id"@, track_id@)));
        }
        s
    }

    /// The streaming address of a track, authenticated with a fresh salt.
    pub fn get_stream_url(&self, track_id: &str) -> (r: String)
        ensures
            exists|salt: Seq<char>|
                salt.len() == 6 && (forall|i: int|
                    0 <= i < 6 ==> is_ascii_alphanumeric(#[trigger] salt[i])) && r@ == endpoint_url(
                    self.config.server_url@,
                    "stream"@,
                ) + "?"@ + query_string(auth_params_spec(*self, salt).push(("id"@, track_id@))),
    {
        let params = self.generate_auth_params();
        let ghost salt = params@[5].1@;
        let r = self.stream_url_with(params, track_id);
        assert(salt.len() == 6);
        assert(forall|i: int| 0 <= i < 6 ==> is_ascii_alphanumeric(#[trigger] salt[i]));
        r
    }
}

impl SubsonicResponse {
    /// Whether the server answered with status `ok`.
    pub fn is_ok(&self) -> (b: bool)
        ensures
            b == (self.subsonic_response.status@ == "ok"@),
    {
        same_text(self.subsonic_response.status.as_str(), "ok")
    }
}

/// The artists of all index groups, in order.
pub open spec fn all_artists(index: Seq<ArtistIndex>) -> Seq<Artist>
    decreases index.len(),
{
    if index.len() == 0 {
        Seq::empty()
    } else {
        all_artists(index.drop_last()) + index.last().artist@
    }
}

/// The artists a reply to `getArtists` lists, in order; none if it lists none.
pub fn artists_of(resp: SubsonicResponse) -> (r: Vec<Artist>)
    ensures
        r@ == match resp.subsonic_response.artists {
            Some(a) => all_artists(a.index@),
            None => Seq::empty(),
        },
{
    let mut all: Vec<Artist> = Vec::new();
    match resp.subsonic_response.artists {
        Some(a) => {
            let index = a.index;
            let ghost groups = index@;
            let mut i: usize = 0;
            while i < index.len()
                invariant
                    index@ == groups,
                    i <= groups.len(),
                    all@ == all_artists(groups.subrange(0, i as int)),
                decreases groups.len() - i,
            {
                let mut j: usize = 0;
                let ghost before = all@;
                while j < index[i].artist.len()
                    invariant
                        index@ == groups,
                        i < groups.len(),
                        j <= groups[i as int].artist@.len(),
                        all@ == before + groups[i as int].artist@.subrange(0, j as int),
                    decreases groups[i as int].artist@.len() - j,
                {
                    all.push(index[i].artist[j].clone());
                    assert(all@ =~= before + groups[i as int].artist@.subrange(0, j + 1));
                    j = j + 1;
                }
                assert(groups[i as int].artist@.subrange(0, j as int) =~= groups[i as int].artist@);
                assert(groups.subrange(0, i + 1).drop_last() =~= groups.subrange(0, i as int));
                i = i + 1;
            }
            assert(groups.subrange(0, groups.len() as int) =~= groups);
        },
        None => {},
    }
    all
}

/// The albums a reply to `getArtist` lists; none if it lists none.
pub fn albums_of(resp: SubsonicResponse) -> (r: Vec<Album>)
    ensures
        r@ == match resp.subsonic_response.artist {
            Some(a) => match a.album {
                Some(v) => v@,
                None => Seq::empty(),
            },
            None => Seq::empty(),
        },
{
    match resp.subsonic_response.artist {
        Some(a) => match a.album {
            Some(v) => v,
            None => Vec::new(),
        },
        None => Vec::new(),
    }
}

/// The songs a reply to `getAlbum` lists; none if it lists none.
pub fn tracks_of(resp: SubsonicResponse) -> (r: Vec<Track>)
    ensures
        r@ == match resp.subsonic_response.album {
            Some(a) => match a.song {
                Some(v) => v@,
                None => Seq::empty(),
            },
            None => Seq::empty(),
        },
{
    match resp.subsonic_response.album {
        Some(a) => match a.song {
            Some(v) => v,
            None => Vec::new(),
        },
        None => Vec::new(),
    }
}

} // verus!
