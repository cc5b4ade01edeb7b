//! Recognition through Shazam: reading its answer.
use vstd::prelude::*;
use vstd::string::StringExecFns;

use crate::json::{
    json_array_items, json_as_array, json_as_str, json_eq_str, json_get, json_member, json_parse,
    json_string, json_text, json_to_text, parse_json,
};
use crate::recognizer::provider::error::{RecognizeError, RecognizeErrorKind};
use crate::recognizer::provider::Provider;
use crate::time::{duration_from_secs, duration_of_secs};
use crate::song::{opt_view, ExternalLinkKey, Song, Uid};
use crate::text::{join, join_strings, str_eq};

verus! {

/// The rate the audio is resampled to before it is fingerprinted.
pub const SAMPLE_RATE_HZ: usize = 16_000;

/// The most audio that goes into a fingerprint.
pub const MAX_AUDIO_DURATION_SECS: usize = 12;

/// The Shazam recognition service.
#[derive(Debug)]
pub struct Shazam;

/// The samples that go into the fingerprint out of `n_samples`: a window
/// around the middle, of at most the maximum duration.
/// Skip to the middle to increase recognition odds and take a maximum of 12 seconds of audio.
pub fn sample_window(n_samples: usize) -> (r: (usize, usize))
    ensures
        r.0 == n_samples / 2 - (if n_samples <= MAX_AUDIO_DURATION_SECS * SAMPLE_RATE_HZ {
            n_samples
        } else {
            (MAX_AUDIO_DURATION_SECS * SAMPLE_RATE_HZ) as usize
        }) / 2,
        r.1 == n_samples / 2 + (if n_samples <= MAX_AUDIO_DURATION_SECS * SAMPLE_RATE_HZ {
            n_samples
        } else {
            (MAX_AUDIO_DURATION_SECS * SAMPLE_RATE_HZ) as usize
        }) / 2,
        r.0 <= r.1 <= n_samples,
        r.1 - r.0 <= MAX_AUDIO_DURATION_SECS * SAMPLE_RATE_HZ,
{
    let middle = n_samples / 2;
    let max_samples = MAX_AUDIO_DURATION_SECS * SAMPLE_RATE_HZ;
    let clamped = if n_samples <= max_samples {
        n_samples
    } else {
        max_samples
    };
    let offset = clamped / 2;
    (middle - offset, middle + offset)
}

/// The address a fingerprint is sent to, with the two random identifiers
/// it names.
pub open spec fn request_uri_text(first_uuid: Seq<char>, second_uuid: Seq<char>) -> Seq<char> {
    "https://amp.shazam.com/discovery/v5/en/US/android/-/tag/"@ + first_uuid + "/"@ + second_uuid
        + "?sync=true&webv3=true&sampling=true&connected=&shazamapiversion=v3&sharehub=true&video=v3"@
}

/// The address a fingerprint is sent to.
pub fn request_uri(first_uuid: &str, second_uuid: &str) -> (r: String)
    ensures
        r@ == request_uri_text(first_uuid@, second_uuid@),
{
    let mut uri = String::from_str("https://amp.shazam.com/discovery/v5/en/US/android/-/tag/");
    uri.append(first_uuid);
    uri.append("/");
    uri.append(second_uuid);
    uri.append("?sync=true&webv3=true&sampling=true&connected=&shazamapiversion=v3&sharehub=true&video=v3");
    uri
}

/// Whether the member `type` of `item` is the string `ty`.
pub open spec fn type_is(item: serde_json::Value, ty: Seq<char>) -> bool {
    json_string(json_member(item, "type"@)) == Some(ty)
}

/// The first of `items` whose `type` is `ty`.
pub open spec fn first_of_type(items: Seq<serde_json::Value>, ty: Seq<char>) -> Option<serde_json::Value>
    decreases items.len(),
{
    if items.len() == 0 {
        None
    } else if type_is(items[0], ty) {
        Some(items[0])
    } else {
        first_of_type(items.skip(1), ty)
    }
}

/// The first section of the track whose `type` is `ty`.
pub open spec fn section_of_type(track: serde_json::Value, ty: Seq<char>) -> Option<serde_json::Value> {
    match json_array_items(json_member(track, "sections"@)) {
        Some(sections) => first_of_type(sections, ty),
        None => None,
    }
}

/// The `text` of the first of `items` whose `title` is `title` and whose
/// `text` is a string.
pub open spec fn first_text_titled(items: Seq<serde_json::Value>, title: Seq<char>) -> Option<Seq<char>>
    decreases items.len(),
{
    if items.len() == 0 {
        None
    } else if json_string(json_member(items[0], "title"@)) == Some(title) && json_string(
        json_member(items[0], "text"@),
    ) is Some {
        json_string(json_member(items[0], "text"@))
    } else {
        first_text_titled(items.skip(1), title)
    }
}

/// The metadata entry `title` of the song section of the track.
pub open spec fn song_metadata(track: serde_json::Value, title: Seq<char>) -> Option<Seq<char>> {
    match section_of_type(track, "SONG"@) {
        Some(section) => match json_array_items(json_member(section, "metadata"@)) {
            Some(items) => first_text_titled(items, title),
            None => None,
        },
        None => None,
    }
}

/// The strings among `items`, in order.
pub open spec fn string_items(items: Seq<serde_json::Value>) -> Seq<Seq<char>>
    decreases items.len(),
{
    if items.len() == 0 {
        seq![]
    } else {
        string_items(items.drop_last()) + match json_string(items.last()) {
            Some(s) => seq![s],
            None => seq![],
        }
    }
}

/// The lyrics of the track: the lines of its lyrics section joined by newlines.
pub open spec fn lyrics_of(track: serde_json::Value) -> Option<Seq<char>> {
    match section_of_type(track, "LYRICS"@) {
        Some(section) => match json_array_items(json_member(section, "text"@)) {
            Some(lines) => Some(join(string_items(lines), "\n"@)),
            None => None,
        },
        None => None,
    }
}

/// The playback link of the track: the `uri` of the first hub action of
/// type `uri`, if that is a string.
pub open spec fn playback_of(track: serde_json::Value) -> Option<Seq<char>> {
    match json_array_items(json_member(json_member(track, "hub"@), "actions"@)) {
        Some(actions) => match first_of_type(actions, "uri"@) {
            Some(action) => json_string(json_member(action, "uri"@)),
            None => None,
        },
        None => None,
    }
}

/// The string `uri` of the last of `actions` of type `uri` that has one.
pub open spec fn last_uri_of_actions(actions: Seq<serde_json::Value>) -> Option<Seq<char>>
    decreases actions.len(),
{
    if actions.len() == 0 {
        None
    } else if type_is(actions.last(), "uri"@) && json_string(json_member(actions.last(), "uri"@)) is Some {
        json_string(json_member(actions.last(), "uri"@))
    } else {
        last_uri_of_actions(actions.drop_last())
    }
}

/// The uri a provider of type `SPOTIFY` offers, if any.
pub open spec fn spotify_uri_of_provider(provider: serde_json::Value) -> Option<Seq<char>> {
    if json_string(json_member(provider, "type"@)) == Some("SPOTIFY"@) {
        match json_array_items(json_member(provider, "actions"@)) {
            Some(actions) => last_uri_of_actions(actions),
            None => None,
        }
    } else {
        None
    }
}

/// The last Spotify uri offered by `providers`.
pub open spec fn spotify_uri_of_providers(providers: Seq<serde_json::Value>) -> Option<Seq<char>>
    decreases providers.len(),
{
    if providers.len() == 0 {
        None
    } else if spotify_uri_of_provider(providers.last()) is Some {
        spotify_uri_of_provider(providers.last())
    } else {
        spotify_uri_of_providers(providers.drop_last())
    }
}

/// The Spotify link of the track.
pub open spec fn spotify_uri_of(track: serde_json::Value) -> Option<Seq<char>> {
    match json_array_items(json_member(json_member(track, "hub"@), "providers"@)) {
        Some(providers) => spotify_uri_of_providers(providers),
        None => None,
    }
}

/// Whether `action` is of type `uri` with the string uri `u`.
pub open spec fn is_uri_action(action: serde_json::Value, u: Seq<char>) -> bool {
    &&& json_string(json_member(action, "type"@)) == Some("uri"@)
    &&& json_string(json_member(action, "uri"@)) == Some(u)
}

/// Whether `provider` is of type `SPOTIFY` and offers the uri `u`.
pub open spec fn spotify_provider_offers(provider: serde_json::Value, u: Seq<char>) -> bool {
    &&& json_string(json_member(provider, "type"@)) == Some("SPOTIFY"@)
    &&& json_array_items(json_member(provider, "actions"@)) is Some
    &&& exists|j: int|
        0 <= j < json_array_items(json_member(provider, "actions"@))->0.len() && is_uri_action(
            #[trigger] json_array_items(json_member(provider, "actions"@))->0[j],
            u,
        )
}

proof fn lemma_last_uri_is_offered(actions: Seq<serde_json::Value>)
    ensures
        last_uri_of_actions(actions) matches Some(u) ==> exists|j: int|
            0 <= j < actions.len() && is_uri_action(#[trigger] actions[j], u),
    decreases actions.len(),
{
    if actions.len() > 0 {
        let d = actions.drop_last();
        lemma_last_uri_is_offered(d);
        if let Some(u) = last_uri_of_actions(actions) {
            if type_is(actions.last(), "uri"@) && json_string(json_member(actions.last(), "uri"@)) is Some {
                assert(is_uri_action(actions[actions.len() - 1], u));
            } else {
                let j = choose|j: int| 0 <= j < d.len() && is_uri_action(#[trigger] d[j], u);
                assert(actions[j] == d[j]);
            }
        }
    }
}

proof fn lemma_spotify_uri_is_offered(providers: Seq<serde_json::Value>)
    ensures
        spotify_uri_of_providers(providers) matches Some(u) ==> exists|i: int|
            0 <= i < providers.len() && spotify_provider_offers(#[trigger] providers[i], u),
        (forall|i: int|
            0 <= i < providers.len() ==> json_string(json_member(#[trigger] providers[i], "type"@)) != Some(
                "SPOTIFY"@,
            )) ==> spotify_uri_of_providers(providers) is None,
    decreases providers.len(),
{
    if providers.len() > 0 {
        let d = providers.drop_last();
        lemma_spotify_uri_is_offered(d);
        let p = providers.last();
        if let Some(u) = spotify_uri_of_provider(p) {
            lemma_last_uri_is_offered(json_array_items(json_member(p, "actions"@))->0);
            assert(spotify_provider_offers(providers[providers.len() - 1], u));
        } else if let Some(u) = spotify_uri_of_providers(providers) {
            let i = choose|i: int| 0 <= i < d.len() && spotify_provider_offers(#[trigger] d[i], u);
            assert(providers[i] == d[i]);
        }
        if forall|i: int|
            0 <= i < providers.len() ==> json_string(json_member(#[trigger] providers[i], "type"@)) != Some(
                "SPOTIFY"@,
            ) {
            assert forall|i: int| 0 <= i < d.len() implies json_string(json_member(#[trigger] d[i], "type"@)) != Some(
                "SPOTIFY"@,
            ) by {
                assert(d[i] == providers[i]);
            }
            assert(json_string(json_member(providers[providers.len() - 1], "type"@)) != Some("SPOTIFY"@));
        }
    }
}

/// The Spotify link of a song decoded from a Shazam answer comes only from
/// a hub provider whose `type` is the string `SPOTIFY`: it is one of the
/// uris such a provider offers, and without such a provider the song has
/// no Spotify link.
pub proof fn spotify_link_comes_from_spotify_providers(song: Song, value: serde_json::Value)
    requires
        is_shazam_song(song, value),
    ensures
        song.external_links.spec_get(ExternalLinkKey::SpotifyUrl) matches Some(u) ==> {
            &&& json_array_items(json_member(json_member(json_member(value, "track"@), "hub"@), "providers"@)) is Some
            &&& exists|i: int|
                0 <= i < json_array_items(
                    json_member(json_member(json_member(value, "track"@), "hub"@), "providers"@),
                )->0.len() && spotify_provider_offers(
                    #[trigger] json_array_items(
                        json_member(json_member(json_member(value, "track"@), "hub"@), "providers"@),
                    )->0[i],
                    u,
                )
        },
        (forall|i: int|
            0 <= i < json_array_items(
                json_member(json_member(json_member(value, "track"@), "hub"@), "providers"@),
            )->0.len() ==> json_string(
                json_member(
                    #[trigger] json_array_items(
                        json_member(json_member(json_member(value, "track"@), "hub"@), "providers"@),
                    )->0[i],
                    "type"@,
                ),
            ) != Some("SPOTIFY"@)) ==> song.external_links.spec_get(ExternalLinkKey::SpotifyUrl) is None,
{
    let track = json_member(value, "track"@);
    match json_array_items(json_member(json_member(track, "hub"@), "providers"@)) {
        Some(providers) => {
            lemma_spotify_uri_is_offered(providers);
        },
        None => {},
    }
}

/// The error for a member that should be a string and is not.
pub open spec fn not_a_string(value: serde_json::Value) -> (RecognizeErrorKind, Option<Seq<char>>) {
    (RecognizeErrorKind::OtherPermanent, Some("expected `str` but got `"@ + json_text(value) + "`"@))
}

/// The error a decoded answer reports, if it does not describe a song.
pub open spec fn shazam_failure(value: serde_json::Value) -> Option<(RecognizeErrorKind, Option<Seq<char>>)> {
    let track = json_member(value, "track"@);
    match json_array_items(json_member(value, "matches"@)) {
        None => Some((RecognizeErrorKind::OtherPermanent, Some("missing `matches` field"@))),
        Some(matches) => if matches.len() == 0 {
            Some((RecognizeErrorKind::NoMatches, None))
        } else if json_string(json_member(track, "title"@)) is None {
            Some(not_a_string(json_member(track, "title"@)))
        } else if json_string(json_member(track, "subtitle"@)) is None {
            Some(not_a_string(json_member(track, "subtitle"@)))
        } else if json_string(json_member(track, "key"@)) is None {
            Some(not_a_string(json_member(track, "key"@)))
        } else {
            None
        },
    }
}

/// `song` holds exactly what a matching answer says of it.
pub open spec fn is_shazam_song(song: Song, value: serde_json::Value) -> bool {
    let track = json_member(value, "track"@);
    let title = json_string(json_member(track, "title"@))->0;
    let artist = json_string(json_member(track, "subtitle"@))->0;
    &&& song.id.prefix@ == "Shazam"@
    &&& song.id.value@ == json_string(json_member(track, "key"@))->0
    &&& song.title@ == title
    &&& song.artist@ == artist
    &&& song.album@ == match song_metadata(track, "Album"@) {
        Some(album) => album,
        None => Seq::<char>::empty(),
    }
    &&& opt_view(song.release_date) == song_metadata(track, "Released"@)
    &&& song.external_links.spec_get(ExternalLinkKey::YoutubeSearchTerm) == Some(
        artist + " - "@ + title,
    )
    &&& song.external_links.spec_get(ExternalLinkKey::SpotifyUrl) == spotify_uri_of(track)
    &&& song.external_links.spec_get(ExternalLinkKey::AudDUrl) is None
    &&& song.external_links.spec_get(ExternalLinkKey::AppleMusicUrl) is None
    &&& opt_view(song.album_art_link) == json_string(
        json_member(json_member(track, "images"@), "coverart"@),
    )
    &&& opt_view(song.playback_link) == playback_of(track)
    &&& opt_view(song.lyrics) == lyrics_of(track)
    &&& song.last_heard is None
    &&& !song.is_newly_heard
}

/// The index of the first of `items` whose `type` is `ty`.
fn find_first_of_type(items: &Vec<serde_json::Value>, ty: &str) -> (r: Option<usize>)
    ensures
        match r {
            Some(i) => i < items@.len() && first_of_type(items@, ty@) == Some(items@[i as int]),
            None => first_of_type(items@, ty@) is None,
        },
{
    let mut i: usize = 0;
    assert(items@.skip(0) =~= items@);
    while i < items.len()
        invariant
            i <= items@.len(),
            first_of_type(items@, ty@) == first_of_type(items@.skip(i as int), ty@),
        decreases items.len() - i,
    {
        let ghost rest = items@.skip(i as int);
        assert(rest[0] == items@[i as int]);
        assert(rest.skip(1) =~= items@.skip(i + 1));
        let ty_value = json_get(&items[i], "type");
        proof {
            reveal_strlit("type");
        }
        match json_as_str(ty_value) {
            Some(t) => {
                if str_eq(t, ty) {
                    return Some(i);
                }
            },
            None => {},
        }
        i = i + 1;
    }
    None
}

/// The `text` of the first metadata item titled `title` with a string text.
fn find_text_titled<'a>(items: &'a Vec<serde_json::Value>, title: &str) -> (r: Option<&'a str>)
    ensures
        match r {
            Some(t) => first_text_titled(items@, title@) == Some(t@),
            None => first_text_titled(items@, title@) is None,
        },
{
    proof {
        reveal_strlit("title");
        reveal_strlit("text");
    }
    let mut i: usize = 0;
    assert(items@.skip(0) =~= items@);
    while i < items.len()
        invariant
            i <= items@.len(),
            first_text_titled(items@, title@) == first_text_titled(items@.skip(i as int), title@),
        decreases items.len() - i,
    {
        let ghost rest = items@.skip(i as int);
        assert(rest[0] == items@[i as int]);
        assert(rest.skip(1) =~= items@.skip(i + 1));
        let item = &items[i];
        if let Some(t) = json_as_str(json_get(item, "title")) {
            if str_eq(t, title) {
                if let Some(value) = json_as_str(json_get(item, "text")) {
                    return Some(value);
                }
            }
        }
        i = i + 1;
    }
    None
}

/// The string `uri` of the last action of type `uri` that has one.
fn find_last_uri<'a>(actions: &'a Vec<serde_json::Value>) -> (r: Option<&'a str>)
    ensures
        match r {
            Some(u) => last_uri_of_actions(actions@) == Some(u@),
            None => last_uri_of_actions(actions@) is None,
        },
{
    proof {
        reveal_strlit("type");
        reveal_strlit("uri");
    }
    let mut found: Option<&str> = None;
    let mut i: usize = 0;
    assert(actions@.take(0) =~= Seq::<serde_json::Value>::empty());
    while i < actions.len()
        invariant
            i <= actions@.len(),
            match found {
                Some(u) => last_uri_of_actions(actions@.take(i as int)) == Some(u@),
                None => last_uri_of_actions(actions@.take(i as int)) is None,
            },
        decreases actions.len() - i,
    {
        assert(actions@.take(i + 1).drop_last() =~= actions@.take(i as int));
        assert(actions@.take(i + 1).last() == actions@[i as int]);
        let action = &actions[i];
        if json_eq_str(json_get(action, "type"), "uri") {
            if let Some(uri) = json_as_str(json_get(action, "uri")) {
                found = Some(uri);
            }
        }
        i = i + 1;
    }
    assert(actions@.take(actions@.len() as int) =~= actions@);
    found
}

impl Shazam {
    /// The song a decoded Shazam answer describes, or the error it reports.
    pub fn build_song_from_value(value: &serde_json::Value) -> (r: Result<Song, RecognizeError>)
        ensures
            match shazam_failure(*value) {
                Some(f) => r matches Err(e) && e@ == f,
                None => r matches Ok(song) && is_shazam_song(song, *value),
            },
    {
        proof {
            reveal_strlit("matches");
            reveal_strlit("track");
            reveal_strlit("sections");
            reveal_strlit("metadata");
            reveal_strlit("SONG");
            reveal_strlit("LYRICS");
            reveal_strlit("Album");
            reveal_strlit("Released");
            reveal_strlit("title");
            reveal_strlit("subtitle");
            reveal_strlit("key");
            reveal_strlit("images");
            reveal_strlit("coverart");
            reveal_strlit("text");
            reveal_strlit("hub");
            reveal_strlit("actions");
            reveal_strlit("providers");
            reveal_strlit("uri");
            reveal_strlit("type");
            reveal_strlit("SPOTIFY");
            reveal_strlit(" - ");
            reveal_strlit("\n");
        }
        match json_as_array(json_get(value, "matches")) {
            Some(matches) => {
                if matches.len() == 0 {
                    return Err(RecognizeError::new(RecognizeErrorKind::NoMatches, None));
                }
            },
            None => {
                return Err(
                    RecognizeError::with_message(
                        RecognizeErrorKind::OtherPermanent,
                        "missing `matches` field",
                    ),
                );
            },
        }

        let track = json_get(value, "track");

        let mut song_section: Option<&serde_json::Value> = None;
        let mut lyrics_section: Option<&serde_json::Value> = None;
        if let Some(sections) = json_as_array(json_get(track, "sections")) {
            if let Some(i) = find_first_of_type(sections, "SONG") {
                song_section = Some(&sections[i]);
            }
            if let Some(i) = find_first_of_type(sections, "LYRICS") {
                lyrics_section = Some(&sections[i]);
            }
        }

        let mut album: Option<&str> = None;
        let mut release_date: Option<&str> = None;
        if let Some(song_section) = song_section {
            if let Some(metadata) = json_as_array(json_get(song_section, "metadata")) {
                album = find_text_titled(metadata, "Album");
                release_date = find_text_titled(metadata, "Released");
            }
        }

        let title = value_as_str_or_err(json_get(track, "title"))?;
        let artist = value_as_str_or_err(json_get(track, "subtitle"))?;
        let key = value_as_str_or_err(json_get(track, "key"))?;
        let album_text = match album {
            Some(a) => String::from_str(a),
            None => String::new(),
        };
        let mut song = Song::new(
            Uid::from_prefixed("Shazam", key),
            String::from_str(title),
            String::from_str(artist),
            album_text,
        );

        let mut youtube_search_term = String::from_str(artist);
        youtube_search_term.append(" - ");
        youtube_search_term.append(title);
        song.external_links.insert(ExternalLinkKey::YoutubeSearchTerm, youtube_search_term);

        if let Some(coverart) = json_as_str(json_get(json_get(track, "images"), "coverart")) {
            song.album_art_link = Some(String::from_str(coverart));
        }

        if let Some(release_date) = release_date {
            song.release_date = Some(String::from_str(release_date));
        }

        if let Some(lyrics_section) = lyrics_section {
            if let Some(lyrics) = json_as_array(json_get(lyrics_section, "text")) {
                let lines = collect_strings(lyrics);
                song.lyrics = Some(join_strings(&lines, "\n"));
            }
        }

        if let Some(actions) = json_as_array(json_get(json_get(track, "hub"), "actions")) {
            if let Some(i) = find_first_of_type(actions, "uri") {
                if let Some(playback_link) = json_as_str(json_get(&actions[i], "uri")) {
                    song.playback_link = Some(String::from_str(playback_link));
                }
            }
        }

        if let Some(providers) = json_as_array(json_get(json_get(track, "hub"), "providers")) {
            if let Some(uri) = find_spotify_uri(providers) {
                song.external_links.insert(ExternalLinkKey::SpotifyUrl, String::from_str(uri));
            }
        }

        Ok(song)
    }

    /// The song a Shazam answer describes, or the error it reports.
    pub fn build_song_from_response_bytes(response_bytes: &[u8]) -> (r: Result<Song, RecognizeError>)
        ensures
            match json_parse(response_bytes@) {
                Err(message) => r matches Err(e) && e@ == (RecognizeErrorKind::OtherPermanent, Some(message)),
                Ok(value) => match shazam_failure(value) {
                    Some(f) => r matches Err(e) && e@ == f,
                    None => r matches Ok(song) && is_shazam_song(song, value),
                },
            },
    {
        match parse_json(response_bytes) {
            Ok(value) => Self::build_song_from_value(&value),
            Err(message) => Err(RecognizeError::new(RecognizeErrorKind::OtherPermanent, Some(message))),
        }
    }

}

impl Provider for Shazam {
    open spec fn sent_api_token(&self) -> Option<Seq<char>> {
        None
    }

    open spec fn recorded_duration(&self) -> std::time::Duration {
        duration_of_secs(4)
    }

    open spec fn supports_test_mode(&self) -> bool {
        false
    }

    fn listen_duration(&self) -> (r: std::time::Duration)
        ensures
            r == duration_of_secs(4),
    {
        duration_from_secs(4)
    }

    fn is_test(&self) -> (r: bool)
        ensures
            !r,
    {
        false
    }
}

/// The strings among `items`, in order.
fn collect_strings(items: &Vec<serde_json::Value>) -> (r: Vec<String>)
    ensures
        r@.map_values(|s: String| s@) == string_items(items@),
{
    let mut out: Vec<String> = Vec::new();
    let mut i: usize = 0;
    assert(items@.take(0) =~= Seq::<serde_json::Value>::empty());
    while i < items.len()
        invariant
            i <= items@.len(),
            out@.map_values(|s: String| s@) == string_items(items@.take(i as int)),
        decreases items.len() - i,
    {
        assert(items@.take(i + 1).drop_last() =~= items@.take(i as int));
        assert(items@.take(i + 1).last() == items@[i as int]);
        let ghost before = out@;
        if let Some(s) = json_as_str(&items[i]) {
            out.push(String::from_str(s));
            assert(out@.map_values(|s: String| s@) =~= before.map_values(|s: String| s@) + seq![s@]);
        } else {
            assert(out@.map_values(|s: String| s@) =~= before.map_values(|s: String| s@) + Seq::<Seq<char>>::empty());
        }
        i = i + 1;
    }
    assert(items@.take(items@.len() as int) =~= items@);
    out
}

/// The last Spotify uri the providers offer.
fn find_spotify_uri<'a>(providers: &'a Vec<serde_json::Value>) -> (r: Option<&'a str>)
    ensures
        match r {
            Some(u) => spotify_uri_of_providers(providers@) == Some(u@),
            None => spotify_uri_of_providers(providers@) is None,
        },
{
    proof {
        reveal_strlit("type");
        reveal_strlit("actions");
        reveal_strlit("SPOTIFY");
    }
    let mut found: Option<&str> = None;
    let mut i: usize = 0;
    assert(providers@.take(0) =~= Seq::<serde_json::Value>::empty());
    while i < providers.len()
        invariant
            i <= providers@.len(),
            match found {
                Some(u) => spotify_uri_of_providers(providers@.take(i as int)) == Some(u@),
                None => spotify_uri_of_providers(providers@.take(i as int)) is None,
            },
        decreases providers.len() - i,
    {
        assert(providers@.take(i + 1).drop_last() =~= providers@.take(i as int));
        assert(providers@.take(i + 1).last() == providers@[i as int]);
        let provider = &providers[i];
        if let Some(t) = json_as_str(json_get(provider, "type")) {
            if str_eq(t, "SPOTIFY") {
                if let Some(actions) = json_as_array(json_get(provider, "actions")) {
                    if let Some(uri) = find_last_uri(actions) {
                        found = Some(uri);
                    }
                }
            }
        }
        i = i + 1;
    }
    assert(providers@.take(providers@.len() as int) =~= providers@);
    found
}

/// The text of `value`, or an error when it is no string.
fn value_as_str_or_err(value: &serde_json::Value) -> (r: Result<&str, RecognizeError>)
    ensures
        match r {
            Ok(s) => json_string(*value) == Some(s@),
            Err(e) => json_string(*value) is None && e@ == not_a_string(*value),
        },
{
    match json_as_str(value) {
        Some(s) => Ok(s),
        None => {
            let mut message = String::from_str("expected `str` but got `");
            let shown = json_to_text(value);
            message.append(shown.as_str());
            message.append("`");
            Err(RecognizeError::new(RecognizeErrorKind::OtherPermanent, Some(message)))
        },
    }
}

} // verus!
