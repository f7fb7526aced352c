//! The permissions that the client asks of the service.

use crate::text::texts;
use vstd::prelude::*;

verus! {

/// The permissions, in the order in which they are asked for: reading and changing
/// playback, the library, playlists and follows.
pub open spec fn scopes() -> Seq<Seq<char>> {
    seq![
        "playlist-read-collaborative"@,
        "playlist-read-private"@,
        "playlist-modify-private"@,
        "playlist-modify-public"@,
        "user-follow-read"@,
        "user-follow-modify"@,
        "user-library-modify"@,
        "user-library-read"@,
        "user-modify-playback-state"@,
        "user-read-currently-playing"@,
        "user-read-playback-state"@,
        "user-read-playback-position"@,
        "user-read-private"@,
        "user-read-recently-played"@,
    ]
}

/// No text stands twice in `items`.
pub open spec fn distinct(items: Seq<Seq<char>>) -> bool {
    forall|i: int, j: int| 0 <= i < j < items.len() ==> items[i] != items[j]
}

/// The permissions are fourteen different texts.
pub proof fn lemma_scopes_distinct()
    ensures
        scopes().len() == 14,
        distinct(scopes()),
{
    reveal_strlit("playlist-read-collaborative");
    reveal_strlit("playlist-read-private");
    reveal_strlit("playlist-modify-private");
    reveal_strlit("playlist-modify-public");
    reveal_strlit("user-follow-read");
    reveal_strlit("user-follow-modify");
    reveal_strlit("user-library-modify");
    reveal_strlit("user-library-read");
    reveal_strlit("user-modify-playback-state");
    reveal_strlit("user-read-currently-playing");
    reveal_strlit("user-read-playback-state");
    reveal_strlit("user-read-playback-position");
    reveal_strlit("user-read-private");
    reveal_strlit("user-read-recently-played");
    let s = scopes();
    assert(s[0].len() == 27 && s[1].len() == 21 && s[2].len() == 23 && s[3].len() == 22);
    assert(s[4].len() == 16 && s[5].len() == 18 && s[6].len() == 19 && s[7].len() == 17);
    assert(s[8].len() == 26 && s[9].len() == 27 && s[10].len() == 24 && s[11].len() == 27);
    assert(s[12].len() == 17 && s[13].len() == 25);
    assert(s[0][0] == 'p' && s[9][0] == 'u' && s[11][0] == 'u');
    assert(s[9][10] == 'c' && s[11][10] == 'p');
    assert(s[7][5] == 'l' && s[12][5] == 'r');
}

/// The permissions to ask for, each once.
pub fn build_scopes() -> (hs: Vec<String>)
    ensures
        texts(hs@) == scopes(),
        distinct(texts(hs@)),
{
    let mut hs: Vec<String> = Vec::new();
    hs.push(String::from_str("playlist-read-collaborative"));
    hs.push(String::from_str("playlist-read-private"));
    hs.push(String::from_str("playlist-modify-private"));
    hs.push(String::from_str("playlist-modify-public"));
    hs.push(String::from_str("user-follow-read"));
    hs.push(String::from_str("user-follow-modify"));
    hs.push(String::from_str("user-library-modify"));
    hs.push(String::from_str("user-library-read"));
    hs.push(String::from_str("user-modify-playback-state"));
    hs.push(String::from_str("user-read-currently-playing"));
    hs.push(String::from_str("user-read-playback-state"));
    hs.push(String::from_str("user-read-playback-position"));
    hs.push(String::from_str("user-read-private"));
    hs.push(String::from_str("user-read-recently-played"));
    proof {
        assert(texts(hs@) =~= scopes());
        lemma_scopes_distinct();
    }
    hs
}

} // verus!
