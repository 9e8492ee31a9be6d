//! Decoding of whole server responses: the reserved error bodies are
//! checked first, then the body is split into sections on the coarse `#`
//! delimiter, each section's fragments are parsed into records, and related
//! entities are cross-referenced by their embedded identifiers.
//!
//! Cross-referencing is lenient by design: an identifier that matches
//! nothing resolves to an empty relation, never an error.  Everything else
//! aborts the whole call on the first offending fragment.

use vstd::prelude::*;
use crate::model::{
    spec_comment_user_of, spec_creator_of, spec_level_comment_of, spec_level_of,
    spec_profile_comment_of, spec_profile_of, spec_searched_user_of, spec_song_of, CommentUser,
    CommentUserV, Creator, CreatorV, Level, LevelComment, LevelCommentV, LevelV, ListedLevel,
    ListedLevelV, NewgroundsSong, NewgroundsSongV, Profile, ProfileComment, ProfileCommentV,
    ProfileV, SearchedUser, SearchedUserV,
};
use crate::record::{DeError, DeErrorV};
use crate::text::{
    chars_eq_str, chars_of, nonempty_of, spec_split, split_chars, split_nonempty, string_of,
};

verus! {

/// A failure while decoding a whole response.
#[derive(Debug)]
pub enum ResponseError {
    /// A record fragment could not be parsed.
    De(DeError),
    /// The whole body was the reserved "resource absent" literal `"-1"`.
    NotFound,
    /// The body did not have the shape the endpoint expects: too few
    /// sections, or a malformed comment/author pair.
    UnexpectedFormat,
    /// The whole body was the reserved access-block literal.
    IpBanned,
}

/// The mathematical model of a `ResponseError`.
pub enum ResponseErrorV {
    De(DeErrorV),
    NotFound,
    UnexpectedFormat,
    IpBanned,
}

impl View for ResponseError {
    type V = ResponseErrorV;

    open spec fn view(&self) -> ResponseErrorV {
        match self {
            ResponseError::De(e) => ResponseErrorV::De(e@),
            ResponseError::NotFound => ResponseErrorV::NotFound,
            ResponseError::UnexpectedFormat => ResponseErrorV::UnexpectedFormat,
            ResponseError::IpBanned => ResponseErrorV::IpBanned,
        }
    }
}

impl From<DeError> for ResponseError {
    fn from(e: DeError) -> (r: Self) {
        ResponseError::De(e)
    }
}

impl vstd::std_specs::convert::FromSpecImpl<DeError> for ResponseError {
    open spec fn obeys_from_spec() -> bool {
        true
    }

    open spec fn from_spec(e: DeError) -> Self {
        ResponseError::De(e)
    }
}

/// The out-of-band condition a whole body signals, if any: `"-1"` is
/// "resource absent", the access-block literal is an access block.
pub open spec fn spec_check_errors(body: Seq<char>) -> Option<ResponseErrorV> {
    if body == "-1"@ {
        Some(ResponseErrorV::NotFound)
    } else if body == "error code: 1005"@ {
        Some(ResponseErrorV::IpBanned)
    } else {
        None
    }
}

/// Compares the whole body against the two reserved error literals; either
/// match is reported before any parsing.
pub fn check_response_errors(response: &str) -> (r: Result<(), ResponseError>)
    ensures
        match r {
            Ok(_) => spec_check_errors(response@) is None,
            Err(e) => spec_check_errors(response@) == Some(e@),
        },
{
    let cs = chars_of(response);
    if chars_eq_str(&cs, "-1") {
        return Err(ResponseError::NotFound);
    }
    if chars_eq_str(&cs, "error code: 1005") {
        return Err(ResponseError::IpBanned);
    }
    Ok(())
}

/// Decoding of a list of creator fragments from position `i` on; the first
/// failing fragment aborts the list.
pub open spec fn spec_creator_list_from(frs: Seq<Seq<char>>, i: int) -> Result<
    Seq<CreatorV>,
    DeErrorV,
>
    decreases frs.len() - i,
{
    if i < 0 || i >= frs.len() {
        Ok(seq![])
    } else {
        match spec_creator_of(frs[i]) {
            Err(e) => Err(e),
            Ok(c) => match spec_creator_list_from(frs, i + 1) {
                Ok(cs) => Ok(seq![c] + cs),
                Err(e) => Err(e),
            },
        }
    }
}

/// Decoding of a list of song fragments from position `i` on.
pub open spec fn spec_song_list_from(frs: Seq<Seq<char>>, i: int) -> Result<
    Seq<NewgroundsSongV>,
    DeErrorV,
>
    decreases frs.len() - i,
{
    if i < 0 || i >= frs.len() {
        Ok(seq![])
    } else {
        match spec_song_of(frs[i]) {
            Err(e) => Err(e),
            Ok(c) => match spec_song_list_from(frs, i + 1) {
                Ok(cs) => Ok(seq![c] + cs),
                Err(e) => Err(e),
            },
        }
    }
}

/// Decoding of a list of level fragments from position `i` on.
pub open spec fn spec_level_list_from(frs: Seq<Seq<char>>, i: int) -> Result<Seq<LevelV>, DeErrorV>
    decreases frs.len() - i,
{
    if i < 0 || i >= frs.len() {
        Ok(seq![])
    } else {
        match spec_level_of(frs[i]) {
            Err(e) => Err(e),
            Ok(c) => match spec_level_list_from(frs, i + 1) {
                Ok(cs) => Ok(seq![c] + cs),
                Err(e) => Err(e),
            },
        }
    }
}

/// Decoding of a list of profile-comment fragments from position `i` on.
pub open spec fn spec_profile_comment_list_from(frs: Seq<Seq<char>>, i: int) -> Result<
    Seq<ProfileCommentV>,
    DeErrorV,
>
    decreases frs.len() - i,
{
    if i < 0 || i >= frs.len() {
        Ok(seq![])
    } else {
        match spec_profile_comment_of(frs[i]) {
            Err(e) => Err(e),
            Ok(c) => match spec_profile_comment_list_from(frs, i + 1) {
                Ok(cs) => Ok(seq![c] + cs),
                Err(e) => Err(e),
            },
        }
    }
}

/// The reserved "no associated author" literal: a keyed author record whose
/// every field is empty.
pub open spec fn spec_deleted_author_lit() -> Seq<char> {
    "1~~9~~10~~11~~14~~15~~16~"@
}

/// Decoding of one comment/author pair: the fragment must split on `:`
/// into exactly two parts — the comment, then either the reserved
/// "no associated author" literal (an empty author relation) or an author
/// record.
pub open spec fn spec_comment_pair(frag: Seq<char>) -> Result<LevelCommentV, ResponseErrorV> {
    let parts = spec_split(frag, ":"@);
    if parts.len() != 2 {
        Err(ResponseErrorV::UnexpectedFormat)
    } else {
        match spec_level_comment_of(parts[0]) {
            Err(e) => Err(ResponseErrorV::De(e)),
            Ok(c) => if parts[1] == spec_deleted_author_lit() {
                Ok(c)
            } else {
                match spec_comment_user_of(parts[1]) {
                    Err(e) => Err(ResponseErrorV::De(e)),
                    Ok(u) => Ok(
                        LevelCommentV {
                            content: c.content,
                            likes: c.likes,
                            comment_id: c.comment_id,
                            user: Some(u),
                        },
                    ),
                }
            },
        }
    }
}

/// Decoding of a list of comment/author pairs from position `i` on.
pub open spec fn spec_comment_list_from(frs: Seq<Seq<char>>, i: int) -> Result<
    Seq<LevelCommentV>,
    ResponseErrorV,
>
    decreases frs.len() - i,
{
    if i < 0 || i >= frs.len() {
        Ok(seq![])
    } else {
        match spec_comment_pair(frs[i]) {
            Err(e) => Err(e),
            Ok(c) => match spec_comment_list_from(frs, i + 1) {
                Ok(cs) => Ok(seq![c] + cs),
                Err(e) => Err(e),
            },
        }
    }
}

/// The first creator whose user id is `id`, scanning from position `i`.
pub open spec fn spec_find_creator_from(cs: Seq<CreatorV>, id: u64, i: int) -> Option<CreatorV>
    decreases cs.len() - i,
{
    if i < 0 || i >= cs.len() {
        None
    } else if cs[i].user_id == id {
        Some(cs[i])
    } else {
        spec_find_creator_from(cs, id, i + 1)
    }
}

/// The first song whose song id is `id`, scanning from position `i`.
pub open spec fn spec_find_song_from(ss: Seq<NewgroundsSongV>, id: u64, i: int) -> Option<
    NewgroundsSongV,
>
    decreases ss.len() - i,
{
    if i < 0 || i >= ss.len() {
        None
    } else if ss[i].song_id == id {
        Some(ss[i])
    } else {
        spec_find_song_from(ss, id, i + 1)
    }
}

/// One level with its relations resolved: the creator matching its
/// embedded creator id, and the song matching its embedded song id, each
/// empty when nothing matches.
pub open spec fn spec_listed(l: LevelV, cs: Seq<CreatorV>, ss: Seq<NewgroundsSongV>) -> ListedLevelV {
    ListedLevelV {
        level: l,
        creator: spec_find_creator_from(cs, l.creator, 0),
        custom_song: match l.custom_song {
            Some(id) => spec_find_song_from(ss, id, 0),
            None => None,
        },
    }
}

/// What decoding a paged level-listing response yields: after the sentinel
/// check, three sections — levels, creators, songs — are parsed
/// independently (empty creator and song fragments are dropped), and each
/// level's relations are resolved leniently.
pub open spec fn spec_parse_levels(body: Seq<char>) -> Result<Seq<ListedLevelV>, ResponseErrorV> {
    match spec_check_errors(body) {
        Some(e) => Err(e),
        None => {
            let sections = spec_split(body, "#"@);
            if sections.len() < 3 {
                Err(ResponseErrorV::UnexpectedFormat)
            } else {
                match spec_creator_list_from(nonempty_of(spec_split(sections[1], "|"@)), 0) {
                    Err(e) => Err(ResponseErrorV::De(e)),
                    Ok(cs) => match spec_song_list_from(
                        nonempty_of(spec_split(sections[2], "~:~"@)),
                        0,
                    ) {
                        Err(e) => Err(ResponseErrorV::De(e)),
                        Ok(ss) => match spec_level_list_from(spec_split(sections[0], "|"@), 0) {
                            Err(e) => Err(ResponseErrorV::De(e)),
                            Ok(ls) => Ok(ls.map_values(|l: LevelV| spec_listed(l, cs, ss))),
                        },
                    },
                }
            }
        },
    }
}

/// What decoding a single-level download response yields: the first
/// section, as one level record.
pub open spec fn spec_parse_download(body: Seq<char>) -> Result<LevelV, ResponseErrorV> {
    match spec_check_errors(body) {
        Some(e) => Err(e),
        None => {
            let sections = spec_split(body, "#"@);
            if sections.len() < 1 {
                Err(ResponseErrorV::UnexpectedFormat)
            } else {
                match spec_level_of(sections[0]) {
                    Err(e) => Err(ResponseErrorV::De(e)),
                    Ok(l) => Ok(l),
                }
            }
        },
    }
}

/// What decoding a profile response yields: the whole body, as one profile
/// record.
pub open spec fn spec_parse_user_info(body: Seq<char>) -> Result<ProfileV, ResponseErrorV> {
    match spec_check_errors(body) {
        Some(e) => Err(e),
        None => match spec_profile_of(body) {
            Err(e) => Err(ResponseErrorV::De(e)),
            Ok(p) => Ok(p),
        },
    }
}

/// What decoding a user-search response yields: the first section, as one
/// searched-user record — the backend matches names exactly, so at most
/// one record comes back.
pub open spec fn spec_parse_users(body: Seq<char>) -> Result<SearchedUserV, ResponseErrorV> {
    match spec_check_errors(body) {
        Some(e) => Err(e),
        None => {
            let sections = spec_split(body, "#"@);
            if sections.len() < 1 {
                Err(ResponseErrorV::UnexpectedFormat)
            } else {
                match spec_searched_user_of(sections[0]) {
                    Err(e) => Err(ResponseErrorV::De(e)),
                    Ok(u) => Ok(u),
                }
            }
        },
    }
}

/// What decoding a level-comment response yields: the first section as a
/// `|`-separated list of comment/author pairs.
pub open spec fn spec_parse_comments(body: Seq<char>) -> Result<Seq<LevelCommentV>, ResponseErrorV> {
    match spec_check_errors(body) {
        Some(e) => Err(e),
        None => {
            let sections = spec_split(body, "#"@);
            if sections.len() < 1 {
                Err(ResponseErrorV::UnexpectedFormat)
            } else {
                spec_comment_list_from(spec_split(sections[0], "|"@), 0)
            }
        },
    }
}

/// What decoding an account-comment response yields: the first section as
/// a `|`-separated list of profile comments.
pub open spec fn spec_parse_account_comments(body: Seq<char>) -> Result<
    Seq<ProfileCommentV>,
    ResponseErrorV,
> {
    match spec_check_errors(body) {
        Some(e) => Err(e),
        None => {
            let sections = spec_split(body, "#"@);
            if sections.len() < 1 {
                Err(ResponseErrorV::UnexpectedFormat)
            } else {
                match spec_profile_comment_list_from(spec_split(sections[0], "|"@), 0) {
                    Err(e) => Err(ResponseErrorV::De(e)),
                    Ok(cs) => Ok(cs),
                }
            }
        },
    }
}

fn parse_creator_list(frags: &Vec<Vec<char>>) -> (r: Result<Vec<Creator>, DeError>)
    ensures
        match r {
            Ok(cs) => spec_creator_list_from(frags@.map_values(|f: Vec<char>| f@), 0)
                == Ok::<Seq<CreatorV>, DeErrorV>(cs@.map_values(|c: Creator| c@)),
            Err(e) => spec_creator_list_from(frags@.map_values(|f: Vec<char>| f@), 0)
                == Err::<Seq<CreatorV>, DeErrorV>(e@),
        },
{
    let ghost fviews = frags@.map_values(|f: Vec<char>| f@);
    let ghost full = spec_creator_list_from(fviews, 0);
    let mut out: Vec<Creator> = Vec::new();
    let mut i: usize = 0;
    proof {
        if full is Ok {
            assert(Seq::<CreatorV>::empty() + full->Ok_0 =~= full->Ok_0);
        }
    }
    while i < frags.len()
        invariant
            fviews == frags@.map_values(|f: Vec<char>| f@),
            fviews.len() == frags@.len(),
            full == spec_creator_list_from(fviews, 0),
            i <= frags@.len(),
            out@.len() == i,
            full == (match spec_creator_list_from(fviews, i as int) {
                Ok(cs) => Ok::<Seq<CreatorV>, DeErrorV>(out@.map_values(|c: Creator| c@) + cs),
                Err(e) => Err::<Seq<CreatorV>, DeErrorV>(e),
            }),
        decreases frags@.len() - i,
    {
        let ghost pre = out@.map_values(|c: Creator| c@);
        proof {
            assert(fviews[i as int] == frags@[i as int]@);
        }
        let s = string_of(&frags[i]);
        match Creator::from_gj_str(s.as_str()) {
            Err(e) => {
                return Err(e);
            },
            Ok(c) => {
                out.push(c);
                proof {
                    let x = out@.last()@;
                    assert(out@.map_values(|c: Creator| c@) =~= pre + seq![x]);
                    if spec_creator_list_from(fviews, i + 1) is Ok {
                        let vs = spec_creator_list_from(fviews, i + 1)->Ok_0;
                        assert(pre + (seq![x] + vs) =~= (pre + seq![x]) + vs);
                    }
                }
            },
        }
        i = i + 1;
    }
    proof {
        assert(out@.map_values(|c: Creator| c@) + Seq::<CreatorV>::empty() =~= out@.map_values(
            |c: Creator| c@,
        ));
    }
    Ok(out)
}

fn parse_song_list(frags: &Vec<Vec<char>>) -> (r: Result<Vec<NewgroundsSong>, DeError>)
    ensures
        match r {
            Ok(cs) => spec_song_list_from(frags@.map_values(|f: Vec<char>| f@), 0)
                == Ok::<Seq<NewgroundsSongV>, DeErrorV>(cs@.map_values(|c: NewgroundsSong| c@)),
            Err(e) => spec_song_list_from(frags@.map_values(|f: Vec<char>| f@), 0)
                == Err::<Seq<NewgroundsSongV>, DeErrorV>(e@),
        },
{
    let ghost fviews = frags@.map_values(|f: Vec<char>| f@);
    let ghost full = spec_song_list_from(fviews, 0);
    let mut out: Vec<NewgroundsSong> = Vec::new();
    let mut i: usize = 0;
    proof {
        if full is Ok {
            assert(Seq::<NewgroundsSongV>::empty() + full->Ok_0 =~= full->Ok_0);
        }
    }
    while i < frags.len()
        invariant
            fviews == frags@.map_values(|f: Vec<char>| f@),
            fviews.len() == frags@.len(),
            full == spec_song_list_from(fviews, 0),
            i <= frags@.len(),
            out@.len() == i,
            full == (match spec_song_list_from(fviews, i as int) {
                Ok(cs) => Ok::<Seq<NewgroundsSongV>, DeErrorV>(
                    out@.map_values(|c: NewgroundsSong| c@) + cs,
                ),
                Err(e) => Err::<Seq<NewgroundsSongV>, DeErrorV>(e),
            }),
        decreases frags@.len() - i,
    {
        let ghost pre = out@.map_values(|c: NewgroundsSong| c@);
        proof {
            assert(fviews[i as int] == frags@[i as int]@);
        }
        let s = string_of(&frags[i]);
        match NewgroundsSong::from_gj_str(s.as_str()) {
            Err(e) => {
                return Err(e);
            },
            Ok(c) => {
                out.push(c);
                proof {
                    let x = out@.last()@;
                    assert(out@.map_values(|c: NewgroundsSong| c@) =~= pre + seq![x]);
                    if spec_song_list_from(fviews, i + 1) is Ok {
                        let vs = spec_song_list_from(fviews, i + 1)->Ok_0;
                        assert(pre + (seq![x] + vs) =~= (pre + seq![x]) + vs);
                    }
                }
            },
        }
        i = i + 1;
    }
    proof {
        assert(out@.map_values(|c: NewgroundsSong| c@) + Seq::<NewgroundsSongV>::empty()
            =~= out@.map_values(|c: NewgroundsSong| c@));
    }
    Ok(out)
}

fn parse_level_list(frags: &Vec<Vec<char>>) -> (r: Result<Vec<Level>, DeError>)
    ensures
        match r {
            Ok(cs) => spec_level_list_from(frags@.map_values(|f: Vec<char>| f@), 0)
                == Ok::<Seq<LevelV>, DeErrorV>(cs@.map_values(|c: Level| c@)),
            Err(e) => spec_level_list_from(frags@.map_values(|f: Vec<char>| f@), 0)
                == Err::<Seq<LevelV>, DeErrorV>(e@),
        },
{
    let ghost fviews = frags@.map_values(|f: Vec<char>| f@);
    let ghost full = spec_level_list_from(fviews, 0);
    let mut out: Vec<Level> = Vec::new();
    let mut i: usize = 0;
    proof {
        if full is Ok {
            assert(Seq::<LevelV>::empty() + full->Ok_0 =~= full->Ok_0);
        }
    }
    while i < frags.len()
        invariant
            fviews == frags@.map_values(|f: Vec<char>| f@),
            fviews.len() == frags@.len(),
            full == spec_level_list_from(fviews, 0),
            i <= frags@.len(),
            out@.len() == i,
            full == (match spec_level_list_from(fviews, i as int) {
                Ok(cs) => Ok::<Seq<LevelV>, DeErrorV>(out@.map_values(|c: Level| c@) + cs),
                Err(e) => Err::<Seq<LevelV>, DeErrorV>(e),
            }),
        decreases frags@.len() - i,
    {
        let ghost pre = out@.map_values(|c: Level| c@);
        proof {
            assert(fviews[i as int] == frags@[i as int]@);
        }
        let s = string_of(&frags[i]);
        match Level::from_gj_str(s.as_str()) {
            Err(e) => {
                return Err(e);
            },
            Ok(c) => {
                out.push(c);
                proof {
                    let x = out@.last()@;
                    assert(out@.map_values(|c: Level| c@) =~= pre + seq![x]);
                    if spec_level_list_from(fviews, i + 1) is Ok {
                        let vs = spec_level_list_from(fviews, i + 1)->Ok_0;
                        assert(pre + (seq![x] + vs) =~= (pre + seq![x]) + vs);
                    }
                }
            },
        }
        i = i + 1;
    }
    proof {
        assert(out@.map_values(|c: Level| c@) + Seq::<LevelV>::empty() =~= out@.map_values(
            |c: Level| c@,
        ));
    }
    Ok(out)
}

fn find_creator(creators: &Vec<Creator>, id: u64) -> (r: Option<Creator>)
    ensures
        match r {
            Some(c) => spec_find_creator_from(creators@.map_values(|c: Creator| c@), id, 0)
                == Some(c@),
            None => spec_find_creator_from(creators@.map_values(|c: Creator| c@), id, 0) is None,
        },
{
    let ghost views = creators@.map_values(|c: Creator| c@);
    let mut i: usize = 0;
    while i < creators.len()
        invariant
            views == creators@.map_values(|c: Creator| c@),
            views.len() == creators@.len(),
            i <= creators@.len(),
            spec_find_creator_from(views, id, 0) == spec_find_creator_from(views, id, i as int),
        decreases creators@.len() - i,
    {
        proof {
            assert(views[i as int] == creators@[i as int]@);
        }
        if creators[i].user_id == id {
            return Some(creators[i].duplicate());
        }
        i = i + 1;
    }
    None
}

fn find_song(songs: &Vec<NewgroundsSong>, id: u64) -> (r: Option<NewgroundsSong>)
    ensures
        match r {
            Some(c) => spec_find_song_from(songs@.map_values(|c: NewgroundsSong| c@), id, 0)
                == Some(c@),
            None => spec_find_song_from(songs@.map_values(|c: NewgroundsSong| c@), id, 0) is None,
        },
{
    let ghost views = songs@.map_values(|c: NewgroundsSong| c@);
    let mut i: usize = 0;
    while i < songs.len()
        invariant
            views == songs@.map_values(|c: NewgroundsSong| c@),
            views.len() == songs@.len(),
            i <= songs@.len(),
            spec_find_song_from(views, id, 0) == spec_find_song_from(views, id, i as int),
        decreases songs@.len() - i,
    {
        proof {
            assert(views[i as int] == songs@[i as int]@);
        }
        if songs[i].song_id == id {
            return Some(songs[i].duplicate());
        }
        i = i + 1;
    }
    None
}

/// Decodes a paged level-listing response: three sections — levels,
/// creators, songs — parsed independently, then each level's creator and
/// song relations resolved by embedded id, leniently.
pub fn parse_get_gj_levels_response(response: &str) -> (r: Result<Vec<ListedLevel>, ResponseError>)
    ensures
        match r {
            Ok(ls) => spec_parse_levels(response@) == Ok::<Seq<ListedLevelV>, ResponseErrorV>(
                ls@.map_values(|l: ListedLevel| l@),
            ),
            Err(e) => spec_parse_levels(response@) == Err::<Seq<ListedLevelV>, ResponseErrorV>(e@),
        },
{
    match check_response_errors(response) {
        Err(e) => {
            return Err(e);
        },
        Ok(_) => {},
    }
    let cs = chars_of(response);
    let hash = chars_of("#");
    proof {
        reveal_strlit("#");
    }
    let sections = split_chars(&cs, &hash);
    let ghost secv = spec_split(response@, "#"@);
    if sections.len() < 3 {
        return Err(ResponseError::UnexpectedFormat);
    }
    let pipe = chars_of("|");
    proof {
        reveal_strlit("|");
    }
    let creator_frags = split_nonempty(&sections[1], &pipe);
    proof {
        assert(creator_frags@.map_values(|f: Vec<char>| f@) =~= nonempty_of(
            spec_split(secv[1], "|"@),
        ));
    }
    let creators = match parse_creator_list(&creator_frags) {
        Ok(cs) => cs,
        Err(e) => {
            return Err(ResponseError::De(e));
        },
    };
    let songdelim = chars_of("~:~");
    proof {
        reveal_strlit("~:~");
    }
    let song_frags = split_nonempty(&sections[2], &songdelim);
    proof {
        assert(song_frags@.map_values(|f: Vec<char>| f@) =~= nonempty_of(
            spec_split(secv[2], "~:~"@),
        ));
    }
    let songs = match parse_song_list(&song_frags) {
        Ok(ss) => ss,
        Err(e) => {
            return Err(ResponseError::De(e));
        },
    };
    let level_frags = split_chars(&sections[0], &pipe);
    proof {
        assert(level_frags@.map_values(|f: Vec<char>| f@) =~= spec_split(secv[0], "|"@));
    }
    let raw_levels = match parse_level_list(&level_frags) {
        Ok(ls) => ls,
        Err(e) => {
            return Err(ResponseError::De(e));
        },
    };
    let ghost lsv = raw_levels@.map_values(|c: Level| c@);
    let ghost csv = creators@.map_values(|c: Creator| c@);
    let ghost ssv = songs@.map_values(|c: NewgroundsSong| c@);
    let mut out: Vec<ListedLevel> = Vec::new();
    let mut i: usize = 0;
    while i < raw_levels.len()
        invariant
            lsv == raw_levels@.map_values(|c: Level| c@),
            lsv.len() == raw_levels@.len(),
            csv == creators@.map_values(|c: Creator| c@),
            ssv == songs@.map_values(|c: NewgroundsSong| c@),
            i <= raw_levels@.len(),
            out@.len() == i,
            forall|j: int|
                0 <= j < i ==> out@[j]@ == spec_listed(#[trigger] lsv[j], csv, ssv),
        decreases raw_levels@.len() - i,
    {
        proof {
            assert(lsv[i as int] == raw_levels@[i as int]@);
        }
        let lvl = &raw_levels[i];
        let creator = find_creator(&creators, lvl.creator);
        let song = match lvl.custom_song {
            Some(id) => find_song(&songs, id),
            None => None,
        };
        out.push(ListedLevel { level: lvl.duplicate(), creator, custom_song: song });
        i = i + 1;
    }
    proof {
        assert(out@.map_values(|l: ListedLevel| l@) =~= lsv.map_values(
            |l: LevelV| spec_listed(l, csv, ssv),
        ));
    }
    Ok(out)
}

/// Decodes a single-level download response: the first section, as one
/// level record.
pub fn parse_download_gj_level_response(response: &str) -> (r: Result<Level, ResponseError>)
    ensures
        match r {
            Ok(l) => spec_parse_download(response@) == Ok::<LevelV, ResponseErrorV>(l@),
            Err(e) => spec_parse_download(response@) == Err::<LevelV, ResponseErrorV>(e@),
        },
{
    match check_response_errors(response) {
        Err(e) => {
            return Err(e);
        },
        Ok(_) => {},
    }
    let cs = chars_of(response);
    let hash = chars_of("#");
    proof {
        reveal_strlit("#");
    }
    let sections = split_chars(&cs, &hash);
    if sections.len() < 1 {
        return Err(ResponseError::UnexpectedFormat);
    }
    let s = string_of(&sections[0]);
    match Level::from_gj_str(s.as_str()) {
        Ok(l) => Ok(l),
        Err(e) => Err(ResponseError::De(e)),
    }
}

/// Decodes a profile response: the whole body is one profile record.
pub fn parse_get_gj_user_info_response(response: &str) -> (r: Result<Profile, ResponseError>)
    ensures
        match r {
            Ok(p) => spec_parse_user_info(response@) == Ok::<ProfileV, ResponseErrorV>(p@),
            Err(e) => spec_parse_user_info(response@) == Err::<ProfileV, ResponseErrorV>(e@),
        },
{
    match check_response_errors(response) {
        Err(e) => {
            return Err(e);
        },
        Ok(_) => {},
    }
    match Profile::from_gj_str(response) {
        Ok(p) => Ok(p),
        Err(e) => Err(ResponseError::De(e)),
    }
}

/// Decodes a user-search response: the first section, as at most one
/// searched-user record — the backend matches names exactly, so this
/// endpoint returns at most one object.
pub fn parse_get_gj_users_response(response: &str) -> (r: Result<SearchedUser, ResponseError>)
    ensures
        match r {
            Ok(u) => spec_parse_users(response@) == Ok::<SearchedUserV, ResponseErrorV>(u@),
            Err(e) => spec_parse_users(response@) == Err::<SearchedUserV, ResponseErrorV>(e@),
        },
{
    match check_response_errors(response) {
        Err(e) => {
            return Err(e);
        },
        Ok(_) => {},
    }
    let cs = chars_of(response);
    let hash = chars_of("#");
    proof {
        reveal_strlit("#");
    }
    let sections = split_chars(&cs, &hash);
    if sections.len() < 1 {
        return Err(ResponseError::UnexpectedFormat);
    }
    let s = string_of(&sections[0]);
    match SearchedUser::from_gj_str(s.as_str()) {
        Ok(u) => Ok(u),
        Err(e) => Err(ResponseError::De(e)),
    }
}

/// Decodes a level-comment response: the first section is a `|`-separated
/// list of comment/author pairs, each pair `:`-separated into exactly two
/// fragments; the author is either the reserved "no associated author"
/// literal or an author record.
pub fn parse_get_gj_comments_response(response: &str) -> (r: Result<
    Vec<LevelComment>,
    ResponseError,
>)
    ensures
        match r {
            Ok(cs) => spec_parse_comments(response@) == Ok::<Seq<LevelCommentV>, ResponseErrorV>(
                cs@.map_values(|c: LevelComment| c@),
            ),
            Err(e) => spec_parse_comments(response@) == Err::<Seq<LevelCommentV>, ResponseErrorV>(
                e@,
            ),
        },
{
    match check_response_errors(response) {
        Err(e) => {
            return Err(e);
        },
        Ok(_) => {},
    }
    let cs = chars_of(response);
    let hash = chars_of("#");
    proof {
        reveal_strlit("#");
    }
    let sections = split_chars(&cs, &hash);
    if sections.len() < 1 {
        return Err(ResponseError::UnexpectedFormat);
    }
    let pipe = chars_of("|");
    proof {
        reveal_strlit("|");
    }
    let frags = split_chars(&sections[0], &pipe);
    let ghost fviews = frags@.map_values(|f: Vec<char>| f@);
    proof {
        assert(fviews =~= spec_split(spec_split(response@, "#"@)[0], "|"@));
    }
    let ghost full = spec_comment_list_from(fviews, 0);
    let colon = chars_of(":");
    proof {
        reveal_strlit(":");
    }
    let mut out: Vec<LevelComment> = Vec::new();
    let mut i: usize = 0;
    proof {
        if full is Ok {
            assert(Seq::<LevelCommentV>::empty() + full->Ok_0 =~= full->Ok_0);
        }
    }
    while i < frags.len()
        invariant
            colon@ == ":"@,
            colon@.len() == 1,
            fviews == frags@.map_values(|f: Vec<char>| f@),
            fviews.len() == frags@.len(),
            spec_check_errors(response@) is None,
            spec_split(response@, "#"@).len() >= 1,
            fviews == spec_split(spec_split(response@, "#"@)[0], "|"@),
            full == spec_comment_list_from(fviews, 0),
            i <= frags@.len(),
            out@.len() == i,
            full == (match spec_comment_list_from(fviews, i as int) {
                Ok(cs) => Ok::<Seq<LevelCommentV>, ResponseErrorV>(
                    out@.map_values(|c: LevelComment| c@) + cs,
                ),
                Err(e) => Err::<Seq<LevelCommentV>, ResponseErrorV>(e),
            }),
        decreases frags@.len() - i,
    {
        let ghost pre = out@.map_values(|c: LevelComment| c@);
        proof {
            assert(fviews[i as int] == frags@[i as int]@);
        }
        let parts = split_chars(&frags[i], &colon);
        let ghost pviews = spec_split(fviews[i as int], ":"@);
        if parts.len() != 2 {
            return Err(ResponseError::UnexpectedFormat);
        }
        proof {
            assert(parts@[0]@ == pviews[0]);
            assert(parts@[1]@ == pviews[1]);
        }
        let raw_comment = string_of(&parts[0]);
        let mut comment = match LevelComment::from_gj_str(raw_comment.as_str()) {
            Ok(c) => c,
            Err(e) => {
                return Err(ResponseError::De(e));
            },
        };
        if chars_eq_str(&parts[1], "1~~9~~10~~11~~14~~15~~16~") {
            comment.user = None;
        } else {
            let raw_user = string_of(&parts[1]);
            match CommentUser::from_gj_str(raw_user.as_str()) {
                Ok(u) => {
                    comment.user = Some(u);
                },
                Err(e) => {
                    return Err(ResponseError::De(e));
                },
            }
        }
        out.push(comment);
        proof {
            let x = out@.last()@;
            assert(spec_comment_pair(fviews[i as int]) == Ok::<LevelCommentV, ResponseErrorV>(x));
            assert(out@.map_values(|c: LevelComment| c@) =~= pre + seq![x]);
            if spec_comment_list_from(fviews, i + 1) is Ok {
                let vs = spec_comment_list_from(fviews, i + 1)->Ok_0;
                assert(pre + (seq![x] + vs) =~= (pre + seq![x]) + vs);
            }
        }
        i = i + 1;
    }
    proof {
        assert(out@.map_values(|c: LevelComment| c@) + Seq::<LevelCommentV>::empty()
            =~= out@.map_values(|c: LevelComment| c@));
    }
    Ok(out)
}

/// Decodes an account-comment response: the first section is a
/// `|`-separated list of profile comments.
pub fn parse_get_gj_acccount_comments_response(response: &str) -> (r: Result<
    Vec<ProfileComment>,
    ResponseError,
>)
    ensures
        match r {
            Ok(cs) => spec_parse_account_comments(response@) == Ok::<
                Seq<ProfileCommentV>,
                ResponseErrorV,
            >(cs@.map_values(|c: ProfileComment| c@)),
            Err(e) => spec_parse_account_comments(response@) == Err::<
                Seq<ProfileCommentV>,
                ResponseErrorV,
            >(e@),
        },
{
    match check_response_errors(response) {
        Err(e) => {
            return Err(e);
        },
        Ok(_) => {},
    }
    let cs = chars_of(response);
    let hash = chars_of("#");
    proof {
        reveal_strlit("#");
    }
    let sections = split_chars(&cs, &hash);
    if sections.len() < 1 {
        return Err(ResponseError::UnexpectedFormat);
    }
    let pipe = chars_of("|");
    proof {
        reveal_strlit("|");
    }
    let frags = split_chars(&sections[0], &pipe);
    let ghost fviews = frags@.map_values(|f: Vec<char>| f@);
    proof {
        assert(fviews =~= spec_split(spec_split(response@, "#"@)[0], "|"@));
    }
    let ghost full = spec_profile_comment_list_from(fviews, 0);
    let mut out: Vec<ProfileComment> = Vec::new();
    let mut i: usize = 0;
    proof {
        if full is Ok {
            assert(Seq::<ProfileCommentV>::empty() + full->Ok_0 =~= full->Ok_0);
        }
    }
    while i < frags.len()
        invariant
            fviews == frags@.map_values(|f: Vec<char>| f@),
            fviews.len() == frags@.len(),
            spec_check_errors(response@) is None,
            spec_split(response@, "#"@).len() >= 1,
            fviews == spec_split(spec_split(response@, "#"@)[0], "|"@),
            full == spec_profile_comment_list_from(fviews, 0),
            i <= frags@.len(),
            out@.len() == i,
            full == (match spec_profile_comment_list_from(fviews, i as int) {
                Ok(cs) => Ok::<Seq<ProfileCommentV>, DeErrorV>(
                    out@.map_values(|c: ProfileComment| c@) + cs,
                ),
                Err(e) => Err::<Seq<ProfileCommentV>, DeErrorV>(e),
            }),
        decreases frags@.len() - i,
    {
        let ghost pre = out@.map_values(|c: ProfileComment| c@);
        proof {
            assert(fviews[i as int] == frags@[i as int]@);
        }
        let s = string_of(&frags[i]);
        match ProfileComment::from_gj_str(s.as_str()) {
            Err(e) => {
                return Err(ResponseError::De(e));
            },
            Ok(c) => {
                out.push(c);
                proof {
                    let x = out@.last()@;
                    assert(out@.map_values(|c: ProfileComment| c@) =~= pre + seq![x]);
                    if spec_profile_comment_list_from(fviews, i + 1) is Ok {
                        let vs = spec_profile_comment_list_from(fviews, i + 1)->Ok_0;
                        assert(pre + (seq![x] + vs) =~= (pre + seq![x]) + vs);
                    }
                }
            },
        }
        i = i + 1;
    }
    proof {
        assert(out@.map_values(|c: ProfileComment| c@) + Seq::<ProfileCommentV>::empty()
            =~= out@.map_values(|c: ProfileComment| c@));
    }
    Ok(out)
}

} // verus!
