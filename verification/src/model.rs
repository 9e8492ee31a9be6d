//! The typed records the response decoder yields, with their wire schemas.
//!
//! Field declaration order is part of the wire contract in positional mode
//! and must not be reordered independent of the protocol version; keyed
//! records name each field by its numeric wire key.  Only the fields the
//! codec and the cross-reference step read are modelled here.

use vstd::prelude::*;
use crate::record::{
    decode_record, lemma_keyed_kinds, lemma_positional_kinds, spec_decode_record, DeError,
    DeErrorV, FieldSchema, FieldSchemaV,
};
use crate::text::{chars_of, spec_split};
use crate::value::{Kind, Value, ValueV};

verus! {

fn take_u64(values: &Vec<Value>, idx: usize) -> (r: u64)
    requires
        idx < values@.len(),
        values@[idx as int]@ is U64,
    ensures
        r == values@[idx as int]@->U64_0,
{
    match &values[idx] {
        Value::U64(x) => *x,
        _ => {
            proof {
                assert(false);
            }
            0
        },
    }
}

fn take_opt_u64(values: &Vec<Value>, idx: usize) -> (r: Option<u64>)
    requires
        idx < values@.len(),
        values@[idx as int]@ is U64 || values@[idx as int]@ is Absent,
    ensures
        r == (if values@[idx as int]@ is Absent {
            Option::<u64>::None
        } else {
            Option::<u64>::Some(values@[idx as int]@->U64_0)
        }),
{
    match &values[idx] {
        Value::U64(x) => Some(*x),
        Value::Absent => None,
        _ => {
            proof {
                assert(false);
            }
            None
        },
    }
}

fn take_u32(values: &Vec<Value>, idx: usize) -> (r: u32)
    requires
        idx < values@.len(),
        values@[idx as int]@ is U32,
    ensures
        r == values@[idx as int]@->U32_0,
{
    match &values[idx] {
        Value::U32(x) => *x,
        _ => {
            proof {
                assert(false);
            }
            0
        },
    }
}

fn take_i32(values: &Vec<Value>, idx: usize) -> (r: i32)
    requires
        idx < values@.len(),
        values@[idx as int]@ is I32,
    ensures
        r == values@[idx as int]@->I32_0,
{
    match &values[idx] {
        Value::I32(x) => *x,
        _ => {
            proof {
                assert(false);
            }
            0
        },
    }
}

fn take_str(values: &Vec<Value>, idx: usize) -> (r: String)
    requires
        idx < values@.len(),
        values@[idx as int]@ is Str,
    ensures
        r@ == values@[idx as int]@->Str_0,
{
    match &values[idx] {
        Value::Str(s) => s.clone(),
        _ => {
            proof {
                assert(false);
            }
            String::new()
        },
    }
}

fn take_opt_str(values: &Vec<Value>, idx: usize) -> (r: Option<String>)
    requires
        idx < values@.len(),
        values@[idx as int]@ is Str || values@[idx as int]@ is Absent,
    ensures
        match r {
            Some(s) => !(values@[idx as int]@ is Absent) && s@ == values@[idx as int]@->Str_0,
            None => values@[idx as int]@ is Absent,
        },
{
    match &values[idx] {
        Value::Str(s) => Some(s.clone()),
        Value::Absent => None,
        _ => {
            proof {
                assert(false);
            }
            None
        },
    }
}

/// The author of a level, as listed in a related-entity section: positional
/// fields, colon-delimited.
pub struct Creator {
    pub user_id: u64,
    pub name: String,
    pub account_id: Option<u64>,
}

/// The mathematical model of a `Creator`.
pub struct CreatorV {
    pub user_id: u64,
    pub name: Seq<char>,
    pub account_id: Option<u64>,
}

impl View for Creator {
    type V = CreatorV;

    open spec fn view(&self) -> CreatorV {
        CreatorV { user_id: self.user_id, name: self.name@, account_id: self.account_id }
    }
}

pub open spec fn creator_schema() -> Seq<FieldSchemaV> {
    seq![
        FieldSchemaV { name: "user_id"@, kind: Kind::U64, optional: false },
        FieldSchemaV { name: "name"@, kind: Kind::Str, optional: false },
        FieldSchemaV { name: "account_id"@, kind: Kind::U64, optional: true },
    ]
}

fn creator_schema_exec() -> (r: Vec<FieldSchema>)
    ensures
        r@.map_values(|f: FieldSchema| f@) == creator_schema(),
{
    let mut v: Vec<FieldSchema> = Vec::new();
    v.push(FieldSchema { name: "user_id".to_owned(), kind: Kind::U64, optional: false });
    v.push(FieldSchema { name: "name".to_owned(), kind: Kind::Str, optional: false });
    v.push(FieldSchema { name: "account_id".to_owned(), kind: Kind::U64, optional: true });
    proof {
        assert(v@.map_values(|f: FieldSchema| f@) =~= creator_schema());
    }
    v
}

/// What decoding one creator fragment yields.
pub open spec fn spec_creator_of(text: Seq<char>) -> Result<CreatorV, DeErrorV> {
    match spec_decode_record(text, ":"@, false, creator_schema()) {
        Ok(vs) => Ok(
            CreatorV {
                user_id: vs[0]->U64_0,
                name: vs[1]->Str_0,
                account_id: if vs[2] is Absent {
                    None
                } else {
                    Some(vs[2]->U64_0)
                },
            },
        ),
        Err(e) => Err(e),
    }
}

impl Creator {
    /// Decodes one creator fragment: `user_id:name:account_id`, the last
    /// field optional.
    pub fn from_gj_str(s: &str) -> (r: Result<Creator, DeError>)
        ensures
            match r {
                Ok(c) => spec_creator_of(s@) == Ok::<CreatorV, DeErrorV>(c@),
                Err(e) => spec_creator_of(s@) == Err::<CreatorV, DeErrorV>(e@),
            },
    {
        let text = chars_of(s);
        let delim = chars_of(":");
        proof {
            reveal_strlit(":");
        }
        let schema = creator_schema_exec();
        match decode_record(&text, &delim, false, &schema) {
            Err(e) => Err(e),
            Ok(values) => {
                proof {
                    lemma_positional_kinds(spec_split(s@, ":"@), creator_schema(), 0);
                }
                let user_id = take_u64(&values, 0);
                let name = take_str(&values, 1);
                let account_id = take_opt_u64(&values, 2);
                Ok(Creator { user_id, name, account_id })
            },
        }
    }

    /// A value-identical copy.
    pub fn duplicate(&self) -> (r: Creator)
        ensures
            r@ == self@,
    {
        Creator {
            user_id: self.user_id,
            name: self.name.clone(),
            account_id: self.account_id,
        }
    }
}

/// A song hosted on the audio portal, as listed in a related-entity
/// section: keyed fields, `~|~`-delimited.
pub struct NewgroundsSong {
    pub song_id: u64,
    pub name: String,
    pub artist: Option<String>,
}

/// The mathematical model of a `NewgroundsSong`.
pub struct NewgroundsSongV {
    pub song_id: u64,
    pub name: Seq<char>,
    pub artist: Option<Seq<char>>,
}

impl View for NewgroundsSong {
    type V = NewgroundsSongV;

    open spec fn view(&self) -> NewgroundsSongV {
        NewgroundsSongV {
            song_id: self.song_id,
            name: self.name@,
            artist: match self.artist {
                Some(ref a) => Some(a@),
                None => None,
            },
        }
    }
}

pub open spec fn song_schema() -> Seq<FieldSchemaV> {
    seq![
        FieldSchemaV { name: "1"@, kind: Kind::U64, optional: false },
        FieldSchemaV { name: "2"@, kind: Kind::Str, optional: false },
        FieldSchemaV { name: "4"@, kind: Kind::Str, optional: true },
    ]
}

fn song_schema_exec() -> (r: Vec<FieldSchema>)
    ensures
        r@.map_values(|f: FieldSchema| f@) == song_schema(),
{
    let mut v: Vec<FieldSchema> = Vec::new();
    v.push(FieldSchema { name: "1".to_owned(), kind: Kind::U64, optional: false });
    v.push(FieldSchema { name: "2".to_owned(), kind: Kind::Str, optional: false });
    v.push(FieldSchema { name: "4".to_owned(), kind: Kind::Str, optional: true });
    proof {
        assert(v@.map_values(|f: FieldSchema| f@) =~= song_schema());
    }
    v
}

/// What decoding one song fragment yields.
pub open spec fn spec_song_of(text: Seq<char>) -> Result<NewgroundsSongV, DeErrorV> {
    match spec_decode_record(text, "~|~"@, true, song_schema()) {
        Ok(vs) => Ok(
            NewgroundsSongV {
                song_id: vs[0]->U64_0,
                name: vs[1]->Str_0,
                artist: if vs[2] is Absent {
                    None
                } else {
                    Some(vs[2]->Str_0)
                },
            },
        ),
        Err(e) => Err(e),
    }
}

impl NewgroundsSong {
    /// Decodes one song fragment: keyed `1` (song id), `2` (name), and
    /// optionally `4` (artist), `~|~`-delimited.
    pub fn from_gj_str(s: &str) -> (r: Result<NewgroundsSong, DeError>)
        ensures
            match r {
                Ok(c) => spec_song_of(s@) == Ok::<NewgroundsSongV, DeErrorV>(c@),
                Err(e) => spec_song_of(s@) == Err::<NewgroundsSongV, DeErrorV>(e@),
            },
    {
        let text = chars_of(s);
        let delim = chars_of("~|~");
        proof {
            reveal_strlit("~|~");
        }
        let schema = song_schema_exec();
        match decode_record(&text, &delim, true, &schema) {
            Err(e) => Err(e),
            Ok(values) => {
                proof {
                    lemma_keyed_kinds(spec_split(s@, "~|~"@), song_schema(), 0);
                }
                let song_id = take_u64(&values, 0);
                let name = take_str(&values, 1);
                let artist = take_opt_str(&values, 2);
                Ok(NewgroundsSong { song_id, name, artist })
            },
        }
    }

    /// A value-identical copy.
    pub fn duplicate(&self) -> (r: NewgroundsSong)
        ensures
            r@ == self@,
    {
        NewgroundsSong {
            song_id: self.song_id,
            name: self.name.clone(),
            artist: match &self.artist {
                Some(a) => Some(a.clone()),
                None => None,
            },
        }
    }
}

/// A level, as carried in a primary-entity section or a single-entity
/// download: keyed fields, colon-delimited.  `creator` is the embedded user
/// id of the level's author; `custom_song` the embedded id of its song, if
/// it uses one.
pub struct Level {
    pub level_id: u64,
    pub name: String,
    pub creator: u64,
    pub downloads: u32,
    pub likes: i32,
    pub custom_song: Option<u64>,
}

/// The mathematical model of a `Level`.
pub struct LevelV {
    pub level_id: u64,
    pub name: Seq<char>,
    pub creator: u64,
    pub downloads: u32,
    pub likes: i32,
    pub custom_song: Option<u64>,
}

impl View for Level {
    type V = LevelV;

    open spec fn view(&self) -> LevelV {
        LevelV {
            level_id: self.level_id,
            name: self.name@,
            creator: self.creator,
            downloads: self.downloads,
            likes: self.likes,
            custom_song: self.custom_song,
        }
    }
}

pub open spec fn level_schema() -> Seq<FieldSchemaV> {
    seq![
        FieldSchemaV { name: "1"@, kind: Kind::U64, optional: false },
        FieldSchemaV { name: "2"@, kind: Kind::Str, optional: false },
        FieldSchemaV { name: "6"@, kind: Kind::U64, optional: false },
        FieldSchemaV { name: "10"@, kind: Kind::U32, optional: false },
        FieldSchemaV { name: "14"@, kind: Kind::I32, optional: false },
        FieldSchemaV { name: "35"@, kind: Kind::U64, optional: true },
    ]
}

fn level_schema_exec() -> (r: Vec<FieldSchema>)
    ensures
        r@.map_values(|f: FieldSchema| f@) == level_schema(),
{
    let mut v: Vec<FieldSchema> = Vec::new();
    v.push(FieldSchema { name: "1".to_owned(), kind: Kind::U64, optional: false });
    v.push(FieldSchema { name: "2".to_owned(), kind: Kind::Str, optional: false });
    v.push(FieldSchema { name: "6".to_owned(), kind: Kind::U64, optional: false });
    v.push(FieldSchema { name: "10".to_owned(), kind: Kind::U32, optional: false });
    v.push(FieldSchema { name: "14".to_owned(), kind: Kind::I32, optional: false });
    v.push(FieldSchema { name: "35".to_owned(), kind: Kind::U64, optional: true });
    proof {
        assert(v@.map_values(|f: FieldSchema| f@) =~= level_schema());
    }
    v
}

/// What decoding one level fragment yields.
pub open spec fn spec_level_of(text: Seq<char>) -> Result<LevelV, DeErrorV> {
    match spec_decode_record(text, ":"@, true, level_schema()) {
        Ok(vs) => Ok(
            LevelV {
                level_id: vs[0]->U64_0,
                name: vs[1]->Str_0,
                creator: vs[2]->U64_0,
                downloads: vs[3]->U32_0,
                likes: vs[4]->I32_0,
                custom_song: if vs[5] is Absent {
                    None
                } else {
                    Some(vs[5]->U64_0)
                },
            },
        ),
        Err(e) => Err(e),
    }
}

impl Level {
    /// Decodes one level fragment: keyed `1` (level id), `2` (name), `6`
    /// (creator user id), `10` (downloads), `14` (likes), and optionally
    /// `35` (custom song id), colon-delimited.
    pub fn from_gj_str(s: &str) -> (r: Result<Level, DeError>)
        ensures
            match r {
                Ok(c) => spec_level_of(s@) == Ok::<LevelV, DeErrorV>(c@),
                Err(e) => spec_level_of(s@) == Err::<LevelV, DeErrorV>(e@),
            },
    {
        let text = chars_of(s);
        let delim = chars_of(":");
        proof {
            reveal_strlit(":");
        }
        let schema = level_schema_exec();
        match decode_record(&text, &delim, true, &schema) {
            Err(e) => Err(e),
            Ok(values) => {
                proof {
                    lemma_keyed_kinds(spec_split(s@, ":"@), level_schema(), 0);
                }
                let level_id = take_u64(&values, 0);
                let name = take_str(&values, 1);
                let creator = take_u64(&values, 2);
                let downloads = take_u32(&values, 3);
                let likes = take_i32(&values, 4);
                let custom_song = take_opt_u64(&values, 5);
                Ok(Level { level_id, name, creator, downloads, likes, custom_song })
            },
        }
    }

    /// A value-identical copy.
    pub fn duplicate(&self) -> (r: Level)
        ensures
            r@ == self@,
    {
        Level {
            level_id: self.level_id,
            name: self.name.clone(),
            creator: self.creator,
            downloads: self.downloads,
            likes: self.likes,
            custom_song: self.custom_song,
        }
    }
}

/// A level from a paged listing, with its soft relations resolved: the
/// creator whose user id the level embeds, and the song whose id it embeds,
/// either left empty when nothing in the response matches.
pub struct ListedLevel {
    pub level: Level,
    pub creator: Option<Creator>,
    pub custom_song: Option<NewgroundsSong>,
}

/// The mathematical model of a `ListedLevel`.
pub struct ListedLevelV {
    pub level: LevelV,
    pub creator: Option<CreatorV>,
    pub custom_song: Option<NewgroundsSongV>,
}

impl View for ListedLevel {
    type V = ListedLevelV;

    open spec fn view(&self) -> ListedLevelV {
        ListedLevelV {
            level: self.level@,
            creator: match self.creator {
                Some(ref c) => Some(c@),
                None => None,
            },
            custom_song: match self.custom_song {
                Some(ref s) => Some(s@),
                None => None,
            },
        }
    }
}

/// An account profile: keyed fields, colon-delimited, filling the whole
/// response body.
pub struct Profile {
    pub name: String,
    pub user_id: u64,
    pub account_id: u64,
}

/// The mathematical model of a `Profile`.
pub struct ProfileV {
    pub name: Seq<char>,
    pub user_id: u64,
    pub account_id: u64,
}

impl View for Profile {
    type V = ProfileV;

    open spec fn view(&self) -> ProfileV {
        ProfileV { name: self.name@, user_id: self.user_id, account_id: self.account_id }
    }
}

pub open spec fn profile_schema() -> Seq<FieldSchemaV> {
    seq![
        FieldSchemaV { name: "1"@, kind: Kind::Str, optional: false },
        FieldSchemaV { name: "2"@, kind: Kind::U64, optional: false },
        FieldSchemaV { name: "16"@, kind: Kind::U64, optional: false },
    ]
}

fn profile_schema_exec() -> (r: Vec<FieldSchema>)
    ensures
        r@.map_values(|f: FieldSchema| f@) == profile_schema(),
{
    let mut v: Vec<FieldSchema> = Vec::new();
    v.push(FieldSchema { name: "1".to_owned(), kind: Kind::Str, optional: false });
    v.push(FieldSchema { name: "2".to_owned(), kind: Kind::U64, optional: false });
    v.push(FieldSchema { name: "16".to_owned(), kind: Kind::U64, optional: false });
    proof {
        assert(v@.map_values(|f: FieldSchema| f@) =~= profile_schema());
    }
    v
}

/// What decoding one profile body yields.
pub open spec fn spec_profile_of(text: Seq<char>) -> Result<ProfileV, DeErrorV> {
    match spec_decode_record(text, ":"@, true, profile_schema()) {
        Ok(vs) => Ok(
            ProfileV { name: vs[0]->Str_0, user_id: vs[1]->U64_0, account_id: vs[2]->U64_0 },
        ),
        Err(e) => Err(e),
    }
}

impl Profile {
    /// Decodes one profile body: keyed `1` (name), `2` (user id), `16`
    /// (account id), colon-delimited.
    pub fn from_gj_str(s: &str) -> (r: Result<Profile, DeError>)
        ensures
            match r {
                Ok(c) => spec_profile_of(s@) == Ok::<ProfileV, DeErrorV>(c@),
                Err(e) => spec_profile_of(s@) == Err::<ProfileV, DeErrorV>(e@),
            },
    {
        let text = chars_of(s);
        let delim = chars_of(":");
        proof {
            reveal_strlit(":");
        }
        let schema = profile_schema_exec();
        match decode_record(&text, &delim, true, &schema) {
            Err(e) => Err(e),
            Ok(values) => {
                proof {
                    lemma_keyed_kinds(spec_split(s@, ":"@), profile_schema(), 0);
                }
                let name = take_str(&values, 0);
                let user_id = take_u64(&values, 1);
                let account_id = take_u64(&values, 2);
                Ok(Profile { name, user_id, account_id })
            },
        }
    }
}

/// A user as returned by the name search endpoint: keyed fields,
/// colon-delimited.
pub struct SearchedUser {
    pub name: String,
    pub user_id: u64,
    pub account_id: Option<u64>,
}

/// The mathematical model of a `SearchedUser`.
pub struct SearchedUserV {
    pub name: Seq<char>,
    pub user_id: u64,
    pub account_id: Option<u64>,
}

impl View for SearchedUser {
    type V = SearchedUserV;

    open spec fn view(&self) -> SearchedUserV {
        SearchedUserV {
            name: self.name@,
            user_id: self.user_id,
            account_id: self.account_id,
        }
    }
}

pub open spec fn searched_user_schema() -> Seq<FieldSchemaV> {
    seq![
        FieldSchemaV { name: "1"@, kind: Kind::Str, optional: false },
        FieldSchemaV { name: "2"@, kind: Kind::U64, optional: false },
        FieldSchemaV { name: "16"@, kind: Kind::U64, optional: true },
    ]
}

fn searched_user_schema_exec() -> (r: Vec<FieldSchema>)
    ensures
        r@.map_values(|f: FieldSchema| f@) == searched_user_schema(),
{
    let mut v: Vec<FieldSchema> = Vec::new();
    v.push(FieldSchema { name: "1".to_owned(), kind: Kind::Str, optional: false });
    v.push(FieldSchema { name: "2".to_owned(), kind: Kind::U64, optional: false });
    v.push(FieldSchema { name: "16".to_owned(), kind: Kind::U64, optional: true });
    proof {
        assert(v@.map_values(|f: FieldSchema| f@) =~= searched_user_schema());
    }
    v
}

/// What decoding one searched-user fragment yields.
pub open spec fn spec_searched_user_of(text: Seq<char>) -> Result<SearchedUserV, DeErrorV> {
    match spec_decode_record(text, ":"@, true, searched_user_schema()) {
        Ok(vs) => Ok(
            SearchedUserV {
                name: vs[0]->Str_0,
                user_id: vs[1]->U64_0,
                account_id: if vs[2] is Absent {
                    None
                } else {
                    Some(vs[2]->U64_0)
                },
            },
        ),
        Err(e) => Err(e),
    }
}

impl SearchedUser {
    /// Decodes one searched-user fragment: keyed `1` (name), `2` (user id),
    /// and optionally `16` (account id), colon-delimited.
    pub fn from_gj_str(s: &str) -> (r: Result<SearchedUser, DeError>)
        ensures
            match r {
                Ok(c) => spec_searched_user_of(s@) == Ok::<SearchedUserV, DeErrorV>(c@),
                Err(e) => spec_searched_user_of(s@) == Err::<SearchedUserV, DeErrorV>(e@),
            },
    {
        let text = chars_of(s);
        let delim = chars_of(":");
        proof {
            reveal_strlit(":");
        }
        let schema = searched_user_schema_exec();
        match decode_record(&text, &delim, true, &schema) {
            Err(e) => Err(e),
            Ok(values) => {
                proof {
                    lemma_keyed_kinds(spec_split(s@, ":"@), searched_user_schema(), 0);
                }
                let name = take_str(&values, 0);
                let user_id = take_u64(&values, 1);
                let account_id = take_opt_u64(&values, 2);
                Ok(SearchedUser { name, user_id, account_id })
            },
        }
    }
}

/// The author of a level comment: keyed fields, tilde-delimited.
pub struct CommentUser {
    pub name: String,
    pub icon: Option<u64>,
    pub account_id: Option<u64>,
}

/// The mathematical model of a `CommentUser`.
pub struct CommentUserV {
    pub name: Seq<char>,
    pub icon: Option<u64>,
    pub account_id: Option<u64>,
}

impl View for CommentUser {
    type V = CommentUserV;

    open spec fn view(&self) -> CommentUserV {
        CommentUserV { name: self.name@, icon: self.icon, account_id: self.account_id }
    }
}

pub open spec fn comment_user_schema() -> Seq<FieldSchemaV> {
    seq![
        FieldSchemaV { name: "1"@, kind: Kind::Str, optional: false },
        FieldSchemaV { name: "9"@, kind: Kind::U64, optional: true },
        FieldSchemaV { name: "16"@, kind: Kind::U64, optional: true },
    ]
}

fn comment_user_schema_exec() -> (r: Vec<FieldSchema>)
    ensures
        r@.map_values(|f: FieldSchema| f@) == comment_user_schema(),
{
    let mut v: Vec<FieldSchema> = Vec::new();
    v.push(FieldSchema { name: "1".to_owned(), kind: Kind::Str, optional: false });
    v.push(FieldSchema { name: "9".to_owned(), kind: Kind::U64, optional: true });
    v.push(FieldSchema { name: "16".to_owned(), kind: Kind::U64, optional: true });
    proof {
        assert(v@.map_values(|f: FieldSchema| f@) =~= comment_user_schema());
    }
    v
}

/// What decoding one comment-author fragment yields.
pub open spec fn spec_comment_user_of(text: Seq<char>) -> Result<CommentUserV, DeErrorV> {
    match spec_decode_record(text, "~"@, true, comment_user_schema()) {
        Ok(vs) => Ok(
            CommentUserV {
                name: vs[0]->Str_0,
                icon: if vs[1] is Absent {
                    None
                } else {
                    Some(vs[1]->U64_0)
                },
                account_id: if vs[2] is Absent {
                    None
                } else {
                    Some(vs[2]->U64_0)
                },
            },
        ),
        Err(e) => Err(e),
    }
}

impl CommentUser {
    /// Decodes one comment-author fragment: keyed `1` (name), and
    /// optionally `9` (icon), `16` (account id), tilde-delimited.
    pub fn from_gj_str(s: &str) -> (r: Result<CommentUser, DeError>)
        ensures
            match r {
                Ok(c) => spec_comment_user_of(s@) == Ok::<CommentUserV, DeErrorV>(c@),
                Err(e) => spec_comment_user_of(s@) == Err::<CommentUserV, DeErrorV>(e@),
            },
    {
        let text = chars_of(s);
        let delim = chars_of("~");
        proof {
            reveal_strlit("~");
        }
        let schema = comment_user_schema_exec();
        match decode_record(&text, &delim, true, &schema) {
            Err(e) => Err(e),
            Ok(values) => {
                proof {
                    lemma_keyed_kinds(spec_split(s@, "~"@), comment_user_schema(), 0);
                }
                let name = take_str(&values, 0);
                let icon = take_opt_u64(&values, 1);
                let account_id = take_opt_u64(&values, 2);
                Ok(CommentUser { name, icon, account_id })
            },
        }
    }

    /// A value-identical copy.
    pub fn duplicate(&self) -> (r: CommentUser)
        ensures
            r@ == self@,
    {
        CommentUser {
            name: self.name.clone(),
            icon: self.icon,
            account_id: self.account_id,
        }
    }
}

/// A comment below a level, with its author relation: keyed fields,
/// tilde-delimited.  The author is resolved by the paired comment/author
/// decoder, never by the comment's own fragment.
pub struct LevelComment {
    pub content: String,
    pub likes: i32,
    pub comment_id: u64,
    pub user: Option<CommentUser>,
}

/// The mathematical model of a `LevelComment`.
pub struct LevelCommentV {
    pub content: Seq<char>,
    pub likes: i32,
    pub comment_id: u64,
    pub user: Option<CommentUserV>,
}

impl View for LevelComment {
    type V = LevelCommentV;

    open spec fn view(&self) -> LevelCommentV {
        LevelCommentV {
            content: self.content@,
            likes: self.likes,
            comment_id: self.comment_id,
            user: match self.user {
                Some(ref u) => Some(u@),
                None => None,
            },
        }
    }
}

pub open spec fn level_comment_schema() -> Seq<FieldSchemaV> {
    seq![
        FieldSchemaV { name: "2"@, kind: Kind::Str, optional: false },
        FieldSchemaV { name: "4"@, kind: Kind::I32, optional: false },
        FieldSchemaV { name: "6"@, kind: Kind::U64, optional: false },
    ]
}

fn level_comment_schema_exec() -> (r: Vec<FieldSchema>)
    ensures
        r@.map_values(|f: FieldSchema| f@) == level_comment_schema(),
{
    let mut v: Vec<FieldSchema> = Vec::new();
    v.push(FieldSchema { name: "2".to_owned(), kind: Kind::Str, optional: false });
    v.push(FieldSchema { name: "4".to_owned(), kind: Kind::I32, optional: false });
    v.push(FieldSchema { name: "6".to_owned(), kind: Kind::U64, optional: false });
    proof {
        assert(v@.map_values(|f: FieldSchema| f@) =~= level_comment_schema());
    }
    v
}

/// What decoding one comment fragment yields; the author relation starts
/// empty.
pub open spec fn spec_level_comment_of(text: Seq<char>) -> Result<LevelCommentV, DeErrorV> {
    match spec_decode_record(text, "~"@, true, level_comment_schema()) {
        Ok(vs) => Ok(
            LevelCommentV {
                content: vs[0]->Str_0,
                likes: vs[1]->I32_0,
                comment_id: vs[2]->U64_0,
                user: None,
            },
        ),
        Err(e) => Err(e),
    }
}

impl LevelComment {
    /// Decodes one comment fragment: keyed `2` (content), `4` (likes), `6`
    /// (comment id), tilde-delimited.  The author relation starts empty.
    pub fn from_gj_str(s: &str) -> (r: Result<LevelComment, DeError>)
        ensures
            match r {
                Ok(c) => spec_level_comment_of(s@) == Ok::<LevelCommentV, DeErrorV>(c@),
                Err(e) => spec_level_comment_of(s@) == Err::<LevelCommentV, DeErrorV>(e@),
            },
    {
        let text = chars_of(s);
        let delim = chars_of("~");
        proof {
            reveal_strlit("~");
        }
        let schema = level_comment_schema_exec();
        match decode_record(&text, &delim, true, &schema) {
            Err(e) => Err(e),
            Ok(values) => {
                proof {
                    lemma_keyed_kinds(spec_split(s@, "~"@), level_comment_schema(), 0);
                }
                let content = take_str(&values, 0);
                let likes = take_i32(&values, 1);
                let comment_id = take_u64(&values, 2);
                Ok(LevelComment { content, likes, comment_id, user: None })
            },
        }
    }
}

/// A comment on an account's own profile: keyed fields, tilde-delimited.
pub struct ProfileComment {
    pub content: String,
    pub likes: i32,
    pub comment_id: u64,
}

/// The mathematical model of a `ProfileComment`.
pub struct ProfileCommentV {
    pub content: Seq<char>,
    pub likes: i32,
    pub comment_id: u64,
}

impl View for ProfileComment {
    type V = ProfileCommentV;

    open spec fn view(&self) -> ProfileCommentV {
        ProfileCommentV {
            content: self.content@,
            likes: self.likes,
            comment_id: self.comment_id,
        }
    }
}

pub open spec fn profile_comment_schema() -> Seq<FieldSchemaV> {
    seq![
        FieldSchemaV { name: "2"@, kind: Kind::Str, optional: false },
        FieldSchemaV { name: "4"@, kind: Kind::I32, optional: false },
        FieldSchemaV { name: "6"@, kind: Kind::U64, optional: false },
    ]
}

fn profile_comment_schema_exec() -> (r: Vec<FieldSchema>)
    ensures
        r@.map_values(|f: FieldSchema| f@) == profile_comment_schema(),
{
    let mut v: Vec<FieldSchema> = Vec::new();
    v.push(FieldSchema { name: "2".to_owned(), kind: Kind::Str, optional: false });
    v.push(FieldSchema { name: "4".to_owned(), kind: Kind::I32, optional: false });
    v.push(FieldSchema { name: "6".to_owned(), kind: Kind::U64, optional: false });
    proof {
        assert(v@.map_values(|f: FieldSchema| f@) =~= profile_comment_schema());
    }
    v
}

/// What decoding one profile-comment fragment yields.
pub open spec fn spec_profile_comment_of(text: Seq<char>) -> Result<ProfileCommentV, DeErrorV> {
    match spec_decode_record(text, "~"@, true, profile_comment_schema()) {
        Ok(vs) => Ok(
            ProfileCommentV {
                content: vs[0]->Str_0,
                likes: vs[1]->I32_0,
                comment_id: vs[2]->U64_0,
            },
        ),
        Err(e) => Err(e),
    }
}

impl ProfileComment {
    /// Decodes one profile-comment fragment: keyed `2` (content), `4`
    /// (likes), `6` (comment id), tilde-delimited.
    pub fn from_gj_str(s: &str) -> (r: Result<ProfileComment, DeError>)
        ensures
            match r {
                Ok(c) => spec_profile_comment_of(s@) == Ok::<ProfileCommentV, DeErrorV>(c@),
                Err(e) => spec_profile_comment_of(s@) == Err::<ProfileCommentV, DeErrorV>(e@),
            },
    {
        let text = chars_of(s);
        let delim = chars_of("~");
        proof {
            reveal_strlit("~");
        }
        let schema = profile_comment_schema_exec();
        match decode_record(&text, &delim, true, &schema) {
            Err(e) => Err(e),
            Ok(values) => {
                proof {
                    lemma_keyed_kinds(spec_split(s@, "~"@), profile_comment_schema(), 0);
                }
                let content = take_str(&values, 0);
                let likes = take_i32(&values, 1);
                let comment_id = take_u64(&values, 2);
                Ok(ProfileComment { content, likes, comment_id })
            },
        }
    }
}

} // verus!
