//! Per-profile records and the rules that govern them: monotone id
//! allocation (highest existing id plus one, gaps are never reused),
//! renaming, and the layout of a profile's directory under the launcher's
//! data directory.
//!
//! Reading and writing the metadata file, and probing the filesystem for
//! an installed artifact, live outside the library; they hand in and take
//! back plain values.

use vstd::prelude::*;
use crate::strutil::dec_rep;
use crate::strutil::join_path;
use crate::strutil::push_char;
use crate::strutil::push_decimal;

verus! {

/// The persisted part of a profile's record.
pub struct ProfileSettings {
    /// Unique, non-negative, assigned once at creation.
    pub id: i16,
    /// Display name; the only field a rename may change.
    pub name: String,
}

/// One profile as the rest of the system sees it. `has_jar` is never
/// persisted: it is recomputed from the filesystem on every load, so it
/// cannot drift from reality.
pub struct Profile {
    pub settings: ProfileSettings,
    /// Whether an artifact file exists in the profile's directory.
    pub has_jar: bool,
}

/// Why a profile's directory could not be loaded as a profile.
#[derive(Debug, Clone, Copy, PartialEq, Eq, Structural)]
pub enum ProfileLoadError {
    /// The directory holds no metadata file.
    NoDataFile,
    /// The metadata file does not parse as a profile record.
    InvalidDataFile,
}

/// The highest id among `ids`, or -1 when there is none.
pub open spec fn max_id(ids: Seq<i16>) -> int
    decreases ids.len(),
{
    if ids.len() == 0 {
        -1
    } else {
        let rest = max_id(ids.drop_last());
        if ids.last() as int > rest {
            ids.last() as int
        } else {
            rest
        }
    }
}

/// The id a newly created profile receives: one more than the highest
/// existing id, or 0 when no profile exists yet. Gaps left by removed
/// profiles are never reused.
pub fn next_profile_id(ids: &Vec<i16>) -> (r: i16)
    requires
        forall|i: int| 0 <= i < ids@.len() ==> ids@[i] < i16::MAX,
    ensures
        r as int == max_id(ids@) + 1,
        r >= 0,
{
    let mut highest: i16 = -1;
    let mut i: usize = 0;
    while i < ids.len()
        invariant
            i <= ids@.len(),
            forall|k: int| 0 <= k < ids@.len() ==> ids@[k] < i16::MAX,
            highest as int == max_id(ids@.subrange(0, i as int)),
            -1 <= highest < i16::MAX,
        decreases ids@.len() - i,
    {
        let id = ids[i];
        if id > highest {
            highest = id;
        }
        proof {
            assert(ids@.subrange(0, i + 1).drop_last() =~= ids@.subrange(0, i as int));
            assert(ids@.subrange(0, i + 1).last() == ids@[i as int]);
        }
        i = i + 1;
    }
    proof {
        assert(ids@.subrange(0, ids@.len() as int) =~= ids@);
        assert(max_id(ids@) >= -1);
    }
    highest + 1
}

/// A fresh profile for the given set of existing ids: the next unused id,
/// the stock display name, and no artifact installed yet.
pub fn new_profile(existing_ids: &Vec<i16>) -> (r: Profile)
    requires
        forall|i: int| 0 <= i < existing_ids@.len() ==> existing_ids@[i] < i16::MAX,
    ensures
        r.settings.id as int == max_id(existing_ids@) + 1,
        r.settings.id >= 0,
        r.settings.name@ == "New Profile"@,
        r.has_jar == false,
{
    Profile {
        settings: ProfileSettings {
            id: next_profile_id(existing_ids),
            name: "New Profile".to_owned(),
        },
        has_jar: false,
    }
}

impl Profile {
    /// A rename, when a new name was given; the id and the artifact flag
    /// are always kept.
    pub fn apply_update(&mut self, name: Option<String>)
        ensures
            final(self).settings.id == old(self).settings.id,
            final(self).has_jar == old(self).has_jar,
            final(self).settings.name == match name {
                Some(n) => n,
                None => old(self).settings.name,
            },
    {
        match name {
            Some(n) => self.settings.name = n,
            None => (),
        }
    }
}

/// The directory that holds one subdirectory per profile.
pub open spec fn profiles_dir_spec(data_dir: Seq<char>) -> Seq<char> {
    data_dir + seq!['/'] + "profiles"@
}

/// A profile's own directory, named by its decimal id.
pub open spec fn profile_folder_spec(data_dir: Seq<char>, id: int) -> Seq<char> {
    profiles_dir_spec(data_dir) + seq!['/'] + dec_rep(id)
}

/// Where the profile's downloaded artifact is stored.
pub open spec fn artifact_path_spec(data_dir: Seq<char>, id: int) -> Seq<char> {
    profile_folder_spec(data_dir, id) + seq!['/'] + "desktop.jar"@
}

/// The profile's working directory, handed to the spawned game so each
/// profile keeps its own save data.
pub open spec fn game_dir_spec(data_dir: Seq<char>, id: int) -> Seq<char> {
    profile_folder_spec(data_dir, id) + seq!['/'] + "game"@
}

/// The directory that holds the profile subdirectories.
pub fn profiles_dir(data_dir: &str) -> (r: String)
    ensures
        r@ == profiles_dir_spec(data_dir@),
{
    join_path(data_dir, "profiles")
}

/// The directory of the profile with id `id`.
pub fn profile_folder(data_dir: &str, id: i16) -> (r: String)
    requires
        id >= 0,
    ensures
        r@ == profile_folder_spec(data_dir@, id as int),
{
    let mut s = profiles_dir(data_dir);
    push_char(&mut s, '/');
    push_decimal(&mut s, id as u16);
    proof {
        assert(s@ =~= profile_folder_spec(data_dir@, id as int));
    }
    s
}

/// Where profile `id` keeps its downloaded artifact.
pub fn artifact_path(data_dir: &str, id: i16) -> (r: String)
    requires
        id >= 0,
    ensures
        r@ == artifact_path_spec(data_dir@, id as int),
{
    let folder = profile_folder(data_dir, id);
    let r = join_path(folder.as_str(), "desktop.jar");
    proof {
        assert(r@ =~= artifact_path_spec(data_dir@, id as int));
    }
    r
}

/// Profile `id`'s working directory for the spawned game.
pub fn game_dir(data_dir: &str, id: i16) -> (r: String)
    requires
        id >= 0,
    ensures
        r@ == game_dir_spec(data_dir@, id as int),
{
    let folder = profile_folder(data_dir, id);
    let r = join_path(folder.as_str(), "game");
    proof {
        assert(r@ =~= game_dir_spec(data_dir@, id as int));
    }
    r
}

} // verus!
