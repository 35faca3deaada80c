//! Where the saver keeps its files, under the user's home directory, in
//! VRChat's Windows layout.
use vstd::prelude::*;
use crate::text::{join_text, decimal, decimal_string};

verus! {

#[verifier::external_type_specification]
#[verifier::external_body]
pub struct ExBaseDirs(directories::BaseDirs);

/// `directories::BaseDirs::new`: the user's standard directories, where the
/// system gives a home directory. What it gives depends on the environment;
/// nothing is stated of it.
#[verifier::external_body]
fn base_dirs() -> (r: Option<directories::BaseDirs>) {
    directories::BaseDirs::new()
}

/// `directories::BaseDirs::home_dir`, as text where the path is valid
/// UTF-8. Nothing is stated of the result.
#[verifier::external_body]
fn home_dir_text(dirs: &directories::BaseDirs) -> (r: Option<String>) {
    match dirs.home_dir().to_str() {
        Some(s) => Some(s.to_string()),
        None => None,
    }
}

/// `std::path::Path::is_dir`: whether `p` names a directory on disk now.
/// Nothing is stated of the result.
#[verifier::external_body]
fn path_is_dir(p: &str) -> (r: bool) {
    std::path::Path::new(p).is_dir()
}

/// `std::path::Path::is_file`: whether `p` names a file on disk now.
/// Nothing is stated of the result.
#[verifier::external_body]
fn path_is_file(p: &str) -> (r: bool) {
    std::path::Path::new(p).is_file()
}

/// Whether `p` names a directory (what is on disk decides).
pub fn dir_exists(p: &String) -> (r: bool) {
    path_is_dir(p.as_str())
}

/// Whether `p` names a file (what is on disk decides).
pub fn file_exists(p: &String) -> (r: bool) {
    path_is_file(p.as_str())
}

/// Why the user's home directory is not at hand.
#[derive(Clone, Copy, Debug, PartialEq, Eq, Structural)]
pub enum HomeDirError {
    /// The system gives no home directory.
    NoBaseDirs,
    /// The home directory's path is not valid UTF-8.
    NotUtf8,
}

/// The user's home directory as text, or why it is not at hand.
pub fn get_user_home_dir() -> (r: Result<String, HomeDirError>) {
    match base_dirs() {
        Some(dirs) => match home_dir_text(&dirs) {
            Some(home) => Ok(home),
            None => Err(HomeDirError::NotUtf8),
        },
        None => Err(HomeDirError::NoBaseDirs),
    }
}

/// The directory of saved states, below a home directory.
pub open spec fn ass_dir_below(home: Seq<char>) -> Seq<char> {
    home + "\\AppData\\LocalLow\\VRChat\\VRChat\\OSC\\ASS\\States"@
}

/// The directory of per-avatar settings, below a home directory.
pub open spec fn facetracking_fix_dir_below(home: Seq<char>) -> Seq<char> {
    home + "\\AppData\\LocalLow\\VRChat\\VRChat\\OSC\\ASS\\Avatars"@
}

/// VRChat's local avatar data directory, below a home directory.
pub open spec fn avatar_data_dir_below(home: Seq<char>) -> Seq<char> {
    home + "\\AppData\\LocalLow\\VRChat\\VRChat\\LocalAvatarData"@
}

/// The directory of the network settings, below a home directory.
pub open spec fn net_config_dir_below(home: Seq<char>) -> Seq<char> {
    home + "\\AppData\\LocalLow\\VRChat\\VRChat\\OSC\\ASS\\NetConfig"@
}

/// The file of saved state number `index` in `ass_dir`.
pub open spec fn state_file(ass_dir: Seq<char>, index: nat) -> Seq<char> {
    ass_dir + "\\state_"@ + decimal(index) + ".json"@
}

/// The directory of saved states below `home`.
pub fn ass_dir_in(home: &str) -> (r: String)
    ensures
        r@ == ass_dir_below(home@),
{
    join_text(home, "\\AppData\\LocalLow\\VRChat\\VRChat\\OSC\\ASS\\States")
}

/// The directory of per-avatar settings below `home`.
pub fn facetracking_fix_dir_in(home: &str) -> (r: String)
    ensures
        r@ == facetracking_fix_dir_below(home@),
{
    join_text(home, "\\AppData\\LocalLow\\VRChat\\VRChat\\OSC\\ASS\\Avatars")
}

/// VRChat's local avatar data directory below `home`.
pub fn avatar_data_dir_in(home: &str) -> (r: String)
    ensures
        r@ == avatar_data_dir_below(home@),
{
    join_text(home, "\\AppData\\LocalLow\\VRChat\\VRChat\\LocalAvatarData")
}

/// The directory of the network settings below `home`.
pub fn net_config_dir_in(home: &str) -> (r: String)
    ensures
        r@ == net_config_dir_below(home@),
{
    join_text(home, "\\AppData\\LocalLow\\VRChat\\VRChat\\OSC\\ASS\\NetConfig")
}

/// The network settings file in the directory `config_dir`.
pub fn net_config_file_in(config_dir: &str) -> (r: String)
    ensures
        r@ == config_dir@ + "\\NetConfig.json"@,
{
    join_text(config_dir, "\\NetConfig.json")
}

/// The data file of the avatar `avatar_id` in one user's directory `dir`.
pub fn avatar_file_path(dir: &str, avatar_id: &str) -> (r: String)
    ensures
        r@ == dir@ + "\\"@ + avatar_id@,
{
    let mut r = join_text(dir, "\\");
    r.append(avatar_id);
    r
}

/// The file of saved state number `index` in `ass_dir`.
pub fn state_file_path(ass_dir: &str, index: usize) -> (r: String)
    ensures
        r@ == state_file(ass_dir@, index as nat),
{
    let mut r = join_text(ass_dir, "\\state_");
    let digits = decimal_string(index);
    r.append(digits.as_str());
    r.append(".json");
    r
}

/// The directory of saved states below the user's home directory, or why
/// the home directory is not at hand.
pub fn get_ass_dir() -> (r: Result<String, HomeDirError>)
    ensures
        r matches Ok(d) ==> exists|home: Seq<char>| d@ == ass_dir_below(home),
{
    match get_user_home_dir() {
        Ok(home) => {
            let d = ass_dir_in(home.as_str());
            assert(d@ == ass_dir_below(home@));
            Ok(d)
        },
        Err(e) => Err(e),
    }
}

/// The directory of per-avatar settings below the user's home directory, or
/// why the home directory is not at hand.
pub fn get_facetracking_fix_dir() -> (r: Result<String, HomeDirError>)
    ensures
        r matches Ok(d) ==> exists|home: Seq<char>| d@ == facetracking_fix_dir_below(home),
{
    match get_user_home_dir() {
        Ok(home) => {
            let d = facetracking_fix_dir_in(home.as_str());
            assert(d@ == facetracking_fix_dir_below(home@));
            Ok(d)
        },
        Err(e) => Err(e),
    }
}

} // verus!
