//! Well-known directories and path text handling. The platform directories
//! come from the `dirs` crate behind trusted wrappers — their values depend on
//! the environment, so nothing specific is promised of them — and every
//! computation on top of them is verified: each derived directory is pinned to
//! its suffix, and tilde expansion is pinned exactly.

use vstd::prelude::*;

use crate::text::{concat2, concat3, str_eq};

verus! {

/// Relies on dirs::home_dir for the user's home directory; the value depends
/// on the environment, so nothing is promised of it.
#[verifier::external_body]
fn home_dir_string() -> (r: Option<String>) {
    dirs::home_dir().map(|p| p.to_string_lossy().into_owned())
}

/// Relies on dirs::config_dir for the user's configuration directory; the
/// value depends on the environment, so nothing is promised of it.
#[verifier::external_body]
fn config_dir_string() -> (r: Option<String>) {
    dirs::config_dir().map(|p| p.to_string_lossy().into_owned())
}

/// Relies on dirs::document_dir for the user's documents directory; the
/// value depends on the environment, so nothing is promised of it.
#[verifier::external_body]
fn document_dir_string() -> (r: Option<String>) {
    dirs::document_dir().map(|p| p.to_string_lossy().into_owned())
}

/// Relies on dirs::data_dir for the user's data directory; the value depends
/// on the environment, so nothing is promised of it.
#[verifier::external_body]
fn data_dir_string() -> (r: Option<String>) {
    dirs::data_dir().map(|p| p.to_string_lossy().into_owned())
}

/// The home directory, or the bare tilde placeholder when none is known.
pub fn home_dir_or_tilde() -> (r: String) {
    match home_dir_string() {
        Some(h) => h,
        None => String::from_str("~"),
    }
}

/// The documents directory, or the bare tilde placeholder.
pub fn document_dir_or_tilde() -> (r: String) {
    match document_dir_string() {
        Some(h) => h,
        None => String::from_str("~"),
    }
}

/// The data directory, or its conventional place under the home marker.
pub fn data_dir_or_default() -> (r: String) {
    match data_dir_string() {
        Some(h) => h,
        None => String::from_str("~/.local/share"),
    }
}

/// The configuration directory, or its conventional place under the home
/// marker.
pub fn config_dir_or_default() -> (r: String) {
    match config_dir_string() {
        Some(h) => h,
        None => String::from_str("~/.config"),
    }
}

/// The directory holding local credentials and configuration material.
pub fn local_keys_dir() -> (r: String)
    ensures
        exists|h: Seq<char>| r@ == h + "/Documents/Git/LOCAL_KEYS"@,
{
    let home = home_dir_or_tilde();
    let r = concat2(home.as_str(), "/Documents/Git/LOCAL_KEYS");
    proof {
        assert(r@ == home@ + "/Documents/Git/LOCAL_KEYS"@);
    }
    r
}

/// The directory holding SSH keys.
pub fn ssh_keys_dir() -> (r: String)
    ensures
        exists|h: Seq<char>| r@ == h + "/Documents/Git/LOCAL_KEYS/00_terminal/ssh"@,
{
    let base = local_keys_dir();
    let r = concat2(base.as_str(), "/00_terminal/ssh");
    proof {
        let h = choose|h: Seq<char>| base@ == h + "/Documents/Git/LOCAL_KEYS"@;
        reveal_strlit("/Documents/Git/LOCAL_KEYS");
        reveal_strlit("/00_terminal/ssh");
        reveal_strlit("/Documents/Git/LOCAL_KEYS/00_terminal/ssh");
        assert(r@ =~= h + "/Documents/Git/LOCAL_KEYS/00_terminal/ssh"@);
    }
    r
}

/// The directory holding WireGuard keys.
pub fn wireguard_keys_dir() -> (r: String)
    ensures
        exists|h: Seq<char>| r@ == h + "/Documents/Git/LOCAL_KEYS/00_terminal/wireguard"@,
{
    let base = local_keys_dir();
    let r = concat2(base.as_str(), "/00_terminal/wireguard");
    proof {
        let h = choose|h: Seq<char>| base@ == h + "/Documents/Git/LOCAL_KEYS"@;
        reveal_strlit("/Documents/Git/LOCAL_KEYS");
        reveal_strlit("/00_terminal/wireguard");
        reveal_strlit("/Documents/Git/LOCAL_KEYS/00_terminal/wireguard");
        assert(r@ =~= h + "/Documents/Git/LOCAL_KEYS/00_terminal/wireguard"@);
    }
    r
}

/// The directory holding configuration files to deploy.
pub fn configs_dir() -> (r: String)
    ensures
        exists|h: Seq<char>| r@ == h + "/Documents/Git/LOCAL_KEYS/configs"@,
{
    let base = local_keys_dir();
    let r = concat2(base.as_str(), "/configs");
    proof {
        let h = choose|h: Seq<char>| base@ == h + "/Documents/Git/LOCAL_KEYS"@;
        reveal_strlit("/Documents/Git/LOCAL_KEYS");
        reveal_strlit("/configs");
        reveal_strlit("/Documents/Git/LOCAL_KEYS/configs");
        assert(r@ =~= h + "/Documents/Git/LOCAL_KEYS/configs"@);
    }
    r
}

/// Tilde expansion against a given home directory: the bare marker becomes
/// the home directory, a path under the marker is re-rooted there, and any
/// other path is left unchanged.
pub open spec fn expand_tilde_spec(path: Seq<char>, home: Seq<char>) -> Seq<char> {
    if path == "~"@ {
        home
    } else if path.len() >= 2 && path[0] == '~' && path[1] == '/' {
        home + "/"@ + path.skip(2)
    } else {
        path
    }
}

/// Expand a leading home marker in `path` against `home`.
pub fn expand_tilde_with(path: &str, home: &str) -> (r: String)
    ensures
        r@ == expand_tilde_spec(path@, home@),
{
    proof {
        reveal_strlit("~");
    }
    let n = path.unicode_len();
    if str_eq(path, "~") {
        return home.to_owned();
    }
    if n >= 2 && path.get_char(0) == '~' && path.get_char(1) == '/' {
        let rest = path.substring_char(2, n);
        let r = concat3(home, "/", rest);
        proof {
            assert(path@.skip(2) =~= path@.subrange(2, n as int));
        }
        r
    } else {
        path.to_owned()
    }
}

/// Expand a leading home marker against the environment's home directory;
/// a path without the marker is returned unchanged.
pub fn expand_tilde(path: &str) -> (r: String)
    ensures
        exists|h: Seq<char>| r@ == expand_tilde_spec(path@, h),
{
    let home = home_dir_or_tilde();
    let r = expand_tilde_with(path, home.as_str());
    proof {
        assert(r@ == expand_tilde_spec(path@, home@));
    }
    r
}

} // verus!
