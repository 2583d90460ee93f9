use vstd::prelude::*;

use crate::text::same_text;

verus! {

/// The client's credentials and the local port of the OAuth callback.
#[derive(Debug, Clone, PartialEq)]
pub struct Config {
    pub client_id: String,
    pub client_secret: String,
    pub redirect_port: u16,
}

/// The callback port when the configuration names none.
pub fn default_port() -> (r: u16)
    ensures
        r == 8888,
{
    8888
}

/// The path that `std::path::Path::join` makes of a base path and a part.
pub uninterp spec fn path_join(base: Seq<char>, part: Seq<char>) -> Seq<char>;

/// Calls `dirs::config_dir` and renders the path as text (a path that is not
/// valid UTF-8 is rendered lossily, with U+FFFD in place of the bad bytes;
/// the library keeps paths as text). The result depends
/// on the platform and on the environment (`XDG_CONFIG_HOME`, `HOME`), so
/// nothing is claimed of it.
#[verifier::external_body]
fn user_config_dir() -> (r: Option<String>) {
    match dirs::config_dir() {
        Some(p) => Some(p.to_string_lossy().into_owned()),
        None => None,
    }
}

/// A path separator on some platform: `/`, or `\\` on Windows.
pub open spec fn is_path_separator(c: char) -> bool {
    c == '/' || c == '\\'
}

/// A Windows verbatim prefix (`\\\\?`, also written with `/`), under which
/// joining normalizes the path.
pub open spec fn verbatim_like(b: Seq<char>) -> bool {
    b.len() >= 3 && is_path_separator(b[0]) && is_path_separator(b[1]) && b[2] == '?'
}

/// Two characters ending in `:`, such as the bare Windows drive `C:`, to
/// which Windows joins without a separator.
pub open spec fn bare_drive(b: Seq<char>) -> bool {
    b.len() == 2 && b[1] == ':'
}

/// A base path with no Windows verbatim prefix, so that joining a plain
/// part to it normalizes nothing.
pub open spec fn joinable(b: Seq<char>) -> bool {
    !verbatim_like(b)
}

/// A single relative path component: not empty, with no separator and no `:`.
pub open spec fn plain_part(p: Seq<char>) -> bool {
    &&& p.len() > 0
    &&& forall|i: int| 0 <= i < p.len() ==> !is_path_separator(#[trigger] p[i]) && p[i] != ':'
}

/// `r` is `base`, one separator, then `part`.
pub open spec fn joined_as(base: Seq<char>, part: Seq<char>, r: Seq<char>) -> bool {
    &&& r.len() == base.len() + 1 + part.len()
    &&& r.take(base.len() as int) == base
    &&& is_path_separator(r[base.len() as int])
    &&& r.skip(base.len() + 1 as int) == part
}

/// How a relative part extends a base: appended as it is to an empty base
/// or one that ends in `/`; to a bare drive such as `C:`, appended as it is
/// (a Windows drive) or after one separator (elsewhere); after one
/// separator to any other base that ends in no separator; to a base that
/// ends in `\\`, appended as it is (where `\\` is a separator) or after a
/// `/` (where it is not).
pub open spec fn join_shape(base: Seq<char>, part: Seq<char>, r: Seq<char>) -> bool {
    &&& (base.len() == 0 || base.last() == '/') ==> r == base + part
    &&& bare_drive(base) ==> (r == base + part || joined_as(base, part, r))
    &&& (base.len() > 0 && !bare_drive(base) && !is_path_separator(base.last())) ==> joined_as(base, part, r)
    &&& (base.len() > 0 && base.last() == '\\') ==> (r == base + part || r == base + seq!['/'] + part)
}

/// Calls `std::path::Path::join` on two textual paths and renders the
/// result as text (lossless: both are UTF-8). The joined path is named
/// `path_join` of the two. As `PathBuf::push` documents, a relative part
/// extends the base, with the platform's separator in between unless the
/// base is empty or already ends in one, or is a bare Windows drive
/// (`join_shape`). Claimed for any base with no verbatim prefix (under
/// which Windows normalizes the joined path); which separator is added
/// depends on the platform, so only that it is one is claimed.
#[verifier::external_body]
fn join_path(base: &str, part: &str) -> (r: String)
    ensures
        r@ == path_join(base@, part@),
        joinable(base@) && plain_part(part@) ==> join_shape(base@, part@, r@),
{
    std::path::Path::new(base).join(part).to_string_lossy().into_owned()
}

/// The configuration directory as text: the given one, else `.`.
pub open spec fn base_text(base: Option<Seq<char>>) -> Seq<char> {
    match base {
        Some(b) => b,
        None => "."@,
    }
}

/// The client's directory under a configuration directory: `spotify-cli`
/// under `base`, or under `.` when there is no such directory.
pub open spec fn app_dir(base: Option<Seq<char>>) -> Seq<char> {
    path_join(base_text(base), "spotify-cli"@)
}

/// A file in the client's directory.
pub open spec fn app_file(base: Option<Seq<char>>, name: Seq<char>) -> Seq<char> {
    path_join(app_dir(base), name)
}

/// `r` is the file `name` in the client's directory under `base`: for a
/// joinable configuration directory and a plain name, `spotify-cli` joined
/// to that directory, then a separator and the name.
pub open spec fn is_app_file(base: Option<Seq<char>>, name: Seq<char>, r: Seq<char>) -> bool {
    &&& r == app_file(base, name)
    &&& joinable(base_text(base)) && plain_part(name) ==> {
        &&& join_shape(base_text(base), "spotify-cli"@, app_dir(base))
        &&& joined_as(app_dir(base), name, r)
    }
}

proof fn lemma_app_dir_joinable(b: Seq<char>, dir: Seq<char>)
    requires
        joinable(b),
        join_shape(b, "spotify-cli"@, dir),
    ensures
        joinable(dir),
        dir.len() > 2,
        !is_path_separator(dir.last()),
{
    reveal_strlit("spotify-cli");
    let p = "spotify-cli"@;
    if dir == b + p {
        assert(dir.last() == p.last());
        if b.len() >= 3 {
            assert(dir[0] == b[0] && dir[1] == b[1] && dir[2] == b[2]);
        } else {
            assert(dir[2] == p[2 - b.len()]);
        }
    } else if b.len() > 0 && b.last() == '\\' && !joined_as(b, p, dir) {
        assert(dir == b + seq!['/'] + p);
        assert(dir.last() == p.last());
        if b.len() >= 3 {
            assert(dir[0] == b[0] && dir[1] == b[1] && dir[2] == b[2]);
        } else if b.len() == 2 {
            assert(dir[2] == '/');
        } else {
            assert(dir[2] == p[0]);
        }
    } else {
        assert(joined_as(b, p, dir));
        let s = dir[b.len() as int];
        assert(dir =~= b + seq![s] + p) by {
            assert(dir =~= dir.take(b.len() as int) + seq![dir[b.len() as int]] + dir.skip(b.len() + 1 as int));
        }
        assert(dir.last() == p.last());
        if b.len() >= 3 {
            assert(dir[0] == b[0] && dir[1] == b[1] && dir[2] == b[2]);
        } else if b.len() == 2 {
            assert(dir[2] == s);
        } else {
            assert(dir[2] == p[1 - b.len()]);
        }
    }
}

/// The placeholder client id of a freshly written configuration file.
pub open spec fn placeholder_client_id() -> Seq<char> {
    "YOUR_CLIENT_ID_HERE"@
}

impl Config {
    /// The client's directory under the given configuration directory.
    pub fn config_dir_in(base: Option<&str>) -> (r: String)
        ensures
            r@ == app_dir(
                match base {
                    Some(b) => Some(b@),
                    None => None,
                },
            ),
            joinable(base_text(
                match base {
                    Some(b) => Some(b@),
                    None => None,
                },
            )) ==> join_shape(
                base_text(
                    match base {
                        Some(b) => Some(b@),
                        None => None,
                    },
                ),
                "spotify-cli"@,
                r@,
            ),
    {
        proof {
            reveal_strlit("spotify-cli");
            reveal_strlit(".");
        }
        match base {
            Some(b) => join_path(b, "spotify-cli"),
            None => join_path(".", "spotify-cli"),
        }
    }

    /// The file `name` in the client's directory under the given
    /// configuration directory.
    pub fn config_file_in(base: Option<&str>, name: &str) -> (r: String)
        ensures
            is_app_file(
                match base {
                    Some(b) => Some(b@),
                    None => None,
                },
                name@,
                r@,
            ),
    {
        let ghost b = match base {
            Some(b) => Some(b@),
            None => None,
        };
        let dir = Self::config_dir_in(base);
        proof {
            if joinable(base_text(b)) {
                lemma_app_dir_joinable(base_text(b), dir@);
            }
        }
        join_path(dir.as_str(), name)
    }

    /// The client's directory under the user's configuration directory.
    pub fn config_dir() -> (r: String)
        ensures
            exists|base: Option<Seq<char>>| r@ == app_dir(base),
    {
        let base = user_config_dir();
        match base {
            Some(b) => Self::config_dir_in(Some(b.as_str())),
            None => Self::config_dir_in(None),
        }
    }

    /// The configuration file `config.toml` in the client's directory.
    pub fn config_path() -> (r: String)
        ensures
            exists|base: Option<Seq<char>>| is_app_file(base, "config.toml"@, r@),
    {
        let base = user_config_dir();
        match base {
            Some(b) => Self::config_file_in(Some(b.as_str()), "config.toml"),
            None => Self::config_file_in(None, "config.toml"),
        }
    }

    /// The token file `tokens.json` in the client's directory.
    pub fn token_path() -> (r: String)
        ensures
            exists|base: Option<Seq<char>>| is_app_file(base, "tokens.json"@, r@),
    {
        let base = user_config_dir();
        match base {
            Some(b) => Self::config_file_in(Some(b.as_str()), "tokens.json"),
            None => Self::config_file_in(None, "tokens.json"),
        }
    }

    /// Whether the client id is still the placeholder, so that the user has
    /// not filled in the credentials yet.
    pub fn has_placeholder_id(&self) -> (r: bool)
        ensures
            r == (self.client_id@ == placeholder_client_id()),
    {
        same_text(self.client_id.as_str(), "YOUR_CLIENT_ID_HERE")
    }
}

} // verus!
