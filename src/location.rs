//! Source and destination arguments: a local path or `[user@]host:path`.

use vstd::prelude::*;

verus! {

/// The user and host of a remote location.
#[derive(Clone, Debug)]
pub struct RemoteHost {
    pub user: String,
    pub host: String,
}

/// A parsed location: remote when `remote` is set, local otherwise.
#[derive(Clone, Debug)]
pub struct Location {
    pub remote: Option<RemoteHost>,
    pub path: String,
}

/// A location as text: `remote` holds user and host.
pub struct LocationView {
    pub remote: Option<(Seq<char>, Seq<char>)>,
    pub path: Seq<char>,
}

impl View for Location {
    type V = LocationView;

    open spec fn view(&self) -> LocationView {
        LocationView {
            remote: match self.remote {
                Some(r) => Some((r.user@, r.host@)),
                None => None,
            },
            path: self.path@,
        }
    }
}

/// What the local filesystem holds at a path.
#[derive(Clone, Copy, Debug, PartialEq, Eq, Structural)]
pub enum PathKind {
    Missing,
    File,
    Directory,
    /// Something that is neither a regular file nor a directory.
    Other,
}

/// The text of an optional string.
pub open spec fn text_of(s: Option<&str>) -> Option<Seq<char>> {
    match s {
        Some(t) => Some(t@),
        None => None,
    }
}

/// Whether `i` is the first index of `c` in `s`.
pub open spec fn first_at(s: Seq<char>, c: char, i: int) -> bool {
    &&& 0 <= i < s.len()
    &&& s[i] == c
    &&& forall|j: int| 0 <= j < i ==> s[j] != c
}

/// Whether `c` occurs in `s`.
pub open spec fn occurs(s: Seq<char>, c: char) -> bool {
    exists|i: int| first_at(s, c, i)
}

/// The first index of `c` in `s`, where it occurs.
pub open spec fn first_index(s: Seq<char>, c: char) -> int {
    choose|i: int| first_at(s, c, i)
}

/// The location that `loc` denotes, `env_user` standing for the user when the
/// text names none. A location is remote when it holds `:`; the first `:` ends
/// `[user@]host` and an empty path after it means `.`. An empty user or host
/// around `@`, more than one `@`, or no user at all rejects it.
pub open spec fn parse_location_spec(loc: Seq<char>, env_user: Option<Seq<char>>) -> Option<
    LocationView,
> {
    if !occurs(loc, ':') {
        Some(LocationView { remote: None, path: loc })
    } else {
        let k = first_index(loc, ':');
        let uh = loc.subrange(0, k);
        let rest = loc.subrange(k + 1, loc.len() as int);
        let path = if rest.len() == 0 {
            "."@
        } else {
            rest
        };
        if !occurs(uh, '@') {
            match env_user {
                Some(u) => Some(LocationView { remote: Some((u, uh)), path }),
                None => None,
            }
        } else {
            let a = first_index(uh, '@');
            let host = uh.subrange(a + 1, uh.len() as int);
            if a == 0 || host.len() == 0 || occurs(host, '@') {
                None
            } else {
                Some(LocationView { remote: Some((uh.subrange(0, a), host)), path })
            }
        }
    }
}

fn find_char(s: &str, c: char) -> (r: Option<usize>)
    ensures
        match r {
            Some(i) => first_at(s@, c, i as int),
            None => !occurs(s@, c),
        },
{
    let n = s.unicode_len();
    let mut i: usize = 0;
    while i < n
        invariant
            n == s@.len(),
            i <= n,
            forall|j: int| 0 <= j < i ==> s@[j] != c,
        decreases n - i,
    {
        if s.get_char(i) == c {
            return Some(i);
        }
        i = i + 1;
    }
    None
}

/// Parses a location argument; `env_user` is the user to assume when the
/// argument names none (the `USER` variable).
pub fn parse_location(loc: &str, env_user: Option<&str>) -> (r: Option<Location>)
    ensures
        match r {
            Some(l) => parse_location_spec(loc@, text_of(env_user)) == Some(l@),
            None => parse_location_spec(loc@, text_of(env_user)) is None,
        },
{
    let k = match find_char(loc, ':') {
        None => {
            return Some(Location { remote: None, path: String::from_str(loc) });
        },
        Some(k) => k,
    };
    let n = loc.unicode_len();
    let uh = loc.substring_char(0, k);
    let rest = loc.substring_char(k + 1, n);
    let path = if rest.unicode_len() == 0 {
        String::from_str(".")
    } else {
        String::from_str(rest)
    };
    match find_char(uh, '@') {
        None => match env_user {
            Some(u) => Some(
                Location {
                    remote: Some(RemoteHost { user: String::from_str(u), host: String::from_str(uh) }),
                    path,
                },
            ),
            None => None,
        },
        Some(a) => {
            let m = uh.unicode_len();
            let host = uh.substring_char(a + 1, m);
            if a == 0 || a + 1 == m {
                return None;
            }
            match find_char(host, '@') {
                Some(_) => None,
                None => Some(
                    Location {
                        remote: Some(
                            RemoteHost {
                                user: String::from_str(uh.substring_char(0, a)),
                                host: String::from_str(host),
                            },
                        ),
                        path,
                    },
                ),
            }
        },
    }
}

/// The verdict on a pair of arguments: an error text where they cannot make a
/// transfer. `source_kind` and `dest_kind` are what the local filesystem holds
/// at each argument, consulted only for a local one.
pub open spec fn validation_spec(
    source: Seq<char>,
    destination: Seq<char>,
    env_user: Option<Seq<char>>,
    source_kind: PathKind,
    dest_kind: PathKind,
) -> Result<(), Seq<char>> {
    let s = parse_location_spec(source, env_user);
    let d = parse_location_spec(destination, env_user);
    if s is None {
        Err("Invalid source format. Expected either a local path or user@host:path"@)
    } else if d is None {
        Err("Invalid destination format. Expected either a local path or user@host:path"@)
    } else {
        let s = s->Some_0;
        let d = d->Some_0;
        if s.remote is Some && d.remote is Some {
            Err("Cannot copy from remote to remote"@)
        } else if s.remote is None && d.remote is None {
            Err("At least one location must be remote"@)
        } else if s.remote is None && source_kind == PathKind::Missing {
            Err("Source file '"@ + s.path + "' does not exist"@)
        } else if s.remote is None && source_kind != PathKind::File {
            Err("Source path '"@ + s.path + "' is not a file"@)
        } else if d.remote is None && dest_kind == PathKind::Missing {
            Err("Destination directory '"@ + d.path + "' does not exist"@)
        } else if d.remote is None && dest_kind != PathKind::Directory {
            Err("Destination path '"@ + d.path + "' is not a directory"@)
        } else {
            Ok(())
        }
    }
}

fn quoted(prefix: &str, path: &String, suffix: &str) -> (r: String)
    ensures
        r@ == prefix@ + path@ + suffix@,
{
    let mut s = String::from_str(prefix);
    s.append(path.as_str());
    s.append(suffix);
    s
}

/// Checks that exactly one of `source` and `destination` is remote, that a
/// local source is a regular file and that a local destination is a
/// directory. `source_kind` and `dest_kind` describe what the filesystem holds
/// at each argument taken as a local path; `env_user` is the `USER` variable.
pub fn validate_paths(
    source: &str,
    destination: &str,
    env_user: Option<&str>,
    source_kind: PathKind,
    dest_kind: PathKind,
) -> (r: Result<(), String>)
    ensures
        r is Ok <==> validation_spec(
            source@,
            destination@,
            text_of(env_user),
            source_kind,
            dest_kind,
        ) is Ok,
        r is Err ==> validation_spec(
            source@,
            destination@,
            text_of(env_user),
            source_kind,
            dest_kind,
        ) == Err::<(), Seq<char>>(r->Err_0@),
{
    let s = match parse_location(source, env_user) {
        Some(s) => s,
        None => {
            return Err(
                String::from_str(
                    "Invalid source format. Expected either a local path or user@host:path",
                ),
            );
        },
    };
    let d = match parse_location(destination, env_user) {
        Some(d) => d,
        None => {
            return Err(
                String::from_str(
                    "Invalid destination format. Expected either a local path or user@host:path",
                ),
            );
        },
    };
    let source_local = s.remote.is_none();
    let dest_local = d.remote.is_none();
    if !source_local && !dest_local {
        return Err(String::from_str("Cannot copy from remote to remote"));
    }
    if source_local && dest_local {
        return Err(String::from_str("At least one location must be remote"));
    }
    if source_local {
        if source_kind == PathKind::Missing {
            return Err(quoted("Source file '", &s.path, "' does not exist"));
        }
        if source_kind != PathKind::File {
            return Err(quoted("Source path '", &s.path, "' is not a file"));
        }
    }
    if dest_local {
        if dest_kind == PathKind::Missing {
            return Err(quoted("Destination directory '", &d.path, "' does not exist"));
        }
        if dest_kind != PathKind::Directory {
            return Err(quoted("Destination path '", &d.path, "' is not a directory"));
        }
    }
    Ok(())
}

/// Whether `loc` names a remote host but no user.
pub open spec fn remote_without_user(loc: Seq<char>) -> bool {
    occurs(loc, ':') && !occurs(loc.subrange(0, first_index(loc, ':')), '@')
}

/// Arguments pass only when both parse and exactly one of them is remote: two
/// local or two remote locations are rejected.
pub proof fn lemma_exactly_one_remote(
    source: Seq<char>,
    destination: Seq<char>,
    env_user: Option<Seq<char>>,
    source_kind: PathKind,
    dest_kind: PathKind,
)
    ensures
        validation_spec(source, destination, env_user, source_kind, dest_kind) is Ok ==> {
            let s = parse_location_spec(source, env_user);
            let d = parse_location_spec(destination, env_user);
            &&& s is Some
            &&& d is Some
            &&& (s->Some_0.remote is Some) != (d->Some_0.remote is Some)
        },
{
}

/// Without a `USER` value, an argument that names a remote host but no user is
/// rejected, whatever the filesystem holds.
pub proof fn lemma_missing_user_rejected(
    source: Seq<char>,
    destination: Seq<char>,
    source_kind: PathKind,
    dest_kind: PathKind,
)
    requires
        remote_without_user(source) || remote_without_user(destination),
    ensures
        validation_spec(source, destination, None, source_kind, dest_kind) is Err,
{
}

} // verus!
