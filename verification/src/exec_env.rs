//! The environment of a child: a minimal set of variables, the loader's
//! variables of the host, and the runtime directory of the lite-VM backend.
//!
//! Reading the host's environment and looking at the disk is the caller's
//! part; what is done with the findings is decided here.

use crate::paths::file_name_of;
use crate::paths::join_list;
use crate::paths::join_parts;
use crate::paths::joined_path;
use crate::paths::parent_of;
use crate::paths::path_eq;
use crate::paths::path_file_name;
use crate::paths::path_join;
use crate::paths::path_parent;
use crate::paths::same_path;
use crate::paths::split;
use crate::paths::split_list;
use crate::strmap::StrMap;
use crate::text::starts_with;
use crate::text::to_chars;
use crate::text::words;
use vstd::prelude::*;

verus! {

/// The variable that names the runtime directory.
pub const BOXLITE_RUNTIME_ENV_VAR: &'static str = "BOXLITE_RUNTIME_DIR";

/// The file whose presence marks a runtime directory.
pub const RUNTIME_PROBE_FILE: &'static str = "mke2fs";

/// How the names of the build directories begin that may hold a runtime.
pub const RUNTIME_BUILD_PREFIX: &'static str = "boxlite-";

/// What separates the entries of a search path.
pub const PATH_LIST_SEPARATOR: char = ':';

/// The loader's variables, which a child needs so that the host's own
/// binaries can be loaded.
pub open spec fn loader_env_vars() -> Seq<Seq<char>> {
    seq![
        "DYLD_LIBRARY_PATH"@,
        "DYLD_FALLBACK_LIBRARY_PATH"@,
        "DYLD_INSERT_LIBRARIES"@,
        "LD_LIBRARY_PATH"@,
    ]
}

/// An environment as a map from names to values.
pub open spec fn env_view(env: StrMap<String>) -> Map<Seq<char>, Seq<char>> {
    env.as_map().map_values(|v: String| v@)
}

/// Sets `key` to `value`.
pub fn env_set(env: &mut StrMap<String>, key: String, value: String)
    ensures
        env_view(*final(env)) == env_view(*old(env)).insert(key@, value@),
{
    let _ = env.insert(key, value);
    assert(env_view(*env) =~= env_view(*old(env)).insert(key@, value@));
}

/// The value of `key`, if it is set.
pub fn env_get<'a>(env: &'a StrMap<String>, key: &str) -> (r: Option<&'a String>)
    ensures
        r is Some == env_view(*env).contains_key(key@),
        r matches Some(v) ==> v@ == env_view(*env)[key@],
{
    let r = env.get(key);
    assert(env.as_map().dom().contains(key@) == env_view(*env).contains_key(key@));
    r
}

/// The entries of `parts` that are not the path `value`, in their order.
pub open spec fn other_paths(parts: Seq<Seq<char>>, value: Seq<char>) -> Seq<Seq<char>>
    decreases parts.len(),
{
    if parts.len() == 0 {
        parts
    } else if same_path(parts.last(), value) {
        other_paths(parts.drop_last(), value)
    } else {
        other_paths(parts.drop_last(), value).push(parts.last())
    }
}

/// The search path that has `value` first and then the entries of
/// `existing`, without those that are the path `value`.
pub open spec fn prepended(existing: Option<Seq<char>>, value: Seq<char>) -> Seq<char> {
    let rest = match existing {
        Some(list) => other_paths(split_list(list, PATH_LIST_SEPARATOR), value),
        None => Seq::<Seq<char>>::empty(),
    };
    join_list(seq![value] + rest, PATH_LIST_SEPARATOR)
}

/// What `prepend_env_path` makes of an environment. A value that holds the
/// separator cannot be an entry of a search path: nothing changes then.
pub open spec fn spec_prepend_env_path(
    env: Map<Seq<char>, Seq<char>>,
    key: Seq<char>,
    value: Seq<char>,
) -> Map<Seq<char>, Seq<char>> {
    if value.contains(PATH_LIST_SEPARATOR) {
        env
    } else {
        env.insert(
            key,
            prepended(
                if env.contains_key(key) {
                    Some(env[key])
                } else {
                    None
                },
                value,
            ),
        )
    }
}

fn has_char(text: &str, c: char) -> (r: bool)
    ensures
        r == text@.contains(c),
{
    let chars = to_chars(text);
    let mut i: usize = 0;
    while i < chars.len()
        invariant
            i <= chars.len(),
            chars@ == text@,
            forall|j: int| 0 <= j < i ==> chars@[j] != c,
        decreases chars.len() - i,
    {
        if chars[i] == c {
            return true;
        }
        i += 1;
    }
    false
}

/// Puts `value` at the front of the search path in `key` and takes out the
/// entries that are the same path, so that it occurs once.
pub fn prepend_env_path(env: &mut StrMap<String>, key: &str, value: &str)
    ensures
        env_view(*final(env)) == spec_prepend_env_path(env_view(*old(env)), key@, value@),
{
    if has_char(value, PATH_LIST_SEPARATOR) {
        return ;
    }
    let mut paths: Vec<String> = Vec::new();
    paths.push(value.to_string());
    let ghost existing: Option<Seq<char>> = None;
    match env_get(env, key) {
        Some(list) => {
            let parts = split(list.as_str(), PATH_LIST_SEPARATOR);
            let mut i: usize = 0;
            assert(words(paths@) =~= seq![value@] + other_paths(words(parts@).take(0), value@));
            while i < parts.len()
                invariant
                    i <= parts.len(),
                    words(paths@) == seq![value@] + other_paths(
                        words(parts@).take(i as int),
                        value@,
                    ),
                decreases parts.len() - i,
            {
                let ghost before = words(paths@);
                proof {
                    assert(words(parts@).take(i + 1).drop_last() =~= words(parts@).take(i as int));
                    assert(words(parts@).take(i + 1).last() == parts@[i as int]@);
                }
                if !path_eq(parts[i].as_str(), value) {
                    paths.push(parts[i].clone());
                    assert(words(paths@) =~= before.push(parts@[i as int]@));
                    assert(words(paths@) =~= seq![value@] + other_paths(
                        words(parts@).take(i + 1),
                        value@,
                    ));
                }
                i += 1;
            }
            assert(words(parts@).take(parts.len() as int) =~= words(parts@));
        },
        None => {
            assert(words(paths@) =~= seq![value@] + Seq::<Seq<char>>::empty());
        },
    }
    let joined = join_parts(&paths, PATH_LIST_SEPARATOR);
    env_set(env, key.to_string(), joined);
}

/// What `apply_boxlite_runtime_env` makes of an environment.
pub open spec fn spec_apply_runtime_env(env: Map<Seq<char>, Seq<char>>, runtime_dir: Option<Seq<char>>) -> Map<
    Seq<char>,
    Seq<char>,
> {
    match runtime_dir {
        None => env,
        Some(dir) => spec_prepend_env_path(
            spec_prepend_env_path(
                spec_prepend_env_path(
                    env.insert(BOXLITE_RUNTIME_ENV_VAR@, dir),
                    "DYLD_LIBRARY_PATH"@,
                    dir,
                ),
                "DYLD_FALLBACK_LIBRARY_PATH"@,
                dir,
            ),
            "LD_LIBRARY_PATH"@,
            dir,
        ),
    }
}

/// Exports the runtime directory, if one was found, and puts it at the front
/// of each of the loader's search paths.
pub fn apply_boxlite_runtime_env(env: &mut StrMap<String>, runtime_dir: Option<&str>)
    ensures
        env_view(*final(env)) == spec_apply_runtime_env(
            env_view(*old(env)),
            match runtime_dir {
                Some(dir) => Some(dir@),
                None => None,
            },
        ),
{
    let dir = match runtime_dir {
        Some(dir) => dir,
        None => {
            return ;
        },
    };
    env_set(env, BOXLITE_RUNTIME_ENV_VAR.to_string(), dir.to_string());
    prepend_env_path(env, "DYLD_LIBRARY_PATH", dir);
    prepend_env_path(env, "DYLD_FALLBACK_LIBRARY_PATH", dir);
    prepend_env_path(env, "LD_LIBRARY_PATH", dir);
}

/// The variables of `host` whose names are among `names`.
pub open spec fn inherited(host: Map<Seq<char>, Seq<char>>, names: Seq<Seq<char>>) -> Map<
    Seq<char>,
    Seq<char>,
> {
    Map::new(|k: Seq<char>| names.contains(k) && host.contains_key(k), |k: Seq<char>| host[k])
}

/// Copies the variable `name` from `host` to `env`, if `host` has it.
fn inherit_var(env: &mut StrMap<String>, host: &StrMap<String>, name: &str, Ghost(names): Ghost<
    Seq<Seq<char>>,
>)
    requires
        env_view(*old(env)) == inherited(env_view(*host), names),
    ensures
        env_view(*final(env)) == inherited(env_view(*host), names.push(name@)),
{
    match env_get(host, name) {
        Some(value) => {
            let copy = value.clone();
            env_set(env, name.to_string(), copy);
            let ghost target = inherited(env_view(*host), names.push(name@));
            assert forall|k: Seq<char>| names.push(name@).contains(k) == (names.contains(k) || k
                == name@) by {
                if names.contains(k) {
                    let i = names.index_of(k);
                    assert(names.push(name@)[i] == k);
                }
                assert(names.push(name@)[names.len() as int] == name@);
            }
            assert forall|k: Seq<char>| env_view(*env).contains_key(k) == target.contains_key(
                k,
            ) by {
                assert(inherited(env_view(*host), names).contains_key(k) == (names.contains(k)
                    && env_view(*host).contains_key(k)));
            }
            assert forall|k: Seq<char>| #[trigger] env_view(*env).contains_key(k) implies env_view(
                *env,
            )[k] == target[k] by {
                assert(target.contains_key(k));
                assert(target[k] == env_view(*host)[k]);
                if k != name@ {
                    assert(inherited(env_view(*host), names).contains_key(k));
                    assert(inherited(env_view(*host), names)[k] == env_view(*host)[k]);
                }
            }
            assert(env_view(*env) =~= target);
        },
        None => {
            assert(!env_view(*host).contains_key(name@));
            assert(inherited(env_view(*host), names) =~= inherited(
                env_view(*host),
                names.push(name@),
            )) by {
                assert forall|k: Seq<char>| names.push(name@).contains(k) == (names.contains(k)
                    || k == name@) by {
                    if names.contains(k) {
                        let i = names.index_of(k);
                        assert(names.push(name@)[i] == k);
                    }
                    assert(names.push(name@)[names.len() as int] == name@);
                }
            }
        },
    }
}

/// The environment of a child that inherits as little as possible: of the
/// host's variables those on the allowlist and the loader's, then the runtime
/// directory as `apply_boxlite_runtime_env` applies it. Nothing else of the
/// host's environment reaches the child.
pub fn minimal_env(host: &StrMap<String>, allowlist: &Vec<String>, runtime_dir: Option<&str>) -> (env:
    StrMap<String>)
    ensures
        env_view(env) == spec_apply_runtime_env(
            inherited(env_view(*host), words(allowlist@) + loader_env_vars()),
            match runtime_dir {
                Some(dir) => Some(dir@),
                None => None,
            },
        ),
{
    let mut env: StrMap<String> = StrMap::new();
    let ghost mut names: Seq<Seq<char>> = Seq::empty();
    assert(env_view(env) =~= inherited(env_view(*host), names));
    let mut i: usize = 0;
    while i < allowlist.len()
        invariant
            i <= allowlist.len(),
            names == words(allowlist@).take(i as int),
            env_view(env) == inherited(env_view(*host), names),
        decreases allowlist.len() - i,
    {
        inherit_var(&mut env, host, allowlist[i].as_str(), Ghost(names));
        proof {
            names = names.push(allowlist@[i as int]@);
            assert(names =~= words(allowlist@).take(i + 1));
        }
        i += 1;
    }
    assert(words(allowlist@).take(allowlist.len() as int) =~= words(allowlist@));
    inherit_var(&mut env, host, "DYLD_LIBRARY_PATH", Ghost(names));
    proof {
        names = names.push("DYLD_LIBRARY_PATH"@);
    }
    inherit_var(&mut env, host, "DYLD_FALLBACK_LIBRARY_PATH", Ghost(names));
    proof {
        names = names.push("DYLD_FALLBACK_LIBRARY_PATH"@);
    }
    inherit_var(&mut env, host, "DYLD_INSERT_LIBRARIES", Ghost(names));
    proof {
        names = names.push("DYLD_INSERT_LIBRARIES"@);
    }
    inherit_var(&mut env, host, "LD_LIBRARY_PATH", Ghost(names));
    proof {
        names = names.push("LD_LIBRARY_PATH"@);
        assert(names =~= words(allowlist@) + loader_env_vars());
    }
    apply_boxlite_runtime_env(&mut env, runtime_dir);
    env
}

/// The directory that holds the build's outputs, from the path of the
/// running program: the program's directory, or the one above it when the
/// program sits in `deps`.
pub open spec fn spec_profile_dir(exe: Seq<char>) -> Option<Seq<char>> {
    match parent_of(exe) {
        None => None,
        Some(dir) => if file_name_of(dir) == Some("deps"@) {
            parent_of(dir)
        } else {
            Some(dir)
        },
    }
}

pub fn profile_dir_from_exe(exe: &str) -> (r: Option<String>)
    ensures
        r is Some == spec_profile_dir(exe@) is Some,
        r matches Some(dir) ==> dir@ == spec_profile_dir(exe@)->0,
{
    let dir = match path_parent(exe) {
        Some(dir) => dir,
        None => {
            return None;
        },
    };
    let in_deps = match path_file_name(dir.as_str()) {
        Some(name) => *name.as_str() == *"deps",
        None => false,
    };
    if in_deps {
        path_parent(dir.as_str())
    } else {
        Some(dir)
    }
}

/// Where the runtime is staged beside the program: `deps/runtime` under the
/// profile directory.
pub fn deps_runtime_dir(profile_dir: &str) -> (r: String)
    ensures
        r@ == joined_path(joined_path(profile_dir@, "deps"@), "runtime"@),
{
    let deps = path_join(profile_dir, "deps");
    path_join(deps.as_str(), "runtime")
}

/// The directory whose entries are scanned for a runtime: `build` under the
/// profile directory.
pub fn build_dir(profile_dir: &str) -> (r: String)
    ensures
        r@ == joined_path(profile_dir@, "build"@),
{
    path_join(profile_dir, "build")
}

/// Where a build directory holds its runtime: `out/runtime` under it.
pub fn build_runtime_dir(entry_path: &str) -> (r: String)
    ensures
        r@ == joined_path(joined_path(entry_path@, "out"@), "runtime"@),
{
    let out = path_join(entry_path, "out");
    path_join(out.as_str(), "runtime")
}

/// The file to look for in a runtime directory.
pub fn probe_path(runtime_dir: &str) -> (r: String)
    ensures
        r@ == joined_path(runtime_dir@, RUNTIME_PROBE_FILE@),
{
    path_join(runtime_dir, RUNTIME_PROBE_FILE)
}

/// What the caller found of one entry of the build directory.
pub struct BuildEntry {
    /// The entry's file name.
    pub name: String,
    /// The runtime directory under the entry.
    pub runtime_dir: String,
    /// Whether the probe file is a file in that directory.
    pub has_probe: bool,
    /// When the entry was last modified; larger is newer.
    pub modified: u64,
}

impl BuildEntry {
    /// The entry may be chosen: its name has the prefix and its runtime
    /// directory holds the probe file.
    pub open spec fn eligible(self) -> bool {
        RUNTIME_BUILD_PREFIX@.is_prefix_of(self.name@) && self.has_probe
    }
}

/// `i` is the entry to choose: the newest eligible one, the first of them if
/// several are equally new.
pub open spec fn is_newest_eligible(entries: Seq<BuildEntry>, i: int) -> bool {
    &&& 0 <= i < entries.len()
    &&& entries[i].eligible()
    &&& forall|j: int|
        0 <= j < entries.len() && (#[trigger] entries[j]).eligible() ==> entries[j].modified
            < entries[i].modified || (entries[j].modified == entries[i].modified && i <= j)
}

/// The runtime directory of the newest eligible build directory.
pub fn discover_boxlite_runtime_dir(entries: &Vec<BuildEntry>) -> (r: Option<String>)
    ensures
        r is None <==> forall|j: int| 0 <= j < entries@.len() ==> !(#[trigger] entries@[j]).eligible(),
        r matches Some(dir) ==> exists|i: int| #[trigger]
            is_newest_eligible(entries@, i) && dir == entries@[i].runtime_dir,
{
    let mut best: Option<usize> = None;
    let mut k: usize = 0;
    while k < entries.len()
        invariant
            k <= entries.len(),
            best is None <==> forall|j: int| 0 <= j < k ==> !(#[trigger] entries@[j]).eligible(),
            best matches Some(b) ==> b < k && is_newest_eligible(entries@.take(k as int), b as int),
        decreases entries.len() - k,
    {
        let entry = &entries[k];
        let ghost prev = entries@.take(k as int);
        let ghost next = entries@.take(k + 1);
        if entry.has_probe && starts_with(entry.name.as_str(), RUNTIME_BUILD_PREFIX) {
            match best {
                Some(b) => {
                    if entries[b].modified < entry.modified {
                        best = Some(k);
                        assert(is_newest_eligible(next, k as int)) by {
                            assert forall|j: int|
                                0 <= j < next.len() && (#[trigger] next[j]).eligible() implies next[j].modified
                                < next[k as int].modified || (next[j].modified
                                == next[k as int].modified && k <= j) by {
                                if j < k {
                                    assert(prev[j].eligible());
                                }
                            }
                        }
                    } else {
                        assert(is_newest_eligible(next, b as int)) by {
                            assert forall|j: int|
                                0 <= j < next.len() && (#[trigger] next[j]).eligible() implies next[j].modified
                                < next[b as int].modified || (next[j].modified
                                == next[b as int].modified && b <= j) by {
                                if j < k {
                                    assert(prev[j].eligible());
                                }
                            }
                        }
                    }
                },
                None => {
                    best = Some(k);
                    assert(is_newest_eligible(next, k as int));
                },
            }
        } else {
            if let Some(b) = best {
                assert(is_newest_eligible(next, b as int)) by {
                    assert forall|j: int|
                        0 <= j < next.len() && (#[trigger] next[j]).eligible() implies next[j].modified
                        < next[b as int].modified || (next[j].modified == next[b as int].modified
                        && b <= j) by {
                        if j < k {
                            assert(prev[j].eligible());
                        }
                    }
                }
            }
        }
        k += 1;
    }
    assert(entries@.take(entries.len() as int) =~= entries@);
    match best {
        Some(b) => Some(entries[b].runtime_dir.clone()),
        None => None,
    }
}

/// What the caller found beside the running program.
pub struct ProfileProbe {
    /// `deps/runtime` under the profile directory.
    pub deps_runtime_dir: String,
    /// Whether the probe file is a file in that directory.
    pub deps_has_probe: bool,
    /// The entries of the build directory; none if it cannot be read.
    pub build_entries: Vec<BuildEntry>,
}

/// Finds the runtime directory. The variable of the host's environment
/// decides if it is set; else the directory staged beside the program, if the
/// probe file is there; else the newest eligible build directory. Without a
/// profile directory only the variable counts.
pub fn boxlite_runtime_dir(env_override: Option<String>, profile: Option<&ProfileProbe>) -> (r:
    Option<String>)
    ensures
        env_override matches Some(dir) ==> r == Some(dir),
        env_override is None && profile is None ==> r is None,
        env_override is None && profile is Some && profile->0.deps_has_probe ==> r == Some(
            profile->0.deps_runtime_dir,
        ),
        env_override is None && profile is Some && !profile->0.deps_has_probe ==> {
            let entries = profile->0.build_entries@;
            &&& r is None <==> forall|j: int|
                0 <= j < entries.len() ==> !(#[trigger] entries[j]).eligible()
            &&& r matches Some(dir) ==> exists|i: int| #[trigger]
                is_newest_eligible(entries, i) && dir == entries[i].runtime_dir
        },
{
    if let Some(dir) = env_override {
        return Some(dir);
    }
    match profile {
        None => None,
        Some(p) => {
            if p.deps_has_probe {
                Some(p.deps_runtime_dir.clone())
            } else {
                discover_boxlite_runtime_dir(&p.build_entries)
            }
        },
    }
}

} // verus!
