//! Validation of plugin artifacts and their installation into the registry.
use vstd::prelude::*;
use vstd::string::StrSliceExecFns;
use crate::error::LoadError;
use crate::registry::ProtocolRegistry;

verus! {

/// The index of the last `c` in `s`, or -1.
pub open spec fn last_index_of(s: Seq<char>, c: char) -> int
    decreases s.len(),
{
    if s.len() == 0 {
        -1
    } else if s.last() == c {
        s.len() - 1
    } else {
        last_index_of(s.drop_last(), c)
    }
}

/// The last component of a `/`-separated path.
pub open spec fn file_name(p: Seq<char>) -> Seq<char> {
    p.subrange(last_index_of(p, '/') + 1, p.len() as int)
}

/// The text after the last `.` of the file name, where that `.` is not the
/// name's first character.
pub open spec fn path_extension(p: Seq<char>) -> Option<Seq<char>> {
    let name = file_name(p);
    let dot = last_index_of(name, '.');
    if dot <= 0 {
        None
    } else {
        Some(name.subrange(dot + 1, name.len() as int))
    }
}

proof fn lemma_last_index_bounds(s: Seq<char>, c: char)
    ensures
        -1 <= last_index_of(s, c) < s.len(),
        last_index_of(s, c) >= 0 ==> s[last_index_of(s, c)] == c,
    decreases s.len(),
{
    if s.len() > 0 && s.last() != c {
        lemma_last_index_bounds(s.drop_last(), c);
    }
}

fn chars_of(s: &str) -> (r: Vec<char>)
    ensures
        r@ == s@,
{
    let n = s.unicode_len();
    let mut out: Vec<char> = Vec::new();
    let mut i: usize = 0;
    while i < n
        invariant
            n == s@.len(),
            i <= n,
            out@ == s@.subrange(0, i as int),
        decreases n - i,
    {
        out.push(s.get_char(i));
        i = i + 1;
        assert(out@ =~= s@.subrange(0, i as int));
    }
    assert(out@ =~= s@);
    out
}

/// The index, counted in `s`, of the last `c` at or after `from`.
fn last_index_from(s: &Vec<char>, c: char, from: usize) -> (r: Option<usize>)
    requires
        from <= s@.len(),
    ensures
        r is None <==> last_index_of(s@.subrange(from as int, s@.len() as int), c) < 0,
        r matches Some(k) ==> k == from + last_index_of(s@.subrange(from as int, s@.len() as int), c),
{
    let mut last: Option<usize> = None;
    let mut i: usize = from;
    while i < s.len()
        invariant
            from <= i <= s@.len(),
            last is None <==> last_index_of(s@.subrange(from as int, i as int), c) < 0,
            last matches Some(k) ==> k == from + last_index_of(s@.subrange(from as int, i as int), c),
        decreases s@.len() - i,
    {
        proof {
            let sub = s@.subrange(from as int, i + 1);
            assert(sub.drop_last() =~= s@.subrange(from as int, i as int));
            lemma_last_index_bounds(s@.subrange(from as int, i as int), c);
        }
        if s[i] == c {
            last = Some(i);
        }
        i = i + 1;
    }
    last
}

/// Checks a plugin artifact before anything is loaded from it: a file must
/// exist at `path` and its extension must be the platform's native-module
/// suffix `dll_extension`.
pub fn validate_path(path: &str, exists: bool, dll_extension: &str) -> (r: Result<(), LoadError>)
    ensures
        r is Ok <==> exists && path_extension(path@) == Some(dll_extension@),
        !exists ==> (r matches Err(LoadError::MissingFile(s)) && s@ == path@),
        exists && path_extension(path@) != Some(dll_extension@) ==> (r matches Err(
            LoadError::WrongExtension(s),
        ) && s@ == path@),
{
    if !exists {
        return Err(LoadError::MissingFile(path.to_owned()));
    }
    let p = chars_of(path);
    let ext = chars_of(dll_extension);
    let slash = last_index_from(&p, '/', 0);
    proof {
        assert(p@.subrange(0, p@.len() as int) =~= p@);
        lemma_last_index_bounds(p@, '/');
    }
    let start: usize = match slash {
        Some(k) => k + 1,
        None => 0,
    };
    let dot = last_index_from(&p, '.', start);
    let ghost name = file_name(path@);
    proof {
        assert(name =~= p@.subrange(start as int, p@.len() as int));
        lemma_last_index_bounds(name, '.');
    }
    let dot: usize = match dot {
        Some(k) => if k > start {
            k
        } else {
            return Err(LoadError::WrongExtension(path.to_owned()));
        },
        None => {
            return Err(LoadError::WrongExtension(path.to_owned()));
        },
    };
    let from = dot + 1;
    let ghost found = name.subrange(last_index_of(name, '.') + 1, name.len() as int);
    proof {
        assert(last_index_of(name, '.') == dot - start);
        assert(path_extension(path@) == Some(found));
        assert forall|j: int| 0 <= j < found.len() implies found[j] == p@[from + j] by {
            assert(found[j] == name[dot - start + 1 + j]);
        }
        assert(found =~= p@.subrange(from as int, p@.len() as int));
    }
    if p.len() - from != ext.len() {
        return Err(LoadError::WrongExtension(path.to_owned()));
    }
    let plen = p.len();
    let mut i: usize = 0;
    while i < ext.len()
        invariant
            exists,
            plen == p@.len(),
            from + ext@.len() == p@.len(),
            ext@ == dll_extension@,
            path_extension(path@) == Some(found),
            found =~= p@.subrange(from as int, p@.len() as int),
            i <= ext@.len(),
            forall|j: int| 0 <= j < i ==> found[j] == ext@[j],
        decreases ext@.len() - i,
    {
        if p[from + i] != ext[i] {
            assert(found[i as int] != dll_extension@[i as int]);
            return Err(LoadError::WrongExtension(path.to_owned()));
        }
        i = i + 1;
    }
    assert(found =~= dll_extension@);
    Ok(())
}

/// Decides, before any code is loaded, whether a plugin may be installed
/// under `name`: the artifact must pass `validate_path`, and without `replace`
/// the name must be free.
pub fn check_install<D>(
    registry: &ProtocolRegistry<D>,
    path: &str,
    exists: bool,
    dll_extension: &str,
    name: &String,
    replace: bool,
) -> (r: Result<(), LoadError>)
    requires
        registry.wf(),
    ensures
        r is Ok <==> exists && path_extension(path@) == Some(dll_extension@) && (replace
            || !registry.contains(name@)),
        !(exists && path_extension(path@) == Some(dll_extension@)) ==> (r matches Err(e)
            && e.kind() == crate::error::ErrorKind::Validation),
        exists && path_extension(path@) == Some(dll_extension@) && !replace && registry.contains(
            name@,
        ) ==> r == Err::<(), LoadError>(LoadError::DuplicateProtocol(*name)),
{
    match validate_path(path, exists, dll_extension) {
        Err(e) => Err(e),
        Ok(()) => if !replace && registry.contains_name(name) {
            Err(LoadError::DuplicateProtocol(name.clone()))
        } else {
            Ok(())
        },
    }
}

/// Registers a loaded module under `name`. `module` is `None` where the
/// module did not expose the driver entry points; nothing is registered then.
/// With `replace` an existing driver of that name is replaced; without it an
/// existing name is refused.
pub fn complete_install<D>(
    registry: &mut ProtocolRegistry<D>,
    name: String,
    module: Option<D>,
    replace: bool,
) -> (r: Result<(), LoadError>)
    requires
        old(registry).wf(),
    ensures
        final(registry).wf(),
        module is None ==> r == Err::<(), LoadError>(LoadError::MissingEntryPoints(name))
            && *final(registry) == *old(registry),
        module is Some && !replace && old(registry).contains(name@) ==> r == Err::<(), LoadError>(
            LoadError::DuplicateProtocol(name)) && *final(registry) == *old(registry),
        module is Some && (replace || !old(registry).contains(name@)) ==> r is Ok
            && final(registry).contains(name@)
            && final(registry).driver_of(name@) == module->0,
        r is Ok ==> forall|n: Seq<char>| n != name@ && old(registry).contains(n) ==>
            final(registry).contains(n) && final(registry).driver_of(n) == old(registry).driver_of(n),
{
    match module {
        None => Err(LoadError::MissingEntryPoints(name)),
        Some(d) => if replace {
            registry.reload(name, d);
            Ok(())
        } else {
            let ghost old_reg = *registry;
            let r = registry.register(name, d);
            proof {
                if r is Ok {
                    let names = old_reg.names().push(name@);
                    assert(registry.names()[names.len() - 1] == name@);
                    crate::registry::lemma_duplicate_registration_keeps_first(old_reg, name@, d);
                    assert forall|n: Seq<char>| n != name@ && old_reg.contains(n) implies
                        registry.contains(n) && registry.driver_of(n) == old_reg.driver_of(n) by {
                        let k = choose|k: int| 0 <= k < old_reg.names().len() && old_reg.names()[k] == n;
                        assert(registry.names()[k] == n);
                        old_reg.lemma_driver_at(n, k);
                        registry.lemma_driver_at(n, k);
                    }
                }
            }
            r
        },
    }
}

} // verus!
