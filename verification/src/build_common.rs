//! What the build-time setup has to work out: which C++ runtime to link, and
//! which system libraries `llvm-config` names.
//!
//! Running `llvm-config`, reading the environment and talking to cargo is
//! left to the build script; here is only what is computed from their
//! answers.

use vstd::prelude::*;
use vstd::slice::slice_subrange;

verus! {

/// The bytes of `msvc`.
pub open spec fn msvc() -> Seq<u8> {
    seq![0x6du8, 0x73, 0x76, 0x63]
}

/// The bytes of `macos`.
pub open spec fn macos() -> Seq<u8> {
    seq![0x6du8, 0x61, 0x63, 0x6f, 0x73]
}

/// The bytes of `freebsd`.
pub open spec fn freebsd() -> Seq<u8> {
    seq![0x66u8, 0x72, 0x65, 0x65, 0x62, 0x73, 0x64]
}

/// What a setting of the target says, if it is set.
pub open spec fn said(setting: Option<&[u8]>) -> Option<Seq<u8>> {
    match setting {
        Some(value) => Some(value@),
        None => None,
    }
}

/// The C++ runtime to link for a target with the given environment and
/// operating system, either of which may be unset: none under `msvc`,
/// `c++` on `macos` and `freebsd`, and `stdc++` everywhere else.
pub open spec fn cpp_runtime(env: Option<Seq<u8>>, os: Option<Seq<u8>>) -> Option<Seq<char>> {
    if env == Some(msvc()) {
        None
    } else if os == Some(macos()) || os == Some(freebsd()) {
        Some("c++"@)
    } else {
        Some("stdc++"@)
    }
}

/// Whether the two hold the same bytes.
pub fn same_bytes(a: &[u8], b: &[u8]) -> (same: bool)
    ensures
        same == (a@ == b@),
{
    if a.len() != b.len() {
        return false;
    }
    let mut i: usize = 0;
    while i < a.len()
        invariant
            i <= a.len(),
            a.len() == b.len(),
            forall|j: int| 0 <= j < i ==> a@[j] == b@[j],
        decreases a.len() - i,
    {
        if a[i] != b[i] {
            return false;
        }
        i += 1;
    }
    assert(a@ =~= b@);
    true
}

/// Whether a setting of the target is set and says `name`.
pub fn target_is(setting: Option<&[u8]>, name: &[u8]) -> (yes: bool)
    ensures
        yes == (said(setting) == Some(name@)),
{
    match setting {
        Some(value) => same_bytes(value, name),
        None => false,
    }
}

/// The C++ runtime to link dynamically besides LLVM, if any, for the target
/// whose environment and operating system are as given; unset is `None`.
pub fn system_libcpp(target_env: Option<&[u8]>, target_os: Option<&[u8]>) -> (lib: Option<
    &'static str,
>)
    ensures
        match lib {
            Some(l) => cpp_runtime(said(target_env), said(target_os)) == Some(l@),
            None => cpp_runtime(said(target_env), said(target_os)) is None,
        },
{
    let msvc: [u8; 4] = [0x6d, 0x73, 0x76, 0x63];
    let macos: [u8; 5] = [0x6d, 0x61, 0x63, 0x6f, 0x73];
    let freebsd: [u8; 7] = [0x66, 0x72, 0x65, 0x65, 0x62, 0x73, 0x64];
    assert(msvc@ =~= self::msvc());
    assert(macos@ =~= self::macos());
    assert(freebsd@ =~= self::freebsd());
    if target_is(target_env, msvc.as_slice()) {
        None
    } else if target_is(target_os, macos.as_slice()) || target_is(target_os, freebsd.as_slice()) {
        Some("c++")
    } else {
        Some("stdc++")
    }
}

/// `s` without `prefix` in front, if it starts with it.
pub open spec fn without_prefix(s: Seq<u8>, prefix: Seq<u8>) -> Seq<u8> {
    if prefix.is_prefix_of(s) {
        s.skip(prefix.len() as int)
    } else {
        s
    }
}

/// `s` without `suffix` at the end, if it ends with it.
pub open spec fn without_suffix(s: Seq<u8>, suffix: Seq<u8>) -> Seq<u8> {
    if suffix.is_suffix_of(s) {
        s.take(s.len() - suffix.len())
    } else {
        s
    }
}

/// The bytes of `-llib`.
pub open spec fn flag_lib() -> Seq<u8> {
    seq![0x2du8, 0x6c, 0x6c, 0x69, 0x62]
}

/// The bytes of `-l`.
pub open spec fn flag() -> Seq<u8> {
    seq![0x2du8, 0x6c]
}

/// The bytes of `.tbd`.
pub open spec fn dot_tbd() -> Seq<u8> {
    seq![0x2eu8, 0x74, 0x62, 0x64]
}

/// The bytes of `.lib`.
pub open spec fn dot_lib() -> Seq<u8> {
    seq![0x2eu8, 0x6c, 0x69, 0x62]
}

/// The name of the library that a linker argument names: the argument
/// without a leading `-llib`, then without a leading `-l`, then without a
/// trailing `.tbd`, then without a trailing `.lib`.
pub open spec fn named(arg: Seq<u8>) -> Seq<u8> {
    without_suffix(
        without_suffix(without_prefix(without_prefix(arg, flag_lib()), flag()), dot_tbd()),
        dot_lib(),
    )
}

/// `s` without `prefix` in front, if it starts with it.
pub fn strip_prefix<'a>(s: &'a [u8], prefix: &[u8]) -> (rest: &'a [u8])
    ensures
        rest@ == without_prefix(s@, prefix@),
{
    if prefix.len() > s.len() {
        return s;
    }
    let mut i: usize = 0;
    while i < prefix.len()
        invariant
            i <= prefix.len() <= s.len(),
            forall|j: int| 0 <= j < i ==> s@[j] == prefix@[j],
        decreases prefix.len() - i,
    {
        if s[i] != prefix[i] {
            assert(!(prefix@ =~= s@.subrange(0, prefix@.len() as int))) by {
                assert(s@.subrange(0, prefix@.len() as int)[i as int] == s@[i as int]);
            }
            return s;
        }
        i += 1;
    }
    assert(prefix@ =~= s@.subrange(0, prefix@.len() as int));
    slice_subrange(s, prefix.len(), s.len())
}

/// `s` without `suffix` at the end, if it ends with it.
pub fn strip_suffix<'a>(s: &'a [u8], suffix: &[u8]) -> (rest: &'a [u8])
    ensures
        rest@ == without_suffix(s@, suffix@),
{
    if suffix.len() > s.len() {
        return s;
    }
    let at = s.len() - suffix.len();
    let mut i: usize = 0;
    while i < suffix.len()
        invariant
            i <= suffix.len() <= s.len(),
            at == s.len() - suffix.len(),
            forall|j: int| 0 <= j < i ==> s@[at + j] == suffix@[j],
        decreases suffix.len() - i,
    {
        if s[at + i] != suffix[i] {
            assert(!(suffix@ =~= s@.subrange(at as int, s@.len() as int))) by {
                assert(s@.subrange(at as int, s@.len() as int)[i as int] == s@[at + i]);
            }
            return s;
        }
        i += 1;
    }
    assert(suffix@ =~= s@.subrange(at as int, s@.len() as int));
    slice_subrange(s, 0, at)
}

/// The name of the library that the linker argument `arg` names.
pub fn link_name(arg: &[u8]) -> (name: &[u8])
    ensures
        name@ == named(arg@),
{
    let flag_lib: [u8; 5] = [0x2d, 0x6c, 0x6c, 0x69, 0x62];
    let flag: [u8; 2] = [0x2d, 0x6c];
    let dot_tbd: [u8; 4] = [0x2e, 0x74, 0x62, 0x64];
    let dot_lib: [u8; 4] = [0x2e, 0x6c, 0x69, 0x62];
    assert(flag_lib@ =~= self::flag_lib());
    assert(flag@ =~= self::flag());
    assert(dot_tbd@ =~= self::dot_tbd());
    assert(dot_lib@ =~= self::dot_lib());
    let arg = strip_prefix(arg, flag_lib.as_slice());
    let arg = strip_prefix(arg, flag.as_slice());
    let arg = strip_suffix(arg, dot_tbd.as_slice());
    strip_suffix(arg, dot_lib.as_slice())
}

/// Whether a byte parts two arguments: a space or a line feed.
pub open spec fn parts(b: u8) -> bool {
    b == 0x20 || b == 0x0a
}

/// How many bytes come before the first separator, or before the end.
pub open spec fn first_len(bytes: Seq<u8>) -> int
    decreases bytes.len(),
{
    if bytes.len() == 0 || parts(bytes[0]) {
        0
    } else {
        1 + first_len(bytes.drop_first())
    }
}

/// The arguments in `bytes`: the runs of bytes between separators that are
/// not empty, in order.
pub open spec fn arguments(bytes: Seq<u8>) -> Seq<Seq<u8>>
    decreases bytes.len(),
    via arguments_decreases
{
    if bytes.len() == 0 {
        Seq::empty()
    } else {
        let n = first_len(bytes);
        let rest = if n < bytes.len() {
            arguments(bytes.skip(n + 1))
        } else {
            Seq::empty()
        };
        if n == 0 {
            rest
        } else {
            seq![bytes.take(n)] + rest
        }
    }
}

#[via_fn]
proof fn arguments_decreases(bytes: Seq<u8>) {
    lemma_first_len_bounds(bytes);
}

/// The first run ends within the bytes.
pub proof fn lemma_first_len_bounds(bytes: Seq<u8>)
    ensures
        0 <= first_len(bytes) <= bytes.len(),
    decreases bytes.len(),
{
    if bytes.len() != 0 && !parts(bytes[0]) {
        lemma_first_len_bounds(bytes.drop_first());
    }
}

/// A run of `n` bytes without a separator that is followed by a separator
/// or by the end is the first run.
pub proof fn lemma_first_len(bytes: Seq<u8>, n: int)
    requires
        0 <= n <= bytes.len(),
        forall|j: int| 0 <= j < n ==> !parts(#[trigger] bytes[j]),
        n < bytes.len() ==> parts(bytes[n]),
    ensures
        first_len(bytes) == n,
    decreases n,
{
    if n > 0 {
        let rest = bytes.drop_first();
        assert(forall|j: int| 0 <= j < n - 1 ==> rest[j] == bytes[j + 1]);
        lemma_first_len(rest, n - 1);
    }
}

/// The views of the names.
pub open spec fn name_views(names: Seq<&[u8]>) -> Seq<Seq<u8>> {
    names.map_values(|n: &[u8]| n@)
}

/// The names of the system libraries that `llvm-config --system-libs` asks
/// to link: one for each argument of its output, in order.
pub fn system_libs(output: &[u8]) -> (names: Vec<&[u8]>)
    ensures
        name_views(names@) == arguments(output@).map_values(|a: Seq<u8>| named(a)),
{
    let mut names: Vec<&[u8]> = Vec::new();
    let mut start: usize = 0;
    let mut i: usize = 0;
    proof {
        let all = arguments(output@).map_values(|a: Seq<u8>| named(a));
        assert(output@.skip(0) =~= output@);
        assert(name_views(names@) + all =~= all);
    }
    while i < output.len()
        invariant
            start <= i <= output.len(),
            forall|j: int| start <= j < i ==> !parts(#[trigger] output@[j]),
            name_views(names@) + arguments(output@.skip(start as int)).map_values(
                |a: Seq<u8>| named(a),
            ) == arguments(output@).map_values(|a: Seq<u8>| named(a)),
        decreases output.len() - i,
    {
        let b = output[i];
        if b == 0x20 || b == 0x0a {
            let ghost tail = output@.skip(start as int);
            proof {
                assert(forall|j: int| 0 <= j < i - start ==> tail[j] == output@[start + j]);
                lemma_first_len(tail, i - start);
                assert(tail.skip(i - start + 1) =~= output@.skip(i + 1));
            }
            if start < i {
                let arg = slice_subrange(output, start, i);
                let name = link_name(arg);
                let ghost before = names@;
                names.push(name);
                proof {
                    assert(arg@ =~= tail.take(i - start));
                    let f = |a: Seq<u8>| named(a);
                    let rest = arguments(output@.skip(i + 1));
                    assert(arguments(tail) =~= seq![arg@] + rest);
                    assert((seq![arg@] + rest).map_values(f) =~= seq![named(arg@)]
                        + rest.map_values(f));
                    assert(name_views(names@) =~= name_views(before).push(named(arg@)));
                    assert(name_views(names@) + rest.map_values(f) =~= name_views(before) + (
                    seq![named(arg@)] + rest.map_values(f)));
                }
            }
            start = i + 1;
        }
        i += 1;
    }
    let ghost tail = output@.skip(start as int);
    proof {
        assert(forall|j: int| 0 <= j < i - start ==> tail[j] == output@[start + j]);
        lemma_first_len(tail, i - start);
    }
    if start < i {
        let arg = slice_subrange(output, start, i);
        let name = link_name(arg);
        let ghost before = names@;
        names.push(name);
        proof {
            assert(arg@ =~= tail.take(i - start));
            let f = |a: Seq<u8>| named(a);
            assert(arguments(tail) =~= seq![arg@]);
            assert(seq![arg@].map_values(f) =~= seq![named(arg@)]);
            assert(name_views(names@) =~= name_views(before).push(named(arg@)));
            assert(name_views(names@) =~= name_views(before) + seq![named(arg@)]);
        }
    } else {
        proof {
            assert(arguments(tail) =~= Seq::<Seq<u8>>::empty());
            assert(name_views(names@) + Seq::<Seq<u8>>::empty() =~= name_views(names@));
        }
    }
    names
}

} // verus!
