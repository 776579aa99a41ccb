//! Where the game's file system and process calls are sent: `/tmp` is moved
//! next to the game, configured files are redirected, and shell commands
//! other than `find` are blocked.
use crate::config::FileRedirect;
use vstd::prelude::*;
use vstd::utf8::encode_utf8;

verus! {

/// Whether `s` starts with `prefix`.
pub open spec fn starts_with(s: Seq<u8>, prefix: Seq<u8>) -> bool {
    prefix.len() <= s.len() && s.take(prefix.len() as int) == prefix
}

/// `s` with every occurrence of `pat` replaced by `rep`, scanning from the
/// left and not overlapping, as `str::replace` does.
pub open spec fn replace_all(s: Seq<u8>, pat: Seq<u8>, rep: Seq<u8>) -> Seq<u8>
    decreases s.len(),
{
    if pat.len() == 0 || s.len() == 0 {
        s
    } else if starts_with(s, pat) {
        rep + replace_all(s.skip(pat.len() as int), pat, rep)
    } else {
        seq![s[0]] + replace_all(s.skip(1), pat, rep)
    }
}

/// Law of replacement: a string in which the pattern never occurs is left as
/// it is; in particular a path without `/tmp/` is not changed by localizing.
pub proof fn lemma_replace_all_absent(s: Seq<u8>, pat: Seq<u8>, rep: Seq<u8>)
    requires
        forall|i: int| 0 <= i <= s.len() ==> !starts_with(#[trigger] s.skip(i), pat),
    ensures
        replace_all(s, pat, rep) == s,
    decreases s.len(),
{
    if pat.len() != 0 && s.len() != 0 {
        assert(s.skip(0) =~= s);
        assert forall|i: int| 0 <= i <= s.skip(1).len() implies !starts_with(
            #[trigger] s.skip(1).skip(i),
            pat,
        ) by {
            assert(s.skip(1).skip(i) =~= s.skip(i + 1));
        }
        lemma_replace_all_absent(s.skip(1), pat, rep);
        assert(seq![s[0]] + s.skip(1) =~= s);
    }
}

/// `/tmp`
pub open spec fn tmp_root() -> Seq<u8> {
    seq![47u8, 116u8, 109u8, 112u8]
}

/// `/tmp/`
pub open spec fn tmp_dir() -> Seq<u8> {
    seq![47u8, 116u8, 109u8, 112u8, 47u8]
}

/// `./tmp/`, the game's `/tmp` moved next to it.
pub open spec fn local_tmp_dir() -> Seq<u8> {
    seq![46u8, 47u8, 116u8, 109u8, 112u8, 47u8]
}

/// `/proc/bus/usb/devices`, the USB device list the game reads.
pub open spec fn usb_devices() -> Seq<u8> {
    seq![
        47u8, 112u8, 114u8, 111u8, 99u8, 47u8, 98u8, 117u8, 115u8, 47u8, 117u8, 115u8, 98u8, 47u8, 100u8,
        101u8, 118u8, 105u8, 99u8, 101u8, 115u8
    ]
}

/// `./tmp/usb-devices`, the stand-in for the USB device list.
pub open spec fn local_usb_devices() -> Seq<u8> {
    seq![
        46u8, 47u8, 116u8, 109u8, 112u8, 47u8, 117u8, 115u8, 98u8, 45u8, 100u8, 101u8, 118u8, 105u8, 99u8,
        101u8, 115u8
    ]
}

/// `find`, the one shell command let through when `sudo` is blocked.
pub open spec fn find_command() -> Seq<u8> {
    seq![102u8, 105u8, 110u8, 100u8]
}

/// Every `/tmp/` in `path` moved to `./tmp/`.
pub open spec fn localized(path: Seq<u8>) -> Seq<u8> {
    replace_all(path, tmp_dir(), local_tmp_dir())
}

/// A path under `/tmp` localized; any other path as it is.
pub open spec fn tmp_redirected(path: Seq<u8>) -> Seq<u8> {
    if starts_with(path, tmp_root()) {
        localized(path)
    } else {
        path
    }
}

fn literal_tmp_root() -> (v: Vec<u8>)
    ensures
        v@ == tmp_root(),
{
    let v: Vec<u8> = vec![47u8, 116u8, 109u8, 112u8];
    assert(v@ =~= tmp_root());
    v
}

fn literal_tmp_dir() -> (v: Vec<u8>)
    ensures
        v@ == tmp_dir(),
{
    let v: Vec<u8> = vec![47u8, 116u8, 109u8, 112u8, 47u8];
    assert(v@ =~= tmp_dir());
    v
}

fn literal_local_tmp_dir() -> (v: Vec<u8>)
    ensures
        v@ == local_tmp_dir(),
{
    let v: Vec<u8> = vec![46u8, 47u8, 116u8, 109u8, 112u8, 47u8];
    assert(v@ =~= local_tmp_dir());
    v
}

fn literal_usb_devices() -> (v: Vec<u8>)
    ensures
        v@ == usb_devices(),
{
    let v: Vec<u8> = vec![
        47u8, 112u8, 114u8, 111u8, 99u8, 47u8, 98u8, 117u8, 115u8, 47u8, 117u8, 115u8, 98u8, 47u8, 100u8,
        101u8, 118u8, 105u8, 99u8, 101u8, 115u8,
    ];
    assert(v@ =~= usb_devices());
    v
}

fn literal_local_usb_devices() -> (v: Vec<u8>)
    ensures
        v@ == local_usb_devices(),
{
    let v: Vec<u8> = vec![
        46u8, 47u8, 116u8, 109u8, 112u8, 47u8, 117u8, 115u8, 98u8, 45u8, 100u8, 101u8, 118u8, 105u8, 99u8,
        101u8, 115u8,
    ];
    assert(v@ =~= local_usb_devices());
    v
}

fn literal_find() -> (v: Vec<u8>)
    ensures
        v@ == find_command(),
{
    let v: Vec<u8> = vec![102u8, 105u8, 110u8, 100u8];
    assert(v@ =~= find_command());
    v
}

/// Whether `pat` occurs in `s` at `at`.
fn occurs_at(s: &[u8], at: usize, pat: &[u8]) -> (r: bool)
    requires
        at <= s@.len(),
    ensures
        r == starts_with(s@.skip(at as int), pat@),
{
    let n = pat.len();
    let len = s.len();
    if n > len - at {
        return false;
    }
    let mut k: usize = 0;
    while k < n
        invariant
            n == pat@.len(),
            len == s@.len(),
            at + n <= s@.len(),
            k <= n,
            forall|j: int| 0 <= j < k ==> s@[at + j] == pat@[j],
        decreases n - k,
    {
        if s[at + k] != pat[k] {
            assert(s@.skip(at as int).take(n as int)[k as int] != pat@[k as int]);
            return false;
        }
        k = k + 1;
    }
    assert(s@.skip(at as int).take(n as int) =~= pat@);
    true
}

/// Whether `s` starts with `prefix`.
pub fn has_prefix(s: &[u8], prefix: &[u8]) -> (r: bool)
    ensures
        r == starts_with(s@, prefix@),
{
    assert(s@.skip(0) =~= s@);
    occurs_at(s, 0, prefix)
}

/// Replaces every occurrence of `pat` in `s` by `rep`, left to right, as
/// `str::replace` does.
pub fn replace_bytes(s: &[u8], pat: &[u8], rep: &[u8]) -> (out: Vec<u8>)
    ensures
        out@ == replace_all(s@, pat@, rep@),
{
    let n = s.len();
    let mut out: Vec<u8> = Vec::new();
    let mut i: usize = 0;
    assert(s@.skip(0) =~= s@);
    while i < n
        invariant
            n == s@.len(),
            i <= n,
            out@ + replace_all(s@.skip(i as int), pat@, rep@) == replace_all(s@, pat@, rep@),
        decreases n - i,
    {
        let ghost rest = s@.skip(i as int);
        if pat.len() > 0 && occurs_at(s, i, pat) {
            let ghost before = out@;
            let mut k: usize = 0;
            while k < rep.len()
                invariant
                    k <= rep@.len(),
                    out@ == before + rep@.take(k as int),
                decreases rep@.len() - k,
            {
                out.push(rep[k]);
                k = k + 1;
                assert(out@ =~= before + rep@.take(k as int));
            }
            assert(rep@.take(rep@.len() as int) =~= rep@);
            assert(rest.skip(pat@.len() as int) =~= s@.skip(i + pat@.len()));
            assert(before + (rep@ + replace_all(s@.skip(i + pat@.len()), pat@, rep@)) =~= out@
                + replace_all(s@.skip(i + pat@.len()), pat@, rep@));
            i = i + pat.len();
        } else {
            let ghost before = out@;
            out.push(s[i]);
            assert(rest.skip(1) =~= s@.skip(i + 1));
            proof {
                if pat@.len() == 0 {
                    assert(replace_all(rest, pat@, rep@) == rest);
                    assert(replace_all(s@.skip(i + 1), pat@, rep@) == s@.skip(i + 1));
                    assert(rest =~= seq![s@[i as int]] + s@.skip(i + 1));
                }
            }
            assert(before + (seq![s@[i as int]] + replace_all(s@.skip(i + 1), pat@, rep@)) =~= out@
                + replace_all(s@.skip(i + 1), pat@, rep@));
            i = i + 1;
        }
    }
    assert(s@.skip(n as int) =~= Seq::<u8>::empty());
    assert(out@ + Seq::<u8>::empty() =~= out@);
    out
}

/// A copy of a byte slice.
fn to_vec(s: &[u8]) -> (v: Vec<u8>)
    ensures
        v@ == s@,
{
    let mut v: Vec<u8> = Vec::new();
    let mut i: usize = 0;
    while i < s.len()
        invariant
            i <= s@.len(),
            v@ == s@.take(i as int),
        decreases s@.len() - i,
    {
        v.push(s[i]);
        i = i + 1;
        assert(v@ =~= s@.take(i as int));
    }
    assert(v@ =~= s@);
    v
}

/// `path` with every `/tmp/` moved to `./tmp/`: what `rename` and shell
/// commands get.
pub fn localize_tmp(path: &[u8]) -> (out: Vec<u8>)
    ensures
        out@ == localized(path@),
{
    let pat = literal_tmp_dir();
    let rep = literal_local_tmp_dir();
    replace_bytes(path, pat.as_slice(), rep.as_slice())
}

/// The path that `fopen` and `basic_filebuf::open` really open: paths under
/// `/tmp` are localized, others kept.
pub fn redirect_tmp(path: &[u8]) -> (out: Vec<u8>)
    ensures
        out@ == tmp_redirected(path@),
{
    let root = literal_tmp_root();
    if has_prefix(path, root.as_slice()) {
        localize_tmp(path)
    } else {
        to_vec(path)
    }
}

/// The path that an input file stream really opens: paths under `/tmp` are
/// localized, the USB device list is replaced by a stand-in, others kept.
pub open spec fn ifstream_target(path: Seq<u8>) -> Seq<u8> {
    if starts_with(path, tmp_root()) {
        localized(path)
    } else if starts_with(path, usb_devices()) {
        local_usb_devices()
    } else {
        path
    }
}

/// The path that the input file stream constructor really opens.
pub fn ifstream_path(path: &[u8]) -> (out: Vec<u8>)
    ensures
        out@ == ifstream_target(path@),
{
    let root = literal_tmp_root();
    if has_prefix(path, root.as_slice()) {
        localize_tmp(path)
    } else {
        let usb = literal_usb_devices();
        if has_prefix(path, usb.as_slice()) {
            literal_local_usb_devices()
        } else {
            to_vec(path)
        }
    }
}

/// Whether a redirect applies to the path the game asks for (compared by
/// their UTF-8 bytes).
pub open spec fn redirect_applies(r: FileRedirect, path: Seq<u8>) -> bool {
    encode_utf8(r.from@) == path
}

/// The first of the redirects that applies to `path`.
pub open spec fn first_redirect(rs: Seq<FileRedirect>, path: Seq<u8>) -> Option<FileRedirect>
    decreases rs.len(),
{
    if rs.len() == 0 {
        None
    } else if redirect_applies(rs[0], path) {
        Some(rs[0])
    } else {
        first_redirect(rs.drop_first(), path)
    }
}

/// Where `open` goes and with which flags: the first redirect that applies
/// decides the path, and its flags replace the game's when it has any;
/// without one, paths under `/tmp` are localized and the game's flags kept.
pub open spec fn open_target(rs: Seq<FileRedirect>, path: Seq<u8>, flags: u32) -> (Seq<u8>, u32) {
    match first_redirect(rs, path) {
        Some(r) => (
            encode_utf8(r.to@),
            match r.flags {
                Some(f) => f,
                None => flags,
            },
        ),
        None => (tmp_redirected(path), flags),
    }
}

/// Skipping redirects that do not apply leaves the first one that does.
proof fn lemma_first_redirect_skip(rs: Seq<FileRedirect>, path: Seq<u8>, i: int)
    requires
        0 <= i <= rs.len(),
        forall|k: int| 0 <= k < i ==> !redirect_applies(#[trigger] rs[k], path),
    ensures
        first_redirect(rs, path) == first_redirect(rs.skip(i), path),
    decreases i,
{
    if i > 0 {
        assert(rs.drop_first().skip(i - 1) =~= rs.skip(i));
        assert forall|k: int| 0 <= k < i - 1 implies !redirect_applies(
            #[trigger] rs.drop_first()[k],
            path,
        ) by {
            assert(rs.drop_first()[k] == rs[k + 1]);
        }
        lemma_first_redirect_skip(rs.drop_first(), path, i - 1);
    } else {
        assert(rs.skip(0) =~= rs);
    }
}

/// The path and flags with which the game's `open` call is made.
pub fn open_redirect(redirects: &[FileRedirect], path: &[u8], flags: u32) -> (r: (Vec<u8>, u32))
    ensures
        (r.0@, r.1) == open_target(redirects@, path@, flags),
{
    let n = redirects.len();
    let mut i: usize = 0;
    while i < n
        invariant
            n == redirects@.len(),
            i <= n,
            forall|k: int| 0 <= k < i ==> !redirect_applies(#[trigger] redirects@[k], path@),
        decreases n - i,
    {
        let r = &redirects[i];
        let from = r.from.as_str().as_bytes();
        if from.len() == path.len() && has_prefix(path, from) {
            assert(path@.take(from@.len() as int) =~= path@);
            proof {
                lemma_first_redirect_skip(redirects@, path@, i as int);
                assert(redirects@.skip(i as int)[0] == redirects@[i as int]);
            }
            let target = to_vec(r.to.as_str().as_bytes());
            let f = match r.flags {
                Some(f) => f,
                None => flags,
            };
            return (target, f);
        }
        proof {
            if from@ == path@ {
                assert(path@.take(from@.len() as int) =~= path@);
            }
            assert(!redirect_applies(redirects@[i as int], path@));
        }
        i = i + 1;
    }
    proof {
        lemma_first_redirect_skip(redirects@, path@, n as int);
        assert(redirects@.skip(n as int) =~= Seq::<FileRedirect>::empty());
    }
    (redirect_tmp(path), flags)
}

/// Law of `open` redirection: when the `i`-th configured redirect is the
/// first whose `from` is the path, the game opens exactly that redirect's
/// `to` (its UTF-8 bytes, untouched) with its flags, or the game's flags
/// when it has none; when no redirect's `from` is the path, a path outside
/// `/tmp` is opened as it is with the game's flags.
pub proof fn lemma_open_redirect(rs: Seq<FileRedirect>, path: Seq<u8>, flags: u32, i: int)
    ensures
        0 <= i < rs.len() && encode_utf8(rs[i].from@) == path && (forall|j: int|
            0 <= j < i ==> encode_utf8(#[trigger] rs[j].from@) != path) ==> open_target(
            rs,
            path,
            flags,
        ) == (
            encode_utf8(rs[i].to@),
            match rs[i].flags {
                Some(f) => f,
                None => flags,
            },
        ),
        (forall|j: int| 0 <= j < rs.len() ==> encode_utf8(#[trigger] rs[j].from@) != path)
            && !starts_with(path, seq![47u8, 116u8, 109u8, 112u8]) ==> open_target(rs, path, flags)
            == (path, flags),
{
    if 0 <= i < rs.len() && encode_utf8(rs[i].from@) == path && (forall|j: int|
        0 <= j < i ==> encode_utf8(#[trigger] rs[j].from@) != path) {
        lemma_first_redirect_skip(rs, path, i);
        assert(rs.skip(i)[0] == rs[i]);
    }
    if forall|j: int| 0 <= j < rs.len() ==> encode_utf8(#[trigger] rs[j].from@) != path {
        lemma_first_redirect_skip(rs, path, rs.len() as int);
        assert(rs.skip(rs.len() as int) =~= Seq::<FileRedirect>::empty());
    }
}

/// The shell command that `system` runs: with `sudo` blocked only `find`
/// commands run (with `/tmp` localized), anything else is refused (`None`).
pub open spec fn system_target(block_sudo: bool, command: Seq<u8>) -> Option<Seq<u8>> {
    if !block_sudo || starts_with(command, find_command()) {
        Some(localized(command))
    } else {
        None
    }
}

/// Decides what becomes of a shell command the game runs.
pub fn system_command(block_sudo: bool, command: &[u8]) -> (r: Option<Vec<u8>>)
    ensures
        match r {
            Some(c) => system_target(block_sudo, command@) == Some(c@),
            None => system_target(block_sudo, command@) is None,
        },
{
    let find = literal_find();
    if !block_sudo || has_prefix(command, find.as_slice()) {
        Some(localize_tmp(command))
    } else {
        None
    }
}

/// The two ioctl requests of the game's custom serial driver.
pub open spec fn custom_ioctl(op: u32) -> bool {
    op == 0x5463 || op == 0x5464
}

/// What an `ioctl` call reports to the game: success for the custom serial
/// driver's requests when they are to be ignored, the real result otherwise.
pub fn ioctl_result(op: u32, result: i32, ignore_custom_ioctls: bool) -> (r: i32)
    ensures
        r == (if custom_ioctl(op) && ignore_custom_ioctls { 0 } else { result }),
{
    if (op == 0x5463 || op == 0x5464) && ignore_custom_ioctls {
        0
    } else {
        result
    }
}

} // verus!
