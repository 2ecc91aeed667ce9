//! Paths of files, compared by their components.

use vstd::prelude::*;
use vstd::string::*;
use vstd::utf8::*;

verus! {

/// The path of a file: the text by which it is shown, and the bytes by which the system has it.
#[derive(Debug, Clone, PartialEq, Eq)]
pub struct FilePath {
    pub text: String,
    pub bytes: Vec<u8>,
}

impl FilePath {
    /// The path that a text is.
    pub fn new(text: &str) -> (r: FilePath)
        ensures
            r.text@ == text@,
            r.bytes@ == encode_utf8(text@),
    {
        FilePath { text: text.to_owned(), bytes: text.as_bytes_vec() }
    }
}

/// A byte between components: a slash, or on Windows a backslash too. A verbatim path has backslashes
/// only.
pub open spec fn is_separator(byte: u8, is_windows: bool, verbatim: bool) -> bool {
    (byte == 0x2f && !verbatim) || (byte == 0x5c && is_windows)
}

/// The first separator at or behind a position, or the end of the path.
pub open spec fn separator_from(path: Seq<u8>, from: int, verbatim: bool) -> int
    decreases path.len() - from,
{
    if !(0 <= from < path.len()) {
        path.len() as int
    } else if is_separator(path[from], true, verbatim) {
        from
    } else {
        separator_from(path, from + 1, verbatim)
    }
}

/// What a path on Windows can begin with.
#[derive(Debug, Clone, Copy, PartialEq, Eq, Structural)]
pub enum PrefixKind {
    Nothing,
    /// `C:`
    Disk,
    /// `\\server\share`
    Share,
    /// `\\.\name`
    Device,
    /// `\\?\name`
    Verbatim,
    /// `\\?\UNC\server\share`
    VerbatimShare,
    /// `\\?\C:`
    VerbatimDisk,
}

/// A path with this prefix is taken as it is written, dots and slashes included.
pub open spec fn is_verbatim(kind: PrefixKind) -> bool {
    kind is Verbatim || kind is VerbatimShare || kind is VerbatimDisk
}

/// What a path begins with: the kind of its prefix, the names in it, and how many bytes it takes.
#[verifier::ext_equal]
pub struct Prefix {
    pub kind: PrefixKind,
    pub names: Seq<Seq<u8>>,
    pub length: int,
}

/// A letter of the alphabet.
pub open spec fn is_letter(byte: u8) -> bool {
    0x41 <= byte <= 0x5a || 0x61 <= byte <= 0x7a
}

/// The letter of a drive, in capitals.
pub open spec fn drive(byte: u8) -> Seq<u8> {
    seq![
        if byte >= 0x61 {
            (byte - 0x20) as u8
        } else {
            byte
        },
    ]
}

/// The name that begins at a position.
pub open spec fn name_at(path: Seq<u8>, at: int, verbatim: bool) -> Seq<u8> {
    path.subrange(at, separator_from(path, at, verbatim))
}

/// The prefix of a path behind `\\?\`.
pub open spec fn verbatim_prefix(path: Seq<u8>) -> Prefix {
    let end = separator_from(path, 4, true);
    if path.len() >= 8 && path.subrange(4, 8) == seq![0x55u8, 0x4eu8, 0x43u8, 0x5cu8] {
        let server_end = separator_from(path, 8, true);
        let share = if server_end < path.len() {
            name_at(path, server_end + 1, true)
        } else {
            Seq::<u8>::empty()
        };
        Prefix {
            kind: PrefixKind::VerbatimShare,
            names: seq![name_at(path, 8, true), share],
            length: if share.len() > 0 {
                (server_end + 1 + share.len()) as int
            } else {
                server_end
            },
        }
    } else if path.len() >= 6 && is_letter(path[4]) && path[5] == 0x3a && (path.len() == 6
        || is_separator(path[6], true, false)) {
        Prefix { kind: PrefixKind::VerbatimDisk, names: seq![drive(path[4])], length: 6 }
    } else {
        Prefix { kind: PrefixKind::Verbatim, names: seq![name_at(path, 4, true)], length: end }
    }
}

/// The prefix of a path that begins with two separators and is not verbatim.
pub open spec fn network_prefix(path: Seq<u8>) -> Prefix {
    let server_end = separator_from(path, 2, false);
    if path.len() >= 4 && path[2] == 0x2e && is_separator(path[3], true, false) {
        Prefix {
            kind: PrefixKind::Device,
            names: seq![name_at(path, 4, false)],
            length: separator_from(path, 4, false),
        }
    } else if 2 < server_end < path.len() && separator_from(path, server_end + 1, false)
        > server_end + 1 {
        Prefix {
            kind: PrefixKind::Share,
            names: seq![name_at(path, 2, false), name_at(path, server_end + 1, false)],
            length: separator_from(path, server_end + 1, false),
        }
    } else {
        Prefix { kind: PrefixKind::Nothing, names: Seq::empty(), length: 0 }
    }
}

/// The prefix of a path. Only Windows has prefixes.
pub open spec fn prefix_of(path: Seq<u8>, is_windows: bool) -> Prefix {
    if is_windows && path.len() >= 4 && path.subrange(0, 4) == seq![
        0x5cu8,
        0x5cu8,
        0x3fu8,
        0x5cu8,
    ] {
        verbatim_prefix(path)
    } else if is_windows && path.len() >= 2 && is_separator(path[0], true, false) && is_separator(
        path[1],
        true,
        false,
    ) {
        network_prefix(path)
    } else if is_windows && path.len() >= 2 && is_letter(path[0]) && path[1] == 0x3a {
        Prefix { kind: PrefixKind::Disk, names: seq![drive(path[0])], length: 2 }
    } else {
        Prefix { kind: PrefixKind::Nothing, names: Seq::empty(), length: 0 }
    }
}

/// The pieces between the separators of a path: one more than there are separators.
pub open spec fn pieces(path: Seq<u8>, is_windows: bool, verbatim: bool) -> Seq<Seq<u8>>
    decreases path.len(),
{
    if path.len() == 0 {
        seq![Seq::<u8>::empty()]
    } else {
        let rest = pieces(path.drop_last(), is_windows, verbatim);
        if is_separator(path.last(), is_windows, verbatim) {
            rest.push(Seq::<u8>::empty())
        } else {
            rest.drop_last().push(rest.last().push(path.last()))
        }
    }
}

/// The pieces that are components: the empty ones are not, and a dot is one where all dots are kept,
/// or at the beginning where that dot is.
pub open spec fn kept_pieces(
    all: Seq<Seq<u8>>,
    keeps_dots: bool,
    keeps_first_dot: bool,
) -> Seq<Seq<u8>>
    decreases all.len(),
{
    if all.len() == 0 {
        all
    } else {
        let before = kept_pieces(all.drop_last(), keeps_dots, keeps_first_dot);
        let piece = all.last();
        if piece.len() == 0 || (piece == seq![0x2eu8] && !keeps_dots && !(keeps_first_dot
            && all.len() == 1)) {
            before
        } else {
            before.push(piece)
        }
    }
}

/// What a path consists of.
#[verifier::ext_equal]
pub struct PathView {
    pub kind: PrefixKind,
    /// The names in the prefix.
    pub names: Seq<Seq<u8>>,
    /// The path starts at a root.
    pub rooted: bool,
    pub components: Seq<Seq<u8>>,
}

/// What a path consists of. Shares and devices are roots, whether a separator follows them or not.
pub open spec fn path_view(path: Seq<u8>, is_windows: bool) -> PathView {
    let prefix = prefix_of(path, is_windows);
    let body = path.skip(prefix.length);
    let has_separator = body.len() > 0 && is_separator(body[0], is_windows, false);
    let verbatim = is_verbatim(prefix.kind);
    let rooted = has_separator || prefix.kind is Share || prefix.kind is Device;
    PathView {
        kind: prefix.kind,
        names: prefix.names,
        rooted,
        components: kept_pieces(
            pieces(
                if has_separator {
                    body.drop_first()
                } else {
                    body
                },
                is_windows,
                verbatim,
            ),
            verbatim,
            !rooted && prefix.kind is Nothing,
        ),
    }
}

/// The two paths lead to the same place, as far as their bytes show it.
pub open spec fn is_same_path(a: Seq<u8>, b: Seq<u8>, is_windows: bool) -> bool {
    path_view(a, is_windows) == path_view(b, is_windows)
}

/// What sequences of bytes hold.
pub open spec fn byte_views(parts: Seq<Vec<u8>>) -> Seq<Seq<u8>> {
    parts.map_values(|part: Vec<u8>| part@)
}

/// What a path consists of.
#[derive(Debug, Clone, PartialEq, Eq)]
pub struct PathParts {
    pub kind: PrefixKind,
    pub names: Vec<Vec<u8>>,
    pub rooted: bool,
    pub components: Vec<Vec<u8>>,
}

impl View for PathParts {
    type V = PathView;

    open spec fn view(&self) -> PathView {
        PathView {
            kind: self.kind,
            names: byte_views(self.names@),
            rooted: self.rooted,
            components: byte_views(self.components@),
        }
    }
}

fn separates(byte: u8, is_windows: bool, verbatim: bool) -> (r: bool)
    ensures
        r == is_separator(byte, is_windows, verbatim),
{
    (byte == 0x2f && !verbatim) || (byte == 0x5c && is_windows)
}

fn find_separator(path: &[u8], from: usize, verbatim: bool) -> (r: usize)
    requires
        from <= path@.len(),
    ensures
        r == separator_from(path@, from as int, verbatim),
        from <= r <= path@.len(),
{
    let mut i: usize = from;
    while i < path.len() && !separates(path[i], true, verbatim)
        invariant
            from <= i <= path@.len(),
            separator_from(path@, from as int, verbatim) == separator_from(
                path@,
                i as int,
                verbatim,
            ),
        decreases path@.len() - i,
    {
        i += 1;
    }
    i
}

fn part(path: &[u8], from: usize, to: usize) -> (r: Vec<u8>)
    requires
        from <= to <= path@.len(),
    ensures
        r@ == path@.subrange(from as int, to as int),
{
    vstd::slice::slice_to_vec(vstd::slice::slice_subrange(path, from, to))
}

fn drive_of(byte: u8) -> (r: Vec<u8>)
    ensures
        r@ == drive(byte),
{
    let mut r: Vec<u8> = Vec::new();
    r.push(
        if byte >= 0x61 {
            byte - 0x20
        } else {
            byte
        },
    );
    assert(r@ =~= drive(byte));
    r
}

fn one(name: Vec<u8>) -> (r: Vec<Vec<u8>>)
    ensures
        byte_views(r@) == seq![name@],
{
    let mut r: Vec<Vec<u8>> = Vec::new();
    r.push(name);
    assert(byte_views(r@) =~= seq![name@]);
    r
}

fn two(first: Vec<u8>, second: Vec<u8>) -> (r: Vec<Vec<u8>>)
    ensures
        byte_views(r@) == seq![first@, second@],
{
    let mut r: Vec<Vec<u8>> = Vec::new();
    r.push(first);
    r.push(second);
    assert(byte_views(r@) =~= seq![first@, second@]);
    r
}

fn no_prefix() -> (r: (PrefixKind, Vec<Vec<u8>>, usize))
    ensures
        r.0 is Nothing,
        byte_views(r.1@) == Seq::<Seq<u8>>::empty(),
        r.2 == 0,
{
    let names: Vec<Vec<u8>> = Vec::new();
    assert(byte_views(names@) =~= Seq::empty());
    (PrefixKind::Nothing, names, 0)
}

/// What was read is the prefix, and it lies in the path.
spec fn is_read(read: (PrefixKind, Vec<Vec<u8>>, usize), prefix: Prefix, path: Seq<u8>) -> bool {
    &&& read.0 == prefix.kind
    &&& byte_views(read.1@) == prefix.names
    &&& read.2 == prefix.length
    &&& read.2 <= path.len()
}

fn read_verbatim_prefix(path: &[u8]) -> (r: (PrefixKind, Vec<Vec<u8>>, usize))
    requires
        path@.len() >= 4,
    ensures
        is_read(r, verbatim_prefix(path@), path@),
{
    let end: usize = find_separator(path, 4, true);
    if path.len() >= 8 && path[4] == 0x55 && path[5] == 0x4e && path[6] == 0x43 && path[7] == 0x5c {
        assert(path@.subrange(4, 8) =~= seq![0x55u8, 0x4eu8, 0x43u8, 0x5cu8]);
        let server_end: usize = find_separator(path, 8, true);
        let server = part(path, 8, server_end);
        if server_end == path.len() {
            return (PrefixKind::VerbatimShare, two(server, Vec::new()), server_end);
        }
        let share_end: usize = find_separator(path, server_end + 1, true);
        let share = part(path, server_end + 1, share_end);
        let length: usize = if share.len() > 0 {
            share_end
        } else {
            server_end
        };
        return (PrefixKind::VerbatimShare, two(server, share), length);
    }
    proof {
        if path@.len() >= 8 && path@.subrange(4, 8) == seq![0x55u8, 0x4eu8, 0x43u8, 0x5cu8] {
            assert(path@.subrange(4, 8)[0] == path@[4] && path@.subrange(4, 8)[1] == path@[5]
                && path@.subrange(4, 8)[2] == path@[6] && path@.subrange(4, 8)[3] == path@[7]);
        }
    }
    if path.len() >= 6 && letter(path[4]) && path[5] == 0x3a && (path.len() == 6 || separates(
        path[6],
        true,
        false,
    )) {
        return (PrefixKind::VerbatimDisk, one(drive_of(path[4])), 6);
    }
    (PrefixKind::Verbatim, one(part(path, 4, end)), end)
}

fn letter(byte: u8) -> (r: bool)
    ensures
        r == is_letter(byte),
{
    (0x41 <= byte && byte <= 0x5a) || (0x61 <= byte && byte <= 0x7a)
}

fn read_network_prefix(path: &[u8]) -> (r: (PrefixKind, Vec<Vec<u8>>, usize))
    requires
        path@.len() >= 2,
    ensures
        is_read(r, network_prefix(path@), path@),
{
    if path.len() >= 4 && path[2] == 0x2e && separates(path[3], true, false) {
        let end: usize = find_separator(path, 4, false);
        return (PrefixKind::Device, one(part(path, 4, end)), end);
    }
    let server_end: usize = find_separator(path, 2, false);
    if server_end == 2 || server_end == path.len() {
        return no_prefix();
    }
    let share_end: usize = find_separator(path, server_end + 1, false);
    if share_end == server_end + 1 {
        return no_prefix();
    }
    let names = two(part(path, 2, server_end), part(path, server_end + 1, share_end));
    (PrefixKind::Share, names, share_end)
}

fn read_prefix(path: &[u8], is_windows: bool) -> (r: (PrefixKind, Vec<Vec<u8>>, usize))
    ensures
        is_read(r, prefix_of(path@, is_windows), path@),
{
    if !is_windows || path.len() < 2 {
        return no_prefix();
    }
    if path.len() >= 4 && path[0] == 0x5c && path[1] == 0x5c && path[2] == 0x3f && path[3] == 0x5c {
        assert(path@.subrange(0, 4) =~= seq![0x5cu8, 0x5cu8, 0x3fu8, 0x5cu8]);
        return read_verbatim_prefix(path);
    }
    proof {
        if path@.len() >= 4 && path@.subrange(0, 4) == seq![0x5cu8, 0x5cu8, 0x3fu8, 0x5cu8] {
            assert(path@.subrange(0, 4)[0] == path@[0] && path@.subrange(0, 4)[1] == path@[1]
                && path@.subrange(0, 4)[2] == path@[2] && path@.subrange(0, 4)[3] == path@[3]);
        }
    }
    if separates(path[0], true, false) && separates(path[1], true, false) {
        return read_network_prefix(path);
    }
    if letter(path[0]) && path[1] == 0x3a {
        return (PrefixKind::Disk, one(drive_of(path[0])), 2);
    }
    no_prefix()
}

/// Reads the components of what stands behind the prefix and the root of a path.
fn read_components(
    path: &[u8],
    is_windows: bool,
    verbatim: bool,
    keeps_first_dot: bool,
) -> (r: Vec<Vec<u8>>)
    ensures
        byte_views(r@) == kept_pieces(
            pieces(path@, is_windows, verbatim),
            verbatim,
            keeps_first_dot,
        ),
{
    let mut all: Vec<Vec<u8>> = Vec::new();
    let mut last: Vec<u8> = Vec::new();
    let mut i: usize = 0;
    assert(path@.take(0) =~= Seq::empty());
    assert(byte_views(all@).push(last@) =~= pieces(path@.take(0), is_windows, verbatim));
    while i < path.len()
        invariant
            i <= path@.len(),
            byte_views(all@).push(last@) == pieces(path@.take(i as int), is_windows, verbatim),
        decreases path@.len() - i,
    {
        let byte = path[i];
        let ghost before = byte_views(all@);
        proof {
            assert(path@.take(i + 1).drop_last() =~= path@.take(i as int));
            assert(path@.take(i + 1).last() == byte);
            assert(before.push(last@).drop_last() =~= before);
        }
        if separates(byte, is_windows, verbatim) {
            let ghost done = last@;
            all.push(last);
            last = Vec::new();
            assert(byte_views(all@) =~= before.push(done));
            assert(last@ =~= Seq::<u8>::empty());
        } else {
            last.push(byte);
        }
        i += 1;
    }
    let ghost done = last@;
    let ghost before = byte_views(all@);
    all.push(last);
    assert(byte_views(all@) =~= before.push(done));
    assert(path@.take(i as int) =~= path@);
    let ghost found = byte_views(all@);
    let mut kept: Vec<Vec<u8>> = Vec::new();
    let mut k: usize = 0;
    assert(byte_views(kept@) =~= kept_pieces(found.take(0), verbatim, keeps_first_dot));
    while k < all.len()
        invariant
            k <= all.len(),
            found == byte_views(all@),
            byte_views(kept@) == kept_pieces(found.take(k as int), verbatim, keeps_first_dot),
        decreases all.len() - k,
    {
        let piece = &all[k];
        proof {
            assert(found.take(k + 1).drop_last() =~= found.take(k as int));
            assert(found.take(k + 1).last() == piece@);
        }
        let is_dot = piece.len() == 1 && piece[0] == 0x2e;
        assert(is_dot == (piece@ == seq![0x2eu8])) by {
            if is_dot {
                assert(piece@ =~= seq![0x2eu8]);
            }
        }
        if piece.len() > 0 && (!is_dot || verbatim || (keeps_first_dot && k == 0)) {
            let ghost so_far = byte_views(kept@);
            let copy = part(piece.as_slice(), 0, piece.len());
            assert(copy@ =~= piece@);
            kept.push(copy);
            assert(byte_views(kept@) =~= so_far.push(piece@));
        }
        k += 1;
    }
    assert(found.take(k as int) =~= found);
    kept
}

/// Takes a path apart.
pub fn parts_of(path: &[u8], is_windows: bool) -> (r: PathParts)
    ensures
        r@ == path_view(path@, is_windows),
{
    let (kind, names, length): (PrefixKind, Vec<Vec<u8>>, usize) = read_prefix(path, is_windows);
    let has_separator = length < path.len() && separates(path[length], is_windows, false);
    let (verbatim, is_root) = match kind {
        PrefixKind::Verbatim | PrefixKind::VerbatimShare | PrefixKind::VerbatimDisk => (true, false),
        PrefixKind::Share | PrefixKind::Device => (false, true),
        PrefixKind::Nothing | PrefixKind::Disk => (false, false),
    };
    let from: usize = if has_separator {
        length + 1
    } else {
        length
    };
    let body = vstd::slice::slice_subrange(path, from, path.len());
    proof {
        let behind = path@.skip(length as int);
        assert(body@ =~= if has_separator {
            behind.drop_first()
        } else {
            behind
        });
    }
    let keeps_first_dot = match kind {
        PrefixKind::Nothing => !has_separator,
        _ => false,
    };
    let components = read_components(body, is_windows, verbatim, keeps_first_dot);
    PathParts { kind, names, rooted: has_separator || is_root, components }
}

fn are_same(a: &Vec<Vec<u8>>, b: &Vec<Vec<u8>>) -> (r: bool)
    ensures
        r == (byte_views(a@) == byte_views(b@)),
{
    let ghost x = byte_views(a@);
    let ghost y = byte_views(b@);
    if a.len() != b.len() {
        assert(x.len() != y.len());
        return false;
    }
    let mut i: usize = 0;
    while i < a.len()
        invariant
            i <= a.len() == b.len(),
            x == byte_views(a@),
            y == byte_views(b@),
            forall|j: int| 0 <= j < i ==> x[j] == y[j],
        decreases a.len() - i,
    {
        assert(x[i as int] == a@[i as int]@ && y[i as int] == b@[i as int]@);
        if !bytes_eq(&a[i], &b[i]) {
            return false;
        }
        i += 1;
    }
    assert(x =~= y);
    true
}

fn bytes_eq(a: &Vec<u8>, b: &Vec<u8>) -> (r: bool)
    ensures
        r == (a@ == b@),
{
    if a.len() != b.len() {
        return false;
    }
    let mut i: usize = 0;
    while i < a.len()
        invariant
            i <= a.len() == b.len(),
            forall|j: int| 0 <= j < i ==> a@[j] == b@[j],
        decreases a.len() - i,
    {
        if a[i] != b[i] {
            return false;
        }
        i += 1;
    }
    assert(a@ =~= b@);
    true
}

/// Whether two paths lead to the same place, as far as their bytes show it.
pub fn same_path(a: &[u8], b: &[u8], is_windows: bool) -> (r: bool)
    ensures
        r == is_same_path(a@, b@, is_windows),
{
    let x = parts_of(a, is_windows);
    let y = parts_of(b, is_windows);
    x.kind == y.kind && x.rooted == y.rooted && are_same(&x.names, &y.names) && are_same(
        &x.components,
        &y.components,
    )
}

/// Every path leads to the same place as itself, whichever of two paths is looked at first does not
/// matter, and two paths that lead to the same place as a third one lead to the same place.
pub proof fn path_is_the_same_as_itself(a: Seq<u8>, is_windows: bool)
    ensures
        is_same_path(a, a, is_windows),
        forall|b: Seq<u8>| #[trigger]
            is_same_path(a, b, is_windows) ==> is_same_path(b, a, is_windows),
        forall|b: Seq<u8>, c: Seq<u8>|
            #![trigger is_same_path(a, b, is_windows), is_same_path(b, c, is_windows)]
            is_same_path(a, b, is_windows) && is_same_path(b, c, is_windows) ==> is_same_path(
                a,
                c,
                is_windows,
            ),
{
}

proof fn pieces_behind_a_separator(path: Seq<u8>, separator: u8, name: Seq<u8>, is_windows: bool)
    requires
        is_separator(separator, is_windows, false),
        forall|i: int| 0 <= i < name.len() ==> !is_separator(#[trigger] name[i], is_windows, false),
    ensures
        pieces(path + seq![separator] + name, is_windows, false) == pieces(
            path,
            is_windows,
            false,
        ).push(name),
    decreases name.len(),
{
    let whole = path + seq![separator] + name;
    if name.len() == 0 {
        assert(whole.drop_last() =~= path);
        assert(name =~= Seq::<u8>::empty());
    } else {
        let shorter = name.drop_last();
        assert forall|i: int| 0 <= i < shorter.len() implies !is_separator(
            #[trigger] shorter[i],
            is_windows,
            false,
        ) by {
            assert(shorter[i] == name[i]);
        }
        assert(!is_separator(name[name.len() - 1], is_windows, false));
        pieces_behind_a_separator(path, separator, shorter, is_windows);
        assert(whole.drop_last() =~= path + seq![separator] + shorter);
        assert(shorter.push(name.last()) =~= name);
        assert(pieces(path, is_windows, false).push(shorter).drop_last() =~= pieces(
            path,
            is_windows,
            false,
        ));
    }
}

proof fn pieces_of_a_name(name: Seq<u8>, is_windows: bool)
    requires
        forall|i: int| 0 <= i < name.len() ==> !is_separator(#[trigger] name[i], is_windows, false),
    ensures
        pieces(name, is_windows, false) == seq![name],
    decreases name.len(),
{
    if name.len() == 0 {
        assert(name =~= Seq::<u8>::empty());
    } else {
        let shorter = name.drop_last();
        assert forall|i: int| 0 <= i < shorter.len() implies !is_separator(
            #[trigger] shorter[i],
            is_windows,
            false,
        ) by {
            assert(shorter[i] == name[i]);
        }
        assert(!is_separator(name[name.len() - 1], is_windows, false));
        pieces_of_a_name(shorter, is_windows);
        assert(seq![shorter].drop_last().push(shorter.push(name.last())) =~= seq![name]) by {
            assert(shorter.push(name.last()) =~= name);
        }
    }
}

proof fn there_is_always_a_piece(path: Seq<u8>, is_windows: bool)
    ensures
        pieces(path, is_windows, false).len() > 0,
    decreases path.len(),
{
    if path.len() > 0 {
        there_is_always_a_piece(path.drop_last(), is_windows);
    }
}

/// Where there are no prefixes, a slash and a name behind a path are one more component of it. An empty
/// name and a dot are none: slashes at the end, doubled slashes and dots do not lead elsewhere. No other
/// byte parts a name, and the case of letters counts.
pub proof fn name_is_one_more_component(path: Seq<u8>, name: Seq<u8>)
    requires
        path.len() > 0,
        !name.contains(0x2f),
    ensures
        ({
            let before = path_view(path, false);
            let after = path_view(path + seq![0x2fu8] + name, false);
            &&& after.kind is Nothing
            &&& before.kind is Nothing
            &&& after.names == before.names
            &&& after.rooted == before.rooted
            &&& after.components == if name.len() == 0 || name == seq![0x2eu8] {
                before.components
            } else {
                before.components.push(name)
            }
        }),
{
    let whole = path + seq![0x2fu8] + name;
    assert forall|i: int| 0 <= i < name.len() implies !is_separator(
        #[trigger] name[i],
        false,
        false,
    ) by {
        assert(name.contains(name[i]));
    }
    assert(path.skip(0) =~= path);
    assert(whole.skip(0) =~= whole);
    let body = if path[0] == 0x2f {
        path.drop_first()
    } else {
        path
    };
    if path[0] == 0x2f {
        assert(whole.drop_first() =~= body + seq![0x2fu8] + name);
    }
    pieces_behind_a_separator(body, 0x2f, name, false);
    there_is_always_a_piece(body, false);
    let all = pieces(body, false, false).push(name);
    assert(all.drop_last() =~= pieces(body, false, false));
}

/// Where there are no prefixes, a path without a slash is one component, also where it is a dot; behind
/// a slash it is one component below the root, unless it is a dot.
pub proof fn name_is_one_component(name: Seq<u8>)
    requires
        name.len() > 0,
        !name.contains(0x2f),
    ensures
        path_view(name, false) == (PathView {
            kind: PrefixKind::Nothing,
            names: Seq::empty(),
            rooted: false,
            components: seq![name],
        }),
        path_view(seq![0x2fu8] + name, false) == (PathView {
            kind: PrefixKind::Nothing,
            names: Seq::empty(),
            rooted: true,
            components: if name == seq![0x2eu8] {
                Seq::empty()
            } else {
                seq![name]
            },
        }),
{
    let below = seq![0x2fu8] + name;
    assert forall|i: int| 0 <= i < name.len() implies !is_separator(
        #[trigger] name[i],
        false,
        false,
    ) by {
        assert(name.contains(name[i]));
    }
    pieces_of_a_name(name, false);
    assert(name.skip(0) =~= name);
    assert(below.skip(0) =~= below);
    assert(below.drop_first() =~= name);
    assert(seq![name].drop_last() =~= Seq::<Seq<u8>>::empty());
    reveal_with_fuel(kept_pieces, 2);
    assert(kept_pieces(seq![name], false, true) =~= seq![name]);
    assert(kept_pieces(seq![name], false, false) =~= if name == seq![0x2eu8] {
        Seq::empty()
    } else {
        seq![name]
    });
}

/// On Windows, the letter of a drive is the same in capitals and in lower case, and it is not the letter
/// of another drive.
pub proof fn drives_are_told_apart(lower: u8, other: u8, rest: Seq<u8>)
    requires
        0x61 <= lower <= 0x7a,
        0x61 <= other <= 0x7a,
    ensures
        is_same_path(
            seq![lower, 0x3au8] + rest,
            seq![(lower - 0x20) as u8, 0x3au8] + rest,
            true,
        ),
        lower != other ==> !is_same_path(
            seq![lower, 0x3au8] + rest,
            seq![other, 0x3au8] + rest,
            true,
        ),
{
    let a = seq![lower, 0x3au8] + rest;
    let b = seq![(lower - 0x20) as u8, 0x3au8] + rest;
    let c = seq![other, 0x3au8] + rest;
    assert(a.skip(2) =~= rest);
    assert(b.skip(2) =~= rest);
    assert(a[0] == lower && b[0] == lower - 0x20 && c[0] == other);
    assert(a[1] == 0x3a && b[1] == 0x3a && c[1] == 0x3a);
    assert(a.len() >= 4 ==> a.subrange(0, 4)[0] == lower);
    assert(b.len() >= 4 ==> b.subrange(0, 4)[0] == lower - 0x20);
    assert(c.len() >= 4 ==> c.subrange(0, 4)[0] == other);
    assert(path_view(a, true).names[0][0] == lower - 0x20);
    assert(path_view(c, true).names[0][0] == other - 0x20);
}

/// Two paths are the same where a slash is doubled, put at the end or followed by a dot, and different where a
/// name is another one.
pub proof fn paths_are_compared_by_names(
    path: Seq<u8>,
    name: Seq<u8>,
    other: Seq<u8>,
    a: &[u8],
    b: &[u8],
    r: bool,
)
    requires
        path.len() > 0,
        name.len() > 0 && !name.contains(0x2f) && name != seq![0x2eu8],
        other.len() > 0 && !other.contains(0x2f) && other != seq![0x2eu8],
        a@ == path + seq![0x2fu8] + name,
        call_ensures(same_path, (a, b, false), r),
    ensures
        b@ == path + seq![0x2fu8] + other ==> (r <==> name == other),
        b@ == a@ + seq![0x2fu8] ==> r,
        b@ == a@ + seq![0x2fu8] + seq![0x2eu8] ==> r,
        b@ == path + seq![0x2fu8] + seq![0x2fu8] + name ==> r,
        b@ == path ==> !r,
{
    let empty = Seq::<u8>::empty();
    let components = path_view(path, false).components;
    name_is_one_more_component(path, name);
    name_is_one_more_component(path, other);
    name_is_one_more_component(a@, empty);
    name_is_one_more_component(a@, seq![0x2eu8]);
    name_is_one_more_component(path, empty);
    name_is_one_more_component(path + seq![0x2fu8], name);
    assert(a@ + seq![0x2fu8] + empty =~= a@ + seq![0x2fu8]);
    assert(path + seq![0x2fu8] + empty =~= path + seq![0x2fu8]);
    assert(components.push(name).last() == name);
    assert(components.push(other).last() == other);
    assert(components.push(name).len() != components.len());
}

/// On Windows, a name behind a slash or a backslash is one more component of a path on a drive, and no other
/// byte parts a name. An empty name and a dot are none.
pub proof fn both_slashes_part_names_on_a_drive(
    letter: u8,
    body: Seq<u8>,
    separator: u8,
    name: Seq<u8>,
)
    requires
        0x41 <= letter <= 0x5a || 0x61 <= letter <= 0x7a,
        body.len() > 0,
        separator == 0x2f || separator == 0x5c,
        !name.contains(0x2f),
        !name.contains(0x5c),
    ensures
        ({
            let path = seq![letter, 0x3au8] + body;
            let before = path_view(path, true);
            let after = path_view(path + seq![separator] + name, true);
            &&& before.kind is Disk
            &&& after.kind is Disk
            &&& after.names == before.names
            &&& after.rooted == before.rooted
            &&& after.rooted <==> body[0] == 0x2f || body[0] == 0x5c
            &&& after.components == if name.len() == 0 || name == seq![0x2eu8] {
                before.components
            } else {
                before.components.push(name)
            }
        }),
{
    let path = seq![letter, 0x3au8] + body;
    let whole = path + seq![separator] + name;
    assert(path[0] == letter && path[1] == 0x3a);
    assert(whole[0] == letter && whole[1] == 0x3a);
    assert(path.len() >= 4 ==> path.subrange(0, 4)[0] == letter);
    assert(whole.len() >= 4 ==> whole.subrange(0, 4)[0] == letter);
    assert(path.skip(2) =~= body);
    assert(whole.skip(2) =~= body + seq![separator] + name);
    assert forall|i: int| 0 <= i < name.len() implies !is_separator(
        #[trigger] name[i],
        true,
        false,
    ) by {
        assert(name.contains(name[i]));
    }
    let inner = if is_separator(body[0], true, false) {
        body.drop_first()
    } else {
        body
    };
    if is_separator(body[0], true, false) {
        assert((body + seq![separator] + name).drop_first() =~= inner + seq![separator] + name);
    }
    pieces_behind_a_separator(inner, separator, name, true);
    there_is_always_a_piece(inner, true);
    let all = pieces(inner, true, false).push(name);
    assert(all.drop_last() =~= pieces(inner, true, false));
}

proof fn first_separator_is_found(path: Seq<u8>, from: int, at: int, verbatim: bool)
    requires
        0 <= from <= at <= path.len(),
        forall|i: int| from <= i < at ==> !is_separator(#[trigger] path[i], true, verbatim),
        at < path.len() ==> is_separator(path[at], true, verbatim),
    ensures
        separator_from(path, from, verbatim) == at,
    decreases at - from,
{
    if from < at {
        assert(!is_separator(path[from], true, verbatim));
        first_separator_is_found(path, from + 1, at, verbatim);
    }
}

proof fn pieces_of_a_verbatim_name(name: Seq<u8>)
    requires
        !name.contains(0x5c),
    ensures
        pieces(name, true, true) == seq![name],
    decreases name.len(),
{
    if name.len() == 0 {
        assert(name =~= Seq::<u8>::empty());
    } else {
        let shorter = name.drop_last();
        assert(name.contains(name[name.len() - 1]));
        assert(!shorter.contains(0x5c)) by {
            if shorter.contains(0x5c) {
                let i = choose|i: int| 0 <= i < shorter.len() && shorter[i] == 0x5c;
                assert(name[i] == 0x5c);
            }
        }
        pieces_of_a_verbatim_name(shorter);
        assert(seq![shorter].drop_last().push(shorter.push(name.last())) =~= seq![name]) by {
            assert(shorter.push(name.last()) =~= name);
        }
    }
}

/// A path on Windows that begins with `\\?\` is taken as it is written: only backslashes part its names, and a dot
/// is a name too. What stands behind the beginning is the name of its root.
pub proof fn verbatim_path_is_taken_as_written(root: Seq<u8>, name: Seq<u8>)
    requires
        root.len() > 0,
        !root.contains(0x5c),
        !root.contains(0x3a),
        root != seq![0x55u8, 0x4eu8, 0x43u8],
        name.len() > 0,
        !name.contains(0x5c),
    ensures
        path_view(seq![0x5cu8, 0x5cu8, 0x3fu8, 0x5cu8] + root + seq![0x5cu8] + name, true) == (
        PathView {
            kind: PrefixKind::Verbatim,
            names: seq![root],
            rooted: true,
            components: seq![name],
        }),
{
    let start = seq![0x5cu8, 0x5cu8, 0x3fu8, 0x5cu8];
    let path = start + root + seq![0x5cu8] + name;
    let end = 4 + root.len();
    assert(path.subrange(0, 4) =~= start);
    assert forall|i: int| 4 <= i < end implies !is_separator(#[trigger] path[i], true, true) by {
        assert(path[i] == root[i - 4]);
        assert(root.contains(root[i - 4]));
    }
    first_separator_is_found(path, 4, end as int, true);
    assert(path.subrange(4, end as int) =~= root);
    assert(path[4] == root[0]);
    assert(root.contains(root[0]));
    if root.len() > 1 {
        assert(path[5] == root[1]);
        assert(root.contains(root[1]));
    }
    if path.len() >= 8 && path.subrange(4, 8) == seq![0x55u8, 0x4eu8, 0x43u8, 0x5cu8] {
        let unc = path.subrange(4, 8);
        assert(unc[3] == 0x5c);
        assert(path[7] == 0x5c);
        if root.len() > 3 {
            assert(path[7] == root[3]);
            assert(root.contains(root[3]));
        }
        assert(unc[0] == path[4] && unc[1] == path[5] && unc[2] == path[6]);
        if root.len() < 3 {
            assert(path[end as int] == 0x5c);
        }
        assert(root.len() == 3);
        assert(root[2] == path[6]);
        assert(root =~= seq![0x55u8, 0x4eu8, 0x43u8]);
    }
    let body = path.skip(end as int);
    assert(body =~= seq![0x5cu8] + name);
    assert(body.drop_first() =~= name);
    pieces_of_a_verbatim_name(name);
    assert(seq![name].drop_last() =~= Seq::<Seq<u8>>::empty());
    reveal_with_fuel(kept_pieces, 2);
    assert(kept_pieces(seq![name], true, false) =~= seq![name]);
}

/// A path on Windows that begins with `\\?\` and a drive is one on that drive, taken as it is written.
pub proof fn verbatim_drive_is_taken_as_written(letter: u8, name: Seq<u8>)
    requires
        0x41 <= letter <= 0x5a || 0x61 <= letter <= 0x7a,
        name.len() > 0,
        !name.contains(0x5c),
    ensures
        path_view(
            seq![0x5cu8, 0x5cu8, 0x3fu8, 0x5cu8, letter, 0x3au8, 0x5cu8] + name,
            true,
        ) == (PathView {
            kind: PrefixKind::VerbatimDisk,
            names: seq![
                seq![
                    if letter >= 0x61 {
                        (letter - 0x20) as u8
                    } else {
                        letter
                    },
                ],
            ],
            rooted: true,
            components: seq![name],
        }),
{
    let start = seq![0x5cu8, 0x5cu8, 0x3fu8, 0x5cu8, letter, 0x3au8, 0x5cu8];
    let path = start + name;
    assert(path.subrange(0, 4) =~= seq![0x5cu8, 0x5cu8, 0x3fu8, 0x5cu8]);
    assert(path[4] == letter && path[5] == 0x3a && path[6] == 0x5c);
    assert(path.subrange(4, 8)[1] == 0x3a);
    let body = path.skip(6);
    assert(body =~= seq![0x5cu8] + name);
    assert(body.drop_first() =~= name);
    pieces_of_a_verbatim_name(name);
    assert(seq![name].drop_last() =~= Seq::<Seq<u8>>::empty());
    reveal_with_fuel(kept_pieces, 2);
    assert(kept_pieces(seq![name], true, false) =~= seq![name]);
}

/// A path on Windows that begins with two separators, a server and a share is one on that share, whichever
/// separators it is written with.
pub proof fn share_has_a_server_and_a_name(
    server: Seq<u8>,
    share: Seq<u8>,
    name: Seq<u8>,
    separator: u8,
)
    requires
        separator == 0x2f || separator == 0x5c,
        server.len() > 0 && !server.contains(0x2f) && !server.contains(0x5c),
        server[0] != 0x2e && server[0] != 0x3f,
        share.len() > 0 && !share.contains(0x2f) && !share.contains(0x5c),
        name.len() > 0 && !name.contains(0x2f) && !name.contains(0x5c) && name != seq![0x2eu8],
    ensures
        path_view(
            seq![separator, separator] + server + seq![separator] + share + seq![separator] + name,
            true,
        ) == (PathView {
            kind: PrefixKind::Share,
            names: seq![server, share],
            rooted: true,
            components: seq![name],
        }),
{
    let path = seq![separator, separator] + server + seq![separator] + share + seq![separator]
        + name;
    let server_end: int = 2int + server.len();
    let share_end: int = server_end + 1 + share.len();
    assert(path.subrange(0, 4)[2] == server[0]);
    assert(path[2] == server[0]);
    assert forall|i: int| 2 <= i < server_end implies !is_separator(
        #[trigger] path[i],
        true,
        false,
    ) by {
        assert(path[i] == server[i - 2]);
        assert(server.contains(server[i - 2]));
    }
    assert(path[server_end] == separator);
    first_separator_is_found(path, 2, server_end, false);
    assert forall|i: int| server_end + 1 <= i < share_end implies !is_separator(
        #[trigger] path[i],
        true,
        false,
    ) by {
        assert(path[i] == share[i - server_end - 1]);
        assert(share.contains(share[i - server_end - 1]));
    }
    assert(path[share_end] == separator);
    first_separator_is_found(path, server_end + 1, share_end, false);
    assert(path.subrange(2, server_end) =~= server);
    assert(path.subrange(server_end + 1, share_end) =~= share);
    let body = path.skip(share_end);
    assert(body =~= seq![separator] + name);
    assert(body.drop_first() =~= name);
    assert forall|i: int| 0 <= i < name.len() implies !is_separator(
        #[trigger] name[i],
        true,
        false,
    ) by {
        assert(name.contains(name[i]));
    }
    pieces_of_a_name(name, true);
    assert(seq![name].drop_last() =~= Seq::<Seq<u8>>::empty());
    reveal_with_fuel(kept_pieces, 2);
    assert(kept_pieces(seq![name], false, false) =~= seq![name]);
}

} // verus!
