//! Guest paths: normalized absolute paths inside the sandbox.
//!
//! A guest path is held as its normal components. It is parsed from the
//! bytes of an absolute path the way a Unix path is split into components:
//! `/` separates components, empty components and `.` are dropped and `..`
//! is rejected.

use crate::errors::{Error, GuestPath};
use crate::meowix::errors::CStrBufferTooSmall;
use crate::meowix::util::{PATH_COMPONENT_MAX, PATH_MAX};
use crate::order::{bytes_equal, bytes_less, bytes_lt, bytes_order, is_prefix, lex_lt, lemma_lex_skip};
use vstd::prelude::*;

verus! {

/// The pieces of a byte string between its `/` separators, empty pieces
/// included.
pub open spec fn split_slash(path: Seq<u8>) -> Seq<Seq<u8>>
    decreases path.len(),
{
    if path.len() == 0 {
        seq![Seq::empty()]
    } else {
        let pieces = split_slash(path.drop_last());
        if path.last() == 47u8 {
            pieces.push(Seq::empty())
        } else {
            pieces.update(pieces.len() - 1, pieces.last().push(path.last()))
        }
    }
}

/// Whether a piece is `..`.
pub open spec fn is_dot_dot(piece: Seq<u8>) -> bool {
    piece == seq![46u8, 46u8]
}

/// Whether a piece names a file: it is neither empty, nor `.`, nor `..`.
pub open spec fn is_normal_component(piece: Seq<u8>) -> bool {
    piece.len() > 0 && piece != seq![46u8] && !is_dot_dot(piece)
}

/// The pieces that name files, in order.
pub open spec fn normal_components(pieces: Seq<Seq<u8>>) -> Seq<Seq<u8>>
    decreases pieces.len(),
{
    if pieces.len() == 0 {
        Seq::empty()
    } else if is_normal_component(pieces.last()) {
        normal_components(pieces.drop_last()).push(pieces.last())
    } else {
        normal_components(pieces.drop_last())
    }
}

/// Whether one of the pieces is `..`.
pub open spec fn mentions_parent(pieces: Seq<Seq<u8>>) -> bool
    decreases pieces.len(),
{
    pieces.len() > 0 && (mentions_parent(pieces.drop_last()) || is_dot_dot(pieces.last()))
}

/// The absolute path of a list of components: each preceded by `/`.
pub open spec fn join_components(components: Seq<Seq<u8>>) -> Seq<u8>
    decreases components.len(),
{
    if components.len() == 0 {
        Seq::empty()
    } else {
        join_components(components.drop_last()) + seq![47u8] + components.last()
    }
}

/// The parent directory of a path: `/` for a path of one component.
pub open spec fn parent_dir_text(components: Seq<Seq<u8>>) -> Seq<u8> {
    if components.len() <= 1 {
        seq![47u8]
    } else {
        join_components(components.drop_last())
    }
}

/// Whether bytes fit a C string buffer of `capacity` bytes: shorter than it,
/// to leave room for the terminator, and free of nul bytes.
pub open spec fn fits_c_str(bytes: Seq<u8>, capacity: int) -> bool {
    bytes.len() < capacity && !bytes.contains(0u8)
}

/// How a byte string parses as a guest path: its normal components, or the
/// error. A path must be absolute, must not mention `..`, must name a file
/// below the root, and its parent directory and file name must fit C string
/// buffers of `PATH_MAX` and `PATH_COMPONENT_MAX` bytes.
pub open spec fn parse_guest(path: Seq<u8>) -> Result<Seq<Seq<u8>>, GuestPath> {
    let components = normal_components(split_slash(path));
    if path.len() == 0 || path[0] != 47u8 {
        Err(GuestPath::PathNotAbsolute)
    } else if mentions_parent(split_slash(path)) {
        Err(GuestPath::PathContainsParent)
    } else if components.len() == 0 {
        Err(GuestPath::NoParentDirectory)
    } else if !fits_c_str(parent_dir_text(components), PATH_MAX as int) {
        Err(GuestPath::Invalid)
    } else if !fits_c_str(components.last(), PATH_COMPONENT_MAX as int) {
        Err(GuestPath::Invalid)
    } else {
        Ok(components)
    }
}

/// Whether a list of components is that of a guest path: at least one
/// component, each naming a file and free of `/`, with a parent directory
/// and a file name that fit their C string buffers.
pub open spec fn valid_components(components: Seq<Seq<u8>>) -> bool {
    &&& components.len() >= 1
    &&& forall|i: int|
        0 <= i < components.len() ==> is_normal_component(#[trigger] components[i])
            && !components[i].contains(47u8)
    &&& fits_c_str(parent_dir_text(components), PATH_MAX as int)
    &&& fits_c_str(components.last(), PATH_COMPONENT_MAX as int)
}

/// The order of guest paths: component by component, each compared byte by
/// byte, a path coming before the paths below it.
pub open spec fn path_lt(a: Seq<Seq<u8>>, b: Seq<Seq<u8>>) -> bool {
    lex_lt(a, b, bytes_order())
}

/// A split always has a piece.
pub proof fn lemma_split_nonempty(path: Seq<u8>)
    ensures
        split_slash(path).len() >= 1,
    decreases path.len(),
{
    if path.len() > 0 {
        lemma_split_nonempty(path.drop_last());
    }
}

/// No piece of a split holds a `/`.
pub proof fn lemma_split_no_slash(path: Seq<u8>)
    ensures
        forall|i: int|
            0 <= i < split_slash(path).len() ==> !(#[trigger] split_slash(path)[i]).contains(47u8),
    decreases path.len(),
{
    if path.len() > 0 {
        lemma_split_no_slash(path.drop_last());
        lemma_split_nonempty(path.drop_last());
        let pieces = split_slash(path.drop_last());
        if path.last() != 47u8 {
            assert forall|i: int| 0 <= i < split_slash(path).len() implies !(
            #[trigger] split_slash(path)[i]).contains(47u8) by {
                if i == pieces.len() - 1 {
                    let extended = pieces.last().push(path.last());
                    if extended.contains(47u8) {
                        let k = choose|k: int| 0 <= k < extended.len() && extended[k] == 47u8;
                        if k < pieces.last().len() {
                            assert(pieces.last().contains(47u8));
                        }
                    }
                }
            }
        } else {
            assert forall|i: int| 0 <= i < split_slash(path).len() implies !(
            #[trigger] split_slash(path)[i]).contains(47u8) by {
                if i == pieces.len() {
                    assert(split_slash(path)[i] =~= Seq::<u8>::empty());
                }
            }
        }
    }
}

/// The components kept from pieces are pieces that name files.
pub proof fn lemma_normal_components(pieces: Seq<Seq<u8>>)
    ensures
        forall|k: int|
            0 <= k < normal_components(pieces).len() ==> is_normal_component(
                #[trigger] normal_components(pieces)[k],
            ) && exists|i: int| 0 <= i < pieces.len() && pieces[i] == normal_components(pieces)[k],
    decreases pieces.len(),
{
    if pieces.len() > 0 {
        let rest = pieces.drop_last();
        lemma_normal_components(rest);
        assert forall|k: int| 0 <= k < normal_components(pieces).len() implies is_normal_component(
            #[trigger] normal_components(pieces)[k],
        ) && exists|i: int| 0 <= i < pieces.len() && pieces[i] == normal_components(pieces)[k] by {
            if k < normal_components(rest).len() {
                let i = choose|i: int| 0 <= i < rest.len() && rest[i] == normal_components(rest)[k];
                assert(pieces[i] == rest[i]);
            } else {
                assert(pieces[pieces.len() - 1] == pieces.last());
            }
        }
    }
}

/// A parsed path has valid components.
pub proof fn lemma_parse_valid(path: Seq<u8>)
    requires
        parse_guest(path) is Ok,
    ensures
        valid_components(parse_guest(path)->Ok_0),
{
    let pieces = split_slash(path);
    let components = normal_components(pieces);
    lemma_split_no_slash(path);
    lemma_normal_components(pieces);
    assert forall|i: int| 0 <= i < components.len() implies is_normal_component(
        #[trigger] components[i],
    ) && !components[i].contains(47u8) by {
        let j = choose|j: int| 0 <= j < pieces.len() && pieces[j] == components[i];
        assert(!pieces[j].contains(47u8));
    }
}

/// A normalized absolute path inside the sandbox.
#[derive(Debug)]
pub struct Guest {
    /// Normal components of the path, root first.
    components: Vec<Vec<u8>>,
}

/// The views of a list of byte strings.
pub open spec fn components_view(components: Seq<Vec<u8>>) -> Seq<Seq<u8>> {
    components.map_values(|c: Vec<u8>| c@)
}

impl View for Guest {
    type V = Seq<Seq<u8>>;

    closed spec fn view(&self) -> Seq<Seq<u8>> {
        components_view(self.components@)
    }
}

/// Whether a byte string is `..`.
fn is_dot_dot_piece(piece: &Vec<u8>) -> (r: bool)
    ensures
        r == is_dot_dot(piece@),
{
    let r = piece.len() == 2 && piece[0] == 46u8 && piece[1] == 46u8;
    if r {
        assert(piece@ =~= seq![46u8, 46u8]);
    }
    r
}

/// Whether a byte string names a file.
fn is_normal_piece(piece: &Vec<u8>) -> (r: bool)
    ensures
        r == is_normal_component(piece@),
{
    if piece.len() == 0 {
        return false;
    }
    if piece.len() == 1 && piece[0] == 46u8 {
        assert(piece@ =~= seq![46u8]);
        return false;
    }
    if piece.len() == 1 {
        assert(piece@ != seq![46u8]) by {
            assert(piece@[0] != seq![46u8][0]);
        }
    }
    !is_dot_dot_piece(piece)
}

/// Whether a byte string holds a nul byte.
fn contains_nul(bytes: &Vec<u8>) -> (r: bool)
    ensures
        r == bytes@.contains(0u8),
{
    let mut i: usize = 0;
    while i < bytes.len()
        invariant
            i <= bytes@.len(),
            forall|j: int| 0 <= j < i ==> bytes@[j] != 0u8,
        decreases bytes@.len() - i,
    {
        if bytes[i] == 0u8 {
            return true;
        }
        i = i + 1;
    }
    false
}

/// Joins components into a path: each preceded by `/`.
fn join(components: &Vec<Vec<u8>>, count: usize) -> (path: Vec<u8>)
    requires
        count <= components@.len(),
    ensures
        path@ == join_components(components_view(components@).subrange(0, count as int)),
{
    let mut path: Vec<u8> = Vec::new();
    let mut k: usize = 0;
    while k < count
        invariant
            k <= count <= components@.len(),
            path@ == join_components(components_view(components@).subrange(0, k as int)),
        decreases count - k,
    {
        path.push(47u8);
        crate::text::append_bytes(&mut path, components[k].as_slice());
        proof {
            let view = components_view(components@);
            assert(view.subrange(0, k + 1).drop_last() =~= view.subrange(0, k as int));
            assert(view[k as int] == components@[k as int]@);
        }
        k = k + 1;
    }
    path
}

/// Splits and normalizes the bytes of a path: the normal components, and
/// whether a piece was `..`.
fn scan_path(path: &[u8]) -> (r: (Vec<Vec<u8>>, bool))
    ensures
        components_view(r.0@) == normal_components(split_slash(path@)),
        r.1 == mentions_parent(split_slash(path@)),
{
    let mut components: Vec<Vec<u8>> = Vec::new();
    let mut current: Vec<u8> = Vec::new();
    let mut saw_parent = false;
    let mut i: usize = 0;
    proof {
        assert(path@.subrange(0, 0) =~= Seq::<u8>::empty());
    }
    while i < path.len()
        invariant
            i <= path@.len(),
            split_slash(path@.subrange(0, i as int)).len() >= 1,
            current@ == split_slash(path@.subrange(0, i as int)).last(),
            components_view(components@) == normal_components(
                split_slash(path@.subrange(0, i as int)).drop_last(),
            ),
            saw_parent == mentions_parent(split_slash(path@.subrange(0, i as int)).drop_last()),
        decreases path@.len() - i,
    {
        let b = path[i];
        let ghost prefix = path@.subrange(0, i as int);
        let ghost next = path@.subrange(0, i + 1);
        proof {
            assert(next.drop_last() =~= prefix);
            assert(next.last() == b);
            lemma_split_nonempty(prefix);
        }
        if b == 47u8 {
            let ghost pieces = split_slash(prefix);
            proof {
                assert(split_slash(next) == pieces.push(Seq::empty()));
                assert(split_slash(next).drop_last() =~= pieces);
                assert(pieces.drop_last().push(pieces.last()) =~= pieces);
            }
            if is_dot_dot_piece(&current) {
                saw_parent = true;
            }
            if is_normal_piece(&current) {
                let piece = current;
                let ghost before = components_view(components@);
                components.push(piece);
                assert(components_view(components@) =~= before.push(pieces.last()));
            }
            current = Vec::new();
            proof {
                assert(current@ =~= Seq::<u8>::empty());
            }
        } else {
            let ghost pieces = split_slash(prefix);
            current.push(b);
            proof {
                assert(split_slash(next).drop_last() =~= pieces.drop_last());
            }
        }
        i = i + 1;
    }
    let ghost pieces = split_slash(path@);
    proof {
        assert(path@.subrange(0, path@.len() as int) =~= path@);
        lemma_split_nonempty(path@);
        assert(pieces.drop_last().push(pieces.last()) =~= pieces);
    }
    if is_dot_dot_piece(&current) {
        saw_parent = true;
    }
    if is_normal_piece(&current) {
        let ghost before = components_view(components@);
        components.push(current);
        assert(components_view(components@) =~= before.push(pieces.last()));
    }
    (components, saw_parent)
}

impl Guest {
    #[verifier::type_invariant]
    spec fn well_formed(self) -> bool {
        valid_components(components_view(self.components@))
    }

    /// Parses a guest path from the bytes of a path.
    ///
    /// # Notes
    ///
    /// This does not attempt to resolve potential symlinks within the
    /// sandbox.
    ///
    /// # Errors
    ///
    /// Fails with the error of [`parse_guest`] on the inputs it rejects.
    pub fn new(path: &[u8]) -> (r: Result<Guest, Error>)
        ensures
            match parse_guest(path@) {
                Ok(components) => r matches Ok(g) && g@ == components,
                Err(e) => r == Err::<Guest, Error>(Error::GuestPath(e)),
            },
    {
        if path.len() == 0 || path[0] != 47u8 {
            return Err(Error::GuestPath(GuestPath::PathNotAbsolute));
        }
        let (components, saw_parent) = scan_path(path);
        if saw_parent {
            return Err(Error::GuestPath(GuestPath::PathContainsParent));
        }
        let count = components.len();
        if count == 0 {
            return Err(Error::GuestPath(GuestPath::NoParentDirectory));
        }
        let parent = if count == 1 {
            vec![47u8]
        } else {
            join(&components, count - 1)
        };
        proof {
            let view = components_view(components@);
            assert(view.subrange(0, count - 1) =~= view.drop_last());
            if count == 1 {
                assert(parent@ =~= seq![47u8]);
            }
        }
        if parent.len() >= PATH_MAX || contains_nul(&parent) {
            return Err(Error::GuestPath(GuestPath::Invalid));
        }
        let last = &components[count - 1];
        assert(components_view(components@).last() == last@);
        if last.len() >= PATH_COMPONENT_MAX || contains_nul(last) {
            return Err(Error::GuestPath(GuestPath::Invalid));
        }
        proof {
            lemma_parse_valid(path@);
        }
        Ok(Guest { components })
    }

    /// The number of components.
    pub fn len(&self) -> (n: usize)
        ensures
            n == self@.len(),
    {
        self.components.len()
    }

    /// The component at `index`, root first.
    pub fn component(&self, index: usize) -> (c: Vec<u8>)
        requires
            index < self@.len(),
        ensures
            c@ == self@[index as int],
    {
        vstd::slice::slice_to_vec(self.components[index].as_slice())
    }

    /// The parent directory of this guest path.
    pub fn parent_dir(&self) -> (p: Vec<u8>)
        ensures
            p@ == parent_dir_text(self@),
    {
        proof {
            use_type_invariant(self);
        }
        let count = self.components.len();
        let p = if count == 1 {
            vec![47u8]
        } else {
            join(&self.components, count - 1)
        };
        proof {
            let view = components_view(self.components@);
            assert(view.subrange(0, count - 1) =~= view.drop_last());
            if count == 1 {
                assert(p@ =~= seq![47u8]);
            }
        }
        p
    }

    /// The file name of this guest path.
    pub fn file_name(&self) -> (name: Vec<u8>)
        ensures
            name@ == self@.last(),
    {
        proof {
            use_type_invariant(self);
        }
        let count = self.components.len();
        vstd::slice::slice_to_vec(self.components[count - 1].as_slice())
    }

    /// The path as one nul-terminated byte string for a buffer of `capacity`
    /// bytes: the parent directory, `/`, the file name and the terminator.
    ///
    /// # Errors
    ///
    /// Fails with [`CStrBufferTooSmall`] unless the parent directory, the
    /// separator and the file name together are shorter than `capacity`.
    pub fn c_path(&self, capacity: usize) -> (r: Result<Vec<u8>, CStrBufferTooSmall>)
        ensures
            r is Ok <==> parent_dir_text(self@).len() + self@.last().len() + 1 < capacity,
            r matches Ok(bytes) ==> bytes@ == parent_dir_text(self@) + seq![47u8] + self@.last()
                + seq![0u8],
    {
        let mut bytes = self.parent_dir();
        let name = self.file_name();
        if bytes.len() >= capacity || name.len() >= capacity - bytes.len() || bytes.len()
            + name.len() + 1 >= capacity {
            return Err(CStrBufferTooSmall);
        }
        bytes.push(47u8);
        crate::text::append_bytes(&mut bytes, name.as_slice());
        bytes.push(0u8);
        Ok(bytes)
    }

    /// Check if one guest path starts with another, component by component.
    pub fn starts_with(&self, other: &Guest) -> (r: bool)
        ensures
            r == is_prefix(other@, self@),
    {
        let n = other.components.len();
        if n > self.components.len() {
            return false;
        }
        let mut k: usize = 0;
        while k < n
            invariant
                n == other@.len(),
                n <= self@.len(),
                k <= n,
                forall|j: int| 0 <= j < k ==> self@[j] == other@[j],
            decreases n - k,
        {
            let equal = bytes_equal(self.components[k].as_slice(), other.components[k].as_slice());
            assert(self@[k as int] == self.components@[k as int]@);
            assert(other@[k as int] == other.components@[k as int]@);
            if !equal {
                assert(self@.subrange(0, n as int)[k as int] != other@[k as int]);
                return false;
            }
            k = k + 1;
        }
        assert(self@.subrange(0, n as int) =~= other@);
        true
    }

    /// Whether this path is the same as another.
    pub fn same_path(&self, other: &Guest) -> (r: bool)
        ensures
            r == (self@ == other@),
    {
        assert(self@.len() == self.components@.len());
        assert(other@.len() == other.components@.len());
        if self.components.len() != other.components.len() {
            return false;
        }
        let r = self.starts_with(other);
        proof {
            if r {
                assert(self@ =~= self@.subrange(0, other@.len() as int));
            } else if self@ == other@ {
                assert(self@.subrange(0, other@.len() as int) =~= other@);
            }
        }
        r
    }

    /// Whether this path comes before another in the order of guest paths.
    pub fn is_before(&self, other: &Guest) -> (r: bool)
        ensures
            r == path_lt(self@, other@),
    {
        let mut k: usize = 0;
        while k < self.components.len() && k < other.components.len()
            invariant
                k <= self@.len(),
                k <= other@.len(),
                self@.subrange(0, k as int) == other@.subrange(0, k as int),
            decreases self@.len() - k,
        {
            assert(self@[k as int] == self.components@[k as int]@);
            assert(other@[k as int] == other.components@[k as int]@);
            let a = self.components[k].as_slice();
            let b = other.components[k].as_slice();
            if !bytes_equal(a, b) {
                let r = bytes_less(a, b);
                proof {
                    lemma_lex_skip(self@, other@, k as int, bytes_order());
                    let sa = self@.subrange(k as int, self@.len() as int);
                    let sb = other@.subrange(k as int, other@.len() as int);
                    assert(sa[0] == self@[k as int]);
                    assert(sb[0] == other@[k as int]);
                    assert(sa[0] != sb[0]);
                    assert(lex_lt(sa, sb, bytes_order()) == (bytes_order())(sa[0], sb[0]));
                    assert(a@ == self@[k as int]);
                    assert(b@ == other@[k as int]);
                    crate::order::lemma_bytes_order_apply(a@, b@);
                }
                return r;
            }
            k = k + 1;
            assert(self@.subrange(0, k as int) =~= other@.subrange(0, k as int));
        }
        proof {
            lemma_lex_skip(self@, other@, k as int, bytes_order());
        }
        k == self.components.len() && k < other.components.len()
    }

    /// An independent copy of this path.
    pub fn duplicate(&self) -> (r: Guest)
        ensures
            r@ == self@,
    {
        proof {
            use_type_invariant(self);
        }
        let mut components: Vec<Vec<u8>> = Vec::new();
        let mut k: usize = 0;
        while k < self.components.len()
            invariant
                k <= self@.len(),
                self@ == components_view(self.components@),
                components_view(components@) == self@.subrange(0, k as int),
            decreases self@.len() - k,
        {
            let c = vstd::slice::slice_to_vec(self.components[k].as_slice());
            assert(self@[k as int] == self.components@[k as int]@);
            assert(c@ == self@[k as int]);
            let ghost before = components_view(components@);
            components.push(c);
            assert(components_view(components@) =~= before.push(self@[k as int]));
            assert(self@.subrange(0, k + 1) =~= self@.subrange(0, k as int).push(self@[k as int]));
            k = k + 1;
        }
        assert(components_view(components@) =~= self@);
        Guest { components }
    }
}

} // verus!
