//! Paths, their segments and the generic arguments written on them.

use vstd::prelude::*;
use crate::text::join;
use crate::text::joined;
use crate::text::text_is;

verus! {

/// One argument between the angle brackets of a path segment.
#[derive(Debug, PartialEq, Eq)]
pub enum GenericArgument {
    /// A lifetime, named without its apostrophe.
    Lifetime(String),
    /// Any other argument, kept as token text.
    Other(String),
}

#[verifier::ext_equal]
pub enum GenericArgumentView {
    Lifetime(Seq<char>),
    Other(Seq<char>),
}

impl DeepView for GenericArgument {
    type V = GenericArgumentView;

    open spec fn deep_view(&self) -> GenericArgumentView {
        match self {
            GenericArgument::Lifetime(l) => GenericArgumentView::Lifetime(l@),
            GenericArgument::Other(t) => GenericArgumentView::Other(t@),
        }
    }
}

impl View for GenericArgument {
    type V = GenericArgumentView;

    open spec fn view(&self) -> GenericArgumentView {
        self.deep_view()
    }
}

impl Clone for GenericArgument {
    fn clone(&self) -> (r: Self)
        ensures
            r@ == self@,
    {
        match self {
            GenericArgument::Lifetime(l) => GenericArgument::Lifetime(l.clone()),
            GenericArgument::Other(t) => GenericArgument::Other(t.clone()),
        }
    }
}

impl GenericArgument {
    /// Structural equality.
    pub fn matches(&self, other: &GenericArgument) -> (r: bool)
        ensures
            r == (self@ == other@),
    {
        match (self, other) {
            (GenericArgument::Lifetime(a), GenericArgument::Lifetime(b)) => *a == *b,
            (GenericArgument::Other(a), GenericArgument::Other(b)) => *a == *b,
            _ => false,
        }
    }
}

/// What follows the identifier of a path segment.
#[derive(Debug, PartialEq, Eq)]
pub enum PathArguments {
    /// Nothing follows the identifier.
    Empty,
    /// `<'a, T>`
    AngleBracketed(Vec<GenericArgument>),
    /// `(A, B) -> C`, kept as token text.
    Parenthesized(String),
}

#[verifier::ext_equal]
pub enum PathArgumentsView {
    Empty,
    AngleBracketed(Seq<GenericArgumentView>),
    Parenthesized(Seq<char>),
}

impl DeepView for PathArguments {
    type V = PathArgumentsView;

    open spec fn deep_view(&self) -> PathArgumentsView {
        match self {
            PathArguments::Empty => PathArgumentsView::Empty,
            PathArguments::AngleBracketed(args) => PathArgumentsView::AngleBracketed(
                args.deep_view(),
            ),
            PathArguments::Parenthesized(t) => PathArgumentsView::Parenthesized(t@),
        }
    }
}

impl View for PathArguments {
    type V = PathArgumentsView;

    open spec fn view(&self) -> PathArgumentsView {
        self.deep_view()
    }
}

impl Clone for PathArguments {
    fn clone(&self) -> (r: Self)
        ensures
            r@ == self@,
    {
        match self {
            PathArguments::Empty => PathArguments::Empty,
            PathArguments::AngleBracketed(args) => {
                let copy = args.clone();
                PathArguments::AngleBracketed(copy)
            },
            PathArguments::Parenthesized(t) => PathArguments::Parenthesized(t.clone()),
        }
    }
}

impl PathArguments {
    /// Structural equality.
    pub fn matches(&self, other: &PathArguments) -> (r: bool)
        ensures
            r == (self@ == other@),
    {
        match (self, other) {
            (PathArguments::Empty, PathArguments::Empty) => true,
            (PathArguments::AngleBracketed(a), PathArguments::AngleBracketed(b)) => {
                assert(a.deep_view().len() == a.len() && b.deep_view().len() == b.len());
                if a.len() != b.len() {
                    return false;
                }
                let mut i: usize = 0;
                while i < a.len()
                    invariant
                        i <= a.len(),
                        a.len() == b.len(),
                        self@ == PathArgumentsView::AngleBracketed(a.deep_view()),
                        other@ == PathArgumentsView::AngleBracketed(b.deep_view()),
                        forall|j: int| 0 <= j < i ==> a@[j]@ == b@[j]@,
                    decreases a.len() - i,
                {
                    if !a[i].matches(&b[i]) {
                        assert(a.deep_view()[i as int] != b.deep_view()[i as int]);
                        return false;
                    }
                    i += 1;
                }
                assert(a.deep_view() =~= b.deep_view());
                true
            },
            (PathArguments::Parenthesized(a), PathArguments::Parenthesized(b)) => *a == *b,
            _ => false,
        }
    }
}

/// One segment of a path: an identifier and its arguments.
#[derive(Debug, PartialEq, Eq)]
pub struct PathSegment {
    pub ident: String,
    pub arguments: PathArguments,
}

#[verifier::ext_equal]
pub struct PathSegmentView {
    pub ident: Seq<char>,
    pub arguments: PathArgumentsView,
}

impl DeepView for PathSegment {
    type V = PathSegmentView;

    open spec fn deep_view(&self) -> PathSegmentView {
        PathSegmentView { ident: self.ident@, arguments: self.arguments@ }
    }
}

impl View for PathSegment {
    type V = PathSegmentView;

    open spec fn view(&self) -> PathSegmentView {
        self.deep_view()
    }
}

impl Clone for PathSegment {
    fn clone(&self) -> (r: Self)
        ensures
            r@ == self@,
    {
        PathSegment { ident: self.ident.clone(), arguments: self.arguments.clone() }
    }
}

impl PathSegment {
    /// A segment without arguments.
    pub fn plain(ident: &str) -> (r: PathSegment)
        ensures
            r@ == plain_segment(ident@),
    {
        PathSegment { ident: String::from_str(ident), arguments: PathArguments::Empty }
    }

    /// Structural equality.
    pub fn matches(&self, other: &PathSegment) -> (r: bool)
        ensures
            r == (self@ == other@),
    {
        self.ident == other.ident && self.arguments.matches(&other.arguments)
    }
}

/// A path such as `::a::b::C<'x>`.
#[derive(Debug, PartialEq, Eq)]
pub struct Path {
    pub leading_colon: bool,
    pub segments: Vec<PathSegment>,
}

#[verifier::ext_equal]
pub struct PathView {
    pub leading_colon: bool,
    pub segments: Seq<PathSegmentView>,
}

impl DeepView for Path {
    type V = PathView;

    open spec fn deep_view(&self) -> PathView {
        PathView { leading_colon: self.leading_colon, segments: self.segments.deep_view() }
    }
}

impl View for Path {
    type V = PathView;

    open spec fn view(&self) -> PathView {
        self.deep_view()
    }
}

impl Clone for Path {
    fn clone(&self) -> (r: Self)
        ensures
            r@ == self@,
    {
        let segments = self.segments.clone();
        Path { leading_colon: self.leading_colon, segments }
    }
}

/// The segment `ident` with no arguments.
pub open spec fn plain_segment(ident: Seq<char>) -> PathSegmentView {
    PathSegmentView { ident, arguments: PathArgumentsView::Empty }
}

/// The path that consists of the single identifier `ident`.
pub open spec fn ident_path(ident: Seq<char>) -> PathView {
    PathView { leading_colon: false, segments: seq![plain_segment(ident)] }
}

/// `path` with the arguments of every segment removed.
pub open spec fn canonical_path(path: PathView) -> PathView {
    PathView {
        leading_colon: path.leading_colon,
        segments: path.segments.map_values(|s: PathSegmentView| plain_segment(s.ident)),
    }
}

/// Whether `arg` is the lifetime `name`.
pub open spec fn is_lifetime_argument(arg: GenericArgumentView, name: Seq<char>) -> bool {
    arg == GenericArgumentView::Lifetime(name)
}

/// Whether `segment` carries the lifetime `name` between angle brackets.
pub open spec fn segment_has_lifetime(segment: PathSegmentView, name: Seq<char>) -> bool {
    segment.arguments matches PathArgumentsView::AngleBracketed(args) && exists|j: int|
        0 <= j < args.len() && is_lifetime_argument(#[trigger] args[j], name)
}

/// Whether some segment of `path` carries the lifetime `name`.
pub open spec fn path_has_lifetime(path: PathView, name: Seq<char>) -> bool {
    exists|i: int|
        0 <= i < path.segments.len() && segment_has_lifetime(#[trigger] path.segments[i], name)
}

/// Whether some segment of `path` has arguments between angle brackets.
pub open spec fn path_is_parametrized(path: PathView) -> bool {
    exists|i: int|
        0 <= i < path.segments.len()
            && (#[trigger] path.segments[i]).arguments is AngleBracketed
}

/// The identifiers of the segments of `path`, in order.
pub open spec fn path_idents(path: PathView) -> Seq<Seq<char>> {
    path.segments.map_values(|s: PathSegmentView| s.ident)
}

/// The name under which the type at `path` is reported and called: its
/// identifiers with `::` between them, after `::` if the path starts so.
pub open spec fn path_name(path: PathView) -> Seq<char> {
    if path.leading_colon {
        "::"@ + joined(path_idents(path), "::"@)
    } else {
        joined(path_idents(path), "::"@)
    }
}

impl PathSegment {
    /// Whether the lifetime `name` stands between the angle brackets.
    pub fn has_lifetime(&self, name: &str) -> (r: bool)
        ensures
            r == segment_has_lifetime(self@, name@),
    {
        match &self.arguments {
            PathArguments::AngleBracketed(args) => {
                let mut j: usize = 0;
                while j < args.len()
                    invariant
                        j <= args.len(),
                        self@.arguments == PathArgumentsView::AngleBracketed(args.deep_view()),
                        forall|k: int|
                            0 <= k < j ==> !is_lifetime_argument(
                                #[trigger] args.deep_view()[k],
                                name@,
                            ),
                    decreases args.len() - j,
                {
                    let found = match &args[j] {
                        GenericArgument::Lifetime(l) => text_is(l, name),
                        GenericArgument::Other(_) => false,
                    };
                    if found {
                        proof {
                            let seen = self@.arguments->AngleBracketed_0;
                            assert(is_lifetime_argument(seen[j as int], name@));
                        }
                        return true;
                    }
                    j += 1;
                }
                false
            },
            _ => false,
        }
    }
}

impl Path {
    /// The path made of the single identifier `ident`.
    pub fn from_ident(ident: &str) -> (r: Path)
        ensures
            r@ == ident_path(ident@),
    {
        let mut segments: Vec<PathSegment> = Vec::new();
        segments.push(PathSegment::plain(ident));
        Path { leading_colon: false, segments }
    }

    /// Structural equality.
    pub fn matches(&self, other: &Path) -> (r: bool)
        ensures
            r == (self@ == other@),
    {
        let a = &self.segments;
        let b = &other.segments;
        assert(a.deep_view().len() == a.len() && b.deep_view().len() == b.len());
        if self.leading_colon != other.leading_colon || a.len() != b.len() {
            return false;
        }
        let mut i: usize = 0;
        while i < a.len()
            invariant
                i <= a.len(),
                a.len() == b.len(),
                self@.segments == a.deep_view(),
                other@.segments == b.deep_view(),
                self.leading_colon == other.leading_colon,
                forall|j: int| 0 <= j < i ==> a@[j]@ == b@[j]@,
            decreases a.len() - i,
        {
            if !a[i].matches(&b[i]) {
                assert(a.deep_view()[i as int] != b.deep_view()[i as int]);
                return false;
            }
            i += 1;
        }
        assert(a.deep_view() =~= b.deep_view());
        true
    }

    /// Whether the path is the bare identifier `name`.
    pub fn is_ident(&self, name: &str) -> (r: bool)
        ensures
            r == (self@ == ident_path(name@)),
    {
        assert(self.segments.deep_view().len() == self.segments.len());
        if self.leading_colon || self.segments.len() != 1 {
            return false;
        }
        let first = &self.segments[0];
        assert(self.segments.deep_view()[0] == first@);
        let plain = match &first.arguments {
            PathArguments::Empty => true,
            _ => false,
        };
        if plain && text_is(&first.ident, name) {
            assert(self@.segments =~= ident_path(name@).segments);
            true
        } else {
            false
        }
    }

    /// Whether the path is a bare identifier.
    pub fn is_bare_ident(&self) -> (r: bool)
        ensures
            r == (exists|name: Seq<char>| self@ == ident_path(name)),
    {
        assert(self.segments.deep_view().len() == self.segments.len());
        if self.leading_colon || self.segments.len() != 1 {
            return false;
        }
        let first = &self.segments[0];
        assert(self.segments.deep_view()[0] == first@);
        match &first.arguments {
            PathArguments::Empty => {
                assert(self@.segments =~= ident_path(first.ident@).segments);
                true
            },
            _ => false,
        }
    }

    /// The path without the arguments of its segments.
    pub fn canonical(&self) -> (r: Path)
        ensures
            r@ == canonical_path(self@),
    {
        let mut segments: Vec<PathSegment> = Vec::new();
        let mut i: usize = 0;
        while i < self.segments.len()
            invariant
                i <= self.segments.len(),
                segments.len() == i,
                forall|j: int|
                    0 <= j < i ==> segments@[j]@ == plain_segment(self.segments@[j].ident@),
            decreases self.segments.len() - i,
        {
            segments.push(
                PathSegment {
                    ident: self.segments[i].ident.clone(),
                    arguments: PathArguments::Empty,
                },
            );
            i += 1;
        }
        Path { leading_colon: self.leading_colon, segments }
    }

    /// Whether some segment carries the lifetime `name`.
    pub fn has_lifetime(&self, name: &str) -> (r: bool)
        ensures
            r == path_has_lifetime(self@, name@),
    {
        let mut i: usize = 0;
        while i < self.segments.len()
            invariant
                i <= self.segments.len(),
                forall|k: int|
                    0 <= k < i ==> !segment_has_lifetime(
                        #[trigger] self.segments.deep_view()[k],
                        name@,
                    ),
            decreases self.segments.len() - i,
        {
            if self.segments[i].has_lifetime(name) {
                assert(segment_has_lifetime(self@.segments[i as int], name@));
                return true;
            }
            i += 1;
        }
        false
    }

    /// Whether some segment has arguments between angle brackets.
    pub fn is_parametrized(&self) -> (r: bool)
        ensures
            r == path_is_parametrized(self@),
    {
        let mut i: usize = 0;
        while i < self.segments.len()
            invariant
                i <= self.segments.len(),
                forall|k: int|
                    0 <= k < i ==> !((#[trigger] self.segments.deep_view()[k]).arguments
                        is AngleBracketed),
            decreases self.segments.len() - i,
        {
            let bracketed = match &self.segments[i].arguments {
                PathArguments::AngleBracketed(_) => true,
                _ => false,
            };
            if bracketed {
                assert(self@.segments[i as int].arguments is AngleBracketed);
                return true;
            }
            i += 1;
        }
        false
    }

    /// The identifiers of the segments, in order.
    pub fn idents(&self) -> (r: Vec<String>)
        ensures
            r.deep_view() == path_idents(self@),
    {
        let mut out: Vec<String> = Vec::new();
        let mut i: usize = 0;
        while i < self.segments.len()
            invariant
                i <= self.segments.len(),
                out.len() == i,
                forall|j: int| 0 <= j < i ==> out@[j]@ == self.segments@[j].ident@,
            decreases self.segments.len() - i,
        {
            out.push(self.segments[i].ident.clone());
            i += 1;
        }
        out
    }

    /// The name under which the type at this path is reported and called.
    pub fn name(&self) -> (r: String)
        ensures
            r@ == path_name(self@),
    {
        let idents = self.idents();
        let body = join(&idents, "::");
        if self.leading_colon {
            String::from_str("::").concat(body.as_str())
        } else {
            body
        }
    }
}

} // verus!
