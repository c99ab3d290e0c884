//! Types as they are written in signatures.

use vstd::prelude::*;
use crate::syntax::path::Path;
use crate::syntax::path::PathView;

verus! {

/// A type as written in a signature.
#[derive(Debug, PartialEq, Eq)]
pub enum Type {
    /// A plain type path: `a::B<'x>`.
    Path(Path),
    /// A qualified path `<ty as a::Tr>::Name`; the first `position` segments
    /// of `path` stand between the angle brackets, after `as`.
    Qualified { ty: Box<Type>, position: usize, path: Path },
    /// `&'a mut elem`
    Reference { lifetime: Option<String>, mutable: bool, elem: Box<Type> },
    /// `(A, B)`; without elements the unit type.
    Tuple(Vec<Type>),
    /// Any other type, kept as token text.
    Other(String),
}

#[verifier::ext_equal]
pub enum TypeView {
    Path(PathView),
    Qualified { ty: Box<TypeView>, position: usize, path: PathView },
    Reference { lifetime: Option<Seq<char>>, mutable: bool, elem: Box<TypeView> },
    Tuple(Seq<TypeView>),
    Other(Seq<char>),
}

impl Type {
    /// The ghost twin of this type.
    pub open spec fn model(&self) -> TypeView
        decreases self,
    {
        match self {
            Type::Path(p) => TypeView::Path(p@),
            Type::Qualified { ty, position, path } => TypeView::Qualified {
                ty: Box::new((**ty).model()),
                position: *position,
                path: path@,
            },
            Type::Reference { lifetime, mutable, elem } => TypeView::Reference {
                lifetime: lifetime.deep_view(),
                mutable: *mutable,
                elem: Box::new((**elem).model()),
            },
            Type::Tuple(elems) => TypeView::Tuple(
                Seq::new(
                    elems@.len(),
                    |i: int|
                        if 0 <= i < elems@.len() {
                            elems@[i].model()
                        } else {
                            arbitrary()
                        },
                ),
            ),
            Type::Other(t) => TypeView::Other(t@),
        }
    }
}

impl DeepView for Type {
    type V = TypeView;

    open spec fn deep_view(&self) -> TypeView {
        self.model()
    }
}

impl View for Type {
    type V = TypeView;

    open spec fn view(&self) -> TypeView {
        self.model()
    }
}

/// The view of a tuple type is the tuple of the views of its elements.
pub proof fn lemma_tuple_view(elems: Vec<Type>)
    ensures
        Type::Tuple(elems)@ == TypeView::Tuple(elems.deep_view()),
{
    assert(Type::Tuple(elems).model()->Tuple_0 =~= elems.deep_view());
}

/// Copies an optional string.
pub fn clone_opt_string(o: &Option<String>) -> (r: Option<String>)
    ensures
        r.deep_view() == o.deep_view(),
{
    match o {
        Some(s) => Some(s.clone()),
        None => None,
    }
}

/// Copies an optional optional string.
pub fn clone_opt_opt_string(o: &Option<Option<String>>) -> (r: Option<Option<String>>)
    ensures
        r.deep_view() == o.deep_view(),
{
    match o {
        Some(inner) => Some(clone_opt_string(inner)),
        None => None,
    }
}

impl Clone for Type {
    #[verifier::loop_isolation(false)]
    fn clone(&self) -> (r: Self)
        ensures
            r@ == self@,
        decreases self,
    {
        match self {
            Type::Path(p) => Type::Path(p.clone()),
            Type::Qualified { ty, position, path } => Type::Qualified {
                ty: Box::new((**ty).clone()),
                position: *position,
                path: path.clone(),
            },
            Type::Reference { lifetime, mutable, elem } => Type::Reference {
                lifetime: clone_opt_string(lifetime),
                mutable: *mutable,
                elem: Box::new((**elem).clone()),
            },
            Type::Tuple(elems) => {
                let mut out: Vec<Type> = Vec::new();
                let mut i: usize = 0;
                while i < elems.len()
                    invariant
                        i <= elems.len(),
                        out@.len() == i,
                        forall|j: int| 0 <= j < i ==> out@[j]@ == elems@[j]@,
                    decreases elems.len() - i,
                {
                    out.push(elems[i].clone());
                    i += 1;
                }
                proof {
                    lemma_tuple_view(out);
                    lemma_tuple_view(*elems);
                    assert(out.deep_view() =~= elems.deep_view());
                }
                Type::Tuple(out)
            },
            Type::Other(t) => Type::Other(t.clone()),
        }
    }
}

/// The unit type `()`.
pub open spec fn unit_type() -> TypeView {
    TypeView::Tuple(Seq::empty())
}

/// Whether `ty` is written as a path, plain or qualified.
pub open spec fn is_path_type(ty: TypeView) -> bool {
    ty is Path || ty is Qualified
}

impl Type {
    /// Whether this is the unit type `()`.
    pub fn is_unit(&self) -> (r: bool)
        ensures
            r == (self@ == unit_type()),
    {
        match self {
            Type::Tuple(elems) => {
                proof {
                    lemma_tuple_view(*elems);
                    assert(elems.deep_view().len() == elems@.len());
                    assert(elems@.len() == 0 ==> elems.deep_view() =~= Seq::<TypeView>::empty());
                }
                elems.len() == 0
            },
            _ => false,
        }
    }
}

} // verus!
