//! What the `handler` attribute makes of a function's signature: the
//! endpoint type, the arguments it extracts from the request, the state
//! types that its `State<T>` arguments ask for, and whether the call is
//! awaited.

use vstd::prelude::*;

use crate::message::str_equal;

verus! {

/// A Rust type, as far as handlers need to tell it apart.
pub enum TypeModel {
    /// A path such as `web::State<AppState>`: its segments, in order; a path
    /// written with a leading `::` starts with a segment whose identifier is
    /// empty.
    Path(Vec<PathSegmentModel>),
    /// Any other type, by its source text.
    Other(String),
}

/// A segment of a type path: its identifier and its arguments.
pub struct PathSegmentModel {
    pub ident: String,
    pub args: PathArgsModel,
}

/// The arguments of a path segment.
pub enum PathArgsModel {
    /// No arguments.
    Bare,
    /// `<...>`: the arguments, in order.
    AngleBracketed(Vec<GenericArgModel>),
    /// `(...)`, as in `Fn(A) -> B`, by its source text.
    Parenthesized(String),
}

/// An argument between angle brackets.
pub enum GenericArgModel {
    /// A type.
    Type(TypeModel),
    /// A lifetime, a constant, a binding or a constraint, by its source text.
    Other(String),
}

/// The type `T` of a type written `State<T>` (or `path::State<T>`): the first
/// argument of the last segment of the path, where that segment is named
/// `State` and the argument is a type.
pub open spec fn state_inner_type(ty: TypeModel) -> Option<TypeModel> {
    match ty {
        TypeModel::Path(segs) => if segs@.len() > 0 && segs@.last().ident@ == "State"@ {
            match segs@.last().args {
                PathArgsModel::AngleBracketed(args) => if args@.len() > 0 {
                    match args@[0] {
                        GenericArgModel::Type(t) => Some(t),
                        GenericArgModel::Other(_) => None,
                    }
                } else {
                    None
                },
                _ => None,
            }
        } else {
            None
        },
        TypeModel::Other(_) => None,
    }
}

/// Extracts the inner type `T` from a `State<T>` type.
pub fn extract_state_inner_type(ty: TypeModel) -> (r: Option<TypeModel>)
    ensures
        r == state_inner_type(ty),
{
    let ghost ty0 = ty;
    match ty {
        TypeModel::Path(segs) => {
            let mut segs = segs;
            let last = match segs.pop() {
                Some(last) => last,
                None => return None,
            };
            if !str_equal(last.ident.as_str(), "State") {
                return None;
            }
            match last.args {
                PathArgsModel::AngleBracketed(args) => {
                    let mut args = args;
                    if args.len() == 0 {
                        return None;
                    }
                    match args.remove(0) {
                        GenericArgModel::Type(t) => Some(t),
                        GenericArgModel::Other(_) => None,
                    }
                },
                _ => None,
            }
        },
        TypeModel::Other(_) => None,
    }
}

/// The state types that the arguments ask for, in order: each `T` of an
/// argument of type `State<T>`. Each needs a `FromRef` bound from the
/// endpoint's state.
pub open spec fn state_bound_types(inputs: Seq<TypeModel>) -> Seq<TypeModel>
    decreases inputs.len(),
{
    if inputs.len() == 0 {
        Seq::empty()
    } else {
        let rest = state_bound_types(inputs.drop_last());
        match state_inner_type(inputs.last()) {
            Some(t) => rest.push(t),
            None => rest,
        }
    }
}

/// The state types that a handler's arguments ask for.
pub fn state_bounds(inputs: Vec<TypeModel>) -> (r: Vec<TypeModel>)
    ensures
        r@ == state_bound_types(inputs@),
{
    let ghost all = inputs@;
    let mut inputs = inputs;
    let mut r: Vec<TypeModel> = Vec::new();
    let ghost mut i: int = 0;
    assert(all.skip(0) =~= all);
    while inputs.len() > 0
        invariant
            0 <= i <= all.len(),
            inputs@ == all.skip(i),
            r@ == state_bound_types(all.take(i)),
        decreases inputs@.len(),
    {
        let ty = inputs.remove(0);
        assert(ty == all[i]);
        assert(all.take(i + 1).drop_last() =~= all.take(i));
        match extract_state_inner_type(ty) {
            Some(t) => r.push(t),
            None => {},
        }
        assert(inputs@ =~= all.skip(i + 1));
        proof {
            i = i + 1;
        }
    }
    assert(all.take(i) =~= all);
    r
}

/// An input of a function's signature.
pub enum FnInputModel {
    /// `self`, `&self` or `&mut self`.
    Receiver,
    /// An argument with a pattern and a type.
    Typed(TypeModel),
}

/// What the `handler` attribute reads of a function's signature.
pub struct HandlerSig {
    /// The function's name.
    pub name: String,
    /// The number of generic parameters: lifetimes, types and constants.
    pub generic_count: usize,
    /// The names of the type parameters, in order.
    pub type_params: Vec<String>,
    /// The inputs, in order.
    pub inputs: Vec<FnInputModel>,
    /// The function is `async`.
    pub is_async: bool,
}

/// What the `handler` attribute generates for a function: an endpoint type
/// named after the function, whose `call` extracts each typed argument from
/// the request in order (the first failed extraction is the call's error),
/// calls the function with them, awaits the result when the function is
/// `async`, and turns the result into a response.
pub struct HandlerPlan {
    /// The name of the endpoint type, the function's name.
    pub struct_name: String,
    /// The endpoint type is a unit struct: the function has no generic
    /// parameter. Otherwise it is a struct with one `PhantomData` marker per
    /// type parameter.
    pub unit_struct: bool,
    /// The type parameters that the markers hold, in order.
    pub marker_params: Vec<String>,
    /// The positions of the inputs that are extracted from the request and
    /// passed to the function, in order.
    pub extractor_args: Vec<usize>,
    /// The types `T` that need a `FromRef` bound from the endpoint's state,
    /// one per `State<T>` argument, in order.
    pub state_bounds: Vec<TypeModel>,
    /// The call of the function is awaited.
    pub await_call: bool,
}

/// The positions of the typed inputs, in order.
pub open spec fn typed_arg_indices(inputs: Seq<FnInputModel>) -> Seq<usize>
    decreases inputs.len(),
{
    if inputs.len() == 0 {
        Seq::empty()
    } else {
        let rest = typed_arg_indices(inputs.drop_last());
        match inputs.last() {
            FnInputModel::Typed(_) => rest.push((inputs.len() - 1) as usize),
            FnInputModel::Receiver => rest,
        }
    }
}

/// The types of the typed inputs, in order.
pub open spec fn typed_arg_types(inputs: Seq<FnInputModel>) -> Seq<TypeModel>
    decreases inputs.len(),
{
    if inputs.len() == 0 {
        Seq::empty()
    } else {
        let rest = typed_arg_types(inputs.drop_last());
        match inputs.last() {
            FnInputModel::Typed(t) => rest.push(t),
            FnInputModel::Receiver => rest,
        }
    }
}

/// Plans the endpoint that the `handler` attribute generates for a function.
pub fn handler_plan(sig: HandlerSig) -> (p: HandlerPlan)
    ensures
        p.struct_name@ == sig.name@,
        p.unit_struct == (sig.generic_count == 0),
        p.marker_params@ == sig.type_params@,
        p.extractor_args@ == typed_arg_indices(sig.inputs@),
        p.state_bounds@ == state_bound_types(typed_arg_types(sig.inputs@)),
        p.await_call == sig.is_async,
{
    let HandlerSig { name, generic_count, type_params, inputs, is_async } = sig;
    let ghost all = inputs@;
    let mut inputs = inputs;
    let mut indices: Vec<usize> = Vec::new();
    let mut types: Vec<TypeModel> = Vec::new();
    let mut i: usize = 0;
    assert(all.skip(0) =~= all);
    assert(all.take(0) =~= Seq::<FnInputModel>::empty());
    assert(all.len() == inputs.len());
    while inputs.len() > 0
        invariant
            i <= all.len() <= usize::MAX,
            inputs@ == all.skip(i as int),
            indices@ == typed_arg_indices(all.take(i as int)),
            types@ == typed_arg_types(all.take(i as int)),
        decreases inputs@.len(),
    {
        let input = inputs.remove(0);
        assert(input == all[i as int]);
        assert(all.take(i + 1).drop_last() =~= all.take(i as int));
        assert(all.take(i + 1).last() == all[i as int]);
        match input {
            FnInputModel::Typed(t) => {
                indices.push(i);
                types.push(t);
            },
            FnInputModel::Receiver => {},
        }
        assert(inputs@ =~= all.skip(i + 1));
        i = i + 1;
    }
    assert(all.take(i as int) =~= all);
    HandlerPlan {
        struct_name: name,
        unit_struct: generic_count == 0,
        marker_params: type_params,
        extractor_args: indices,
        state_bounds: state_bounds(types),
        await_call: is_async,
    }
}

} // verus!
