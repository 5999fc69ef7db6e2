//! What holds of every rewriting.

use vstd::prelude::*;

use crate::policy::Policy;
use crate::rewrite::{
    access, dereferenced, rewrite_block, rewrite_expr, rewrite_exprs, rewrite_function,
    rewrite_part, rewrite_parts, renamed, scoped, unwraps, Context,
};
use crate::syntax::{name_of, BlockView, ExprView, FunctionView, PartView};

verus! {

/// Whether `e` holds no element access and no call of a method named
/// `unwrap`.
pub open spec fn plain_expr(e: ExprView) -> bool
    decreases e,
{
    match e {
        ExprView::Index { .. } => false,
        ExprView::Range { from, closed, to } => (match from {
            Some(f) => plain_expr(*f),
            None => true,
        }) && (match to {
            Some(t) => plain_expr(*t),
            None => true,
        }),
        ExprView::Reference { mutable, target } => plain_expr(*target),
        ExprView::Assign { left, op, right } => plain_expr(*left) && plain_expr(*right),
        ExprView::MethodCall { receiver, method, turbofish, args } => method != "unwrap"@
            && plain_expr(*receiver) && plain_parts(turbofish) && plain_exprs(args),
        ExprView::Field { base, member } => plain_expr(*base),
        ExprView::Deref { target } => plain_expr(*target),
        ExprView::Paren { inner } => plain_expr(*inner),
        ExprView::Unsafe { body } => plain_block(body),
        ExprView::Other { parts } => plain_parts(parts),
    }
}

/// Whether each of `exprs` is plain.
pub open spec fn plain_exprs(exprs: Seq<ExprView>) -> bool
    decreases exprs,
{
    forall|i: int| 0 <= i < exprs.len() ==> plain_expr(#[trigger] exprs[i])
}

/// Whether the piece holds no element access and no call of `unwrap`.
pub open spec fn plain_part(part: PartView) -> bool
    decreases part,
{
    match part {
        PartView::Token(_) => true,
        PartView::Expr(e) => plain_expr(e),
        PartView::Block(b) => plain_block(b),
    }
}

/// Whether each of `parts` is plain.
pub open spec fn plain_parts(parts: Seq<PartView>) -> bool
    decreases parts,
{
    forall|i: int| 0 <= i < parts.len() ==> plain_part(#[trigger] parts[i])
}

/// Whether the block holds no element access and no call of `unwrap`.
pub open spec fn plain_block(b: BlockView) -> bool
    decreases b,
{
    plain_parts(b.parts)
}

/// A plain expression is its own rewriting, under every policy and in every
/// context.
pub proof fn law_plain_expr_stays(p: Policy, e: ExprView, c: Context)
    requires
        plain_expr(e),
    ensures
        rewrite_expr(p, e, c) == e,
    decreases e,
{
    match e {
        ExprView::Index { .. } => {},
        ExprView::Range { from, closed, to } => {
            match from {
                Some(f) => {
                    law_plain_expr_stays(p, *f, Context::value());
                },
                None => {},
            }
            match to {
                Some(t) => {
                    law_plain_expr_stays(p, *t, Context::value());
                },
                None => {},
            }
        },
        ExprView::Reference { mutable, target } => {
            assert(plain_expr(*target));
            law_plain_expr_stays(p, *target, Context::value());
        },
        ExprView::Assign { left, op, right } => {
            law_plain_expr_stays(p, *left, Context::target().at(*left));
            law_plain_expr_stays(p, *right, Context::value());
        },
        ExprView::MethodCall { receiver, method, turbofish, args } => {
            law_plain_expr_stays(
                p,
                *receiver,
                Context::borrowed(p.mut_access.contains(method)).at(*receiver),
            );
            law_plain_parts_stay(p, turbofish);
            law_plain_exprs_stay(p, args);
        },
        ExprView::Field { base, member } => {
            law_plain_expr_stays(
                p,
                *base,
                Context::borrowed(p.mut_access.contains(member)).at(*base),
            );
        },
        ExprView::Deref { target } => {
            law_plain_expr_stays(p, *target, Context::value());
        },
        ExprView::Paren { inner } => {
            law_plain_expr_stays(p, *inner, Context::value());
        },
        ExprView::Unsafe { body } => {
            law_plain_block_stays(p, body);
        },
        ExprView::Other { parts } => {
            law_plain_parts_stay(p, parts);
        },
    }
}

/// Plain expressions are their own rewriting.
pub proof fn law_plain_exprs_stay(p: Policy, exprs: Seq<ExprView>)
    requires
        plain_exprs(exprs),
    ensures
        rewrite_exprs(p, exprs) == exprs,
    decreases exprs,
{
    assert forall|i: int| 0 <= i < exprs.len() implies rewrite_exprs(p, exprs)[i] == exprs[i] by {
        law_plain_expr_stays(p, exprs[i], Context::value());
    }
    assert(rewrite_exprs(p, exprs) =~= exprs);
}

/// A plain piece of syntax is its own rewriting.
pub proof fn law_plain_part_stays(p: Policy, part: PartView)
    requires
        plain_part(part),
    ensures
        rewrite_part(p, part) == part,
    decreases part,
{
    match part {
        PartView::Token(_) => {},
        PartView::Expr(e) => {
            law_plain_expr_stays(p, e, Context::value());
        },
        PartView::Block(b) => {
            law_plain_block_stays(p, b);
        },
    }
}

/// A plain row of syntax is its own rewriting.
pub proof fn law_plain_parts_stay(p: Policy, parts: Seq<PartView>)
    requires
        plain_parts(parts),
    ensures
        rewrite_parts(p, parts) == parts,
    decreases parts,
{
    assert forall|i: int| 0 <= i < parts.len() implies rewrite_parts(p, parts)[i] == parts[i] by {
        law_plain_part_stays(p, parts[i]);
    }
    assert(rewrite_parts(p, parts) =~= parts);
}

/// A plain inner block is its own rewriting.
pub proof fn law_plain_block_stays(p: Policy, b: BlockView)
    requires
        plain_block(b),
    ensures
        rewrite_block(p, b, false) == b,
    decreases b,
{
    law_plain_parts_stay(p, b.parts);
}

/// A function without element accesses and `unwrap` calls comes out as it
/// went in, but for its body, which stands inside one `unsafe` block: under
/// every policy.
pub proof fn law_plain_function_is_scoped(p: Policy, f: FunctionView)
    requires
        plain_parts(f.header),
        plain_block(f.body),
    ensures
        rewrite_function(p, f) == (FunctionView { header: f.header, body: scoped(f.body) }),
{
    law_plain_parts_stay(p, f.header);
    law_plain_block_stays(p, f.body);
}

/// The body of a rewritten function is one `unsafe` block, whatever the
/// function holds.
pub proof fn law_scoped_once(p: Policy, f: FunctionView)
    ensures
        rewrite_function(p, f).body == scoped(rewrite_block(p, f.body, false)),
{
}

/// Only an element access reads the context in which it stands.
pub proof fn law_context_is_for_accesses(p: Policy, e: ExprView, c: Context)
    requires
        !(e is Index),
    ensures
        rewrite_expr(p, e, c) == rewrite_expr(p, e, Context::value()),
{
}

/// An element access that stands for a value, on a container that is not
/// excluded and with an index that is no range, becomes the dereferenced
/// unchecked read.
pub proof fn law_value_read(p: Policy, base: ExprView, index: ExprView)
    requires
        !p.exclude.contains(name_of(base)),
        !(index is Range),
    ensures
        rewrite_expr(
            p,
            ExprView::Index { base: Box::new(base), index: Box::new(index) },
            Context::value(),
        ) == dereferenced(
            access(
                rewrite_expr(p, base, Context::value()),
                rewrite_expr(p, index, Context::value()),
                false,
            ),
        ),
{
    reveal_with_fuel(rewrite_expr, 3);
}

/// A borrowed element access, on a container that is not excluded, becomes
/// the unchecked access itself, with no dereference and no `&` around it:
/// the mutable accessor for `&mut`, the other one for `&`. This holds of an
/// index that is a range too.
pub proof fn law_borrowed_access(p: Policy, mutable: bool, base: ExprView, index: ExprView)
    requires
        !p.exclude.contains(name_of(base)),
    ensures
        rewrite_expr(
            p,
            ExprView::Reference {
                mutable,
                target: Box::new(ExprView::Index { base: Box::new(base), index: Box::new(index) }),
            },
            Context::value(),
        ) == access(
            rewrite_expr(p, base, Context::value()),
            rewrite_expr(p, index, Context::value()),
            mutable,
        ),
{
    reveal_with_fuel(rewrite_expr, 3);
}

/// An assignment to an element, on a container that is not excluded and with
/// an index that is no range, writes through the mutable unchecked accessor.
pub proof fn law_assigned_element(
    p: Policy,
    base: ExprView,
    index: ExprView,
    op: Seq<char>,
    right: ExprView,
)
    requires
        !p.exclude.contains(name_of(base)),
        !(index is Range),
    ensures
        rewrite_expr(
            p,
            ExprView::Assign {
                left: Box::new(ExprView::Index { base: Box::new(base), index: Box::new(index) }),
                op,
                right: Box::new(right),
            },
            Context::value(),
        ) == (ExprView::Assign {
            left: Box::new(
                dereferenced(
                    access(
                        rewrite_expr(p, base, Context::value()),
                        rewrite_expr(p, index, Context::value()),
                        true,
                    ),
                ),
            ),
            op,
            right: Box::new(rewrite_expr(p, right, Context::value())),
        }),
{
    reveal_with_fuel(rewrite_expr, 3);
}

/// A method called on an element, or a field of an element, has the element
/// accessed unchecked as a place: mutably where the policy names the method
/// or the field, and only there.
pub proof fn law_accessed_element(
    p: Policy,
    base: ExprView,
    index: ExprView,
    member: Seq<char>,
    turbofish: Seq<PartView>,
    args: Seq<ExprView>,
)
    requires
        !p.exclude.contains(name_of(base)),
    ensures
        ({
            let element = ExprView::Index { base: Box::new(base), index: Box::new(index) };
            let place = access(
                rewrite_expr(p, base, Context::value()),
                rewrite_expr(p, index, Context::value()),
                p.mut_access.contains(member),
            );
            &&& rewrite_expr(
                p,
                ExprView::MethodCall {
                    receiver: Box::new(element),
                    method: member,
                    turbofish,
                    args,
                },
                Context::value(),
            ) == (ExprView::MethodCall {
                receiver: Box::new(place),
                method: renamed(p, element, member),
                turbofish: rewrite_parts(p, turbofish),
                args: rewrite_exprs(p, args),
            })
            &&& rewrite_expr(
                p,
                ExprView::Field { base: Box::new(element), member },
                Context::value(),
            ) == (ExprView::Field { base: Box::new(place), member })
        }),
{
    reveal_with_fuel(rewrite_expr, 3);
}

/// Of two nested element accesses, each is rewritten by the context in which
/// it stands itself. Whatever the outer access `a[b[i]]` is asked for, its
/// index `b[i]` is read as a value, through the accessor that does not
/// write; and so is the container `b[i]` of `b[i][a]`.
pub proof fn law_nested_accesses(p: Policy, a: ExprView, b: ExprView, i: ExprView, c: Context)
    requires
        !p.exclude.contains(name_of(a)),
        !p.exclude.contains(name_of(b)),
        !(a is Range),
        !(i is Range),
    ensures
        ({
            let inner = ExprView::Index { base: Box::new(b), index: Box::new(i) };
            let read = dereferenced(
                access(
                    rewrite_expr(p, b, Context::value()),
                    rewrite_expr(p, i, Context::value()),
                    false,
                ),
            );
            let as_index = access(rewrite_expr(p, a, Context::value()), read, c.mutable);
            let as_base = access(read, rewrite_expr(p, a, Context::value()), c.mutable);
            &&& rewrite_expr(
                p,
                ExprView::Index { base: Box::new(a), index: Box::new(inner) },
                c,
            ) == if c.reference {
                as_index
            } else {
                dereferenced(as_index)
            }
            &&& !p.exclude.contains(name_of(inner)) ==> rewrite_expr(
                p,
                ExprView::Index { base: Box::new(inner), index: Box::new(a) },
                c,
            ) == if c.reference {
                as_base
            } else {
                dereferenced(as_base)
            }
        }),
{
    reveal_with_fuel(rewrite_expr, 3);
}

/// An element access with a range for its index stays a checked access
/// where no place is wanted. So `a[i..j]` stays as it is where `a`, `i` and
/// `j` hold nothing that is rewritten.
pub proof fn law_bare_range_stays(p: Policy, base: ExprView, index: ExprView, c: Context)
    requires
        index is Range,
        !c.reference,
    ensures
        rewrite_expr(p, ExprView::Index { base: Box::new(base), index: Box::new(index) }, c)
            == (ExprView::Index {
            base: Box::new(rewrite_expr(p, base, Context::value())),
            index: Box::new(rewrite_expr(p, index, Context::value())),
        }),
        plain_expr(base) && plain_expr(index) ==> rewrite_expr(
            p,
            ExprView::Index { base: Box::new(base), index: Box::new(index) },
            c,
        ) == (ExprView::Index { base: Box::new(base), index: Box::new(index) }),
{
    if plain_expr(base) && plain_expr(index) {
        law_plain_expr_stays(p, base, Context::value());
        law_plain_expr_stays(p, index, Context::value());
    }
}

/// A borrowed range of elements, on a container that is not excluded, becomes
/// the unchecked access with a range of the same kind, whose bounds are the
/// rewritten bounds.
pub proof fn law_borrowed_range(
    p: Policy,
    mutable: bool,
    base: ExprView,
    from: Option<Box<ExprView>>,
    closed: bool,
    to: Option<Box<ExprView>>,
)
    requires
        !p.exclude.contains(name_of(base)),
    ensures
        rewrite_expr(
            p,
            ExprView::Reference {
                mutable,
                target: Box::new(
                    ExprView::Index {
                        base: Box::new(base),
                        index: Box::new(ExprView::Range { from, closed, to }),
                    },
                ),
            },
            Context::value(),
        ) == access(
            rewrite_expr(p, base, Context::value()),
            ExprView::Range {
                from: match from {
                    Some(f) => Some(Box::new(rewrite_expr(p, *f, Context::value()))),
                    None => None,
                },
                closed,
                to: match to {
                    Some(t) => Some(Box::new(rewrite_expr(p, *t, Context::value()))),
                    None => None,
                },
            },
            mutable,
        ),
{
    reveal_with_fuel(rewrite_expr, 3);
}

/// The call `receiver.method(args)`.
pub open spec fn call(
    receiver: ExprView,
    method: Seq<char>,
    turbofish: Seq<PartView>,
    args: Seq<ExprView>,
) -> ExprView {
    ExprView::MethodCall { receiver: Box::new(receiver), method, turbofish, args }
}

/// Where `unwrap` calls are rewritten, a call of `unwrap` on a receiver that
/// the policy does not exempt becomes a call of `unwrap_unchecked`; on an
/// exempt receiver it stays a call of `unwrap`. Receiver and arguments are
/// rewritten like those of any other call. So `opt.unwrap()` becomes
/// `opt.unwrap_unchecked()`, and stays as it is where `opt` is exempt.
pub proof fn law_unwrap(
    p: Policy,
    receiver: ExprView,
    turbofish: Seq<PartView>,
    args: Seq<ExprView>,
    c: Context,
)
    requires
        p.unwrap,
    ensures
        ({
            let method = if p.unwrap_exclude.contains(name_of(receiver)) {
                "unwrap"@
            } else {
                "unwrap_unchecked"@
            };
            let place = rewrite_expr(
                p,
                receiver,
                Context::borrowed(p.mut_access.contains("unwrap"@)).at(receiver),
            );
            &&& rewrite_expr(p, call(receiver, "unwrap"@, turbofish, args), c) == call(
                place,
                method,
                rewrite_parts(p, turbofish),
                rewrite_exprs(p, args),
            )
            &&& plain_expr(receiver) && plain_parts(turbofish) && plain_exprs(args)
                ==> rewrite_expr(p, call(receiver, "unwrap"@, turbofish, args), c) == call(
                receiver,
                method,
                turbofish,
                args,
            )
        }),
{
    if plain_expr(receiver) && plain_parts(turbofish) && plain_exprs(args) {
        law_plain_expr_stays(
            p,
            receiver,
            Context::borrowed(p.mut_access.contains("unwrap"@)).at(receiver),
        );
        law_plain_parts_stay(p, turbofish);
        law_plain_exprs_stay(p, args);
    }
}

/// An element access on an excluded container stays an element access, in
/// every context and with every index; so it does under `&` and `&mut`, which
/// stay too, and on the left of an assignment.
pub proof fn law_excluded_stays(
    p: Policy,
    base: ExprView,
    index: ExprView,
    c: Context,
    mutable: bool,
    op: Seq<char>,
    right: ExprView,
)
    requires
        p.exclude.contains(name_of(base)),
    ensures
        ({
            let element = ExprView::Index { base: Box::new(base), index: Box::new(index) };
            let kept = ExprView::Index {
                base: Box::new(rewrite_expr(p, base, Context::value())),
                index: Box::new(rewrite_expr(p, index, Context::value())),
            };
            &&& rewrite_expr(p, element, c) == kept
            &&& rewrite_expr(p, ExprView::Reference { mutable, target: Box::new(element) }, c)
                == (ExprView::Reference { mutable, target: Box::new(kept) })
            &&& rewrite_expr(
                p,
                ExprView::Assign { left: Box::new(element), op, right: Box::new(right) },
                c,
            ) == (ExprView::Assign {
                left: Box::new(kept),
                op,
                right: Box::new(rewrite_expr(p, right, Context::value())),
            })
        }),
{
    reveal_with_fuel(rewrite_expr, 3);
}

/// Whether `e` holds neither a checked access to one element nor, where
/// `unwraps`, a call of a method named `unwrap`.
pub open spec fn settled_expr(e: ExprView, unwraps: bool) -> bool
    decreases e,
{
    match e {
        ExprView::Index { base, index } => *index is Range && settled_expr(*base, unwraps)
            && settled_expr(*index, unwraps),
        ExprView::Range { from, closed, to } => (match from {
            Some(f) => settled_expr(*f, unwraps),
            None => true,
        }) && (match to {
            Some(t) => settled_expr(*t, unwraps),
            None => true,
        }),
        ExprView::Reference { mutable, target } => settled_expr(*target, unwraps),
        ExprView::Assign { left, op, right } => settled_expr(*left, unwraps) && settled_expr(
            *right,
            unwraps,
        ),
        ExprView::MethodCall { receiver, method, turbofish, args } => (unwraps ==> method
            != "unwrap"@) && settled_expr(*receiver, unwraps) && settled_parts(turbofish, unwraps)
            && settled_exprs(args, unwraps),
        ExprView::Field { base, member } => settled_expr(*base, unwraps),
        ExprView::Deref { target } => settled_expr(*target, unwraps),
        ExprView::Paren { inner } => settled_expr(*inner, unwraps),
        ExprView::Unsafe { body } => settled_block(body, unwraps),
        ExprView::Other { parts } => settled_parts(parts, unwraps),
    }
}

/// Whether each of `exprs` is settled.
pub open spec fn settled_exprs(exprs: Seq<ExprView>, unwraps: bool) -> bool
    decreases exprs,
{
    forall|i: int| 0 <= i < exprs.len() ==> settled_expr(#[trigger] exprs[i], unwraps)
}

/// Whether the piece is settled.
pub open spec fn settled_part(part: PartView, unwraps: bool) -> bool
    decreases part,
{
    match part {
        PartView::Token(_) => true,
        PartView::Expr(e) => settled_expr(e, unwraps),
        PartView::Block(b) => settled_block(b, unwraps),
    }
}

/// Whether each of `parts` is settled.
pub open spec fn settled_parts(parts: Seq<PartView>, unwraps: bool) -> bool
    decreases parts,
{
    forall|i: int| 0 <= i < parts.len() ==> settled_part(#[trigger] parts[i], unwraps)
}

/// Whether the block is settled.
pub open spec fn settled_block(b: BlockView, unwraps: bool) -> bool
    decreases b,
{
    settled_parts(b.parts, unwraps)
}

/// Whether the policy exempts nothing and has `unwrap` calls rewritten as
/// `unwraps` says.
pub open spec fn exempts_nothing(p: Policy, unwraps: bool) -> bool {
    &&& p.exclude == Set::<Seq<char>>::empty()
    &&& unwraps ==> p.unwrap && p.unwrap_exclude == Set::<Seq<char>>::empty()
}

proof fn lemma_names_differ()
    ensures
        "unwrap_unchecked"@ != "unwrap"@,
        "get_unchecked"@ != "unwrap"@,
        "get_unchecked_mut"@ != "unwrap"@,
{
    reveal_strlit("unwrap_unchecked");
    reveal_strlit("get_unchecked");
    reveal_strlit("get_unchecked_mut");
    reveal_strlit("unwrap");
    assert("unwrap_unchecked"@.len() != "unwrap"@.len());
    assert("get_unchecked"@.len() != "unwrap"@.len());
    assert("get_unchecked_mut"@.len() != "unwrap"@.len());
}

/// Under a policy that exempts nothing, the rewriting leaves no checked
/// access to one element and no call of `unwrap`, however deep in the
/// expression they stand: every access and every call is reached.
pub proof fn law_expr_is_settled(p: Policy, e: ExprView, c: Context, unwraps: bool)
    requires
        exempts_nothing(p, unwraps),
    ensures
        settled_expr(rewrite_expr(p, e, c), unwraps),
    decreases e,
{
    lemma_names_differ();
    let value = Context::value();
    match e {
        ExprView::Index { base, index } => {
            law_expr_is_settled(p, *base, value, unwraps);
            law_expr_is_settled(p, *index, value, unwraps);
            let container = rewrite_expr(p, *base, value);
            let position = rewrite_expr(p, *index, value);
            assert(*index is Range ==> position is Range);
            let place = access(container, position, c.mutable);
            assert(settled_parts(Seq::<PartView>::empty(), unwraps));
            assert(settled_exprs(seq![position], unwraps));
            assert(settled_expr(place, unwraps));
            assert(settled_expr(ExprView::Deref { target: Box::new(place) }, unwraps));
            assert(settled_expr(dereferenced(place), unwraps));
            assert(settled_expr(
                ExprView::Index { base: Box::new(container), index: Box::new(position) },
                unwraps,
            ) == (position is Range));
        },
        ExprView::Range { from, closed, to } => {
            match from {
                Some(f) => {
                    law_expr_is_settled(p, *f, value, unwraps);
                },
                None => {},
            }
            match to {
                Some(t) => {
                    law_expr_is_settled(p, *t, value, unwraps);
                },
                None => {},
            }
        },
        ExprView::Reference { mutable, target } => {
            law_expr_is_settled(p, *target, value, unwraps);
            law_expr_is_settled(p, *target, Context::borrowed(mutable), unwraps);
        },
        ExprView::Assign { left, op, right } => {
            law_expr_is_settled(p, *left, Context::target().at(*left), unwraps);
            law_expr_is_settled(p, *right, value, unwraps);
        },
        ExprView::MethodCall { receiver, method, turbofish, args } => {
            law_expr_is_settled(
                p,
                *receiver,
                Context::borrowed(p.mut_access.contains(method)).at(*receiver),
                unwraps,
            );
            law_parts_are_settled(p, turbofish, unwraps);
            law_exprs_are_settled(p, args, unwraps);
        },
        ExprView::Field { base, member } => {
            law_expr_is_settled(
                p,
                *base,
                Context::borrowed(p.mut_access.contains(member)).at(*base),
                unwraps,
            );
        },
        ExprView::Deref { target } => {
            law_expr_is_settled(p, *target, value, unwraps);
        },
        ExprView::Paren { inner } => {
            law_expr_is_settled(p, *inner, value, unwraps);
        },
        ExprView::Unsafe { body } => {
            law_parts_are_settled(p, body.parts, unwraps);
            assert(settled_block(rewrite_block(p, body, false), unwraps));
        },
        ExprView::Other { parts } => {
            law_parts_are_settled(p, parts, unwraps);
        },
    }
}

/// Under a policy that exempts nothing, rewritten arguments are settled.
pub proof fn law_exprs_are_settled(p: Policy, exprs: Seq<ExprView>, unwraps: bool)
    requires
        exempts_nothing(p, unwraps),
    ensures
        settled_exprs(rewrite_exprs(p, exprs), unwraps),
    decreases exprs,
{
    assert forall|i: int| 0 <= i < exprs.len() implies settled_expr(
        #[trigger] rewrite_exprs(p, exprs)[i],
        unwraps,
    ) by {
        law_expr_is_settled(p, exprs[i], Context::value(), unwraps);
    }
}

/// Under a policy that exempts nothing, a rewritten row of syntax is settled.
pub proof fn law_parts_are_settled(p: Policy, parts: Seq<PartView>, unwraps: bool)
    requires
        exempts_nothing(p, unwraps),
    ensures
        settled_parts(rewrite_parts(p, parts), unwraps),
    decreases parts,
{
    assert forall|i: int| 0 <= i < parts.len() implies settled_part(
        #[trigger] rewrite_parts(p, parts)[i],
        unwraps,
    ) by {
        match parts[i] {
            PartView::Token(_) => {},
            PartView::Expr(e) => {
                law_expr_is_settled(p, e, Context::value(), unwraps);
            },
            PartView::Block(b) => {
                law_parts_are_settled(p, b.parts, unwraps);
            },
        }
    }
}

/// Under a policy that exempts nothing, a rewritten function holds no
/// checked access to one element and no call of `unwrap`.
pub proof fn law_function_is_settled(p: Policy, f: FunctionView, unwraps: bool)
    requires
        exempts_nothing(p, unwraps),
    ensures
        settled_parts(rewrite_function(p, f).header, unwraps),
        settled_block(rewrite_function(p, f).body, unwraps),
{
    law_parts_are_settled(p, f.header, unwraps);
    law_parts_are_settled(p, f.body.parts, unwraps);
    let inner = rewrite_block(p, f.body, false);
    assert(settled_block(inner, unwraps));
    assert(settled_expr(ExprView::Unsafe { body: inner }, unwraps));
    assert(scoped(inner).parts[0] == PartView::Expr(ExprView::Unsafe { body: inner }));
}

/// Whether the policy has every part of `e` left as it is: each element
/// access in `e`, however deep, is on an excluded container, and no call in
/// `e` is one that the policy has renamed.
pub open spec fn exempt_expr(p: Policy, e: ExprView) -> bool
    decreases e,
{
    match e {
        ExprView::Index { base, index } => p.exclude.contains(name_of(*base)) && exempt_expr(
            p,
            *base,
        ) && exempt_expr(p, *index),
        ExprView::Range { from, closed, to } => (match from {
            Some(f) => exempt_expr(p, *f),
            None => true,
        }) && (match to {
            Some(t) => exempt_expr(p, *t),
            None => true,
        }),
        ExprView::Reference { mutable, target } => exempt_expr(p, *target),
        ExprView::Assign { left, op, right } => exempt_expr(p, *left) && exempt_expr(p, *right),
        ExprView::MethodCall { receiver, method, turbofish, args } => !unwraps(
            p,
            *receiver,
            method,
        ) && exempt_expr(p, *receiver) && exempt_parts(p, turbofish) && exempt_exprs(p, args),
        ExprView::Field { base, member } => exempt_expr(p, *base),
        ExprView::Deref { target } => exempt_expr(p, *target),
        ExprView::Paren { inner } => exempt_expr(p, *inner),
        ExprView::Unsafe { body } => exempt_parts(p, body.parts),
        ExprView::Other { parts } => exempt_parts(p, parts),
    }
}

/// Whether each of `exprs` is exempt.
pub open spec fn exempt_exprs(p: Policy, exprs: Seq<ExprView>) -> bool
    decreases exprs,
{
    forall|i: int| 0 <= i < exprs.len() ==> exempt_expr(p, #[trigger] exprs[i])
}

/// Whether the piece is exempt.
pub open spec fn exempt_part(p: Policy, part: PartView) -> bool
    decreases part,
{
    match part {
        PartView::Token(_) => true,
        PartView::Expr(e) => exempt_expr(p, e),
        PartView::Block(b) => exempt_parts(p, b.parts),
    }
}

/// Whether each of `parts` is exempt.
pub open spec fn exempt_parts(p: Policy, parts: Seq<PartView>) -> bool
    decreases parts,
{
    forall|i: int| 0 <= i < parts.len() ==> exempt_part(p, #[trigger] parts[i])
}

/// A tree whose element accesses are all on excluded containers, and whose
/// `unwrap` calls are all exempt, is its own rewriting: whatever shapes the
/// accesses have, however they are nested, and in whatever context the tree
/// stands.
pub proof fn law_exempt_expr_stays(p: Policy, e: ExprView, c: Context)
    requires
        exempt_expr(p, e),
    ensures
        rewrite_expr(p, e, c) == e,
    decreases e,
{
    let value = Context::value();
    match e {
        ExprView::Index { base, index } => {
            law_exempt_expr_stays(p, *base, value);
            law_exempt_expr_stays(p, *index, value);
        },
        ExprView::Range { from, closed, to } => {
            match from {
                Some(f) => {
                    law_exempt_expr_stays(p, *f, value);
                },
                None => {},
            }
            match to {
                Some(t) => {
                    law_exempt_expr_stays(p, *t, value);
                },
                None => {},
            }
        },
        ExprView::Reference { mutable, target } => {
            assert(exempt_expr(p, *target));
            law_exempt_expr_stays(p, *target, value);
        },
        ExprView::Assign { left, op, right } => {
            law_exempt_expr_stays(p, *left, Context::target().at(*left));
            law_exempt_expr_stays(p, *right, value);
        },
        ExprView::MethodCall { receiver, method, turbofish, args } => {
            law_exempt_expr_stays(
                p,
                *receiver,
                Context::borrowed(p.mut_access.contains(method)).at(*receiver),
            );
            law_exempt_parts_stay(p, turbofish);
            law_exempt_exprs_stay(p, args);
        },
        ExprView::Field { base, member } => {
            law_exempt_expr_stays(
                p,
                *base,
                Context::borrowed(p.mut_access.contains(member)).at(*base),
            );
        },
        ExprView::Deref { target } => {
            law_exempt_expr_stays(p, *target, value);
        },
        ExprView::Paren { inner } => {
            law_exempt_expr_stays(p, *inner, value);
        },
        ExprView::Unsafe { body } => {
            law_exempt_parts_stay(p, body.parts);
            assert(rewrite_block(p, body, false) == body);
        },
        ExprView::Other { parts } => {
            law_exempt_parts_stay(p, parts);
        },
    }
}

/// Exempt arguments are their own rewriting.
pub proof fn law_exempt_exprs_stay(p: Policy, exprs: Seq<ExprView>)
    requires
        exempt_exprs(p, exprs),
    ensures
        rewrite_exprs(p, exprs) == exprs,
    decreases exprs,
{
    assert forall|i: int| 0 <= i < exprs.len() implies rewrite_exprs(p, exprs)[i] == exprs[i] by {
        law_exempt_expr_stays(p, exprs[i], Context::value());
    }
    assert(rewrite_exprs(p, exprs) =~= exprs);
}

/// An exempt row of syntax is its own rewriting.
pub proof fn law_exempt_parts_stay(p: Policy, parts: Seq<PartView>)
    requires
        exempt_parts(p, parts),
    ensures
        rewrite_parts(p, parts) == parts,
    decreases parts,
{
    assert forall|i: int| 0 <= i < parts.len() implies rewrite_parts(p, parts)[i] == parts[i] by {
        match parts[i] {
            PartView::Token(_) => {},
            PartView::Expr(e) => {
                law_exempt_expr_stays(p, e, Context::value());
            },
            PartView::Block(b) => {
                law_exempt_parts_stay(p, b.parts);
                assert(rewrite_block(p, b, false) == b);
            },
        }
    }
    assert(rewrite_parts(p, parts) =~= parts);
}

/// A function whose element accesses are all on excluded containers, and
/// whose `unwrap` calls are all exempt, comes out as it went in, but for the
/// one `unsafe` block around its body.
pub proof fn law_exempt_function_is_scoped(p: Policy, f: FunctionView)
    requires
        exempt_parts(p, f.header),
        exempt_parts(p, f.body.parts),
    ensures
        rewrite_function(p, f) == (FunctionView { header: f.header, body: scoped(f.body) }),
{
    law_exempt_parts_stay(p, f.header);
    law_exempt_parts_stay(p, f.body.parts);
    assert(rewrite_block(p, f.body, false) == f.body);
}

/// How many element accesses `e` holds, at any depth: all of them where
/// `all`, else those on a container whose name is in `names`.
pub open spec fn accesses(e: ExprView, names: Set<Seq<char>>, all: bool) -> nat
    decreases e,
{
    match e {
        ExprView::Index { base, index } => (if all || names.contains(name_of(*base)) {
            1nat
        } else {
            0nat
        }) + accesses(*base, names, all) + accesses(*index, names, all),
        ExprView::Range { from, closed, to } => (match from {
            Some(f) => accesses(*f, names, all),
            None => 0,
        }) + (match to {
            Some(t) => accesses(*t, names, all),
            None => 0,
        }),
        ExprView::Reference { mutable, target } => accesses(*target, names, all),
        ExprView::Assign { left, op, right } => accesses(*left, names, all) + accesses(
            *right,
            names,
            all,
        ),
        ExprView::MethodCall { receiver, method, turbofish, args } => accesses(
            *receiver,
            names,
            all,
        ) + parts_accesses(turbofish, names, all) + exprs_accesses(args, names, all),
        ExprView::Field { base, member } => accesses(*base, names, all),
        ExprView::Deref { target } => accesses(*target, names, all),
        ExprView::Paren { inner } => accesses(*inner, names, all),
        ExprView::Unsafe { body } => parts_accesses(body.parts, names, all),
        ExprView::Other { parts } => parts_accesses(parts, names, all),
    }
}

/// How many element accesses the expressions hold together.
pub open spec fn exprs_accesses(exprs: Seq<ExprView>, names: Set<Seq<char>>, all: bool) -> nat
    decreases exprs,
{
    if exprs.len() == 0 {
        0
    } else {
        exprs_accesses(exprs.drop_last(), names, all) + accesses(exprs.last(), names, all)
    }
}

/// How many element accesses the piece holds.
pub open spec fn part_accesses(part: PartView, names: Set<Seq<char>>, all: bool) -> nat
    decreases part,
{
    match part {
        PartView::Token(_) => 0,
        PartView::Expr(e) => accesses(e, names, all),
        PartView::Block(b) => parts_accesses(b.parts, names, all),
    }
}

/// How many element accesses the pieces hold together.
pub open spec fn parts_accesses(parts: Seq<PartView>, names: Set<Seq<char>>, all: bool) -> nat
    decreases parts,
{
    if parts.len() == 0 {
        0
    } else {
        parts_accesses(parts.drop_last(), names, all) + part_accesses(parts.last(), names, all)
    }
}

/// No access on an excluded container is lost, wherever in a tree it stands
/// and whatever stands around it: the rewritten tree holds at least as many
/// element accesses as the tree holds accesses on excluded containers.
pub proof fn law_excluded_accesses_are_kept(p: Policy, e: ExprView, c: Context)
    ensures
        accesses(rewrite_expr(p, e, c), p.exclude, true) >= accesses(e, p.exclude, false),
    decreases e,
{
    let value = Context::value();
    match e {
        ExprView::Index { base, index } => {
            law_excluded_accesses_are_kept(p, *base, value);
            law_excluded_accesses_are_kept(p, *index, value);
            let container = rewrite_expr(p, *base, value);
            let position = rewrite_expr(p, *index, value);
            let place = access(container, position, c.mutable);
            assert(seq![position].drop_last() =~= Seq::<ExprView>::empty());
            assert(seq![position].last() == position);
            assert(exprs_accesses(Seq::<ExprView>::empty(), p.exclude, true) == 0);
            assert(exprs_accesses(seq![position], p.exclude, true) == accesses(
                position,
                p.exclude,
                true,
            ));
            assert(parts_accesses(Seq::<PartView>::empty(), p.exclude, true) == 0);
            assert(accesses(place, p.exclude, true) == accesses(container, p.exclude, true)
                + accesses(position, p.exclude, true));
            assert(accesses(ExprView::Deref { target: Box::new(place) }, p.exclude, true)
                == accesses(place, p.exclude, true));
            assert(accesses(dereferenced(place), p.exclude, true) == accesses(
                place,
                p.exclude,
                true,
            ));
        },
        ExprView::Range { from, closed, to } => {
            match from {
                Some(f) => {
                    law_excluded_accesses_are_kept(p, *f, value);
                },
                None => {},
            }
            match to {
                Some(t) => {
                    law_excluded_accesses_are_kept(p, *t, value);
                },
                None => {},
            }
        },
        ExprView::Reference { mutable, target } => {
            law_excluded_accesses_are_kept(p, *target, value);
            law_excluded_accesses_are_kept(p, *target, Context::borrowed(mutable));
        },
        ExprView::Assign { left, op, right } => {
            law_excluded_accesses_are_kept(p, *left, Context::target().at(*left));
            law_excluded_accesses_are_kept(p, *right, value);
        },
        ExprView::MethodCall { receiver, method, turbofish, args } => {
            law_excluded_accesses_are_kept(
                p,
                *receiver,
                Context::borrowed(p.mut_access.contains(method)).at(*receiver),
            );
            law_excluded_accesses_are_kept_in_parts(p, turbofish);
            law_excluded_accesses_are_kept_in_exprs(p, args);
        },
        ExprView::Field { base, member } => {
            law_excluded_accesses_are_kept(
                p,
                *base,
                Context::borrowed(p.mut_access.contains(member)).at(*base),
            );
        },
        ExprView::Deref { target } => {
            law_excluded_accesses_are_kept(p, *target, value);
        },
        ExprView::Paren { inner } => {
            law_excluded_accesses_are_kept(p, *inner, value);
        },
        ExprView::Unsafe { body } => {
            law_excluded_accesses_are_kept_in_parts(p, body.parts);
            assert(rewrite_block(p, body, false).parts == rewrite_parts(p, body.parts));
        },
        ExprView::Other { parts } => {
            law_excluded_accesses_are_kept_in_parts(p, parts);
        },
    }
}

/// No access on an excluded container is lost from the arguments of a call.
pub proof fn law_excluded_accesses_are_kept_in_exprs(p: Policy, exprs: Seq<ExprView>)
    ensures
        exprs_accesses(rewrite_exprs(p, exprs), p.exclude, true) >= exprs_accesses(
            exprs,
            p.exclude,
            false,
        ),
    decreases exprs,
{
    if exprs.len() > 0 {
        law_excluded_accesses_are_kept_in_exprs(p, exprs.drop_last());
        law_excluded_accesses_are_kept(p, exprs.last(), Context::value());
        assert(rewrite_exprs(p, exprs).drop_last() =~= rewrite_exprs(p, exprs.drop_last()));
        assert(rewrite_exprs(p, exprs).last() == rewrite_expr(p, exprs.last(), Context::value()));
    }
}

/// No access on an excluded container is lost from a row of syntax.
pub proof fn law_excluded_accesses_are_kept_in_parts(p: Policy, parts: Seq<PartView>)
    ensures
        parts_accesses(rewrite_parts(p, parts), p.exclude, true) >= parts_accesses(
            parts,
            p.exclude,
            false,
        ),
    decreases parts,
{
    if parts.len() > 0 {
        law_excluded_accesses_are_kept_in_parts(p, parts.drop_last());
        assert(rewrite_parts(p, parts).drop_last() =~= rewrite_parts(p, parts.drop_last()));
        assert(rewrite_parts(p, parts).last() == rewrite_part(p, parts.last()));
        match parts.last() {
            PartView::Token(_) => {},
            PartView::Expr(e) => {
                law_excluded_accesses_are_kept(p, e, Context::value());
            },
            PartView::Block(b) => {
                law_excluded_accesses_are_kept_in_parts(p, b.parts);
                assert(rewrite_block(p, b, false).parts == rewrite_parts(p, b.parts));
            },
        }
        assert(part_accesses(rewrite_part(p, parts.last()), p.exclude, true) >= part_accesses(
            parts.last(),
            p.exclude,
            false,
        ));
    }
}

/// No access on an excluded container is lost from a function.
pub proof fn law_excluded_accesses_are_kept_in_function(p: Policy, f: FunctionView)
    ensures
        parts_accesses(rewrite_function(p, f).header, p.exclude, true) >= parts_accesses(
            f.header,
            p.exclude,
            false,
        ),
        parts_accesses(rewrite_function(p, f).body.parts, p.exclude, true) >= parts_accesses(
            f.body.parts,
            p.exclude,
            false,
        ),
{
    law_excluded_accesses_are_kept_in_parts(p, f.header);
    law_excluded_accesses_are_kept_in_parts(p, f.body.parts);
    let inner = rewrite_block(p, f.body, false);
    let wrapped = scoped(inner).parts;
    assert(inner.parts == rewrite_parts(p, f.body.parts));
    assert(wrapped.drop_last() =~= Seq::<PartView>::empty());
    assert(parts_accesses(wrapped.drop_last(), p.exclude, true) == 0);
    assert(part_accesses(wrapped.last(), p.exclude, true) == parts_accesses(
        inner.parts,
        p.exclude,
        true,
    ));
}

} // verus!
