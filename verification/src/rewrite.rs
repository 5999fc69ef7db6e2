//! The rewriting itself: one pass over the tree, from the root down, in
//! which every node is handed the context in which it stands.

use vstd::prelude::*;

use crate::config::{read, ConfigError, ConfigErrorView, Token, TokenView, tokens_view};
use crate::policy::{Args, Policy};
use crate::text::reads;
use crate::syntax::{
    exprs_view, name_of, parts_view, Block, BlockView, Expr, ExprView, Function, FunctionView,
    Part, PartView,
};

verus! {

/// What the node above asks of an element access.
#[derive(Clone, Copy, Debug, PartialEq, Eq, Structural)]
pub struct Context {
    /// The access stands where a place is wanted: under `&`, or before a
    /// method call or a field.
    pub reference: bool,
    /// The place is written to.
    pub mutable: bool,
}

impl Context {
    /// The context of an expression of which only the value is wanted. It is
    /// the context of every expression that no rule below gives another one.
    pub open spec fn value() -> Context {
        Context { reference: false, mutable: false }
    }

    /// The context of the left side of an assignment.
    pub open spec fn target() -> Context {
        Context { reference: false, mutable: true }
    }

    /// The context of the target of `&` or `&mut`.
    pub open spec fn borrowed(mutable: bool) -> Context {
        Context { reference: true, mutable }
    }

    /// The context that `self` leaves to the node `e`: only an element access
    /// takes a context from the node above it.
    pub open spec fn at(self, e: ExprView) -> Context {
        if e is Index {
            self
        } else {
            Context::value()
        }
    }
}

/// The name of the unchecked accessor.
pub open spec fn accessor(mutable: bool) -> Seq<char> {
    if mutable {
        "get_unchecked_mut"@
    } else {
        "get_unchecked"@
    }
}

/// The unchecked access `base.get_unchecked(index)`, or with
/// `get_unchecked_mut` where `mutable`: an expression for a reference to the
/// element.
pub open spec fn access(base: ExprView, index: ExprView, mutable: bool) -> ExprView {
    ExprView::MethodCall {
        receiver: Box::new(base),
        method: accessor(mutable),
        turbofish: Seq::empty(),
        args: seq![index],
    }
}

/// `(*e)`: the value behind the reference `e`.
pub open spec fn dereferenced(e: ExprView) -> ExprView {
    ExprView::Paren { inner: Box::new(ExprView::Deref { target: Box::new(e) }) }
}

/// Whether the policy has the call `receiver.method(..)` rewritten as an
/// unchecked unwrap.
pub open spec fn unwraps(p: Policy, receiver: ExprView, method: Seq<char>) -> bool {
    p.unwrap && method == "unwrap"@ && !p.unwrap_exclude.contains(name_of(receiver))
}

/// The name under which a call of `method` on `receiver` leaves the
/// rewriting.
pub open spec fn renamed(p: Policy, receiver: ExprView, method: Seq<char>) -> Seq<char> {
    if unwraps(p, receiver, method) {
        "unwrap_unchecked"@
    } else {
        method
    }
}

/// Whether the element access `base[index]` stays a checked access in the
/// context `c`: it does on an excluded container, and where the index is a
/// range and no place is wanted.
pub open spec fn stays_checked(p: Policy, base: ExprView, index: ExprView, c: Context) -> bool {
    p.exclude.contains(name_of(base)) || (index is Range && !c.reference)
}

/// The expression `e`, rewritten under the policy `p` in the context `c`.
///
/// Every node is rewritten once, and its parts are rewritten whatever
/// becomes of the node itself.
///
/// * An element access that stays checked keeps its shape. Of the others,
///   one that stands where a place is wanted becomes the unchecked access,
///   and one that stands for a value the dereferenced unchecked access.
///   Container and index are rewritten as values, whatever `c` is. The names
///   by which the policy knows container and receiver are those that they
///   have before they are rewritten.
/// * `&` before an element access that is not excluded gives way to the
///   unchecked access, which is a reference itself.
/// * The left side of an assignment is a place that is written to.
/// * The receiver of a method call, and the base of a field, is a place:
///   written to where the policy names the method or the field.
/// * A call of `unwrap` that the policy does not exempt has its method
///   renamed.
/// * Everything else keeps its shape.
pub open spec fn rewrite_expr(p: Policy, e: ExprView, c: Context) -> ExprView
    decreases e,
{
    match e {
        ExprView::Index { base, index } => {
            let container = rewrite_expr(p, *base, Context::value());
            let position = rewrite_expr(p, *index, Context::value());
            if stays_checked(p, *base, *index, c) {
                ExprView::Index { base: Box::new(container), index: Box::new(position) }
            } else if c.reference {
                access(container, position, c.mutable)
            } else {
                dereferenced(access(container, position, c.mutable))
            }
        },
        ExprView::Range { from, closed, to } => ExprView::Range {
            from: match from {
                Some(f) => Some(Box::new(rewrite_expr(p, *f, Context::value()))),
                None => None,
            },
            closed,
            to: match to {
                Some(t) => Some(Box::new(rewrite_expr(p, *t, Context::value()))),
                None => None,
            },
        },
        ExprView::Reference { mutable, target } => {
            if *target matches ExprView::Index { base, .. } && !p.exclude.contains(name_of(*base)) {
                rewrite_expr(p, *target, Context::borrowed(mutable))
            } else {
                ExprView::Reference {
                    mutable,
                    target: Box::new(rewrite_expr(p, *target, Context::value())),
                }
            }
        },
        ExprView::Assign { left, op, right } => ExprView::Assign {
            left: Box::new(rewrite_expr(p, *left, Context::target().at(*left))),
            op,
            right: Box::new(rewrite_expr(p, *right, Context::value())),
        },
        ExprView::MethodCall { receiver, method, turbofish, args } => ExprView::MethodCall {
            receiver: Box::new(
                rewrite_expr(
                    p,
                    *receiver,
                    Context::borrowed(p.mut_access.contains(method)).at(*receiver),
                ),
            ),
            method: renamed(p, *receiver, method),
            turbofish: rewrite_parts(p, turbofish),
            args: rewrite_exprs(p, args),
        },
        ExprView::Field { base, member } => ExprView::Field {
            base: Box::new(
                rewrite_expr(p, *base, Context::borrowed(p.mut_access.contains(member)).at(*base)),
            ),
            member,
        },
        ExprView::Deref { target } => ExprView::Deref {
            target: Box::new(rewrite_expr(p, *target, Context::value())),
        },
        ExprView::Paren { inner } => ExprView::Paren {
            inner: Box::new(rewrite_expr(p, *inner, Context::value())),
        },
        ExprView::Unsafe { body } => ExprView::Unsafe { body: rewrite_block(p, body, false) },
        ExprView::Other { parts } => ExprView::Other { parts: rewrite_parts(p, parts) },
    }
}

/// Each expression of `exprs`, rewritten as a value.
pub open spec fn rewrite_exprs(p: Policy, exprs: Seq<ExprView>) -> Seq<ExprView>
    decreases exprs,
{
    Seq::new(
        exprs.len(),
        |i: int|
            if 0 <= i < exprs.len() {
                rewrite_expr(p, exprs[i], Context::value())
            } else {
                arbitrary()
            },
    )
}

/// One piece of syntax, rewritten: a token stays, an expression is rewritten
/// as a value, a block is rewritten as an inner block.
pub open spec fn rewrite_part(p: Policy, part: PartView) -> PartView
    decreases part,
{
    match part {
        PartView::Token(t) => PartView::Token(t),
        PartView::Expr(e) => PartView::Expr(rewrite_expr(p, e, Context::value())),
        PartView::Block(b) => PartView::Block(rewrite_block(p, b, false)),
    }
}

/// Each piece of `parts`, rewritten.
pub open spec fn rewrite_parts(p: Policy, parts: Seq<PartView>) -> Seq<PartView>
    decreases parts,
{
    Seq::new(
        parts.len(),
        |i: int|
            if 0 <= i < parts.len() {
                rewrite_part(p, parts[i])
            } else {
                arbitrary()
            },
    )
}

/// The block `b` inside one `unsafe` block.
pub open spec fn scoped(b: BlockView) -> BlockView {
    BlockView { parts: seq![PartView::Expr(ExprView::Unsafe { body: b })] }
}

/// The block `b`, rewritten. The outermost block of a function has its
/// rewritten contents put inside one `unsafe` block; an inner block has not.
pub open spec fn rewrite_block(p: Policy, b: BlockView, outer: bool) -> BlockView
    decreases b,
{
    let inner = BlockView { parts: rewrite_parts(p, b.parts) };
    if outer {
        scoped(inner)
    } else {
        inner
    }
}

/// The function `f`, rewritten: its body is the outermost block.
pub open spec fn rewrite_function(p: Policy, f: FunctionView) -> FunctionView {
    FunctionView { header: rewrite_parts(p, f.header), body: rewrite_block(p, f.body, true) }
}

fn is_index(e: &Expr) -> (yes: bool)
    ensures
        yes == (e@ is Index),
{
    match e {
        Expr::Index { .. } => true,
        _ => false,
    }
}

fn is_range(e: &Expr) -> (yes: bool)
    ensures
        yes == (e@ is Range),
{
    match e {
        Expr::Range { .. } => true,
        _ => false,
    }
}

fn make_access(base: Expr, index: Expr, mutable: bool) -> (call: Expr)
    ensures
        call@ == access(base@, index@, mutable),
{
    let method = if mutable {
        String::from_str("get_unchecked_mut")
    } else {
        String::from_str("get_unchecked")
    };
    let turbofish: Vec<Part> = Vec::new();
    let mut args: Vec<Expr> = Vec::new();
    args.push(index);
    assert(parts_view(turbofish@) =~= Seq::<PartView>::empty());
    assert(exprs_view(args@) =~= seq![index@]);
    Expr::MethodCall { receiver: Box::new(base), method, turbofish, args }
}

fn make_dereferenced(e: Expr) -> (value: Expr)
    ensures
        value@ == dereferenced(e@),
{
    let inner = Expr::Deref { target: Box::new(e) };
    assert(inner@ == ExprView::Deref { target: Box::new(e@) });
    Expr::Paren { inner: Box::new(inner) }
}

impl Args {
    /// Rewrites the expression `e`, which stands in the context `c`.
    pub fn fold_expr(&self, e: &Expr, c: Context) -> (folded: Expr)
        ensures
            folded@ == rewrite_expr(self@, e@, c),
        decreases e,
    {
        let value = Context { reference: false, mutable: false };
        match e {
            Expr::Index { base, index } => {
                let checked = self.excludes(&base.name()) || (is_range(index) && !c.reference);
                let container = self.fold_expr(base, value);
                let position = self.fold_expr(index, value);
                if checked {
                    Expr::Index { base: Box::new(container), index: Box::new(position) }
                } else if c.reference {
                    make_access(container, position, c.mutable)
                } else {
                    make_dereferenced(make_access(container, position, c.mutable))
                }
            },
            Expr::Range { from, closed, to } => Expr::Range {
                from: match from {
                    Some(f) => Some(Box::new(self.fold_expr(f, value))),
                    None => None,
                },
                closed: *closed,
                to: match to {
                    Some(t) => Some(Box::new(self.fold_expr(t, value))),
                    None => None,
                },
            },
            Expr::Reference { mutable, target } => {
                let rewritten = match &**target {
                    Expr::Index { base, .. } => !self.excludes(&base.name()),
                    _ => false,
                };
                if rewritten {
                    self.fold_expr(target, Context { reference: true, mutable: *mutable })
                } else {
                    Expr::Reference {
                        mutable: *mutable,
                        target: Box::new(self.fold_expr(target, value)),
                    }
                }
            },
            Expr::Assign { left, op, right } => {
                let context = if is_index(left) {
                    Context { reference: false, mutable: true }
                } else {
                    value
                };
                Expr::Assign {
                    left: Box::new(self.fold_expr(left, context)),
                    op: op.clone(),
                    right: Box::new(self.fold_expr(right, value)),
                }
            },
            Expr::MethodCall { receiver, method, turbofish, args } => {
                let unwraps = self.rewrites_unwrap() && reads(method, "unwrap")
                    && !self.excludes_unwrap(&receiver.name());
                let context = if is_index(receiver) {
                    Context { reference: true, mutable: self.is_mut_access(method) }
                } else {
                    value
                };
                Expr::MethodCall {
                    receiver: Box::new(self.fold_expr(receiver, context)),
                    method: if unwraps {
                        String::from_str("unwrap_unchecked")
                    } else {
                        method.clone()
                    },
                    turbofish: self.fold_parts(turbofish),
                    args: self.fold_exprs(args),
                }
            },
            Expr::Field { base, member } => {
                let context = if is_index(base) {
                    Context { reference: true, mutable: self.is_mut_access(member) }
                } else {
                    value
                };
                Expr::Field {
                    base: Box::new(self.fold_expr(base, context)),
                    member: member.clone(),
                }
            },
            Expr::Deref { target } => Expr::Deref {
                target: Box::new(self.fold_expr(target, value)),
            },
            Expr::Paren { inner } => Expr::Paren { inner: Box::new(self.fold_expr(inner, value)) },
            Expr::Unsafe { body } => Expr::Unsafe { body: self.fold_block(body, false) },
            Expr::Other { parts } => Expr::Other { parts: self.fold_parts(parts) },
        }
    }

    fn fold_exprs(&self, exprs: &Vec<Expr>) -> (folded: Vec<Expr>)
        ensures
            exprs_view(folded@) == rewrite_exprs(self@, exprs_view(exprs@)),
        decreases exprs,
    {
        let mut folded: Vec<Expr> = Vec::new();
        let mut i: usize = 0;
        while i < exprs.len()
            invariant
                i <= exprs.len(),
                folded.len() == i,
                forall|j: int|
                    0 <= j < i ==> folded@[j]@ == rewrite_expr(
                        self@,
                        exprs@[j]@,
                        Context::value(),
                    ),
            decreases exprs.len() - i,
        {
            folded.push(self.fold_expr(&exprs[i], Context { reference: false, mutable: false }));
            i = i + 1;
        }
        assert(exprs_view(folded@) =~= rewrite_exprs(self@, exprs_view(exprs@)));
        folded
    }

    fn fold_part(&self, part: &Part) -> (folded: Part)
        ensures
            folded@ == rewrite_part(self@, part@),
        decreases part,
    {
        match part {
            Part::Token(t) => Part::Token(t.clone()),
            Part::Expr(e) => Part::Expr(
                self.fold_expr(e, Context { reference: false, mutable: false }),
            ),
            Part::Block(b) => Part::Block(self.fold_block(b, false)),
        }
    }

    fn fold_parts(&self, parts: &Vec<Part>) -> (folded: Vec<Part>)
        ensures
            parts_view(folded@) == rewrite_parts(self@, parts_view(parts@)),
        decreases parts,
    {
        let mut folded: Vec<Part> = Vec::new();
        let mut i: usize = 0;
        while i < parts.len()
            invariant
                i <= parts.len(),
                folded.len() == i,
                forall|j: int| 0 <= j < i ==> folded@[j]@ == rewrite_part(self@, parts@[j]@),
            decreases parts.len() - i,
        {
            folded.push(self.fold_part(&parts[i]));
            i = i + 1;
        }
        assert(parts_view(folded@) =~= rewrite_parts(self@, parts_view(parts@)));
        folded
    }

    /// Rewrites the block `b`. Where `outer`, the block is the body of the
    /// function, and its rewritten contents are put inside one `unsafe`
    /// block; the blocks inside it are rewritten without one.
    pub fn fold_block(&self, b: &Block, outer: bool) -> (folded: Block)
        ensures
            folded@ == rewrite_block(self@, b@, outer),
        decreases b,
    {
        let inner = Block { parts: self.fold_parts(&b.parts) };
        if outer {
            let mut parts: Vec<Part> = Vec::new();
            parts.push(Part::Expr(Expr::Unsafe { body: inner }));
            assert(parts_view(parts@) =~= seq![PartView::Expr(ExprView::Unsafe { body: inner@ })]);
            Block { parts }
        } else {
            inner
        }
    }

    /// Rewrites the function `f`.
    pub fn fold_function(&self, f: &Function) -> (folded: Function)
        ensures
            folded@ == rewrite_function(self@, f@),
    {
        Function { header: self.fold_parts(&f.header), body: self.fold_block(&f.body, true) }
    }
}

/// What the build has decided for the functions that carry the attribute.
#[derive(Clone, Copy, Debug, PartialEq, Eq, Structural)]
pub enum Mode {
    /// Every function is left as it is, with all its accesses checked.
    Checked,
    /// Every function is rewritten; `unwrap` says whether its `unwrap` calls
    /// are rewritten too.
    Unchecked { unwrap: bool },
}

/// What stands in the place of the function `input` that carries the
/// attribute with the argument list `metadata`: in checked mode the function
/// itself, whatever the argument list holds; else the function rewritten
/// under the policy of the argument list, or the first error in the list.
pub open spec fn expand(mode: Mode, metadata: Seq<TokenView>, input: FunctionView) -> Result<
    FunctionView,
    ConfigErrorView,
> {
    match mode {
        Mode::Checked => Ok(input),
        Mode::Unchecked { unwrap } => match read(metadata) {
            Ok(p) => Ok(rewrite_function(Policy { unwrap, ..p }, input)),
            Err(e) => Err(e),
        },
    }
}

/// The value of the result of an expansion.
pub open spec fn expansion(r: Result<Function, ConfigError>) -> Result<
    FunctionView,
    ConfigErrorView,
> {
    match r {
        Ok(f) => Ok(f@),
        Err(e) => Err(e@),
    }
}

/// Expands the attribute on the function `input`, with the argument list
/// `metadata`, as the build's `mode` says.
pub fn unchecked(metadata: &[Token], input: Function, mode: Mode) -> (output: Result<
    Function,
    ConfigError,
>)
    ensures
        expansion(output) == expand(mode, tokens_view(metadata@), input@),
{
    match mode {
        Mode::Checked => Ok(input),
        Mode::Unchecked { unwrap } => match Args::new(metadata) {
            Ok(args) => Ok(args.with_unwrap(unwrap).fold_function(&input)),
            Err(e) => Err(e),
        },
    }
}

} // verus!
