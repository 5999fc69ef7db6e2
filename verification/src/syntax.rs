//! The syntax tree of one function, as far as the rewriting reads it.
//!
//! The shapes of expression that the rewriting treats specially are told
//! apart, and so are those that it produces. Every other piece of syntax is
//! an [`Expr::Other`]: a row of tokens with the expressions and blocks that
//! stand among them.

use vstd::prelude::*;

use crate::text::{join_spaced, join_squeezed, spaced, squeezed, texts};

verus! {

/// An expression.
#[derive(Debug, PartialEq, Eq)]
pub enum Expr {
    /// `base[index]`
    Index { base: Box<Expr>, index: Box<Expr> },
    /// `from..to` or, when `closed`, `from..=to`; either bound may be absent.
    Range { from: Option<Box<Expr>>, closed: bool, to: Option<Box<Expr>> },
    /// `&target` or `&mut target`
    Reference { mutable: bool, target: Box<Expr> },
    /// `left op right`, where `op` is `=` or a compound assignment such as `+=`.
    Assign { left: Box<Expr>, op: String, right: Box<Expr> },
    /// `receiver.method(args)`, with the tokens of a turbofish, if any,
    /// between the method's name and the arguments.
    MethodCall { receiver: Box<Expr>, method: String, turbofish: Vec<Part>, args: Vec<Expr> },
    /// `base.member`
    Field { base: Box<Expr>, member: String },
    /// `*target`
    Deref { target: Box<Expr> },
    /// `(inner)`
    Paren { inner: Box<Expr> },
    /// `unsafe { .. }`
    Unsafe { body: Block },
    /// Any other expression.
    Other { parts: Vec<Part> },
}

/// One piece of a row of syntax.
#[derive(Debug, PartialEq, Eq)]
pub enum Part {
    /// A token that holds no expression.
    Token(String),
    /// An expression.
    Expr(Expr),
    /// A block in braces.
    Block(Block),
}

/// The contents of a pair of braces.
#[derive(Debug, PartialEq, Eq)]
pub struct Block {
    pub parts: Vec<Part>,
}

/// A function: what stands before its body, and the body.
#[derive(Debug, PartialEq, Eq)]
pub struct Function {
    pub header: Vec<Part>,
    pub body: Block,
}

/// The mathematical value of an [`Expr`].
pub enum ExprView {
    Index { base: Box<ExprView>, index: Box<ExprView> },
    Range { from: Option<Box<ExprView>>, closed: bool, to: Option<Box<ExprView>> },
    Reference { mutable: bool, target: Box<ExprView> },
    Assign { left: Box<ExprView>, op: Seq<char>, right: Box<ExprView> },
    MethodCall {
        receiver: Box<ExprView>,
        method: Seq<char>,
        turbofish: Seq<PartView>,
        args: Seq<ExprView>,
    },
    Field { base: Box<ExprView>, member: Seq<char> },
    Deref { target: Box<ExprView> },
    Paren { inner: Box<ExprView> },
    Unsafe { body: BlockView },
    Other { parts: Seq<PartView> },
}

/// The mathematical value of a [`Part`].
pub enum PartView {
    Token(Seq<char>),
    Expr(ExprView),
    Block(BlockView),
}

/// The mathematical value of a [`Block`].
pub struct BlockView {
    pub parts: Seq<PartView>,
}

/// The mathematical value of a [`Function`].
pub struct FunctionView {
    pub header: Seq<PartView>,
    pub body: BlockView,
}

/// The value of an expression.
pub open spec fn expr_view(e: Expr) -> ExprView
    decreases e,
{
    match e {
        Expr::Index { base, index } => ExprView::Index {
            base: Box::new(expr_view(*base)),
            index: Box::new(expr_view(*index)),
        },
        Expr::Range { from, closed, to } => ExprView::Range {
            from: match from {
                Some(f) => Some(Box::new(expr_view(*f))),
                None => None,
            },
            closed,
            to: match to {
                Some(t) => Some(Box::new(expr_view(*t))),
                None => None,
            },
        },
        Expr::Reference { mutable, target } => ExprView::Reference {
            mutable,
            target: Box::new(expr_view(*target)),
        },
        Expr::Assign { left, op, right } => ExprView::Assign {
            left: Box::new(expr_view(*left)),
            op: op@,
            right: Box::new(expr_view(*right)),
        },
        Expr::MethodCall { receiver, method, turbofish, args } => ExprView::MethodCall {
            receiver: Box::new(expr_view(*receiver)),
            method: method@,
            turbofish: parts_view(turbofish@),
            args: exprs_view(args@),
        },
        Expr::Field { base, member } => ExprView::Field {
            base: Box::new(expr_view(*base)),
            member: member@,
        },
        Expr::Deref { target } => ExprView::Deref { target: Box::new(expr_view(*target)) },
        Expr::Paren { inner } => ExprView::Paren { inner: Box::new(expr_view(*inner)) },
        Expr::Unsafe { body } => ExprView::Unsafe { body: block_view(body) },
        Expr::Other { parts } => ExprView::Other { parts: parts_view(parts@) },
    }
}

/// The values of a list of expressions.
pub open spec fn exprs_view(exprs: Seq<Expr>) -> Seq<ExprView>
    decreases exprs,
{
    Seq::new(
        exprs.len(),
        |i: int|
            if 0 <= i < exprs.len() {
                expr_view(exprs[i])
            } else {
                arbitrary()
            },
    )
}

/// The value of a piece of syntax.
pub open spec fn part_view(p: Part) -> PartView
    decreases p,
{
    match p {
        Part::Token(t) => PartView::Token(t@),
        Part::Expr(e) => PartView::Expr(expr_view(e)),
        Part::Block(b) => PartView::Block(block_view(b)),
    }
}

/// The values of a row of syntax.
pub open spec fn parts_view(parts: Seq<Part>) -> Seq<PartView>
    decreases parts,
{
    Seq::new(
        parts.len(),
        |i: int|
            if 0 <= i < parts.len() {
                part_view(parts[i])
            } else {
                arbitrary()
            },
    )
}

/// The value of a block.
pub open spec fn block_view(b: Block) -> BlockView
    decreases b,
{
    BlockView { parts: parts_view(b.parts@) }
}

impl View for Expr {
    type V = ExprView;

    open spec fn view(&self) -> ExprView {
        expr_view(*self)
    }
}

impl View for Part {
    type V = PartView;

    open spec fn view(&self) -> PartView {
        part_view(*self)
    }
}

impl View for Block {
    type V = BlockView;

    open spec fn view(&self) -> BlockView {
        block_view(*self)
    }
}

impl View for Function {
    type V = FunctionView;

    open spec fn view(&self) -> FunctionView {
        FunctionView { header: parts_view(self.header@), body: block_view(self.body) }
    }
}

/// A copy of an expression.
fn copy_expr(e: &Expr) -> (copy: Expr)
    ensures
        copy@ == e@,
    decreases e,
{
    match e {
        Expr::Index { base, index } => Expr::Index {
            base: Box::new(copy_expr(base)),
            index: Box::new(copy_expr(index)),
        },
        Expr::Range { from, closed, to } => Expr::Range {
            from: match from {
                Some(f) => Some(Box::new(copy_expr(f))),
                None => None,
            },
            closed: *closed,
            to: match to {
                Some(t) => Some(Box::new(copy_expr(t))),
                None => None,
            },
        },
        Expr::Reference { mutable, target } => Expr::Reference {
            mutable: *mutable,
            target: Box::new(copy_expr(target)),
        },
        Expr::Assign { left, op, right } => Expr::Assign {
            left: Box::new(copy_expr(left)),
            op: op.clone(),
            right: Box::new(copy_expr(right)),
        },
        Expr::MethodCall { receiver, method, turbofish, args } => Expr::MethodCall {
            receiver: Box::new(copy_expr(receiver)),
            method: method.clone(),
            turbofish: copy_parts(turbofish),
            args: copy_exprs(args),
        },
        Expr::Field { base, member } => Expr::Field {
            base: Box::new(copy_expr(base)),
            member: member.clone(),
        },
        Expr::Deref { target } => Expr::Deref { target: Box::new(copy_expr(target)) },
        Expr::Paren { inner } => Expr::Paren { inner: Box::new(copy_expr(inner)) },
        Expr::Unsafe { body } => Expr::Unsafe { body: copy_block(body) },
        Expr::Other { parts } => Expr::Other { parts: copy_parts(parts) },
    }
}

/// A copy of a list of expressions.
fn copy_exprs(exprs: &Vec<Expr>) -> (copy: Vec<Expr>)
    ensures
        exprs_view(copy@) == exprs_view(exprs@),
    decreases exprs,
{
    let mut copy: Vec<Expr> = Vec::new();
    let mut i: usize = 0;
    while i < exprs.len()
        invariant
            i <= exprs.len(),
            copy.len() == i,
            forall|j: int| 0 <= j < i ==> copy@[j]@ == exprs@[j]@,
        decreases exprs.len() - i,
    {
        copy.push(copy_expr(&exprs[i]));
        i = i + 1;
    }
    assert(exprs_view(copy@) =~= exprs_view(exprs@));
    copy
}

/// A copy of a piece of syntax.
fn copy_part(p: &Part) -> (copy: Part)
    ensures
        copy@ == p@,
    decreases p,
{
    match p {
        Part::Token(t) => Part::Token(t.clone()),
        Part::Expr(e) => Part::Expr(copy_expr(e)),
        Part::Block(b) => Part::Block(copy_block(b)),
    }
}

/// A copy of a row of syntax.
fn copy_parts(parts: &Vec<Part>) -> (copy: Vec<Part>)
    ensures
        parts_view(copy@) == parts_view(parts@),
    decreases parts,
{
    let mut copy: Vec<Part> = Vec::new();
    let mut i: usize = 0;
    while i < parts.len()
        invariant
            i <= parts.len(),
            copy.len() == i,
            forall|j: int| 0 <= j < i ==> copy@[j]@ == parts@[j]@,
        decreases parts.len() - i,
    {
        copy.push(copy_part(&parts[i]));
        i = i + 1;
    }
    assert(parts_view(copy@) =~= parts_view(parts@));
    copy
}

/// A copy of a block.
fn copy_block(b: &Block) -> (copy: Block)
    ensures
        copy@ == b@,
    decreases b,
{
    Block { parts: copy_parts(&b.parts) }
}

impl Clone for Expr {
    fn clone(&self) -> (copy: Expr)
        ensures
            copy@ == self@,
    {
        copy_expr(self)
    }
}

impl Clone for Part {
    fn clone(&self) -> (copy: Part)
        ensures
            copy@ == self@,
    {
        copy_part(self)
    }
}

impl Clone for Block {
    fn clone(&self) -> (copy: Block)
        ensures
            copy@ == self@,
    {
        copy_block(self)
    }
}

impl Clone for Function {
    fn clone(&self) -> (copy: Function)
        ensures
            copy@ == self@,
    {
        Function { header: copy_parts(&self.header), body: copy_block(&self.body) }
    }
}

/// The tokens of an expression, in the order in which they are written.
pub open spec fn expr_tokens(e: ExprView) -> Seq<Seq<char>>
    decreases e,
{
    match e {
        ExprView::Index { base, index } => expr_tokens(*base) + seq!["["@] + expr_tokens(*index)
            + seq!["]"@],
        ExprView::Range { from, closed, to } => (match from {
            Some(f) => expr_tokens(*f),
            None => Seq::empty(),
        }) + seq![if closed { "..="@ } else { ".."@ }] + (match to {
            Some(t) => expr_tokens(*t),
            None => Seq::empty(),
        }),
        ExprView::Reference { mutable, target } => seq!["&"@] + (if mutable {
            seq!["mut"@]
        } else {
            Seq::empty()
        }) + expr_tokens(*target),
        ExprView::Assign { left, op, right } => expr_tokens(*left) + seq![op] + expr_tokens(
            *right,
        ),
        ExprView::MethodCall { receiver, method, turbofish, args } => expr_tokens(*receiver)
            + seq!["."@, method] + parts_tokens(turbofish) + seq!["("@] + args_tokens(args)
            + seq![")"@],
        ExprView::Field { base, member } => expr_tokens(*base) + seq!["."@, member],
        ExprView::Deref { target } => seq!["*"@] + expr_tokens(*target),
        ExprView::Paren { inner } => seq!["("@] + expr_tokens(*inner) + seq![")"@],
        ExprView::Unsafe { body } => seq!["unsafe"@] + block_tokens(body),
        ExprView::Other { parts } => parts_tokens(parts),
    }
}

/// The tokens of the arguments of a call, with a comma between one argument
/// and the next.
pub open spec fn args_tokens(args: Seq<ExprView>) -> Seq<Seq<char>>
    decreases args,
{
    if args.len() == 0 {
        Seq::empty()
    } else if args.len() == 1 {
        expr_tokens(args[0])
    } else {
        args_tokens(args.drop_last()) + seq![","@] + expr_tokens(args.last())
    }
}

/// The tokens of one piece of syntax.
pub open spec fn part_tokens(p: PartView) -> Seq<Seq<char>>
    decreases p,
{
    match p {
        PartView::Token(t) => seq![t],
        PartView::Expr(e) => expr_tokens(e),
        PartView::Block(b) => block_tokens(b),
    }
}

/// The tokens of a row of syntax.
pub open spec fn parts_tokens(parts: Seq<PartView>) -> Seq<Seq<char>>
    decreases parts,
{
    if parts.len() == 0 {
        Seq::empty()
    } else {
        parts_tokens(parts.drop_last()) + part_tokens(parts.last())
    }
}

/// The tokens of a block: its contents between braces.
pub open spec fn block_tokens(b: BlockView) -> Seq<Seq<char>>
    decreases b,
{
    seq!["{"@] + parts_tokens(b.parts) + seq!["}"@]
}

/// The tokens of a function.
pub open spec fn function_tokens(f: FunctionView) -> Seq<Seq<char>> {
    parts_tokens(f.header) + block_tokens(f.body)
}

/// The name by which a policy knows an expression: its text without spaces.
pub open spec fn name_of(e: ExprView) -> Seq<char> {
    squeezed(expr_tokens(e))
}

fn put(out: &mut Vec<String>, token: &str)
    ensures
        texts(final(out)@) == texts(old(out)@).push(token@),
{
    out.push(String::from_str(token));
    assert(texts(out@) =~= texts(old(out)@).push(token@));
}

fn write_expr(e: &Expr, out: &mut Vec<String>)
    ensures
        texts(final(out)@) == texts(old(out)@) + expr_tokens(e@),
    decreases e,
{
    match e {
        Expr::Index { base, index } => {
            write_expr(base, out);
            put(out, "[");
            write_expr(index, out);
            put(out, "]");
        },
        Expr::Range { from, closed, to } => {
            match from {
                Some(f) => {
                    write_expr(f, out);
                },
                None => {},
            }
            if *closed {
                put(out, "..=");
            } else {
                put(out, "..");
            }
            match to {
                Some(t) => {
                    write_expr(t, out);
                },
                None => {},
            }
        },
        Expr::Reference { mutable, target } => {
            put(out, "&");
            if *mutable {
                put(out, "mut");
            }
            write_expr(target, out);
        },
        Expr::Assign { left, op, right } => {
            write_expr(left, out);
            put(out, op.as_str());
            write_expr(right, out);
        },
        Expr::MethodCall { receiver, method, turbofish, args } => {
            write_expr(receiver, out);
            put(out, ".");
            put(out, method.as_str());
            write_parts(turbofish, out);
            put(out, "(");
            write_args(args, out);
            put(out, ")");
        },
        Expr::Field { base, member } => {
            write_expr(base, out);
            put(out, ".");
            put(out, member.as_str());
        },
        Expr::Deref { target } => {
            put(out, "*");
            write_expr(target, out);
        },
        Expr::Paren { inner } => {
            put(out, "(");
            write_expr(inner, out);
            put(out, ")");
        },
        Expr::Unsafe { body } => {
            put(out, "unsafe");
            write_block(body, out);
        },
        Expr::Other { parts } => {
            write_parts(parts, out);
        },
    }
}

fn write_args(args: &Vec<Expr>, out: &mut Vec<String>)
    ensures
        texts(final(out)@) == texts(old(out)@) + args_tokens(exprs_view(args@)),
    decreases args,
{
    let ghost all = exprs_view(args@);
    let mut i: usize = 0;
    while i < args.len()
        invariant
            i <= args.len(),
            all == exprs_view(args@),
            texts(out@) == texts(old(out)@) + args_tokens(all.subrange(0, i as int)),
        decreases args.len() - i,
    {
        let ghost before = all.subrange(0, i as int);
        let ghost after = all.subrange(0, i + 1);
        assert(after.drop_last() =~= before);
        assert(after.last() == args@[i as int]@);
        if i > 0 {
            put(out, ",");
        }
        write_expr(&args[i], out);
        assert(after.len() == 1 ==> after[0] == after.last());
        i = i + 1;
    }
    assert(all.subrange(0, args.len() as int) =~= all);
}

fn write_part(p: &Part, out: &mut Vec<String>)
    ensures
        texts(final(out)@) == texts(old(out)@) + part_tokens(p@),
    decreases p,
{
    match p {
        Part::Token(t) => {
            put(out, t.as_str());
        },
        Part::Expr(e) => {
            write_expr(e, out);
        },
        Part::Block(b) => {
            write_block(b, out);
        },
    }
}

fn write_parts(parts: &Vec<Part>, out: &mut Vec<String>)
    ensures
        texts(final(out)@) == texts(old(out)@) + parts_tokens(parts_view(parts@)),
    decreases parts,
{
    let ghost all = parts_view(parts@);
    let mut i: usize = 0;
    while i < parts.len()
        invariant
            i <= parts.len(),
            all == parts_view(parts@),
            texts(out@) == texts(old(out)@) + parts_tokens(all.subrange(0, i as int)),
        decreases parts.len() - i,
    {
        let ghost before = all.subrange(0, i as int);
        let ghost after = all.subrange(0, i + 1);
        assert(after.drop_last() =~= before);
        assert(after.last() == parts@[i as int]@);
        write_part(&parts[i], out);
        i = i + 1;
    }
    assert(all.subrange(0, parts.len() as int) =~= all);
}

fn write_block(b: &Block, out: &mut Vec<String>)
    ensures
        texts(final(out)@) == texts(old(out)@) + block_tokens(b@),
    decreases b,
{
    put(out, "{");
    write_parts(&b.parts, out);
    put(out, "}");
}

impl Expr {
    /// The tokens of the expression, in the order in which they are written.
    pub fn tokens(&self) -> (tokens: Vec<String>)
        ensures
            texts(tokens@) == expr_tokens(self@),
    {
        let mut tokens: Vec<String> = Vec::new();
        assert(texts(tokens@) =~= Seq::<Seq<char>>::empty());
        write_expr(self, &mut tokens);
        tokens
    }

    /// The name by which a policy knows the expression.
    pub fn name(&self) -> (name: String)
        ensures
            name@ == name_of(self@),
    {
        join_squeezed(&self.tokens())
    }

    /// The expression as text, with one space between a token and the next.
    pub fn source(&self) -> (source: String)
        ensures
            source@ == spaced(expr_tokens(self@)),
    {
        join_spaced(&self.tokens())
    }
}

impl Block {
    /// The tokens of the block, in the order in which they are written.
    pub fn tokens(&self) -> (tokens: Vec<String>)
        ensures
            texts(tokens@) == block_tokens(self@),
    {
        let mut tokens: Vec<String> = Vec::new();
        assert(texts(tokens@) =~= Seq::<Seq<char>>::empty());
        write_block(self, &mut tokens);
        tokens
    }

    /// The block as text, with one space between a token and the next.
    pub fn source(&self) -> (source: String)
        ensures
            source@ == spaced(block_tokens(self@)),
    {
        join_spaced(&self.tokens())
    }
}

impl Function {
    /// The tokens of the function, in the order in which they are written.
    pub fn tokens(&self) -> (tokens: Vec<String>)
        ensures
            texts(tokens@) == function_tokens(self@),
    {
        let mut tokens: Vec<String> = Vec::new();
        assert(texts(tokens@) =~= Seq::<Seq<char>>::empty());
        write_parts(&self.header, &mut tokens);
        write_block(&self.body, &mut tokens);
        tokens
    }

    /// The function as text, with one space between a token and the next.
    pub fn source(&self) -> (source: String)
        ensures
            source@ == spaced(function_tokens(self@)),
    {
        join_spaced(&self.tokens())
    }
}

} // verus!
