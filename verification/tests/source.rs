use proc_macro2::{Delimiter, Group, Ident, Spacing, Span, TokenStream, TokenTree};
use quote::ToTokens;
use syn::fold::{fold_block, fold_expr, fold_method_turbofish, fold_signature, Fold};
use syn::{AttrStyle, ItemFn, RangeLimits, UnOp};
use unchecked::{unchecked, Args, Block, ConfigError, Expr, Function, Mode, Part, Token};

const MARKER: &str = "__unchecked_part_";

enum Child {
    Expr(syn::Expr),
    Block(syn::Block),
}

struct Aside {
    children: Vec<Child>,
}

impl Aside {
    fn new() -> Aside {
        Aside { children: Vec::new() }
    }

    fn marker(&self) -> syn::Expr {
        let name = format!("{}{}", MARKER, self.children.len());
        syn::Expr::Path(syn::ExprPath {
            attrs: Vec::new(),
            qself: None,
            path: syn::Path::from(Ident::new(&name, Span::call_site())),
        })
    }

    fn braced_marker(&self) -> syn::Block {
        syn::Block { brace_token: Default::default(), stmts: vec![syn::Stmt::Expr(self.marker())] }
    }

    fn child(&self, ident: &Ident) -> Option<&Child> {
        let number = ident.to_string().strip_prefix(MARKER)?.parse::<usize>().ok()?;
        self.children.get(number)
    }

    /// What a pair of braces with nothing but a marker between them stands
    /// for: the braces are the marker's own.
    fn braced(&self, group: &Group) -> Option<Part> {
        if group.delimiter() != Delimiter::Brace {
            return None;
        }
        let mut trees = group.stream().into_iter();
        match (trees.next(), trees.next()) {
            (Some(TokenTree::Ident(ident)), None) => match self.child(&ident)? {
                Child::Block(child) => Some(Part::Block(block(child.clone()))),
                Child::Expr(child) => Some(Part::Expr(expr(child.clone()))),
            },
            _ => None,
        }
    }

    fn parts(&self, stream: TokenStream, out: &mut Vec<Part>) {
        let mut glued = String::new();
        for tree in stream {
            match tree {
                TokenTree::Punct(punct) => {
                    glued.push(punct.as_char());
                    if punct.spacing() == Spacing::Alone {
                        out.push(Part::Token(std::mem::take(&mut glued)));
                    }
                }
                TokenTree::Ident(ident) => match self.child(&ident) {
                    Some(Child::Expr(child)) if glued.is_empty() => {
                        out.push(Part::Expr(expr(child.clone())));
                    }
                    _ => {
                        glued.push_str(&ident.to_string());
                        out.push(Part::Token(std::mem::take(&mut glued)));
                    }
                },
                TokenTree::Literal(literal) => out.push(Part::Token(literal.to_string())),
                TokenTree::Group(group) => match self.braced(&group) {
                    Some(part) => out.push(part),
                    None => {
                        let (open, close) = match group.delimiter() {
                            Delimiter::Brace => ("{", "}"),
                            Delimiter::Bracket => ("[", "]"),
                            Delimiter::Parenthesis | Delimiter::None => ("(", ")"),
                        };
                        out.push(Part::Token(open.to_string()));
                        self.parts(group.stream(), out);
                        out.push(Part::Token(close.to_string()));
                    }
                },
            }
        }
    }
}

/// Whether an expression ends in a block, so that it is printed without a
/// comma or braces of its own where other expressions get them.
fn ends_in_block(node: &syn::Expr) -> bool {
    matches!(
        node,
        syn::Expr::Unsafe(_)
            | syn::Expr::Block(_)
            | syn::Expr::If(_)
            | syn::Expr::Match(_)
            | syn::Expr::While(_)
            | syn::Expr::Loop(_)
            | syn::Expr::ForLoop(_)
            | syn::Expr::Async(_)
            | syn::Expr::TryBlock(_)
    )
}

impl Fold for Aside {
    fn fold_expr(&mut self, node: syn::Expr) -> syn::Expr {
        let marker = if ends_in_block(&node) {
            syn::Expr::Block(syn::ExprBlock {
                attrs: Vec::new(),
                label: None,
                block: self.braced_marker(),
            })
        } else {
            self.marker()
        };
        self.children.push(Child::Expr(node));
        marker
    }

    fn fold_block(&mut self, node: syn::Block) -> syn::Block {
        let marker = self.braced_marker();
        self.children.push(Child::Block(node));
        marker
    }
}

fn boxed(node: syn::Expr) -> Box<Expr> {
    Box::new(expr(node))
}

fn other(node: syn::Expr) -> Expr {
    let mut aside = Aside::new();
    let shell = fold_expr(&mut aside, node);
    let mut parts = Vec::new();
    aside.parts(shell.to_token_stream(), &mut parts);
    Expr::Other { parts }
}

fn expr(node: syn::Expr) -> Expr {
    match node {
        syn::Expr::Index(e) if e.attrs.is_empty() => {
            Expr::Index { base: boxed(*e.expr), index: boxed(*e.index) }
        }
        syn::Expr::Range(e) if e.attrs.is_empty() => Expr::Range {
            from: e.from.map(|from| boxed(*from)),
            closed: matches!(e.limits, RangeLimits::Closed(_)),
            to: e.to.map(|to| boxed(*to)),
        },
        syn::Expr::Reference(e) if e.attrs.is_empty() => {
            Expr::Reference { mutable: e.mutability.is_some(), target: boxed(*e.expr) }
        }
        syn::Expr::Assign(e) if e.attrs.is_empty() => {
            Expr::Assign { left: boxed(*e.left), op: "=".to_string(), right: boxed(*e.right) }
        }
        syn::Expr::AssignOp(e) if e.attrs.is_empty() => Expr::Assign {
            left: boxed(*e.left),
            op: e.op.to_token_stream().to_string(),
            right: boxed(*e.right),
        },
        syn::Expr::MethodCall(e) if e.attrs.is_empty() => {
            let mut turbofish = Vec::new();
            if let Some(node) = e.turbofish {
                let mut aside = Aside::new();
                let shell = fold_method_turbofish(&mut aside, node);
                aside.parts(shell.to_token_stream(), &mut turbofish);
            }
            Expr::MethodCall {
                receiver: boxed(*e.receiver),
                method: e.method.to_string(),
                turbofish,
                args: e.args.into_iter().map(expr).collect(),
            }
        }
        syn::Expr::Field(e) if e.attrs.is_empty() => {
            Expr::Field { base: boxed(*e.base), member: e.member.to_token_stream().to_string() }
        }
        syn::Expr::Unary(e) if e.attrs.is_empty() && matches!(e.op, UnOp::Deref(_)) => {
            Expr::Deref { target: boxed(*e.expr) }
        }
        syn::Expr::Paren(e) if e.attrs.is_empty() => Expr::Paren { inner: boxed(*e.expr) },
        syn::Expr::Unsafe(e) if e.attrs.is_empty() => Expr::Unsafe { body: block(e.block) },
        node => other(node),
    }
}

fn block(node: syn::Block) -> Block {
    let mut aside = Aside::new();
    let shell = fold_block(&mut aside, node);
    let mut stream = TokenStream::new();
    for statement in &shell.stmts {
        statement.to_tokens(&mut stream);
    }
    let mut parts = Vec::new();
    aside.parts(stream, &mut parts);
    Block { parts }
}

fn function(item: ItemFn) -> Function {
    let mut aside = Aside::new();
    let mut outside = TokenStream::new();
    let mut inside = TokenStream::new();
    for attribute in item.attrs {
        match attribute.style {
            AttrStyle::Outer => attribute.to_tokens(&mut outside),
            AttrStyle::Inner(_) => attribute.to_tokens(&mut inside),
        }
    }
    item.vis.to_tokens(&mut outside);
    fold_signature(&mut aside, item.sig).to_tokens(&mut outside);
    let mut header = Vec::new();
    aside.parts(outside, &mut header);
    let mut parts = Vec::new();
    aside.parts(inside, &mut parts);
    parts.extend(block(*item.block).parts);
    Function { header, body: Block { parts } }
}

fn arguments(text: &str) -> Vec<Token> {
    text.parse::<TokenStream>()
        .unwrap()
        .into_iter()
        .map(|tree| match tree {
            TokenTree::Ident(ident) => Token::Ident(ident.to_string()),
            TokenTree::Punct(punct) => Token::Punct(punct.to_string()),
            TokenTree::Group(group) => Token::Group(group.to_string()),
            TokenTree::Literal(literal) => Token::Literal(literal.to_string()),
        })
        .collect()
}

fn flatten(stream: TokenStream, out: &mut Vec<String>) {
    for tree in stream {
        match tree {
            TokenTree::Group(group) => {
                let (open, close) = match group.delimiter() {
                    Delimiter::Brace => ("{", "}"),
                    Delimiter::Bracket => ("[", "]"),
                    Delimiter::Parenthesis | Delimiter::None => ("(", ")"),
                };
                out.push(open.to_string());
                flatten(group.stream(), out);
                out.push(close.to_string());
            }
            tree => out.push(tree.to_string()),
        }
    }
}

/// The tokens of `source`, one by one.
fn printed(source: &str) -> Vec<String> {
    let mut tokens = Vec::new();
    flatten(source.parse::<TokenStream>().unwrap(), &mut tokens);
    tokens
}

/// Fails with the place of the first difference between two rows of tokens.
fn assert_same(left: &[String], right: &[String]) {
    let at = left.iter().zip(right).position(|(l, r)| l != r).unwrap_or(left.len().min(right.len()));
    let near = |tokens: &[String]| tokens[at.saturating_sub(8)..tokens.len().min(at + 8)].join(" ");
    assert!(left == right, "token {}: `{}` against `{}`", at, near(left), near(right));
}

fn rewritten(arguments_text: &str, source: &str) -> Vec<String> {
    let item = syn::parse_str::<ItemFn>(source).unwrap();
    let output = unchecked(&arguments(arguments_text), function(item), Mode::Unchecked { unwrap: true })
        .unwrap()
        .source();
    assert!(syn::parse_str::<ItemFn>(&output).is_ok(), "{}", output);
    printed(&output)
}

fn rewritten_expr(args: &Args, source: &str) -> Vec<String> {
    let folded = args
        .fold_expr(
            &expr(syn::parse_str::<syn::Expr>(source).unwrap()),
            unchecked::Context { reference: false, mutable: false },
        )
        .source();
    assert!(syn::parse_str::<syn::Expr>(&folded).is_ok(), "{}", folded);
    printed(&folded)
}

#[test]
fn parsed_function_is_rewritten() {
    let source = "pub fn sum(v: &[u32], w: &mut Vec<u32>, n: usize) -> u32 {
        let mut total = 0;
        for i in 0..n {
            total += v[i];
            w[i] = v[i] + 1;
        }
        let first = &v[0];
        let part = &mut w[1..n];
        part[0] = *first;
        total
    }";
    let expected = "pub fn sum(v: &[u32], w: &mut Vec<u32>, n: usize) -> u32 { unsafe {
        let mut total = 0;
        for i in 0..n {
            total += (*v.get_unchecked(i));
            (*w.get_unchecked_mut(i)) = (*v.get_unchecked(i)) + 1;
        }
        let first = v.get_unchecked(0);
        let part = w.get_unchecked_mut(1..n);
        (*part.get_unchecked_mut(0)) = *first;
        total
    } }";
    assert_eq!(rewritten("", source), printed(expected));
}

#[test]
fn parsed_function_without_sites_is_only_wrapped() {
    let source = "fn f<'a, T: Clone>(x: &'a T, y: Option<T>) -> T {
        let z = match y { Some(t) => t, None => x.clone() };
        if true { return z; }
        loop { break; }
        let c = |a: u8| -> u8 { a + 1 };
        println!(\"{}\", c(1));
        z
    }";
    let expected = "fn f<'a, T: Clone>(x: &'a T, y: Option<T>) -> T { unsafe {
        let z = match y { Some(t) => t, None => x.clone() };
        if true { return z; }
        loop { break; }
        let c = |a: u8| -> u8 { a + 1 };
        println!(\"{}\", c(1));
        z
    } }";
    assert_eq!(rewritten("exclude = [\"x\"], mut = [\"clone\"]", source), printed(expected));
}

#[test]
fn parsed_policy_is_applied() {
    let source = "fn f(&mut self, v: &mut Vec<Vec<u8>>, o: Option<u8>, p: Option<u8>) {
        self.data[0] = v[1][2];
        v[0].push(o.unwrap());
        v[1].len();
        let _ = p.unwrap();
        let _ = self.items[0].count;
    }";
    let expected = "fn f(&mut self, v: &mut Vec<Vec<u8>>, o: Option<u8>, p: Option<u8>) { unsafe {
        self.data[0] = (*(*v.get_unchecked(1)).get_unchecked(2));
        v.get_unchecked_mut(0).push(o.unwrap_unchecked());
        v.get_unchecked(1).len();
        let _ = p.unwrap();
        let _ = self.items.get_unchecked(0).count;
    } }";
    assert_eq!(
        rewritten(
            "exclude = [\"self.data\"], mut = [\"push\"], unwrap_exclude = [\"p\"]",
            source
        ),
        printed(expected)
    );
}

#[test]
fn parsed_expressions_are_rewritten() {
    let args = Args::empty();
    assert_eq!(rewritten_expr(&args, "a[b[i]]"), printed("(*a.get_unchecked((*b.get_unchecked(i))))"));
    assert_eq!(rewritten_expr(&args, "&mut a[b[i]]"), printed("a.get_unchecked_mut((*b.get_unchecked(i)))"));
    assert_eq!(rewritten_expr(&args, "a[i..j]"), printed("a[i..j]"));
    assert_eq!(rewritten_expr(&args, "&a[i..=j]"), printed("a.get_unchecked(i..=j)"));
    assert_eq!(rewritten_expr(&args, "&a[..]"), printed("a.get_unchecked(..)"));
    assert_eq!(rewritten_expr(&args, "a[i] += f(b[j], c)"), printed("(*a.get_unchecked_mut(i)) += f((*b.get_unchecked(j)), c)"));
    assert_eq!(rewritten_expr(&args, "x.iter().map(|k| t[*k]).collect::<Vec<_>>()"), printed("x.iter().map(|k| (*t.get_unchecked(*k))).collect::<Vec<_>>()"));
    assert_eq!(rewritten_expr(&args, "if a[0] > 1 { b[1] } else { c.unwrap() }"), printed("if (*a.get_unchecked(0)) > 1 { (*b.get_unchecked(1)) } else { c.unwrap_unchecked() }"));
    assert_eq!(rewritten_expr(&args, "m.get(k).unwrap()[0]"), printed("(*m.get(k).unwrap_unchecked().get_unchecked(0))"));
}

#[test]
fn names_of_parsed_expressions_have_no_spaces() {
    let name = |source: &str| expr(syn::parse_str::<syn::Expr>(source).unwrap()).name();
    assert_eq!(name("self.data"), "self.data");
    assert_eq!(name("a :: b :: < T > (x , y) [ 0 ]"), "a::b::<T>(x,y)[0]");
    assert_eq!(name("(*p).q"), "(*p).q");
    assert_eq!(name("f(\"a b\")"), "f(\"ab\")");
}

#[test]
fn parsed_syntax_of_many_kinds_survives() {
    let source = "#[inline] pub(crate) unsafe fn g<const N: usize, T>(mut a: [T; N], s: &mut S<'_>) -> Result<(), E>
    where T: Copy + Into<u64>, {
        #![allow(unused)]
        fn nested(x: u8) -> u8 { x }
        struct Local { f: u8 }
        let Local { f } = Local { f: 1 };
        let t = (1u8, 'c', \"s p\", 1.5f32, b'x');
        let r#type = t.0 as usize + N;
        'outer: while let Some(x) = s.next() {
            for (i, y) in a.iter().enumerate().skip(1) {
                if i % 2 == 0 && !(y.clone().into() >= 3) { continue 'outer; } else if i > 9 { break 'outer; } else { }
            }
            match x { 0 | 1 => {} 2..=5 if f > 0 => return Err(E::new()), _ => { s.count += 1; } }
        }
        let c = move |p: &T| -> u64 { (*p).into() << 2 };
        let v = vec![1, 2, 3];
        let arr = [0u8; 4];
        let w: Vec<u8> = v.iter().map(|e| e + 1).collect::<Vec<_>>();
        let q = s.maybe()?.field.0;
        let b = Box::new(S::<'static> { count: 0, ..Default::default() });
        let z = -1 + !0 - (2 * 3) / 4 % 5 ^ 6 | 7 & 8;
        let u = async { 1 };
        let l = loop { break 1; };
        Ok(())
    }";
    let item = syn::parse_str::<ItemFn>(source).unwrap();
    let converted = function(item);
    assert_same(&printed(&converted.source()), &printed(source));
    let output = rewritten("", source);
    let mut expected = printed(source);
    let open = expected.iter().position(|token| token == "{").unwrap();
    expected.insert(open + 1, "unsafe".to_string());
    expected.insert(open + 2, "{".to_string());
    expected.push("}".to_string());
    assert_same(&output, &expected);
}

#[test]
fn parsed_sites_in_many_places_are_rewritten() {
    let args = Args::empty();
    let check = |source: &str, expected: &str| {
        assert_same(&rewritten_expr(&args, source), &printed(expected));
    };
    check("f(a[0], &b[1], &mut c[2])", "f((*a.get_unchecked(0)), b.get_unchecked(1), c.get_unchecked_mut(2))");
    check("[a[0], 1]", "[(*a.get_unchecked(0)), 1]");
    check("(a[0], b[i].0)", "((*a.get_unchecked(0)), b.get_unchecked(i).0)");
    check("S { x: a[0], ..d[1] }", "S { x: (*a.get_unchecked(0)), ..(*d.get_unchecked(1)) }");
    check("match a[i] { 0 => b[0], _ => { c[1] } }", "match (*a.get_unchecked(i)) { 0 => (*b.get_unchecked(0)), _ => { (*c.get_unchecked(1)) } }");
    check("while a[i] < n { i += a[i]; }", "while (*a.get_unchecked(i)) < n { i += (*a.get_unchecked(i)); }");
    check("for x in &a[1..] { s += x; }", "for x in a.get_unchecked(1..) { s += x; }");
    check("|i| a[i] * 2", "|i| (*a.get_unchecked(i)) * 2");
    check("-a[i] as u8", "-(*a.get_unchecked(i)) as u8");
    check("*a[i]", "*(*a.get_unchecked(i))");
    check("(a[i])", "((*a.get_unchecked(i)))");
    check("a[i]?", "(*a.get_unchecked(i))?");
    check("return a[i]", "return (*a.get_unchecked(i))");
    check("a[i][j][k]", "(*(*(*a.get_unchecked(i)).get_unchecked(j)).get_unchecked(k))");
    check("a[i].b[j].c()", "a.get_unchecked(i).b.get_unchecked(j).c()");
    check("x.y.unwrap().z[0].unwrap()", "x.y.unwrap_unchecked().z.get_unchecked(0).unwrap_unchecked()");
    check("unsafe { a[i] }", "unsafe { (*a.get_unchecked(i)) }");
    check("{ let k = a[i]; k }", "{ let k = (*a.get_unchecked(i)); k }");
    check("a[i] = b[j] = c[k]", "(*a.get_unchecked_mut(i)) = (*b.get_unchecked_mut(j)) = (*c.get_unchecked(k))");
    check("a[if b[0] { 1 } else { 2 }]", "(*a.get_unchecked(if (*b.get_unchecked(0)) { 1 } else { 2 }))");
    check("if x { 1 } else if a[0] { 2 } else { 3 }", "if x { 1 } else if (*a.get_unchecked(0)) { 2 } else { 3 }");
    check("println!(\"{}\", a[i])", "println!(\"{}\", a[i])");
}

#[test]
fn parsed_argument_lists_are_read() {
    let args = Args::new(&arguments("exclude = [\"a\", \"self.b\"], mut = [\"push\"],")).unwrap();
    assert!(args.excludes(&"a".to_string()));
    assert!(args.excludes(&"self.b".to_string()));
    assert!(args.is_mut_access(&"push".to_string()));
    assert!(Args::new(&arguments("")).is_ok());
    let args = Args::new(&arguments("exclude = [], mut = [\"push\"], unwrap_exclude = []")).unwrap();
    assert!(args.is_mut_access(&"push".to_string()));
    assert!(!args.excludes(&"".to_string()));
    assert_eq!(
        Args::new(&arguments("exclude = [a]")).err().map(|e| e.message()),
        Some("Value of property \"exclude\" must be a string literal".to_string())
    );
    assert_eq!(
        Args::new(&arguments("exclude = (\"a\")")).err(),
        Some(ConfigError::MalformedGroup("exclude".to_string()))
    );
    assert_eq!(
        Args::new(&arguments("exclude = \"a\"")).err(),
        Some(ConfigError::MalformedGroup("exclude".to_string()))
    );
    assert_eq!(
        Args::new(&arguments("exclude = [\"a\"]; mut = [\"m\"]")).err(),
        Some(ConfigError::MalformedGroup("exclude".to_string()))
    );
    assert_eq!(
        Args::new(&arguments("exclude = [\"a\", \"b\",]")).err(),
        Some(ConfigError::NotString("exclude".to_string()))
    );
    assert_eq!(
        Args::new(&arguments("include = [\"a\"]")).err(),
        Some(ConfigError::UnknownKey("include".to_string()))
    );
}
