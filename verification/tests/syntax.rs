use unchecked::{Block, Expr, Function, Part};

fn token(text: &str) -> Part {
    Part::Token(text.to_string())
}

fn path(name: &str) -> Expr {
    Expr::Other { parts: vec![token(name)] }
}

fn sample() -> Expr {
    Expr::Assign {
        left: Box::new(Expr::Index {
            base: Box::new(Expr::Field { base: Box::new(path("self")), member: "data".to_string() }),
            index: Box::new(Expr::Range {
                from: Some(Box::new(path("i"))),
                closed: true,
                to: Some(Box::new(path("j"))),
            }),
        }),
        op: "=".to_string(),
        right: Box::new(Expr::Reference {
            mutable: true,
            target: Box::new(Expr::MethodCall {
                receiver: Box::new(Expr::Paren {
                    inner: Box::new(Expr::Deref { target: Box::new(path("p")) }),
                }),
                method: "get".to_string(),
                turbofish: vec![token("::"), token("<"), token("T"), token(">")],
                args: vec![path("a"), path("b"), path("c")],
            }),
        }),
    }
}

#[test]
fn tokens_come_in_written_order() {
    let expected = [
        "self", ".", "data", "[", "i", "..=", "j", "]", "=", "&", "mut", "(", "*", "p", ")", ".",
        "get", "::", "<", "T", ">", "(", "a", ",", "b", ",", "c", ")",
    ];
    assert_eq!(sample().tokens(), expected);
}

#[test]
fn source_has_one_space_between_tokens() {
    assert_eq!(
        sample().source(),
        "self . data [ i ..= j ] = & mut ( * p ) . get :: < T > ( a , b , c )"
    );
    assert_eq!(path("x").source(), "x");
    assert_eq!(Expr::Other { parts: vec![] }.source(), "");
}

#[test]
fn name_has_no_spaces() {
    assert_eq!(sample().name(), "self.data[i..=j]=&mut(*p).get::<T>(a,b,c)");
    assert_eq!(Expr::Other { parts: vec![token("a b"), token(" c ")] }.name(), "abc");
    assert_eq!(Expr::Other { parts: vec![] }.name(), "");
}

#[test]
fn ranges_in_each_form() {
    let range = |from: Option<Expr>, closed: bool, to: Option<Expr>| Expr::Range {
        from: from.map(Box::new),
        closed,
        to: to.map(Box::new),
    };
    assert_eq!(range(None, false, None).source(), "..");
    assert_eq!(range(Some(path("a")), false, None).source(), "a ..");
    assert_eq!(range(None, true, Some(path("b"))).source(), "..= b");
    assert_eq!(range(Some(path("a")), false, Some(path("b"))).source(), "a .. b");
}

#[test]
fn calls_with_few_arguments() {
    let call = |args: Vec<Expr>| Expr::MethodCall {
        receiver: Box::new(path("r")),
        method: "m".to_string(),
        turbofish: vec![],
        args,
    };
    assert_eq!(call(vec![]).source(), "r . m ( )");
    assert_eq!(call(vec![path("a")]).source(), "r . m ( a )");
    assert_eq!(call(vec![path("a"), path("b")]).source(), "r . m ( a , b )");
}

#[test]
fn blocks_stand_in_braces() {
    let block = Block { parts: vec![token("let"), token("x"), token(";"), Part::Expr(path("x"))] };
    assert_eq!(block.tokens(), ["{", "let", "x", ";", "x", "}"]);
    assert_eq!(block.source(), "{ let x ; x }");
    let scope = Expr::Unsafe { body: Block { parts: vec![Part::Block(block)] } };
    assert_eq!(scope.source(), "unsafe { { let x ; x } }");
}

#[test]
fn function_is_header_and_body() {
    let f = Function {
        header: vec![token("pub"), token("fn"), token("f"), token("("), token(")")],
        body: Block { parts: vec![Part::Expr(path("x"))] },
    };
    assert_eq!(f.tokens(), ["pub", "fn", "f", "(", ")", "{", "x", "}"]);
    assert_eq!(f.source(), "pub fn f ( ) { x }");
}

#[test]
fn copies_are_equal() {
    let e = sample();
    assert_eq!(e.clone(), e);
    let part = Part::Block(Block { parts: vec![Part::Expr(sample()), token(";")] });
    assert_eq!(part.clone(), part);
    let f = Function { header: vec![token("fn")], body: Block { parts: vec![part] } };
    assert_eq!(f.clone(), f);
}
