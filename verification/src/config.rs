//! The attribute's argument list, `key = ["a", "b"], key = [..]`, read into
//! a policy.

use vstd::prelude::*;

use crate::policy::{empty_policy, Args, Policy};
use crate::text::{
    enclosed, inner, inside, is_enclosed, reads, split, split_text, squeeze, squeezed_text, texts,
};

verus! {

/// One token of the argument list.
#[derive(Debug, PartialEq, Eq)]
pub enum Token {
    /// An identifier: a key.
    Ident(String),
    /// Punctuation: `=` after a key, `,` after a list.
    Punct(String),
    /// A delimited group, as text with its delimiters: a key's list.
    Group(String),
    /// A literal outside any group.
    Literal(String),
}

/// The mathematical value of a [`Token`].
pub enum TokenView {
    Ident(Seq<char>),
    Punct(Seq<char>),
    Group(Seq<char>),
    Literal(Seq<char>),
}

impl View for Token {
    type V = TokenView;

    open spec fn view(&self) -> TokenView {
        match *self {
            Token::Ident(name) => TokenView::Ident(name@),
            Token::Punct(text) => TokenView::Punct(text@),
            Token::Group(text) => TokenView::Group(text@),
            Token::Literal(text) => TokenView::Literal(text@),
        }
    }
}

/// The text of a token.
pub open spec fn token_text(token: TokenView) -> Seq<char> {
    match token {
        TokenView::Ident(text) => text,
        TokenView::Punct(text) => text,
        TokenView::Group(text) => text,
        TokenView::Literal(text) => text,
    }
}

impl Token {
    /// The text of the token.
    pub fn text(&self) -> (text: &String)
        ensures
            text@ == token_text(self@),
    {
        match self {
            Token::Ident(text) => text,
            Token::Punct(text) => text,
            Token::Group(text) => text,
            Token::Literal(text) => text,
        }
    }
}

/// The values of a list of tokens.
pub open spec fn tokens_view(tokens: Seq<Token>) -> Seq<TokenView> {
    Seq::new(tokens.len(), |i: int| tokens[i]@)
}

/// Why an argument list is refused. Each error holds the key at fault.
#[derive(Debug, PartialEq, Eq)]
pub enum ConfigError {
    /// The key does not come with a list in square brackets: `=` or the list
    /// is missing or is something else, or what follows the list is no comma.
    MalformedGroup(String),
    /// A value of the key's list is not a string literal.
    NotString(String),
    /// What stands in the place of a key is none of `exclude`, `mut` and
    /// `unwrap_exclude`.
    UnknownKey(String),
}

/// The mathematical value of a [`ConfigError`].
pub enum ConfigErrorView {
    MalformedGroup(Seq<char>),
    NotString(Seq<char>),
    UnknownKey(Seq<char>),
}

impl View for ConfigError {
    type V = ConfigErrorView;

    open spec fn view(&self) -> ConfigErrorView {
        match *self {
            ConfigError::MalformedGroup(key) => ConfigErrorView::MalformedGroup(key@),
            ConfigError::NotString(key) => ConfigErrorView::NotString(key@),
            ConfigError::UnknownKey(key) => ConfigErrorView::UnknownKey(key@),
        }
    }
}

/// The diagnostic of an error.
pub open spec fn message_of(e: ConfigErrorView) -> Seq<char> {
    match e {
        ConfigErrorView::MalformedGroup(key) => "Property \""@ + key
            + "\" must be followed by `=` and a list in square brackets, and the list by a comma or nothing"@,
        ConfigErrorView::NotString(key) => "Value of property \""@ + key
            + "\" must be a string literal"@,
        ConfigErrorView::UnknownKey(key) => "Unknown property \""@ + key
            + "\", available properties are \"exclude\", \"mut\" and \"unwrap_exclude\""@,
    }
}

impl ConfigError {
    /// The key at fault.
    pub fn key(&self) -> (key: &String)
        ensures
            self@ matches ConfigErrorView::MalformedGroup(k) ==> key@ == k,
            self@ matches ConfigErrorView::NotString(k) ==> key@ == k,
            self@ matches ConfigErrorView::UnknownKey(k) ==> key@ == k,
    {
        match self {
            ConfigError::MalformedGroup(key) => key,
            ConfigError::NotString(key) => key,
            ConfigError::UnknownKey(key) => key,
        }
    }

    /// The diagnostic with which the build stops: it names the key at fault.
    pub fn message(&self) -> (message: String)
        ensures
            message@ == message_of(self@),
    {
        match self {
            ConfigError::MalformedGroup(key) => {
                let mut message = String::from_str("Property \"");
                message.append(key.as_str());
                message.append(
                    "\" must be followed by `=` and a list in square brackets, and the list by a comma or nothing",
                );
                message
            },
            ConfigError::NotString(key) => {
                let mut message = String::from_str("Value of property \"");
                message.append(key.as_str());
                message.append("\" must be a string literal");
                message
            },
            ConfigError::UnknownKey(key) => {
                let mut message = String::from_str("Unknown property \"");
                message.append(key.as_str());
                message.append(
                    "\", available properties are \"exclude\", \"mut\" and \"unwrap_exclude\"",
                );
                message
            },
        }
    }
}

/// What the reading awaits next.
#[derive(Clone, Copy, Debug, PartialEq, Eq, Structural)]
pub enum Next {
    /// A key, or the end of the argument list.
    Key,
    /// `=` after a key.
    Equals,
    /// The list of the key.
    List,
    /// `,` after a list, or the end of the argument list.
    Comma,
}

/// Whether `key` is one of the three keys.
pub open spec fn known_key(key: Seq<char>) -> bool {
    key == "exclude"@ || key == "mut"@ || key == "unwrap_exclude"@
}

/// Whether `value` is a string literal: text between double quotes.
pub open spec fn quoted(value: Seq<char>) -> bool {
    enclosed(value, '"', '"')
}

/// The policy `p` with `names` added to the set that `key` stands for. A key
/// that is none of the three stands for no set.
pub open spec fn with_names(p: Policy, key: Seq<char>, names: Set<Seq<char>>) -> Policy {
    if key == "exclude"@ {
        Policy { exclude: p.exclude + names, ..p }
    } else if key == "mut"@ {
        Policy { mut_access: p.mut_access + names, ..p }
    } else if key == "unwrap_exclude"@ {
        Policy { unwrap_exclude: p.unwrap_exclude + names, ..p }
    } else {
        p
    }
}

/// The names that the first `n` of `values` hold between their quotes.
pub open spec fn names_of(values: Seq<Seq<char>>, n: int) -> Set<Seq<char>> {
    Set::new(|name: Seq<char>| exists|i: int| 0 <= i < n && inside(#[trigger] values[i]) == name)
}

/// The policy `p` after the list `group` of the key `key`.
///
/// Spaces in the list do not count. Without them it has to stand between
/// square brackets. A list with nothing between the brackets holds no value
/// and leaves the policy as it is. Else what stands between the brackets is
/// cut at every comma, and each piece has to be a string literal: so a comma
/// after the last value is refused, and so is a value that holds a comma.
pub open spec fn add_group(p: Policy, key: Seq<char>, group: Seq<char>) -> Result<
    Policy,
    ConfigErrorView,
> {
    let list = squeeze(group);
    let values = split(inside(list), ',');
    if !enclosed(list, '[', ']') {
        Err(ConfigErrorView::MalformedGroup(key))
    } else if inside(list).len() == 0 {
        Ok(p)
    } else if exists|i: int| 0 <= i < values.len() && !quoted(#[trigger] values[i]) {
        Err(ConfigErrorView::NotString(key))
    } else {
        Ok(with_names(p, key, names_of(values, values.len() as int)))
    }
}

/// The policy that the tokens `tokens` make of the policy `p`, where `next`
/// is awaited and `key` is the key that was read last.
///
/// An argument list is a row of entries `key = [..]` with a comma between one
/// entry and the next; a comma may follow the last entry. Whatever departs
/// from that is refused, and nothing after it is read:
///
/// * where a key is awaited, a token that is not one of the three keys, with
///   its text for the key at fault;
/// * after a key, anything but `=` and then a group, and the end of the list
///   before the group;
/// * a group that is no list of string literals in square brackets;
/// * after a list, anything but a comma.
pub open spec fn read_from(tokens: Seq<TokenView>, next: Next, key: Seq<char>, p: Policy) -> Result<
    Policy,
    ConfigErrorView,
>
    decreases tokens.len(),
{
    if tokens.len() == 0 {
        if next == Next::Key || next == Next::Comma {
            Ok(p)
        } else {
            Err(ConfigErrorView::MalformedGroup(key))
        }
    } else {
        let token = tokens[0];
        let rest = tokens.drop_first();
        match next {
            Next::Key => if token is Ident && known_key(token_text(token)) {
                read_from(rest, Next::Equals, token_text(token), p)
            } else {
                Err(ConfigErrorView::UnknownKey(token_text(token)))
            },
            Next::Equals => if token == TokenView::Punct("="@) {
                read_from(rest, Next::List, key, p)
            } else {
                Err(ConfigErrorView::MalformedGroup(key))
            },
            Next::List => match token {
                TokenView::Group(text) => match add_group(p, key, text) {
                    Ok(added) => read_from(rest, Next::Comma, key, added),
                    Err(e) => Err(e),
                },
                _ => Err(ConfigErrorView::MalformedGroup(key)),
            },
            Next::Comma => if token == TokenView::Punct(","@) {
                read_from(rest, Next::Key, key, p)
            } else {
                Err(ConfigErrorView::MalformedGroup(key))
            },
        }
    }
}

/// The policy that an argument list stands for, or the first error in it.
pub open spec fn read(tokens: Seq<TokenView>) -> Result<Policy, ConfigErrorView> {
    read_from(tokens, Next::Key, Seq::empty(), empty_policy())
}

/// The value of the result of a reading.
pub open spec fn outcome(r: Result<Args, ConfigError>) -> Result<Policy, ConfigErrorView> {
    match r {
        Ok(args) => Ok(args@),
        Err(e) => Err(e@),
    }
}

/// Whether `key` is one of the three keys.
fn is_known_key(key: &String) -> (known: bool)
    ensures
        known == known_key(key@),
{
    reads(key, "exclude") || reads(key, "mut") || reads(key, "unwrap_exclude")
}

/// Reads the list `group` of the key `key` into the policy `args`.
fn read_group(args: Args, key: &String, group: &str) -> (result: Result<Args, ConfigError>)
    requires
        known_key(key@),
    ensures
        outcome(result) == add_group(args@, key@, group@),
{
    let list = squeezed_text(group);
    if !is_enclosed(list.as_str(), '[', ']') {
        return Err(ConfigError::MalformedGroup(key.clone()));
    }
    let middle = inner(list.as_str());
    if middle.as_str().unicode_len() == 0 {
        return Ok(args);
    }
    let values = split_text(middle.as_str(), ',');
    let ghost before = args@;
    let ghost pieces = texts(values@);
    let mut args = args;
    let mut i: usize = 0;
    assert(names_of(pieces, 0) =~= Set::empty());
    assert(before.exclude + Set::<Seq<char>>::empty() =~= before.exclude);
    assert(before.mut_access + Set::<Seq<char>>::empty() =~= before.mut_access);
    assert(before.unwrap_exclude + Set::<Seq<char>>::empty() =~= before.unwrap_exclude);
    while i < values.len()
        invariant
            i <= values.len(),
            known_key(key@),
            pieces == texts(values@),
            pieces == split(inside(squeeze(group@)), ','),
            enclosed(squeeze(group@), '[', ']'),
            inside(squeeze(group@)).len() > 0,
            forall|j: int| 0 <= j < i ==> quoted(#[trigger] pieces[j]),
            args@ == with_names(before, key@, names_of(pieces, i as int)),
        decreases values.len() - i,
    {
        let value = &values[i];
        assert(value@ == pieces[i as int]);
        if !is_enclosed(value.as_str(), '"', '"') {
            return Err(ConfigError::NotString(key.clone()));
        }
        let name = inner(value.as_str());
        let ghost more = names_of(pieces, i + 1);
        assert(more =~= names_of(pieces, i as int).insert(name@));
        if reads(key, "exclude") {
            args = args.exclude(name);
            assert(args@.exclude =~= before.exclude + more);
        } else if reads(key, "mut") {
            args = args.mut_access(name);
            assert(args@.mut_access =~= before.mut_access + more);
        } else {
            args = args.exclude_unwrap(name);
            assert(args@.unwrap_exclude =~= before.unwrap_exclude + more);
        }
        i = i + 1;
    }
    Ok(args)
}

/// Whether `token` is the punctuation `mark`.
fn is_punct(token: &Token, mark: &str) -> (yes: bool)
    ensures
        yes == (token@ == TokenView::Punct(mark@)),
{
    match token {
        Token::Punct(text) => reads(text, mark),
        _ => false,
    }
}

impl Args {
    /// Reads the argument list of the attribute into a policy, or says what
    /// is wrong with it.
    pub fn new(metadata: &[Token]) -> (result: Result<Args, ConfigError>)
        ensures
            outcome(result) == read(tokens_view(metadata@)),
    {
        let ghost all = tokens_view(metadata@);
        let mut args = Args::empty();
        let mut next = Next::Key;
        let mut key = String::new();
        let mut i: usize = 0;
        assert(all.subrange(0, all.len() as int) =~= all);
        while i < metadata.len()
            invariant
                i <= metadata.len(),
                all == tokens_view(metadata@),
                next != Next::Key ==> known_key(key@),
                read(all) == read_from(all.subrange(i as int, all.len() as int), next, key@, args@),
            decreases metadata.len() - i,
        {
            let ghost rest = all.subrange(i as int, all.len() as int);
            assert(rest[0] == metadata@[i as int]@);
            assert(rest.drop_first() =~= all.subrange(i + 1, all.len() as int));
            let token = &metadata[i];
            match next {
                Next::Key => {
                    match token {
                        Token::Ident(name) => {
                            if !is_known_key(name) {
                                return Err(ConfigError::UnknownKey(name.clone()));
                            }
                            key = name.clone();
                            next = Next::Equals;
                        },
                        _ => {
                            return Err(ConfigError::UnknownKey(token.text().clone()));
                        },
                    }
                },
                Next::Equals => {
                    if !is_punct(token, "=") {
                        return Err(ConfigError::MalformedGroup(key));
                    }
                    next = Next::List;
                },
                Next::List => {
                    match token {
                        Token::Group(text) => {
                            match read_group(args, &key, text.as_str()) {
                                Ok(added) => {
                                    args = added;
                                    next = Next::Comma;
                                },
                                Err(e) => {
                                    return Err(e);
                                },
                            }
                        },
                        _ => {
                            return Err(ConfigError::MalformedGroup(key));
                        },
                    }
                },
                Next::Comma => {
                    if !is_punct(token, ",") {
                        return Err(ConfigError::MalformedGroup(key));
                    }
                    next = Next::Key;
                },
            }
            i = i + 1;
        }
        match next {
            Next::Key => Ok(args),
            Next::Comma => Ok(args),
            _ => Err(ConfigError::MalformedGroup(key)),
        }
    }
}

} // verus!
