use vstd::prelude::*;
use crate::serial::errors::ParsingError;

verus! {

#[verifier::external_type_specification]
#[verifier::external_body]
#[verifier::reject_recursive_types(T)]
pub struct ExHeaplessVec<T, const N: usize>(heapless::Vec<T, N>);

/// Most arguments a command line can carry.
pub const MAX_ARGS: usize = 8;

/// An argument of a command: `name` or `name=value`.
pub struct Arg<'a> {
    pub name: &'a str,
    pub value: Option<&'a str>,
}

/// An argument as text: its name and its optional value.
pub type ArgView = (Seq<char>, Option<Seq<char>>);

impl<'a> Arg<'a> {
    pub open spec fn view(&self) -> ArgView {
        (
            self.name@,
            match self.value {
                Some(v) => Some(v@),
                None => None,
            },
        )
    }
}

/// What a bounded argument vector holds, in order, each argument as text.
pub uninterp spec fn arg_items(v: heapless::Vec<Arg<'_>, 8>) -> Seq<ArgView>;

/// `heapless::Vec::new`: an empty vector.
#[verifier::external_body]
fn arg_vec_new<'a>() -> (r: heapless::Vec<Arg<'a>, 8>)
    ensures
        arg_items(r) == Seq::<ArgView>::empty(),
{
    heapless::Vec::new()
}

/// `heapless::Vec::push`: appends the item if fewer than 8 are stored,
/// otherwise hands it back and leaves the vector unchanged.
#[verifier::external_body]
fn arg_vec_push<'a>(v: &mut heapless::Vec<Arg<'a>, 8>, item: Arg<'a>) -> (r: Result<(), Arg<'a>>)
    ensures
        arg_items(*old(v)).len() < 8 ==> r is Ok && arg_items(*final(v)) == arg_items(*old(v)).push(
            item.view(),
        ),
        arg_items(*old(v)).len() >= 8 ==> r is Err && arg_items(*final(v)) == arg_items(*old(v)),
{
    v.push(item)
}

/// The number of stored items (`len` of the slice a `heapless::Vec` derefs to).
#[verifier::external_body]
fn arg_vec_len(v: &heapless::Vec<Arg<'_>, 8>) -> (r: usize)
    ensures
        r == arg_items(*v).len(),
{
    v.len()
}

/// The item at index `i` (indexing the slice a `heapless::Vec` derefs to).
#[verifier::external_body]
fn arg_vec_get<'a, 'b>(v: &'b heapless::Vec<Arg<'a>, 8>, i: usize) -> (r: &'b Arg<'a>)
    requires
        i < arg_items(*v).len(),
    ensures
        r.view() == arg_items(*v)[i as int],
{
    &v[i]
}

/// The arguments of a command, at most eight.
pub struct ArgList<'a> {
    items: heapless::Vec<Arg<'a>, 8>,
}

impl<'a> ArgList<'a> {
    pub closed spec fn view(&self) -> Seq<ArgView> {
        arg_items(self.items)
    }

    pub fn len(&self) -> (r: usize)
        ensures
            r == self.view().len(),
    {
        arg_vec_len(&self.items)
    }

    pub fn get<'b>(&'b self, i: usize) -> (r: &'b Arg<'a>)
        requires
            i < self.view().len(),
        ensures
            r.view() == self.view()[i as int],
    {
        arg_vec_get(&self.items, i)
    }
}

/// A command line split into its command name and its arguments.
pub struct CommandEnvelope<'a> {
    pub name: &'a str,
    pub args: ArgList<'a>,
}

/// A line as received from the serial port.
pub struct RawCommand<'a> {
    value: &'a str,
}

impl<'a> RawCommand<'a> {
    pub closed spec fn view(&self) -> Seq<char> {
        self.value@
    }

    pub fn serial(input: &'a str) -> (r: Self)
        ensures
            r.view() == input@,
    {
        RawCommand { value: input }
    }
}

/// `char::is_whitespace`: the Unicode `White_Space` property.
pub open spec fn is_whitespace(c: char) -> bool {
    ||| ('\t' <= c && c <= '\r')
    ||| c == ' '
    ||| c == '\u{85}'
    ||| c == '\u{a0}'
    ||| c == '\u{1680}'
    ||| ('\u{2000}' <= c && c <= '\u{200a}')
    ||| c == '\u{2028}'
    ||| c == '\u{2029}'
    ||| c == '\u{202f}'
    ||| c == '\u{205f}'
    ||| c == '\u{3000}'
}

pub open spec fn is_ascii_alphabetic(c: char) -> bool {
    ('A' <= c && c <= 'Z') || ('a' <= c && c <= 'z')
}

pub open spec fn is_ascii_alphanumeric(c: char) -> bool {
    is_ascii_alphabetic(c) || ('0' <= c && c <= '9')
}

/// A name starts with an ASCII letter and goes on with ASCII letters, digits
/// and underscores; the empty name passes.
pub open spec fn is_name_valid(s: Seq<char>) -> bool {
    forall|i: int|
        0 <= i < s.len() ==> if i == 0 {
            is_ascii_alphabetic(#[trigger] s[i])
        } else {
            is_ascii_alphanumeric(s[i]) || s[i] == '_'
        }
}

/// A value starts with an ASCII letter or digit and goes on with ASCII letters,
/// digits and underscores; the empty value passes.
pub open spec fn is_value_valid(s: Seq<char>) -> bool {
    forall|i: int|
        0 <= i < s.len() ==> if i == 0 {
            is_ascii_alphanumeric(#[trigger] s[i])
        } else {
            is_ascii_alphanumeric(s[i]) || s[i] == '_'
        }
}

/// The maximal runs of non-whitespace characters of `s`, in order.
pub open spec fn tokens(s: Seq<char>) -> Seq<Seq<char>>
    decreases s.len(),
{
    if s.len() == 0 {
        seq![]
    } else {
        let prev = tokens(s.drop_last());
        let c = s.last();
        if is_whitespace(c) {
            prev
        } else if s.len() >= 2 && !is_whitespace(s[s.len() - 2]) {
            prev.update(prev.len() - 1, prev.last().push(c))
        } else {
            prev.push(seq![c])
        }
    }
}

pub open spec fn has_no_eq(s: Seq<char>) -> bool {
    forall|j: int| 0 <= j < s.len() ==> s[j] != '='
}

/// Index of the first `=` of a token that holds one.
pub open spec fn first_eq(tok: Seq<char>) -> int {
    choose|p: int| 0 <= p < tok.len() && tok[p] == '=' && has_no_eq(tok.subrange(0, p))
}

/// An argument token: `name` or `name=value`, with at most one `=`, a valid
/// name and a valid value.
#[verifier::opaque]
pub open spec fn spec_arg(tok: Seq<char>) -> Option<ArgView> {
    if has_no_eq(tok) {
        if is_name_valid(tok) {
            Some((tok, None))
        } else {
            None
        }
    } else {
        let p = first_eq(tok);
        let name = tok.subrange(0, p);
        let rest = tok.subrange(p + 1, tok.len() as int);
        if is_name_valid(name) && has_no_eq(rest) && is_value_valid(rest) {
            Some((name, Some(rest)))
        } else {
            None
        }
    }
}

/// The arguments of the first `n` argument tokens, read in order: the first
/// malformed token fails with `InvalidArgumentFormat`, a ninth argument with
/// `TooManyArguments`.
pub open spec fn spec_args(toks: Seq<Seq<char>>, n: nat) -> Result<Seq<ArgView>, ParsingError>
    decreases n,
{
    if n == 0 {
        Ok(seq![])
    } else {
        match spec_args(toks, (n - 1) as nat) {
            Err(e) => Err(e),
            Ok(prev) => match spec_arg(toks[n - 1]) {
                None => Err(ParsingError::InvalidArgumentFormat),
                Some(arg) => if prev.len() < MAX_ARGS {
                    Ok(prev.push(arg))
                } else {
                    Err(ParsingError::TooManyArguments)
                },
            },
        }
    }
}

/// A line split into whitespace-separated tokens: the first is the command
/// name, the others its arguments.
pub open spec fn spec_parse(s: Seq<char>) -> Result<(Seq<char>, Seq<ArgView>), ParsingError> {
    let toks = tokens(s);
    if toks.len() == 0 {
        Err(ParsingError::Empty)
    } else if !is_name_valid(toks[0]) {
        Err(ParsingError::InvalidCommandFormat)
    } else {
        match spec_args(toks.drop_first(), (toks.len() - 1) as nat) {
            Ok(args) => Ok((toks[0], args)),
            Err(e) => Err(e),
        }
    }
}

impl<'a> CommandEnvelope<'a> {
    pub open spec fn view(&self) -> (Seq<char>, Seq<ArgView>) {
        (self.name@, self.args.view())
    }
}

pub open spec fn parse_result_view(r: Result<CommandEnvelope<'_>, ParsingError>) -> Result<
    (Seq<char>, Seq<ArgView>),
    ParsingError,
> {
    match r {
        Ok(env) => Ok(env.view()),
        Err(e) => Err(e),
    }
}


fn char_is_whitespace(c: char) -> (r: bool)
    ensures
        r == is_whitespace(c),
{
    ('\t' <= c && c <= '\r') || c == ' ' || c == '\u{85}' || c == '\u{a0}' || c == '\u{1680}' || (
    '\u{2000}' <= c && c <= '\u{200a}') || c == '\u{2028}' || c == '\u{2029}' || c == '\u{202f}'
        || c == '\u{205f}' || c == '\u{3000}'
}

fn char_is_ascii_alphabetic(c: char) -> (r: bool)
    ensures
        r == is_ascii_alphabetic(c),
{
    ('A' <= c && c <= 'Z') || ('a' <= c && c <= 'z')
}

fn char_is_ascii_alphanumeric(c: char) -> (r: bool)
    ensures
        r == is_ascii_alphanumeric(c),
{
    char_is_ascii_alphabetic(c) || ('0' <= c && c <= '9')
}

/// Whether the text is a valid command or argument name.
pub fn is_name_expression_valid(raw_name: &str) -> (r: bool)
    ensures
        r == is_name_valid(raw_name@),
{
    let n = raw_name.unicode_len();
    let mut i: usize = 0;
    while i < n
        invariant
            n == raw_name@.len(),
            i <= n,
            forall|j: int|
                0 <= j < i ==> if j == 0 {
                    is_ascii_alphabetic(#[trigger] raw_name@[j])
                } else {
                    is_ascii_alphanumeric(raw_name@[j]) || raw_name@[j] == '_'
                },
        decreases n - i,
    {
        let c = raw_name.get_char(i);
        let ok = if i == 0 {
            char_is_ascii_alphabetic(c)
        } else {
            char_is_ascii_alphanumeric(c) || c == '_'
        };
        if !ok {
            return false;
        }
        i = i + 1;
    }
    true
}

/// Whether the text is a valid argument value.
pub fn is_value_expression_valid(raw_value: &str) -> (r: bool)
    ensures
        r == is_value_valid(raw_value@),
{
    let n = raw_value.unicode_len();
    let mut i: usize = 0;
    while i < n
        invariant
            n == raw_value@.len(),
            i <= n,
            forall|j: int|
                0 <= j < i ==> if j == 0 {
                    is_ascii_alphanumeric(#[trigger] raw_value@[j])
                } else {
                    is_ascii_alphanumeric(raw_value@[j]) || raw_value@[j] == '_'
                },
        decreases n - i,
    {
        let c = raw_value.get_char(i);
        let ok = if i == 0 {
            char_is_ascii_alphanumeric(c)
        } else {
            char_is_ascii_alphanumeric(c) || c == '_'
        };
        if !ok {
            return false;
        }
        i = i + 1;
    }
    true
}

/// A non-whitespace character right before the end means a token is open.
proof fn lemma_tokens_nonempty(s: Seq<char>)
    requires
        s.len() > 0,
        !is_whitespace(s.last()),
    ensures
        tokens(s).len() > 0,
        tokens(s).last().len() > 0,
    decreases s.len(),
{
    let prev = tokens(s.drop_last());
    if s.len() >= 2 && !is_whitespace(s[s.len() - 2]) {
        assert(s.drop_last().last() == s[s.len() - 2]);
        lemma_tokens_nonempty(s.drop_last());
    }
}

/// The spans `[start, end)` (in characters) of the tokens of `s`.
fn token_spans(s: &str) -> (r: Vec<(usize, usize)>)
    ensures
        r@.len() == tokens(s@).len(),
        forall|k: int|
            #![trigger r@[k]]
            0 <= k < r@.len() ==> r@[k].0 < r@[k].1 <= s@.len() && s@.subrange(
                r@[k].0 as int,
                r@[k].1 as int,
            ) == tokens(s@)[k],
{
    let n = s.unicode_len();
    let mut spans: Vec<(usize, usize)> = Vec::new();
    let mut in_token = false;
    let mut i: usize = 0;
    proof {
        assert(s@.take(0) =~= Seq::<char>::empty());
    }
    while i < n
        invariant
            n == s@.len(),
            i <= n,
            spans@.len() == tokens(s@.take(i as int)).len(),
            forall|k: int|
                #![trigger spans@[k]]
                0 <= k < spans@.len() ==> spans@[k].0 < spans@[k].1 <= i && s@.subrange(
                    spans@[k].0 as int,
                    spans@[k].1 as int,
                ) == tokens(s@.take(i as int))[k],
            in_token == (i > 0 && !is_whitespace(s@[i - 1])),
            in_token ==> spans@.len() > 0 && spans@.last().1 == i,
        decreases n - i,
    {
        let c = s.get_char(i);
        let ghost before = s@.take(i as int);
        let ghost after = s@.take(i + 1);
        proof {
            assert(after.drop_last() =~= before);
            assert(after.last() == c);
            if i > 0 {
                assert(after[after.len() - 2] == s@[i - 1]);
            }
        }
        if char_is_whitespace(c) {
            proof {
                assert(tokens(after) == tokens(before));
                assert forall|k: int| #![trigger spans@[k]] 0 <= k < spans@.len() implies spans@[k].0 < spans@[k].1 <= i + 1
                    && s@.subrange(spans@[k].0 as int, spans@[k].1 as int) == tokens(
                    after,
                )[k] by {
                    assert(tokens(before)[k] == s@.subrange(spans@[k].0 as int, spans@[k].1 as int));
                }
            }
            in_token = false;
        } else if in_token {
            let last = spans.len() - 1;
            let start = spans[last].0;
            let ghost old_spans = spans@;
            proof {
                lemma_tokens_nonempty(before);
                assert(s@.subrange(start as int, i + 1) =~= s@.subrange(start as int, i as int).push(c));
                assert(tokens(after) == tokens(before).update(
                    tokens(before).len() - 1,
                    tokens(before).last().push(c),
                ));
            }
            spans.set(last, (start, i + 1));
            proof {
                assert forall|k: int| #![trigger spans@[k]] 0 <= k < spans@.len() implies spans@[k].0 < spans@[k].1 <= i + 1
                    && s@.subrange(spans@[k].0 as int, spans@[k].1 as int) == tokens(
                    after,
                )[k] by {
                    if k < last {
                        assert(spans@[k] == old_spans[k]);
                        assert(tokens(after)[k] == tokens(before)[k]);
                    } else {
                        assert(k == last);
                        assert(old_spans[k] == (start, i));
                        assert(tokens(before)[k] == s@.subrange(start as int, i as int));
                    }
                }
            }
        } else {
            let ghost old_spans = spans@;
            proof {
                assert(s@.subrange(i as int, i + 1) =~= seq![c]);
                assert(tokens(after) == tokens(before).push(seq![c]));
            }
            spans.push((i, i + 1));
            in_token = true;
            proof {
                assert forall|k: int| #![trigger spans@[k]] 0 <= k < spans@.len() implies spans@[k].0 < spans@[k].1 <= i + 1
                    && s@.subrange(spans@[k].0 as int, spans@[k].1 as int) == tokens(
                    after,
                )[k] by {
                    if k < old_spans.len() {
                        assert(spans@[k] == old_spans[k]);
                        assert(tokens(after)[k] == tokens(before)[k]);
                    }
                }
            }
        }
        i = i + 1;
        proof {
            assert(s@.take(i as int) == after);
        }
    }
    proof {
        assert(s@.take(n as int) =~= s@);
    }
    spans
}


/// Whether the text holds an `=`.
fn contains_eq(text: &str) -> (r: bool)
    ensures
        r == !has_no_eq(text@),
{
    let n = text.unicode_len();
    let mut i: usize = 0;
    while i < n
        invariant
            n == text@.len(),
            i <= n,
            has_no_eq(text@.subrange(0, i as int)),
        decreases n - i,
    {
        if text.get_char(i) == '=' {
            return true;
        }
        proof {
            assert(text@.subrange(0, i + 1) =~= text@.subrange(0, i as int).push(text@[i as int]));
        }
        i = i + 1;
    }
    proof {
        assert(text@.subrange(0, n as int) =~= text@);
    }
    false
}

/// Reads one argument token, `name` or `name=value`.
fn parse_arg<'a>(token: &'a str) -> (r: Option<Arg<'a>>)
    ensures
        match r {
            Some(arg) => spec_arg(token@) == Some(arg.view()),
            None => spec_arg(token@) is None,
        },
{
    reveal(spec_arg);
    let n = token.unicode_len();
    let mut p: usize = 0;
    while p < n && token.get_char(p) != '='
        invariant
            n == token@.len(),
            p <= n,
            has_no_eq(token@.subrange(0, p as int)),
        decreases n - p,
    {
        proof {
            assert(token@.subrange(0, p + 1) =~= token@.subrange(0, p as int).push(token@[p as int]));
        }
        p = p + 1;
    }
    if p == n {
        proof {
            assert(token@.subrange(0, n as int) =~= token@);
        }
        if is_name_expression_valid(token) {
            Some(Arg { name: token, value: None })
        } else {
            None
        }
    } else {
        proof {
            assert(token@[p as int] == '=');
            assert(!has_no_eq(token@));
            let q = first_eq(token@);
            assert(0 <= p < token@.len() && token@[p as int] == '=' && has_no_eq(
                token@.subrange(0, p as int),
            ));
            assert(0 <= q < token@.len() && token@[q] == '=' && has_no_eq(token@.subrange(0, q)));
            if q < p {
                assert(token@.subrange(0, p as int)[q] == '=');
            }
            if q > p {
                assert(token@.subrange(0, q)[p as int] == '=');
            }
            assert(q == p);
        }
        let name = token.substring_char(0, p);
        if !is_name_expression_valid(name) {
            return None;
        }
        let rest = token.substring_char(p + 1, n);
        if contains_eq(rest) {
            return None;
        }
        if !is_value_expression_valid(rest) {
            return None;
        }
        Some(Arg { name, value: Some(rest) })
    }
}

/// Once reading the arguments has failed, later tokens do not change the error.
proof fn lemma_args_error_sticks(toks: Seq<Seq<char>>, n: nat, m: nat)
    requires
        n <= m,
        spec_args(toks, n) is Err,
    ensures
        spec_args(toks, m) == spec_args(toks, n),
    decreases m - n,
{
    if n < m {
        lemma_args_error_sticks(toks, n, (m - 1) as nat);
    }
}

/// Splits a command line into its command name and its arguments.
///
/// Tokens are separated by whitespace. The first token is the command name,
/// which must be a valid name; each further token is an argument `name` or
/// `name=value` with a valid name, a valid value and at most one `=`. At most
/// eight arguments are accepted.
pub fn parse<'a>(raw_command: &RawCommand<'a>) -> (r: Result<CommandEnvelope<'a>, ParsingError>)
    ensures
        parse_result_view(r) == spec_parse(raw_command.view()),
{
    let s: &'a str = raw_command.value;
    let spans = token_spans(s);
    let ghost toks = tokens(s@);
    if spans.len() == 0 {
        return Err(ParsingError::Empty);
    }
    let name = s.substring_char(spans[0].0, spans[0].1);
    proof {
        assert(name@ == toks[0]);
    }
    if !is_name_expression_valid(name) {
        return Err(ParsingError::InvalidCommandFormat);
    }
    let ghost rest = toks.drop_first();
    let mut arguments = arg_vec_new();
    let mut k: usize = 1;
    while k < spans.len()
        invariant
            1 <= k <= spans@.len(),
            spans@.len() == toks.len(),
            toks == tokens(s@),
            s@ == raw_command.view(),
            is_name_valid(toks[0]),
            rest == toks.drop_first(),
            name@ == toks[0],
            forall|j: int|
                #![trigger spans@[j]]
                0 <= j < spans@.len() ==> spans@[j].0 < spans@[j].1 <= s@.len() && s@.subrange(
                    spans@[j].0 as int,
                    spans@[j].1 as int,
                ) == toks[j],
            spec_args(rest, (k - 1) as nat) == Ok::<Seq<ArgView>, ParsingError>(arg_items(arguments)),
        decreases spans@.len() - k,
    {
        let start = spans[k].0;
        let end = spans[k].1;
        let token = s.substring_char(start, end);
        proof {
            assert(token@ == rest[k - 1]);
            assert(((k + 1) - 1) as nat == ((k - 1) + 1) as nat);
        }
        match parse_arg(token) {
            None => {
                proof {
                    assert(spec_args(rest, k as nat) == Err::<Seq<ArgView>, ParsingError>(
                        ParsingError::InvalidArgumentFormat,
                    ));
                    lemma_args_error_sticks(rest, k as nat, rest.len());
                    assert(rest.len() == (toks.len() - 1) as nat);
                }
                return Err(ParsingError::InvalidArgumentFormat);
            },
            Some(arg) => {
                match arg_vec_push(&mut arguments, arg) {
                    Ok(()) => {},
                    Err(_) => {
                        proof {
                            assert(spec_args(rest, k as nat) == Err::<Seq<ArgView>, ParsingError>(
                                ParsingError::TooManyArguments,
                            ));
                            lemma_args_error_sticks(rest, k as nat, rest.len());
                            assert(rest.len() == (toks.len() - 1) as nat);
                        }
                        return Err(ParsingError::TooManyArguments);
                    },
                }
            },
        }
        k = k + 1;
    }
    Ok(CommandEnvelope { name, args: ArgList { items: arguments } })
}


/// What every argument that `parse` accepts looks like.
pub open spec fn is_well_formed_arg(arg: ArgView) -> bool {
    &&& is_name_valid(arg.0)
    &&& has_no_eq(arg.0)
    &&& match arg.1 {
        Some(v) => is_value_valid(v) && has_no_eq(v),
        None => true,
    }
}

proof fn lemma_spec_arg_well_formed(tok: Seq<char>)
    ensures
        spec_arg(tok) matches Some(a) ==> is_well_formed_arg(a),
{
    reveal(spec_arg);
    if !has_no_eq(tok) {
        let p = first_eq(tok);
        if spec_arg(tok) is Some {
            assert(has_no_eq(tok.subrange(0, p)));
        }
    }
}

proof fn lemma_args_well_formed(toks: Seq<Seq<char>>, n: nat)
    requires
        n <= toks.len(),
    ensures
        spec_args(toks, n) matches Ok(args) ==> args.len() <= MAX_ARGS && args.len() <= n && forall|
            i: int,
        | 0 <= i < args.len() ==> is_well_formed_arg(#[trigger] args[i]),
    decreases n,
{
    if n > 0 {
        lemma_args_well_formed(toks, (n - 1) as nat);
        lemma_spec_arg_well_formed(toks[n - 1]);
    }
}

/// Every line that `parse` accepts has a non-empty, valid command name and at
/// most eight arguments, each with a valid name without `=` and, if present, a
/// valid value without `=`.
pub proof fn lemma_parse_accepts_only_well_formed(s: Seq<char>)
    ensures
        spec_parse(s) matches Ok((name, args)) ==> name.len() > 0 && is_name_valid(name)
            && args.len() <= MAX_ARGS && forall|i: int|
            0 <= i < args.len() ==> is_well_formed_arg(#[trigger] args[i]),
{
    let toks = tokens(s);
    if toks.len() > 0 {
        lemma_tokens_are_runs(s);
        lemma_args_well_formed(toks.drop_first(), (toks.len() - 1) as nat);
    }
}

/// Tokens are never empty and hold no whitespace.
proof fn lemma_tokens_are_runs(s: Seq<char>)
    ensures
        forall|k: int|
            0 <= k < tokens(s).len() ==> (#[trigger] tokens(s)[k]).len() > 0 && forall|j: int|
                0 <= j < tokens(s)[k].len() ==> !is_whitespace(tokens(s)[k][j]),
    decreases s.len(),
{
    if s.len() > 0 {
        lemma_tokens_are_runs(s.drop_last());
        let prev = tokens(s.drop_last());
        let c = s.last();
        if !is_whitespace(c) && s.len() >= 2 && !is_whitespace(s[s.len() - 2]) {
            assert(s.drop_last().last() == s[s.len() - 2]);
            lemma_tokens_nonempty(s.drop_last());
            let t = tokens(s);
            assert forall|k: int| 0 <= k < t.len() implies (#[trigger] t[k]).len() > 0 && forall|
                j: int,
            | 0 <= j < t[k].len() ==> !is_whitespace(t[k][j]) by {
                if k < prev.len() - 1 {
                    assert(t[k] == prev[k]);
                } else {
                    assert(t[k] == prev.last().push(c));
                    assert forall|j: int| 0 <= j < t[k].len() implies !is_whitespace(t[k][j]) by {
                        if j < prev.last().len() {
                            assert(t[k][j] == prev[prev.len() - 1][j]);
                        }
                    }
                }
            }
        } else if !is_whitespace(c) {
            let t = tokens(s);
            assert forall|k: int| 0 <= k < t.len() implies (#[trigger] t[k]).len() > 0 && forall|
                j: int,
            | 0 <= j < t[k].len() ==> !is_whitespace(t[k][j]) by {
                if k < prev.len() {
                    assert(t[k] == prev[k]);
                }
            }
        }
    }
}

/// Trailing whitespace does not change how a line parses, and a line of
/// whitespace alone is `Empty`.
pub proof fn lemma_parse_ignores_trailing_whitespace(s: Seq<char>, c: char)
    requires
        is_whitespace(c),
    ensures
        spec_parse(s.push(c)) == spec_parse(s),
        (forall|j: int| 0 <= j < s.len() ==> is_whitespace(#[trigger] s[j])) ==> spec_parse(s)
            == Err::<(Seq<char>, Seq<ArgView>), ParsingError>(ParsingError::Empty),
{
    assert(s.push(c).drop_last() =~= s);
    lemma_blank_has_no_tokens(s);
}

proof fn lemma_blank_has_no_tokens(s: Seq<char>)
    ensures
        (forall|j: int| 0 <= j < s.len() ==> is_whitespace(#[trigger] s[j])) ==> tokens(s).len()
            == 0,
    decreases s.len(),
{
    if s.len() > 0 {
        lemma_blank_has_no_tokens(s.drop_last());
        if forall|j: int| 0 <= j < s.len() ==> is_whitespace(#[trigger] s[j]) {
            assert forall|j: int| 0 <= j < s.drop_last().len() implies is_whitespace(
                #[trigger] s.drop_last()[j],
            ) by {
                assert(s.drop_last()[j] == s[j]);
            }
            assert(is_whitespace(s[s.len() - 1]));
        }
    }
}

} // verus!
