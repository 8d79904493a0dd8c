//! The tracing log macros: what a call such as
//! `trace_error!(target: "net", key = value; "message {}", arg)` is made
//! of, and the `log` macro call it expands to.
//!
//! A call is read from its tokens, each value or argument counted as one
//! token: an optional `target: T,`, then `key = value` pairs, each
//! optionally followed by `,` or `;`, then the message (a string
//! literal), then `, argument` as often as needed, and nothing else.

use vstd::prelude::*;
use crate::text::{owned, str_eq};

verus! {

/// The level of a tracing log call.
#[derive(Clone, Copy, Debug, PartialEq, Eq, Structural)]
pub enum Level {
    Error,
    Warn,
    Info,
    Debug,
    Trace,
}

/// The name of the `log` macro a call of this level expands to.
pub open spec fn macro_name(l: Level) -> Seq<char> {
    match l {
        Level::Error => seq!['e', 'r', 'r', 'o', 'r'],
        Level::Warn => seq!['w', 'a', 'r', 'n'],
        Level::Info => seq!['i', 'n', 'f', 'o'],
        Level::Debug => seq!['d', 'e', 'b', 'u', 'g'],
        Level::Trace => seq!['t', 'r', 'a', 'c', 'e'],
    }
}

impl Level {
    /// The name of the `log` macro a call of this level expands to.
    pub fn macro_name(&self) -> (res: &'static str)
        ensures
            res@ == macro_name(*self),
    {
        match self {
            Level::Error => {
                proof { reveal_strlit("error"); }
                "error"
            },
            Level::Warn => {
                proof { reveal_strlit("warn"); }
                "warn"
            },
            Level::Info => {
                proof { reveal_strlit("info"); }
                "info"
            },
            Level::Debug => {
                proof { reveal_strlit("debug"); }
                "debug"
            },
            Level::Trace => {
                proof { reveal_strlit("trace"); }
                "trace"
            },
        }
    }
}


/// One token of a log macro call.
pub enum MacroToken {
    /// An identifier.
    Ident(String),
    /// A literal other than a string.
    Lit(String),
    /// A string literal.
    Str(String),
    /// Any other expression, taken whole.
    Expr(String),
    Colon,
    Comma,
    Semi,
    Eq,
    /// Any other punctuation.
    Other,
}

/// A value of a key-value pair or of the target.
pub enum MacroValue {
    /// A literal, written as is.
    Lit(String),
    /// An expression, evaluated at the call.
    Expr(String),
}

/// A value by its kind (`true` for a literal) and text.
pub type ValueView = (bool, Seq<char>);

impl View for MacroValue {
    type V = ValueView;

    open spec fn view(&self) -> ValueView {
        match self {
            MacroValue::Lit(t) => (true, t@),
            MacroValue::Expr(t) => (false, t@),
        }
    }
}

/// A key-value pair by its parts.
pub type PairView = (Seq<char>, ValueView);

/// The parts of each pair of a list.
pub open spec fn pair_views(s: Seq<(String, MacroValue)>) -> Seq<PairView> {
    s.map_values(|p: (String, MacroValue)| (p.0@, p.1@))
}

/// An optional value by its parts.
pub open spec fn opt_value(v: Option<MacroValue>) -> Option<ValueView> {
    match v {
        Some(x) => Some(x@),
        None => None,
    }
}

/// The texts of a list of strings.
pub open spec fn texts(s: Seq<String>) -> Seq<Seq<char>> {
    s.map_values(|t: String| t@)
}

/// A log macro call, read from its tokens.
pub struct Log {
    pub level: Level,
    pub target: Option<MacroValue>,
    pub kvs: Vec<(String, MacroValue)>,
    pub msg: String,
    pub args: Vec<String>,
}

/// A call by its target, pairs, message and arguments.
pub type LogView = (Option<ValueView>, Seq<PairView>, Seq<char>, Seq<Seq<char>>);

/// The value a token gives where a value is read: a literal (string or
/// not) as a literal, an identifier or other expression as an expression.
pub open spec fn value_of(t: MacroToken) -> Option<ValueView> {
    match t {
        MacroToken::Lit(s) => Some((true, s@)),
        MacroToken::Str(s) => Some((true, s@)),
        MacroToken::Ident(s) => Some((false, s@)),
        MacroToken::Expr(s) => Some((false, s@)),
        _ => None,
    }
}

/// The text of a token where an argument expression is read.
pub open spec fn arg_of(t: MacroToken) -> Option<Seq<char>> {
    match value_of(t) {
        Some(v) => Some(v.1),
        None => None,
    }
}

/// Whether a token may close a key-value pair.
pub open spec fn is_separator(t: MacroToken) -> bool {
    t is Comma || t is Semi
}

/// Position `j`, moved past one separator if there is one there.
pub open spec fn skip_separator(toks: Seq<MacroToken>, j: int) -> int {
    if j < toks.len() && is_separator(toks[j]) {
        j + 1
    } else {
        j
    }
}

/// The key-value pairs read from position `i` on, while an identifier
/// comes next, and the position after them; `None` when a pair is
/// malformed.
pub open spec fn pairs_from(toks: Seq<MacroToken>, i: int) -> Option<(Seq<PairView>, int)>
    decreases toks.len() - i,
    when 0 <= i <= toks.len()
{
    if i < toks.len() && toks[i] is Ident {
        if i + 2 < toks.len() && toks[i + 1] is Eq && value_of(toks[i + 2]) is Some {
            let pair = (toks[i]->Ident_0@, value_of(toks[i + 2])->0);
            match pairs_from(toks, skip_separator(toks, i + 3)) {
                Some((rest, end)) => Some((seq![pair] + rest, end)),
                None => None,
            }
        } else {
            None
        }
    } else {
        Some((Seq::empty(), i))
    }
}

/// The arguments read from position `i` to the end, each after a comma;
/// `None` when anything else is met.
pub open spec fn args_from(toks: Seq<MacroToken>, i: int) -> Option<Seq<Seq<char>>>
    decreases toks.len() - i,
    when 0 <= i <= toks.len()
{
    if i == toks.len() {
        Some(Seq::empty())
    } else if toks[i] is Comma && i + 1 < toks.len() && arg_of(toks[i + 1]) is Some {
        match args_from(toks, i + 2) {
            Some(rest) => Some(seq![arg_of(toks[i + 1])->0] + rest),
            None => None,
        }
    } else {
        None
    }
}

/// What comes before the pairs that follow: the target and the first
/// pair, read from the first identifier when there is one, and where
/// reading goes on.
pub open spec fn head_of(toks: Seq<MacroToken>) -> Option<(Option<ValueView>, Seq<PairView>, int)> {
    if toks.len() > 0 && toks[0] is Ident {
        if toks[0]->Ident_0@ == "target"@ {
            if 3 < toks.len() && toks[1] is Colon && value_of(toks[2]) is Some && toks[3] is Comma {
                Some((Some(value_of(toks[2])->0), Seq::empty(), 4))
            } else {
                None
            }
        } else if 2 < toks.len() && toks[1] is Eq && value_of(toks[2]) is Some {
            Some((None, seq![(toks[0]->Ident_0@, value_of(toks[2])->0)], skip_separator(toks, 3)))
        } else {
            None
        }
    } else {
        Some((None, Seq::empty(), 0))
    }
}

/// The call the tokens spell, or `None` when they spell none.
pub open spec fn log_of(toks: Seq<MacroToken>) -> Option<LogView> {
    match head_of(toks) {
        None => None,
        Some((target, first, i)) => match pairs_from(toks, i) {
            None => None,
            Some((pairs, k)) => if k < toks.len() && toks[k] is Str {
                match args_from(toks, k + 1) {
                    Some(args) => Some((target, first + pairs, toks[k]->Str_0@, args)),
                    None => None,
                }
            } else {
                None
            },
        },
    }
}

/// A copy of a value.
fn copy_value(v: &MacroValue) -> (res: MacroValue)
    ensures
        res@ == v@,
{
    match v {
        MacroValue::Lit(t) => MacroValue::Lit(t.clone()),
        MacroValue::Expr(t) => MacroValue::Expr(t.clone()),
    }
}

/// The value of a token, where a value is read.
fn read_value(t: &MacroToken) -> (res: Option<MacroValue>)
    ensures
        match res {
            Some(v) => value_of(*t) == Some(v@),
            None => value_of(*t) is None,
        },
{
    match t {
        MacroToken::Lit(s) => Some(MacroValue::Lit(s.clone())),
        MacroToken::Str(s) => Some(MacroValue::Lit(s.clone())),
        MacroToken::Ident(s) => Some(MacroValue::Expr(s.clone())),
        MacroToken::Expr(s) => Some(MacroValue::Expr(s.clone())),
        _ => None,
    }
}

/// Position `j`, moved past one separator if there is one there.
fn skip_sep(toks: &Vec<MacroToken>, j: usize) -> (res: usize)
    requires
        j <= toks@.len(),
    ensures
        res == skip_separator(toks@, j as int),
        res <= toks@.len(),
{
    if j < toks.len() {
        match &toks[j] {
            MacroToken::Comma => j + 1,
            MacroToken::Semi => j + 1,
            _ => j,
        }
    } else {
        j
    }
}

impl Log {
    /// The view of a call.
    pub open spec fn parts(&self) -> LogView {
        (
            opt_value(self.target),
            pair_views(self.kvs@),
            self.msg@,
            texts(self.args@),
        )
    }

    /// Reads a call from its tokens; its level is set by the macro that
    /// was called and starts as `Trace`.
    pub fn parse(toks: &Vec<MacroToken>) -> (res: Option<Log>)
        ensures
            match res {
                Some(l) => log_of(toks@) == Some(l.parts()) && l.level == Level::Trace,
                None => log_of(toks@) is None,
            },
    {
        let n = toks.len();
        let mut target: Option<MacroValue> = None;
        let mut kvs: Vec<(String, MacroValue)> = Vec::new();
        let mut i: usize = 0;
        // the target, or the first pair
        if n > 0 {
            if let MacroToken::Ident(name) = &toks[0] {
                proof { reveal_strlit("target"); }
                if str_eq(name.as_str(), "target") {
                    if n <= 3 {
                        return None;
                    }
                    if !matches!(toks[1], MacroToken::Colon) || !matches!(toks[3], MacroToken::Comma) {
                        return None;
                    }
                    match read_value(&toks[2]) {
                        Some(v) => {
                            target = Some(v);
                        },
                        None => {
                            return None;
                        },
                    }
                    i = 4;
                } else {
                    if n <= 2 || !matches!(toks[1], MacroToken::Eq) {
                        return None;
                    }
                    match read_value(&toks[2]) {
                        Some(v) => {
                            kvs.push((name.clone(), v));
                        },
                        None => {
                            return None;
                        },
                    }
                    i = skip_sep(toks, 3);
                }
            }
        }
        let ghost tgt = opt_value(target);
        let ghost first = pair_views(kvs@);
        let ghost start = i as int;
        assert(head_of(toks@) == Some((tgt, first, start)));
        // the pairs that follow
        while i < n && matches!(toks[i], MacroToken::Ident(_))
            invariant_except_break
                start <= i <= n,
                0 <= start,
                n == toks@.len(),
                head_of(toks@) == Some((tgt, first, start)),
                pairs_from(toks@, start) == match pairs_from(toks@, i as int) {
                    Some((rest, end)) => Some((pair_views(kvs@).skip(first.len() as int) + rest, end)),
                    None => None,
                },
                pair_views(kvs@).take(first.len() as int) == first,
                first.len() <= pair_views(kvs@).len(),
            ensures
                start <= i <= n,
                0 <= start,
                n == toks@.len(),
                head_of(toks@) == Some((tgt, first, start)),
                pairs_from(toks@, start) == match pairs_from(toks@, i as int) {
                    Some((rest, end)) => Some((pair_views(kvs@).skip(first.len() as int) + rest, end)),
                    None => None,
                },
                pair_views(kvs@).take(first.len() as int) == first,
                first.len() <= pair_views(kvs@).len(),
                !(i < n && toks@[i as int] is Ident),
            decreases n - i,
        {
            if n - i <= 2 || !matches!(toks[i + 1], MacroToken::Eq) {
                assert(pairs_from(toks@, i as int) is None);
                return None;
            }
            let key = match &toks[i] {
                MacroToken::Ident(k) => k.clone(),
                _ => {
                    return None;
                },
            };
            match read_value(&toks[i + 2]) {
                Some(v) => {
                    let ghost prev = pair_views(kvs@);
                    kvs.push((key, v));
                    assert(pair_views(kvs@) =~= prev.push((key@, v@)));
                    assert(pair_views(kvs@).take(first.len() as int) =~= prev.take(first.len() as int));
                    assert(pair_views(kvs@).skip(first.len() as int) =~= prev.skip(first.len() as int).push(
                        (key@, v@),
                    ));
                },
                None => {
                    assert(pairs_from(toks@, i as int) is None);
                    return None;
                },
            }
            let ghost old_i = i;
            i = skip_sep(toks, i + 3);
            proof {
                let pair = (key@, value_of(toks@[old_i + 2])->0);
                match pairs_from(toks@, i as int) {
                    Some((rest, end)) => {
                        assert(pairs_from(toks@, old_i as int) == Some((seq![pair] + rest, end)));
                        assert(pair_views(kvs@).skip(first.len() as int) + rest =~= pair_views(kvs@).skip(
                            first.len() as int,
                        ).drop_last() + (seq![pair] + rest));
                    },
                    None => {},
                }
            }
        }
        assert(pairs_from(toks@, i as int) == Some((Seq::<PairView>::empty(), i as int)));
        let ghost pairs = pair_views(kvs@);
        assert(pairs =~= first + pairs.skip(first.len() as int));
        assert(pairs.skip(first.len() as int) + Seq::<PairView>::empty() =~= pairs.skip(first.len() as int));
        assert(pairs_from(toks@, start) == Some((pairs.skip(first.len() as int), i as int)));
        if i >= n {
            return None;
        }
        let msg = match &toks[i] {
            MacroToken::Str(m) => m.clone(),
            _ => {
                return None;
            },
        };
        // the arguments
        let mut args: Vec<String> = Vec::new();
        let ghost msg_at = i as int;
        assert(log_of(toks@) == match args_from(toks@, msg_at + 1) {
            Some(a) => Some((tgt, pairs, msg@, a)),
            None => None,
        });
        let mut j: usize = i + 1;
        assert(texts(args@) =~= Seq::<Seq<char>>::empty());
        while j < n
            invariant
                msg_at < j <= n,
                0 <= msg_at,
                n == toks@.len(),
                log_of(toks@) == match args_from(toks@, msg_at + 1) {
                    Some(a) => Some((tgt, pairs, msg@, a)),
                    None => None,
                },
                args_from(toks@, msg_at + 1) == match args_from(toks@, j as int) {
                    Some(rest) => Some(texts(args@) + rest),
                    None => None,
                },
            decreases n - j,
        {
            if !matches!(toks[j], MacroToken::Comma) || n - j <= 1 {
                assert(args_from(toks@, j as int) is None);
                return None;
            }
            let a = match &toks[j + 1] {
                MacroToken::Lit(s) => s.clone(),
                MacroToken::Str(s) => s.clone(),
                MacroToken::Ident(s) => s.clone(),
                MacroToken::Expr(s) => s.clone(),
                _ => {
                    assert(args_from(toks@, j as int) is None);
                    return None;
                },
            };
            assert(arg_of(toks@[j + 1]) == Some(a@));
            let ghost prev = texts(args@);
            args.push(a);
            assert(texts(args@) =~= prev.push(a@));
            proof {
                match args_from(toks@, j + 2) {
                    Some(rest) => {
                        assert(args_from(toks@, j as int) == Some(seq![a@] + rest));
                        assert(prev + (seq![a@] + rest) =~= texts(args@) + rest);
                    },
                    None => {},
                }
            }
            j = j + 2;
        }
        assert(texts(args@) + Seq::<Seq<char>>::empty() =~= texts(args@));
        let res = Log { level: Level::Trace, target, kvs, msg, args };
        assert(res.parts() == (tgt, pairs, msg@, texts(args@)));
        Some(res)
    }

    /// The key-value pairs the expanded `log` call carries: those of the
    /// call, and, inside a span, the span's trace id after them.
    pub fn call_pairs(&self, in_span: bool) -> (res: Vec<(String, MacroValue)>)
        ensures
            pair_views(res@) == if in_span {
                pair_views(self.kvs@).push(("trace_id"@, (false, "span.trace_id.0"@)))
            } else {
                pair_views(self.kvs@)
            },
    {
        let mut out: Vec<(String, MacroValue)> = Vec::new();
        let mut k: usize = 0;
        while k < self.kvs.len()
            invariant
                k <= self.kvs@.len(),
                pair_views(out@) == pair_views(self.kvs@.take(k as int)),
            decreases self.kvs@.len() - k,
        {
            let ghost prev = pair_views(out@);
            let key = self.kvs[k].0.clone();
            let v = copy_value(&self.kvs[k].1);
            out.push((key, v));
            assert(pair_views(out@) =~= prev.push((key@, v@)));
            assert(self.kvs@.take(k + 1) =~= self.kvs@.take(k as int).push(self.kvs@[k as int]));
            assert(pair_views(self.kvs@.take(k + 1)) =~= pair_views(self.kvs@.take(k as int)).push(
                (self.kvs@[k as int].0@, self.kvs@[k as int].1@),
            ));
            k = k + 1;
        }
        assert(self.kvs@.take(k as int) =~= self.kvs@);
        if in_span {
            proof {
                reveal_strlit("trace_id");
                reveal_strlit("span.trace_id.0");
            }
            let ghost prev = pair_views(out@);
            let key = owned("trace_id");
            let v = MacroValue::Expr(owned("span.trace_id.0"));
            out.push((key, v));
            assert(pair_views(out@) =~= prev.push((key@, v@)));
        }
        out
    }
}

/// Reads a call of the macro of `level` from its tokens.
pub fn parse_log(toks: &Vec<MacroToken>, level: Level) -> (res: Option<Log>)
    ensures
        match res {
            Some(l) => log_of(toks@) == Some(l.parts()) && l.level == level,
            None => log_of(toks@) is None,
        },
{
    match Log::parse(toks) {
        Some(mut l) => {
            l.level = level;
            Some(l)
        },
        None => None,
    }
}

/// Reading from position `i` on looks at nothing before `i`: two token
/// lists of one length that agree from `i` on read the same pairs and
/// the same arguments from there, and the pairs end at or after `i`.
proof fn lemma_reading_from(s1: Seq<MacroToken>, s2: Seq<MacroToken>, i: int)
    requires
        0 <= i <= s1.len(),
        s1.len() == s2.len(),
        forall|j: int| i <= j < s1.len() ==> s1[j] == s2[j],
    ensures
        pairs_from(s1, i) == pairs_from(s2, i),
        args_from(s1, i) == args_from(s2, i),
        pairs_from(s1, i) matches Some((_, e)) ==> i <= e <= s1.len(),
    decreases s1.len() - i,
{
    if i < s1.len() {
        if i + 2 < s1.len() {
            let j = skip_separator(s1, i + 3);
            assert(j == skip_separator(s2, i + 3));
            if i < j {
                lemma_reading_from(s1, s2, j);
            }
        }
        if i + 1 < s1.len() {
            lemma_reading_from(s1, s2, i + 2);
        }
    }
}

/// A separator after the first key-value pair may be `,` or `;`: a call
/// whose first pair (not a target) is followed by `,` reads exactly as the
/// same call with `;` there.
pub proof fn lemma_first_separator_either(k: String, v: MacroToken, rest: Seq<MacroToken>)
    requires
        k@ != "target"@,
        value_of(v) is Some,
    ensures
        log_of(seq![MacroToken::Ident(k), MacroToken::Eq, v, MacroToken::Comma] + rest) == log_of(
            seq![MacroToken::Ident(k), MacroToken::Eq, v, MacroToken::Semi] + rest,
        ),
{
    let t1 = seq![MacroToken::Ident(k), MacroToken::Eq, v, MacroToken::Comma] + rest;
    let t2 = seq![MacroToken::Ident(k), MacroToken::Eq, v, MacroToken::Semi] + rest;
    assert(t1[0] == MacroToken::Ident(k) && t2[0] == MacroToken::Ident(k));
    assert(t1[1] == MacroToken::Eq && t2[1] == MacroToken::Eq);
    assert(t1[2] == v && t2[2] == v);
    assert(t1[3] == MacroToken::Comma && t2[3] == MacroToken::Semi);
    assert(skip_separator(t1, 3) == 4);
    assert(skip_separator(t2, 3) == 4);
    assert(head_of(t1) == Some((None::<ValueView>, seq![(k@, value_of(v)->0)], 4int)));
    assert(head_of(t2) == Some((None::<ValueView>, seq![(k@, value_of(v)->0)], 4int)));
    assert forall|j: int| 4 <= j < t1.len() implies t1[j] == t2[j] by {
        assert(t1[j] == rest[j - 4]);
        assert(t2[j] == rest[j - 4]);
    }
    lemma_reading_from(t1, t2, 4);
    match pairs_from(t1, 4) {
        Some((pairs, e)) => {
            if e < t1.len() {
                assert(t1[e] == t2[e]);
                lemma_reading_from(t1, t2, e + 1);
            }
        },
        None => {},
    }
}

/// A call of two key-value pairs, the first closed by `,` and the second
/// by `;`, then a message and one argument, reads as exactly those two
/// pairs in order, that message and that argument, with no target (as
/// `name = "hello", age = age; "hello {}", "todo"` does).
pub proof fn lemma_two_pairs_message_argument(
    k1: String,
    v1: MacroToken,
    k2: String,
    v2: MacroToken,
    m: String,
    a: MacroToken,
)
    requires
        k1@ != "target"@,
        value_of(v1) is Some,
        value_of(v2) is Some,
        arg_of(a) is Some,
    ensures
        log_of(
            seq![
                MacroToken::Ident(k1),
                MacroToken::Eq,
                v1,
                MacroToken::Comma,
                MacroToken::Ident(k2),
                MacroToken::Eq,
                v2,
                MacroToken::Semi,
                MacroToken::Str(m),
                MacroToken::Comma,
                a,
            ],
        ) == Some(
            (
                None::<ValueView>,
                seq![(k1@, value_of(v1)->0), (k2@, value_of(v2)->0)],
                m@,
                seq![arg_of(a)->0],
            ),
        ),
{
    let t = seq![
        MacroToken::Ident(k1),
        MacroToken::Eq,
        v1,
        MacroToken::Comma,
        MacroToken::Ident(k2),
        MacroToken::Eq,
        v2,
        MacroToken::Semi,
        MacroToken::Str(m),
        MacroToken::Comma,
        a,
    ];
    assert(skip_separator(t, 3) == 4);
    assert(head_of(t) == Some((None::<ValueView>, seq![(k1@, value_of(v1)->0)], 4int)));
    assert(skip_separator(t, 7) == 8);
    assert(pairs_from(t, 8) == Some((Seq::<PairView>::empty(), 8int)));
    assert(pairs_from(t, 4) == Some((seq![(k2@, value_of(v2)->0)] + Seq::<PairView>::empty(), 8int)));
    assert(args_from(t, 11) == Some(Seq::<Seq<char>>::empty()));
    assert(args_from(t, 9) == Some(seq![arg_of(a)->0] + Seq::<Seq<char>>::empty()));
    assert(seq![(k1@, value_of(v1)->0)] + (seq![(k2@, value_of(v2)->0)] + Seq::<PairView>::empty())
        =~= seq![(k1@, value_of(v1)->0), (k2@, value_of(v2)->0)]);
    assert(seq![arg_of(a)->0] + Seq::<Seq<char>>::empty() =~= seq![arg_of(a)->0]);
}

} // verus!
