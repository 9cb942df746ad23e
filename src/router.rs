//! The routing decision for one inbound message text.
use vstd::prelude::*;
use crate::commands::CommandTable;
use crate::text::{join_words, join_words_from, lemma_spans_shape, token_spans, word_spans, words};

verus! {

/// What the router decides for a message, over plain values.
pub enum RouteModel {
    Command(usize, Seq<char>),
    Fallback(usize),
    Unrouted,
}

/// A token with the mention suffix `@name` taken off, where the bot's name is known and
/// the token ends with it.
pub open spec fn mention_stripped(token: Seq<char>, name: Option<Seq<char>>) -> Seq<char> {
    match name {
        Some(n) => if token.len() >= n.len() + 1 && token.subrange(
            token.len() - n.len() - 1,
            token.len() as int,
        ) == seq!['@'] + n {
            token.subrange(0, token.len() - n.len() - 1)
        } else {
            token
        },
        None => token,
    }
}

pub open spec fn is_command_token(t: Seq<char>) -> bool {
    t.len() > 0 && t[0] == '/'
}

/// The route of a message text: a registered command gets the words after the command,
/// an unregistered command goes to the fallback if there is one, and the rest is unrouted.
pub open spec fn route_of(
    table: Map<Seq<char>, usize>,
    fallback: Option<usize>,
    name: Option<Seq<char>>,
    text: Option<Seq<char>>,
) -> RouteModel {
    match text {
        None => RouteModel::Unrouted,
        Some(t) => {
            let w = words(t);
            if w.len() == 0 || !is_command_token(w[0]) {
                RouteModel::Unrouted
            } else {
                let key = mention_stripped(w[0], name);
                if table.contains_key(key) {
                    RouteModel::Command(table[key], join_words(w.drop_first()))
                } else {
                    match fallback {
                        Some(f) => RouteModel::Fallback(f),
                        None => RouteModel::Unrouted,
                    }
                }
            }
        }
    }
}

#[derive(Debug)]
pub enum Route {
    /// Deliver to the handler in `slot`, with the message text replaced by `text`.
    Command { slot: usize, text: String },
    /// Deliver the unchanged message to the fallback handler in `slot`.
    Fallback { slot: usize },
    /// Not a command: hand the update on as it is.
    Unrouted,
}

impl Route {
    pub open spec fn model(&self) -> RouteModel {
        match self {
            Route::Command { slot, text } => RouteModel::Command(*slot, text@),
            Route::Fallback { slot } => RouteModel::Fallback(*slot),
            Route::Unrouted => RouteModel::Unrouted,
        }
    }
}

pub open spec fn opt_view(s: Option<String>) -> Option<Seq<char>> {
    match s {
        Some(v) => Some(v@),
        None => None,
    }
}

/// Whether `token` ends with `@` followed by `name`.
fn ends_with_mention(token: &str, name: &str) -> (r: bool)
    requires
        token@.len() >= name@.len() + 1,
    ensures
        r == (token@.subrange(token@.len() - name@.len() - 1, token@.len() as int) == seq!['@']
            + name@),
{
    let tl = token.unicode_len();
    let nl = name.unicode_len();
    let start = tl - nl - 1;
    let ghost want = seq!['@'] + name@;
    let ghost tail = token@.subrange(start as int, tl as int);
    if token.get_char(start) != '@' {
        assert(tail[0] != want[0]);
        return false;
    }
    let mut j: usize = 0;
    while j < nl
        invariant
            tl == token@.len(),
            nl == name@.len(),
            start == tl - nl - 1,
            j <= nl,
            tail == token@.subrange(start as int, tl as int),
            want == seq!['@'] + name@,
            forall|k: int| 0 <= k <= j ==> tail[k] == want[k],
        decreases nl - j,
    {
        if token.get_char(start + 1 + j) != name.get_char(j) {
            assert(tail[j + 1] != want[j + 1]);
            return false;
        }
        j = j + 1;
    }
    assert(tail =~= want);
    true
}

/// The token with a trailing `@name` removed where `name` is known and matches.
pub fn strip_mention(token: &str, name: &Option<String>) -> (r: String)
    ensures
        r@ == mention_stripped(token@, opt_view(*name)),
{
    match name {
        None => token.to_owned(),
        Some(n) => {
            let tl = token.unicode_len();
            let nl = n.as_str().unicode_len();
            if tl > nl && ends_with_mention(token, n.as_str()) {
                token.substring_char(0, tl - nl - 1).to_owned()
            } else {
                token.to_owned()
            }
        }
    }
}

/// Decides where a message text goes.
pub fn route(
    table: &CommandTable,
    fallback: Option<usize>,
    name: &Option<String>,
    text: Option<&str>,
) -> (r: Route)
    ensures
        r.model() == route_of(table@, fallback, opt_view(*name), match text {
            Some(t) => Some(t@),
            None => None,
        }),
{
    match text {
        None => Route::Unrouted,
        Some(s) => {
            let spans = word_spans(s);
            proof {
                lemma_spans_shape(s@, s@.len() as int);
            }
            let ghost w = words(s@);
            if spans.len() == 0 {
                return Route::Unrouted;
            }
            let (a, b) = spans[0];
            let first = s.substring_char(a, b);
            assert(first@ == w[0]);
            if first.get_char(0) != '/' {
                return Route::Unrouted;
            }
            let key = strip_mention(first, name);
            match table.get(&key) {
                Some(slot) => {
                    let rest = join_words_from(s, &spans, 1);
                    assert(w.subrange(1, w.len() as int) =~= w.drop_first());
                    Route::Command { slot, text: rest }
                },
                None => match fallback {
                    Some(f) => Route::Fallback { slot: f },
                    None => Route::Unrouted,
                },
            }
        },
    }
}

} // verus!
