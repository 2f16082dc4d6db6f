use std::sync::atomic::{AtomicBool, Ordering};
use vstd::prelude::*;

verus! {

/// Whether `c` has the Unicode `White_Space` property, the whitespace that
/// `str::trim` removes.
pub open spec fn is_white_space(c: char) -> bool {
    let u = c as u32;
    ||| 0x9 <= u <= 0xd
    ||| u == 0x20
    ||| u == 0x85
    ||| u == 0xa0
    ||| u == 0x1680
    ||| 0x2000 <= u <= 0x200a
    ||| u == 0x2028
    ||| u == 0x2029
    ||| u == 0x202f
    ||| u == 0x205f
    ||| u == 0x3000
}

/// Whether a string holds nothing but whitespace (the empty string does).
pub open spec fn is_blank_text(s: Seq<char>) -> bool {
    forall|k: int| 0 <= k < s.len() ==> is_white_space(#[trigger] s[k])
}

/// Whether `t` is `s` with its leading and trailing whitespace removed.
pub open spec fn is_trim_of(t: Seq<char>, s: Seq<char>) -> bool {
    exists|i: int, j: int| #![trigger s.subrange(i, j)] trim_bounds(t, s, i, j)
}

/// `t` is `s` from `i` to `j`, with only whitespace outside and none at either
/// end inside.
pub open spec fn trim_bounds(t: Seq<char>, s: Seq<char>, i: int, j: int) -> bool {
    &&& 0 <= i <= j <= s.len()
    &&& t == s.subrange(i, j)
    &&& forall|k: int| 0 <= k < i ==> is_white_space(#[trigger] s[k])
    &&& forall|k: int| j <= k < s.len() ==> is_white_space(#[trigger] s[k])
    &&& i < j ==> !is_white_space(s[i]) && !is_white_space(s[j - 1])
}

/// Relies on `str::trim`: the part of `s` left after removing its leading and
/// trailing `White_Space` characters.
#[verifier::external_body]
fn trim(s: &str) -> (r: &str)
    ensures
        is_trim_of(r@, s@),
{
    s.trim()
}

/// Whether `s` is blank: empty once trimmed.
fn is_blank(s: &str) -> (r: bool)
    ensures
        r == is_blank_text(s@),
{
    let t = trim(s);
    let r = t.is_empty();
    proof {
        let (i, j) = choose|i: int, j: int| trim_bounds(t@, s@, i, j);
        if r {
            assert forall|k: int| 0 <= k < s@.len() implies is_white_space(#[trigger] s@[k]) by {
                if k < i {
                } else {
                    assert(j <= k);
                }
            }
        } else {
            assert(!is_white_space(s@[i]));
        }
    }
    r
}

/// The separator between a context and the inner error's text.
pub open spec fn separator() -> Seq<char> {
    seq![':', ' ']
}

/// How an error renders: `"{context}: {inner}"` when a context is present and
/// not blank, the inner error's text alone otherwise.
pub open spec fn display_text(context: Option<Seq<char>>, inner: Seq<char>) -> Seq<char> {
    match context {
        Some(c) => if is_blank_text(c) {
            inner
        } else {
            c + separator() + inner
        },
        None => inner,
    }
}

/// The outcome of one compare-and-exchange of a guard from `false` to `true`:
/// whether this attempt won, and the guard's value afterwards.
pub open spec fn claim(taken: bool) -> (bool, bool) {
    (!taken, true)
}

/// The results of `n` attempts to take a guard, made one after another from the
/// state `taken`.
pub open spec fn claims(taken: bool, n: nat) -> Seq<bool>
    decreases n,
{
    if n == 0 {
        Seq::empty()
    } else {
        seq![claim(taken).0] + claims(claim(taken).1, (n - 1) as nat)
    }
}

/// An error paired with an optional context string and a one-shot guard for
/// running the error's observers.
pub struct AsyncError<E> {
    error: E,
    context: Option<String>,
    hooks_invoked: AtomicBool,
}

impl<E> AsyncError<E> {
    /// The wrapped error.
    pub closed spec fn spec_error(&self) -> E {
        self.error
    }

    /// The attached context, as characters.
    pub closed spec fn spec_context(&self) -> Option<Seq<char>> {
        match self.context {
            Some(s) => Some(s@),
            None => None,
        }
    }

    /// Wraps an error without context; its observers have not run yet.
    pub fn new(error: E) -> (r: Self)
        ensures
            r.spec_error() == error,
            r.spec_context() == None::<Seq<char>>,
    {
        AsyncError { error, context: None, hooks_invoked: AtomicBool::new(false) }
    }

    /// Attaches a context, replacing any earlier one. The error and the guard are
    /// kept; no observer runs here.
    pub fn with_context(self, context: String) -> (r: Self)
        ensures
            r.spec_error() == self.spec_error(),
            r.spec_context() == Some(context@),
    {
        AsyncError { error: self.error, context: Some(context), hooks_invoked: self.hooks_invoked }
    }

    /// The wrapped error, borrowed.
    pub fn inner_error(&self) -> (r: &E)
        ensures
            *r == self.spec_error(),
    {
        &self.error
    }

    /// The attached context, if any.
    pub fn context(&self) -> (r: Option<&str>)
        ensures
            r matches Some(s) ==> self.spec_context() == Some(s@),
            r is None <==> self.spec_context() is None,
    {
        match &self.context {
            Some(s) => Some(s.as_str()),
            None => None,
        }
    }

    /// Takes the right to run this error's observers: flips the guard from
    /// `false` to `true` with one sequentially consistent compare-and-exchange,
    /// and reports whether this call made the flip. No contract is stated: the
    /// guard is a std atomic, whose value Verus does not track. That concurrent
    /// calls behave as `claims` describes (one `true`, then only `false`) is
    /// assumed from the atomicity of compare-and-exchange, not proved of this
    /// code.
    pub fn invoke_hooks_once(&self) -> bool {
        self.hooks_invoked.compare_exchange(false, true, Ordering::SeqCst, Ordering::Relaxed).is_ok()
    }

    /// The text of this error, given the text of the inner error.
    pub fn render(&self, inner_text: &str) -> (r: String)
        ensures
            r@ == display_text(self.spec_context(), inner_text@),
    {
        match &self.context {
            Some(c) => {
                let blank = is_blank(c.as_str());
                compose_message(Some(c.as_str()), blank, inner_text)
            },
            None => compose_message(None, false, inner_text),
        }
    }
}

/// Builds the rendered text from a context, whether that context is blank, and
/// the inner error's text.
pub fn compose_message(context: Option<&str>, context_blank: bool, inner_text: &str) -> (r: String)
    ensures
        r@ == (match context {
            Some(c) => if context_blank {
                inner_text@
            } else {
                c@ + separator() + inner_text@
            },
            None => inner_text@,
        }),
{
    match context {
        Some(c) => if context_blank {
            inner_text.to_string()
        } else {
            let mut out = c.to_string();
            proof {
                reveal_strlit(": ");
            }
            out.append(": ");
            out.append(inner_text);
            out
        },
        None => inner_text.to_string(),
    }
}

/// A non-blank context attached to a wrapped error renders as the context, a
/// colon and a space, then the inner error's text.
pub proof fn lemma_non_blank_context_prefixes(c: Seq<char>, inner: Seq<char>)
    requires
        !is_blank_text(c),
    ensures
        display_text(Some(c), inner) == c + separator() + inner,
{
}

/// A blank or empty context renders exactly as no context at all.
pub proof fn lemma_blank_context_ignored(c: Seq<char>, inner: Seq<char>)
    requires
        is_blank_text(c),
    ensures
        display_text(Some(c), inner) == display_text(None, inner),
{
}

/// In the model `claims` of a compare-and-exchange guard, of any number of
/// attempts on a fresh guard made one after another, exactly the first wins.
/// This speaks of the model only: that the atomic guards of `AsyncError` and
/// `DispatchSlot` follow it is assumed, not tied to them by any contract.
pub proof fn lemma_guard_claimed_once(n: nat)
    requires
        n >= 1,
    ensures
        claims(false, n).len() == n,
        claims(false, n)[0],
        forall|i: int| 1 <= i < n ==> !#[trigger] claims(false, n)[i],
{
    lemma_claims_taken(true, (n - 1) as nat);
    assert(claims(false, n) == seq![true] + claims(true, (n - 1) as nat));
}

proof fn lemma_claims_taken(taken: bool, n: nat)
    requires
        taken,
    ensures
        claims(taken, n).len() == n,
        forall|i: int| 0 <= i < n ==> !#[trigger] claims(taken, n)[i],
    decreases n,
{
    if n > 0 {
        lemma_claims_taken(true, (n - 1) as nat);
    }
}

} // verus!
