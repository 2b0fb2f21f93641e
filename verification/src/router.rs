//! Invocation router.
//!
//! Decides whether the current invocation delegates at all: delegation
//! triggers when the invocation name contains the recognized alias, or when
//! the first argument equals the recognized trigger token. The forwarded
//! argument vector strips exactly the consumed prefix — the program name
//! alone, or the program name plus the trigger token. When no trigger
//! matches, the driver prints a one-line usage hint and exits non-zero
//! without consulting the resolver.

use vstd::prelude::*;
use vstd::string::{StrSliceExecFns, StringExecFns};

verus! {

/// The recognized alias occurs somewhere in the invocation name.
pub open spec fn has_alias(s: Seq<char>) -> bool {
    exists|i: int| 0 <= i && i + 2 <= s.len() && #[trigger] s[i] == 'p' && s[i + 1] == 'i'
}

/// Whether an argument vector triggers delegation.
pub open spec fn spec_delegates(args: Seq<Seq<char>>) -> bool {
    &&& args.len() > 0
    &&& (has_alias(args[0]) || (args.len() > 1 && args[1] == "pi"@))
}

/// The argument vector handed to the resolved artifact: everything after
/// the consumed prefix, verbatim and in order.
pub open spec fn spec_forwarded(args: Seq<Seq<char>>) -> Seq<Seq<char>> {
    if has_alias(args[0]) {
        args.skip(1)
    } else {
        args.skip(2)
    }
}

/// The routing decision.
pub enum Route {
    /// Delegate, forwarding exactly these arguments.
    Delegate { forwarded: Vec<String> },
    /// No trigger matched: print the usage hint and exit non-zero.
    Usage,
}

/// Whether the alias occurs in `s`.
fn contains_alias(s: &str) -> (r: bool)
    ensures
        r == has_alias(s@),
{
    let n = s.unicode_len();
    if n < 2 {
        return false;
    }
    let mut i: usize = 0;
    while i < n - 1
        invariant
            2 <= n == s@.len(),
            0 <= i <= n - 1,
            forall|j: int| 0 <= j < i ==> !(#[trigger] s@[j] == 'p' && s@[j + 1] == 'i'),
        decreases n - i,
    {
        if s.get_char(i) == 'p' && s.get_char(i + 1) == 'i' {
            proof {
                assert(0 <= i as int && i as int + 2 <= s@.len() && s@[i as int] == 'p'
                    && s@[i as int + 1] == 'i');
            }
            return true;
        }
        i = i + 1;
    }
    false
}

/// Whether `s` is exactly the trigger token.
fn is_trigger_token(s: &str) -> (r: bool)
    ensures
        r == (s@ == "pi"@),
{
    proof {
        reveal_strlit("pi");
    }
    let n = s.unicode_len();
    if n != 2 {
        return false;
    }
    let r = s.get_char(0) == 'p' && s.get_char(1) == 'i';
    proof {
        if r {
            assert(s@ =~= "pi"@);
        }
    }
    r
}

/// Clones the arguments from index `k` on.
fn tail_args(args: &Vec<String>, k: usize) -> (r: Vec<String>)
    requires
        k <= args.len(),
    ensures
        r.deep_view() == args.deep_view().skip(k as int),
{
    let mut r: Vec<String> = Vec::new();
    let mut i: usize = k;
    while i < args.len()
        invariant
            k <= i <= args.len(),
            r@.len() == i - k,
            r.deep_view() == args.deep_view().subrange(k as int, i as int),
        decreases args.len() - i,
    {
        let s = args[i].clone();
        proof {
            assert(s@ == args.deep_view()[i as int]);
        }
        r.push(s);
        proof {
            assert(r@.len() == i + 1 - k);
            assert(r@[i - k]@ == args.deep_view()[i as int]);
            assert(r.deep_view() =~= args.deep_view().subrange(k as int, i + 1));
        }
        i = i + 1;
    }
    proof {
        assert(args.deep_view().subrange(k as int, args.deep_view().len() as int)
            =~= args.deep_view().skip(k as int));
    }
    r
}

/// Routes an invocation: delegation triggers on the alias in the invocation
/// name or on the trigger token as first argument, and the forwarded vector
/// strips exactly the consumed prefix.
pub fn route(args: &Vec<String>) -> (r: Route)
    requires
        args.len() >= 1,
    ensures
        (r is Delegate) == spec_delegates(args.deep_view()),
        r matches Route::Delegate { forwarded } ==> forwarded.deep_view() == spec_forwarded(
            args.deep_view(),
        ),
{
    if contains_alias(args[0].as_str()) {
        Route::Delegate { forwarded: tail_args(args, 1) }
    } else if args.len() > 1 && is_trigger_token(args[1].as_str()) {
        Route::Delegate { forwarded: tail_args(args, 2) }
    } else {
        Route::Usage
    }
}

/// The one-line usage hint shown when no trigger matches.
pub fn usage_line() -> (s: String)
    ensures
        s@ == "Usage: pi [command] [options]"@,
{
    String::from_str("Usage: pi [command] [options]")
}

} // verus!
