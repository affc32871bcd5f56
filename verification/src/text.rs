//! Message normalization: a fixed count of leading characters is removed
//! from every message returned by the store.

use vstd::prelude::*;
use vstd::std_specs::iter::IteratorSpec;

verus! {

broadcast use vstd::string::group_string_axioms;

/// The sequence `s` with its first `n` characters removed; empty when `s`
/// has no more than `n` characters.
pub open spec fn trimmed(s: Seq<char>, n: nat) -> Seq<char> {
    if n <= s.len() {
        s.skip(n as int)
    } else {
        Seq::empty()
    }
}

/// Relies on `String::push`: appends the given character to the end of the
/// string.
pub assume_specification[ String::push ](s: &mut String, ch: char)
    ensures
        final(s)@ == old(s)@.push(ch),
;

/// Relies on `String::pop`: removes the last character of the string and
/// returns it, or returns `None` and leaves the string unchanged when it is
/// empty.
pub assume_specification[ String::pop ](s: &mut String) -> (r: Option<char>)
    ensures
        old(s)@.len() == 0 ==> r is None && final(s)@ == old(s)@,
        old(s)@.len() > 0 ==> r == Some(old(s)@.last()) && final(s)@ == old(s)@.drop_last(),
;

/// Whether `char::is_alphanumeric` accepts the character; the Unicode table
/// behind it is not restated here.
pub uninterp spec fn is_alphanumeric_char(c: char) -> bool;

/// Relies on `char::is_alphanumeric`: the result depends on the character
/// alone.
pub assume_specification[ char::is_alphanumeric ](c: char) -> (r: bool)
    ensures
        r == is_alphanumeric_char(c),
;

proof fn lemma_trimmed_drop_first(s: Seq<char>, n: nat)
    requires
        s.len() > 0,
        n > 0,
    ensures
        trimmed(s.drop_first(), (n - 1) as nat) == trimmed(s, n),
{
    if n <= s.len() {
        assert(s.drop_first().skip(n - 1) =~= s.skip(n as int));
    } else {
        assert(trimmed(s.drop_first(), (n - 1) as nat) =~= Seq::<char>::empty());
    }
}

/// Remove the first `snip` characters of `msg`.
pub fn trim_message(msg: &str, snip: usize) -> (r: String)
    ensures
        r@ == trimmed(msg@, snip as nat),
{
    let mut it = msg.chars();
    let mut out = String::new();
    let mut rem: usize = snip;
    loop
        invariant
            rem <= snip,
            rem > 0 ==> out@ =~= Seq::<char>::empty() && trimmed(it.remaining(), rem as nat)
                =~= trimmed(msg@, snip as nat),
            rem == 0 ==> out@ + it.remaining() =~= trimmed(msg@, snip as nat),
            it.decrease() is Some,
        ensures
            out@ == trimmed(msg@, snip as nat),
        decreases it.decrease()->0,
    {
        let ghost prev_rem = it.remaining();
        match it.next() {
            None => {
                proof {
                    if rem > 0 {
                        assert(trimmed(prev_rem, rem as nat) =~= Seq::<char>::empty());
                    } else {
                        assert(out@ + prev_rem =~= out@);
                    }
                    assert(out@ =~= trimmed(msg@, snip as nat));
                }
                break ;
            },
            Some(c) => {
                if rem > 0 {
                    proof {
                        lemma_trimmed_drop_first(prev_rem, rem as nat);
                    }
                    rem = rem - 1;
                    if rem == 0 {
                        proof {
                            assert(out@ + it.remaining() =~= trimmed(msg@, snip as nat));
                        }
                    }
                } else {
                    let ghost prev_out = out@;
                    out.push(c);
                    proof {
                        assert(prev_out.push(c) + prev_rem.drop_first() =~= prev_out + prev_rem);
                    }
                }
            },
        }
    }
    out
}

} // verus!
