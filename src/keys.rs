use vstd::prelude::*;

verus! {

/// Characters that Kubernetes accepts in ConfigMap and Secret keys.
pub open spec fn is_key_char(c: char) -> bool {
    ||| ('a' <= c && c <= 'z')
    ||| ('A' <= c && c <= 'Z')
    ||| ('0' <= c && c <= '9')
    ||| c == '-'
    ||| c == '_'
    ||| c == '.'
}

pub open spec fn normalize_char(c: char) -> char {
    if is_key_char(c) {
        c
    } else {
        '_'
    }
}

/// The normalized form of a key: every character outside the accepted set
/// becomes an underscore.
pub open spec fn normalized(s: Seq<char>) -> Seq<char> {
    Seq::new(s.len(), |i: int| normalize_char(s[i]))
}

/// Normalizing twice gives the same key as normalizing once.
pub proof fn lemma_normalize_idempotent(s: Seq<char>)
    ensures
        normalized(normalized(s)) == normalized(s),
        forall|i: int| 0 <= i < normalized(s).len() ==> is_key_char(#[trigger] normalized(s)[i]),
{
    assert(normalized(normalized(s)) =~= normalized(s));
}

/// Relies on `String::push`: appends one character at the end.
#[verifier::external_body]
fn push_char(s: &mut String, c: char)
    ensures
        final(s)@ == old(s)@.push(c),
{
    s.push(c);
}

fn is_key_char_exec(c: char) -> (r: bool)
    ensures
        r == is_key_char(c),
{
    ('a' <= c && c <= 'z') || ('A' <= c && c <= 'Z') || ('0' <= c && c <= '9') || c == '-'
        || c == '_' || c == '.'
}

/// Maps a key onto the character set that Kubernetes accepts for data keys:
/// ASCII letters and digits, `-`, `_` and `.` are kept, and every other
/// character (such as `/`, `:` or `@`) becomes `_`.
pub fn normalize_key(key: &str) -> (r: String)
    ensures
        r@ == normalized(key@),
        forall|i: int| 0 <= i < r@.len() ==> is_key_char(#[trigger] r@[i]),
{
    let n = key.unicode_len();
    let mut out = String::new();
    let mut i: usize = 0;
    while i < n
        invariant
            n == key@.len(),
            i <= n,
            out@ == normalized(key@.subrange(0, i as int)),
        decreases n - i,
    {
        let c = key.get_char(i);
        let d = if is_key_char_exec(c) {
            c
        } else {
            '_'
        };
        push_char(&mut out, d);
        i = i + 1;
        assert(out@ =~= normalized(key@.subrange(0, i as int)));
    }
    assert(key@.subrange(0, n as int) =~= key@);
    proof {
        lemma_normalize_idempotent(key@);
    }
    out
}

} // verus!
