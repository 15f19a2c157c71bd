//! Verified splitting of a text block into lines, mirroring the standard
//! library's line semantics: lines end at `'\n'`, a trailing `'\r'` is
//! dropped from each line, and a final newline does not open an empty line.

use vstd::prelude::*;

verus! {

/// A line with one trailing carriage return removed.
pub open spec fn strip_cr(line: Seq<char>) -> Seq<char> {
    if line.len() > 0 && line.last() == '\r' {
        line.drop_last()
    } else {
        line
    }
}

/// The lines of `s` when `cur` holds the characters of the line begun so far.
pub open spec fn lines_from(s: Seq<char>, cur: Seq<char>) -> Seq<Seq<char>>
    decreases s.len(),
{
    if s.len() == 0 {
        if cur.len() == 0 {
            Seq::<Seq<char>>::empty()
        } else {
            seq![strip_cr(cur)]
        }
    } else if s[0] == '\n' {
        seq![strip_cr(cur)] + lines_from(s.skip(1), Seq::<char>::empty())
    } else {
        lines_from(s.skip(1), cur.push(s[0]))
    }
}

/// The lines of `s`.
pub open spec fn spec_lines(s: Seq<char>) -> Seq<Seq<char>> {
    lines_from(s, Seq::<char>::empty())
}

/// There are never more lines than characters plus one, and every line is
/// no longer than the text it came from.
pub proof fn lemma_lines_from_bounds(s: Seq<char>, cur: Seq<char>)
    ensures
        lines_from(s, cur).len() <= s.len() + 1,
        forall|i: int|
            0 <= i < lines_from(s, cur).len() ==> (#[trigger] lines_from(s, cur)[i]).len()
                <= cur.len() + s.len(),
    decreases s.len(),
{
    if s.len() == 0 {
    } else if s[0] == '\n' {
        lemma_lines_from_bounds(s.skip(1), Seq::<char>::empty());
    } else {
        lemma_lines_from_bounds(s.skip(1), cur.push(s[0]));
    }
}

/// Bounds of [`lemma_lines_from_bounds`], stated for [`spec_lines`].
pub proof fn lemma_lines_bounds(s: Seq<char>)
    ensures
        spec_lines(s).len() <= s.len() + 1,
        forall|i: int|
            0 <= i < spec_lines(s).len() ==> (#[trigger] spec_lines(s)[i]).len() <= s.len(),
{
    lemma_lines_from_bounds(s, Seq::<char>::empty());
}

/// Splits `s` into its lines.
pub fn split_lines(s: &str) -> (out: Vec<Vec<char>>)
    ensures
        out.deep_view() == spec_lines(s@),
{
    let n = s.unicode_len();
    let mut out: Vec<Vec<char>> = Vec::new();
    let mut cur: Vec<char> = Vec::new();
    let mut i: usize = 0;
    proof {
        assert(s@.skip(0) =~= s@);
        assert(out.deep_view() =~~= Seq::<Seq<char>>::empty());
        assert(Seq::<Seq<char>>::empty() + spec_lines(s@) =~~= spec_lines(s@));
    }
    while i < n
        invariant
            n == s@.len(),
            i <= n,
            spec_lines(s@) == out.deep_view() + lines_from(s@.skip(i as int), cur@),
        decreases n - i,
    {
        let c = s.get_char(i);
        let ghost prev_out = out.deep_view();
        let ghost prev_cur = cur@;
        proof {
            assert(s@.skip(i as int)[0] == s@[i as int]);
            assert(s@.skip(i as int).skip(1) =~= s@.skip(i as int + 1));
        }
        if c == '\n' {
            let finished = take_stripped(&mut cur);
            out.push(finished);
            proof {
                assert(out.deep_view() =~~= prev_out + seq![finished@]);
                assert(out.deep_view() + lines_from(s@.skip(i as int + 1), cur@) =~~= prev_out
                    + lines_from(s@.skip(i as int), prev_cur));
            }
        } else {
            cur.push(c);
        }
        i += 1;
    }
    proof {
        assert(s@.skip(n as int) =~= Seq::<char>::empty());
    }
    if cur.len() > 0 {
        let ghost prev_out = out.deep_view();
        let ghost prev_cur = cur@;
        let finished = take_stripped(&mut cur);
        out.push(finished);
        proof {
            assert(out.deep_view() =~~= prev_out + seq![finished@]);
            assert(out.deep_view() =~~= prev_out + lines_from(Seq::<char>::empty(), prev_cur));
        }
    }
    out
}

/// Takes the accumulated line out of `cur`, dropping one trailing `'\r'`.
fn take_stripped(cur: &mut Vec<char>) -> (out: Vec<char>)
    ensures
        out@ == strip_cr(old(cur)@),
        final(cur)@ == Seq::<char>::empty(),
{
    if cur.len() > 0 && cur[cur.len() - 1] == '\r' {
        cur.pop();
    }
    let mut taken: Vec<char> = Vec::new();
    core::mem::swap(cur, &mut taken);
    taken
}

/// A name for what `str::to_uppercase` returns; the result depends on the
/// characters alone.
pub uninterp spec fn uppercase_of(s: Seq<char>) -> Seq<char>;

/// Relies on `str::to_uppercase`: the uppercased text is a function of the
/// characters alone, and an empty string stays empty.
#[verifier::external_body]
pub(crate) fn to_uppercase(s: &str) -> (r: String)
    ensures
        r@ == uppercase_of(s@),
        s@.len() == 0 ==> r@.len() == 0,
{
    s.to_uppercase()
}

spec fn probe_mk2(s: Seq<char>) -> Seq<char> {
    Seq::new(s.len(), |i: int| s[i])
}

proof fn probe_mk2_len(s: Seq<char>) {
    assert(probe_mk2(s) == Seq::new(s.len(), |i: int| s[i]));
    assert(probe_mk2(s).len() == s.len());
}

} // verus!
