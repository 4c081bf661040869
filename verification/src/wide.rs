use vstd::prelude::*;
use vstd::string::StrSliceExecFns;

verus! {

/// The UTF-16 code units encoding one character: one unit for characters in
/// the basic multilingual plane, a surrogate pair for the rest.
pub open spec fn utf16_units(c: char) -> Seq<u16> {
    if (c as int) < 0x10000 {
        seq![c as u16]
    } else {
        seq![
            (0xD800 + ((c as int) - 0x10000) / 0x400) as u16,
            (0xDC00 + ((c as int) - 0x10000) % 0x400) as u16,
        ]
    }
}

/// The UTF-16 code units of a whole string, in order.
pub open spec fn wide_of(s: Seq<char>) -> Seq<u16>
    decreases s.len(),
{
    if s.len() == 0 {
        Seq::empty()
    } else {
        utf16_units(s[0]) + wide_of(s.drop_first())
    }
}

/// Encoding distributes over concatenation.
pub proof fn lemma_wide_of_concat(a: Seq<char>, b: Seq<char>)
    ensures
        wide_of(a + b) == wide_of(a) + wide_of(b),
    decreases a.len(),
{
    if a.len() == 0 {
        assert(a + b =~= b);
        assert(wide_of(a) + wide_of(b) =~= wide_of(b));
    } else {
        assert((a + b).drop_first() =~= a.drop_first() + b);
        lemma_wide_of_concat(a.drop_first(), b);
        assert(utf16_units(a[0]) + (wide_of(a.drop_first()) + wide_of(b)) =~= (utf16_units(a[0])
            + wide_of(a.drop_first())) + wide_of(b));
    }
}

/// Extending the encoded prefix by one character appends that character's units.
pub proof fn lemma_wide_of_take_succ(s: Seq<char>, i: int)
    requires
        0 <= i < s.len(),
    ensures
        wide_of(s.take(i + 1)) == wide_of(s.take(i)) + utf16_units(s[i]),
{
    let single = seq![s[i]];
    assert(s.take(i + 1) =~= s.take(i) + single);
    lemma_wide_of_concat(s.take(i), single);
    assert(single.drop_first() =~= Seq::<char>::empty());
    assert(wide_of(single.drop_first()) =~= Seq::<u16>::empty());
    assert(wide_of(single) =~= utf16_units(s[i]));
}

/// Encodes a string to its UTF-16 code units, without a terminator.
pub fn encode_utf16_units(s: &str) -> (r: Vec<u16>)
    ensures
        r@ == wide_of(s@),
{
    let n: usize = s.unicode_len();
    let mut out: Vec<u16> = Vec::new();
    let mut i: usize = 0;
    while i < n
        invariant
            i <= n,
            n == s@.len(),
            out@ == wide_of(s@.take(i as int)),
        decreases n - i,
    {
        let c = s.get_char(i);
        let cp: u32 = c as u32;
        proof {
            lemma_wide_of_take_succ(s@, i as int);
        }
        if cp < 0x10000 {
            out.push(cp as u16);
            assert(out@ =~= wide_of(s@.take(i as int)) + utf16_units(c));
        } else {
            let v: u32 = cp - 0x10000;
            out.push((0xD800 + v / 0x400) as u16);
            out.push((0xDC00 + v % 0x400) as u16);
            assert(out@ =~= wide_of(s@.take(i as int)) + utf16_units(c));
        }
        i = i + 1;
    }
    proof {
        assert(s@.take(n as int) =~= s@);
    }
    out
}

} // verus!
