use vstd::prelude::*;
use vstd::string::*;

verus! {

/// The decimal digit `d` as a character (`d` below ten).
pub open spec fn digit_char(d: int) -> char {
    if d == 0 {
        '0'
    } else if d == 1 {
        '1'
    } else if d == 2 {
        '2'
    } else if d == 3 {
        '3'
    } else if d == 4 {
        '4'
    } else if d == 5 {
        '5'
    } else if d == 6 {
        '6'
    } else if d == 7 {
        '7'
    } else if d == 8 {
        '8'
    } else {
        '9'
    }
}

/// The decimal notation of `n`, without sign or leading zeros, as `Display` writes it.
pub open spec fn decimal(n: nat) -> Seq<char>
    decreases n,
{
    if n < 10 {
        seq![digit_char(n as int)]
    } else {
        decimal(n / 10).push(digit_char((n % 10) as int))
    }
}

/// `needle` occurs in `hay` as a contiguous run of characters.
pub open spec fn has_infix(hay: Seq<char>, needle: Seq<char>) -> bool {
    exists|i: int|
        0 <= i && i + needle.len() <= hay.len() && #[trigger] hay.subrange(i, i + needle.len())
            == needle
}

fn digit_str(d: u64) -> (s: &'static str)
    requires
        d < 10,
    ensures
        s@ == seq![digit_char(d as int)],
{
    if d == 0 {
        proof {
            reveal_strlit("0");
        }
        "0"
    } else if d == 1 {
        proof {
            reveal_strlit("1");
        }
        "1"
    } else if d == 2 {
        proof {
            reveal_strlit("2");
        }
        "2"
    } else if d == 3 {
        proof {
            reveal_strlit("3");
        }
        "3"
    } else if d == 4 {
        proof {
            reveal_strlit("4");
        }
        "4"
    } else if d == 5 {
        proof {
            reveal_strlit("5");
        }
        "5"
    } else if d == 6 {
        proof {
            reveal_strlit("6");
        }
        "6"
    } else if d == 7 {
        proof {
            reveal_strlit("7");
        }
        "7"
    } else if d == 8 {
        proof {
            reveal_strlit("8");
        }
        "8"
    } else {
        proof {
            reveal_strlit("9");
        }
        "9"
    }
}

/// Appends the decimal notation of `n` to `out`.
pub fn push_decimal(out: &mut String, n: u64)
    ensures
        final(out)@ == old(out)@ + decimal(n as nat),
    decreases n,
{
    if n >= 10 {
        push_decimal(out, n / 10);
    }
    out.append(digit_str(n % 10));
    proof {
        assert(old(out)@ + decimal(n as nat) =~= if n >= 10 {
            old(out)@ + decimal((n / 10) as nat) + seq![digit_char((n % 10) as int)]
        } else {
            old(out)@ + seq![digit_char((n % 10) as int)]
        });
    }
}

/// The decimal notation of `n`, as `n.to_string()` gives it.
pub fn to_decimal(n: u64) -> (s: String)
    ensures
        s@ == decimal(n as nat),
{
    let mut s = String::new();
    push_decimal(&mut s, n);
    proof {
        assert(s@ =~= Seq::<char>::empty() + decimal(n as nat));
    }
    s
}

/// Whether `needle` occurs in `hay`, as `str::contains` with a `&str` pattern answers.
pub fn contains_str(hay: &str, needle: &str) -> (found: bool)
    ensures
        found == has_infix(hay@, needle@),
        found <==> exists|i: int|
            0 <= i && i + needle@.len() <= hay@.len() && #[trigger] hay@.subrange(
                i,
                i + needle@.len(),
            ) == needle@,
{
    let hl = hay.unicode_len();
    let nl = needle.unicode_len();
    if nl > hl {
        return false;
    }
    let last = hl - nl;
    let mut i: usize = 0;
    while i <= last
        invariant
            hl == hay@.len(),
            nl == needle@.len(),
            last == hl - nl,
            nl <= hl,
            0 <= i <= last + 1,
            forall|k: int| 0 <= k < i ==> #[trigger] hay@.subrange(k, k + needle@.len()) != needle@,
        decreases last + 1 - i,
    {
        let mut j: usize = 0;
        let mut same = true;
        while j < nl
            invariant
                hl == hay@.len(),
                nl == needle@.len(),
                i + nl <= hl,
                0 <= j <= nl,
                same ==> forall|m: int| 0 <= m < j ==> hay@[i + m] == needle@[m],
                !same ==> hay@.subrange(i as int, i + nl) != needle@,
            decreases nl - j,
        {
            if same && hay.get_char(i + j) != needle.get_char(j) {
                same = false;
                assert(hay@.subrange(i as int, i + nl)[j as int] != needle@[j as int]);
            }
            j = j + 1;
        }
        if same {
            assert(hay@.subrange(i as int, i + nl) =~= needle@);
            return true;
        }
        if i == last {
            assert forall|k: int|
                0 <= k && k + needle@.len() <= hay@.len() implies #[trigger] hay@.subrange(
                k,
                k + needle@.len(),
            ) != needle@ by {
                assert(k <= i);
            }
            return false;
        }
        i = i + 1;
    }
    proof {
        assert forall|k: int|
            0 <= k && k + needle@.len() <= hay@.len() implies #[trigger] hay@.subrange(
            k,
            k + needle@.len(),
        ) != needle@ by {
            assert(k < i);
        }
    }
    false
}

/// Substring search is complete and sound: `needle` occurs in `hay` exactly
/// when some run of `hay`, at any position, equals it.
pub proof fn lemma_infix_at(hay: Seq<char>, needle: Seq<char>, i: int)
    requires
        0 <= i,
        i + needle.len() <= hay.len(),
        hay.subrange(i, i + needle.len()) == needle,
    ensures
        has_infix(hay, needle),
{
    assert(hay.subrange(i, i + needle.len()) == needle);
}

/// An occurrence survives text around it: if `needle` occurs in `hay`, it
/// occurs in `before + hay + after`.
pub proof fn lemma_infix_in_context(before: Seq<char>, hay: Seq<char>, after: Seq<char>, needle: Seq<char>)
    requires
        has_infix(hay, needle),
    ensures
        has_infix(before + hay + after, needle),
{
    let i = choose|i: int|
        0 <= i && i + needle.len() <= hay.len() && #[trigger] hay.subrange(i, i + needle.len())
            == needle;
    let whole = before + hay + after;
    let j = before.len() + i;
    assert(whole.subrange(j, j + needle.len()) =~= hay.subrange(i, i + needle.len()));
    lemma_infix_at(whole, needle, j);
}

/// A text contains itself, and every text contains the empty text.
pub proof fn lemma_infix_trivial(hay: Seq<char>)
    ensures
        has_infix(hay, hay),
        has_infix(hay, Seq::<char>::empty()),
{
    assert(hay.subrange(0, hay.len() as int) =~= hay);
    lemma_infix_at(hay, hay, 0);
    assert(hay.subrange(0, 0) =~= Seq::<char>::empty());
    lemma_infix_at(hay, Seq::<char>::empty(), 0);
}

} // verus!
