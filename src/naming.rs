use vstd::prelude::*;
use vstd::string::StringExecFns;

verus! {

/// The character of a decimal digit.
pub open spec fn digit_char(d: nat) -> char {
    if d == 0 {
        '0'
    } else if d == 1 {
        '1'
    } else if d == 2 {
        '2'
    } else if d == 3 {
        '3'
    } else if d == 4 {
        '4'
    } else if d == 5 {
        '5'
    } else if d == 6 {
        '6'
    } else if d == 7 {
        '7'
    } else if d == 8 {
        '8'
    } else {
        '9'
    }
}

/// Decimal notation of `n`, without leading zeros.
pub open spec fn decimal(n: nat) -> Seq<char>
    decreases n,
{
    if n < 10 {
        seq![digit_char(n)]
    } else {
        decimal(n / 10).push(digit_char(n % 10))
    }
}

/// The `k`-th candidate file name: `stem.ext`, then `stem_1.ext`,
/// `stem_2.ext`, and so on.
pub open spec fn candidate(stem: Seq<char>, ext: Seq<char>, k: nat) -> Seq<char> {
    if k == 0 {
        stem + seq!['.'] + ext
    } else {
        stem + seq!['_'] + decimal(k) + seq!['.'] + ext
    }
}

/// The names of a list of file names.
pub open spec fn names_of(taken: Seq<String>) -> Seq<Seq<char>> {
    taken.map_values(|s: String| s@)
}

/// Candidate `k` is free, and every earlier candidate is taken.
pub open spec fn is_first_free(stem: Seq<char>, ext: Seq<char>, taken: Seq<Seq<char>>, k: nat) -> bool {
    &&& !taken.contains(candidate(stem, ext, k))
    &&& forall|j: nat| j < k ==> taken.contains(#[trigger] candidate(stem, ext, j))
}

fn push_digit(out: &mut String, d: u64)
    requires
        d < 10,
    ensures
        final(out)@ == old(out)@.push(digit_char(d as nat)),
{
    if d == 0 {
        out.append("0");
        proof { reveal_strlit("0"); }
    } else if d == 1 {
        out.append("1");
        proof { reveal_strlit("1"); }
    } else if d == 2 {
        out.append("2");
        proof { reveal_strlit("2"); }
    } else if d == 3 {
        out.append("3");
        proof { reveal_strlit("3"); }
    } else if d == 4 {
        out.append("4");
        proof { reveal_strlit("4"); }
    } else if d == 5 {
        out.append("5");
        proof { reveal_strlit("5"); }
    } else if d == 6 {
        out.append("6");
        proof { reveal_strlit("6"); }
    } else if d == 7 {
        out.append("7");
        proof { reveal_strlit("7"); }
    } else if d == 8 {
        out.append("8");
        proof { reveal_strlit("8"); }
    } else {
        out.append("9");
        proof { reveal_strlit("9"); }
    }
    assert(final(out)@ =~= old(out)@.push(digit_char(d as nat)));
}

/// Appends the decimal notation of `n` to `out`.
pub fn push_decimal(out: &mut String, n: u64)
    ensures
        final(out)@ == old(out)@ + decimal(n as nat),
    decreases n,
{
    if n >= 10 {
        push_decimal(out, n / 10);
    }
    push_digit(out, n % 10);
    assert(final(out)@ =~= old(out)@ + decimal(n as nat));
}

/// The `k`-th candidate name for a file with this stem and extension.
pub fn candidate_name(stem: &str, ext: &str, k: u64) -> (r: String)
    ensures
        r@ == candidate(stem@, ext@, k as nat),
{
    let mut r = String::from_str(stem);
    if k > 0 {
        r.append("_");
        proof { reveal_strlit("_"); }
        push_decimal(&mut r, k);
    }
    r.append(".");
    proof { reveal_strlit("."); }
    r.append(ext);
    assert(r@ =~= candidate(stem@, ext@, k as nat));
    r
}

fn contains_name(taken: &Vec<String>, name: &String) -> (r: bool)
    ensures
        r == names_of(taken@).contains(name@),
{
    let mut i: usize = 0;
    while i < taken.len()
        invariant
            i <= taken@.len(),
            forall|j: int| 0 <= j < i ==> taken@[j]@ != name@,
        decreases taken@.len() - i,
    {
        if taken[i] == *name {
            assert(names_of(taken@)[i as int] == name@);
            return true;
        }
        i = i + 1;
    }
    proof {
        if names_of(taken@).contains(name@) {
            let j = choose|j: int| 0 <= j < names_of(taken@).len() && names_of(taken@)[j] == name@;
            assert(taken@[j]@ == name@);
        }
    }
    false
}

/// The first candidate name that `taken` does not hold, with its number,
/// so that a new file never lands on an existing one. `None` only if every
/// number that fits in a `u64` is taken.
pub fn first_free_name(stem: &str, ext: &str, taken: &Vec<String>) -> (r: Option<(String, u64)>)
    ensures
        r matches Some((name, k)) ==> name@ == candidate(stem@, ext@, k as nat)
            && is_first_free(stem@, ext@, names_of(taken@), k as nat),
        r is None ==> forall|j: nat| j < u64::MAX ==> names_of(taken@).contains(
            #[trigger] candidate(stem@, ext@, j),
        ),
{
    let mut k: u64 = 0;
    while k < u64::MAX
        invariant
            forall|j: nat| j < k ==> names_of(taken@).contains(#[trigger] candidate(stem@, ext@, j)),
        decreases u64::MAX - k,
    {
        let name = candidate_name(stem, ext, k);
        if !contains_name(taken, &name) {
            return Some((name, k));
        }
        k = k + 1;
    }
    None
}

} // verus!
