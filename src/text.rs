//! Text the pipeline produces: file names and user-facing descriptions.
use vstd::prelude::*;

verus! {

pub open spec fn digit_char(d: nat) -> char {
    if d == 0 { '0' }
    else if d == 1 { '1' }
    else if d == 2 { '2' }
    else if d == 3 { '3' }
    else if d == 4 { '4' }
    else if d == 5 { '5' }
    else if d == 6 { '6' }
    else if d == 7 { '7' }
    else if d == 8 { '8' }
    else { '9' }
}

/// The decimal notation of `n`, without sign or leading zeros.
pub open spec fn decimal(n: nat) -> Seq<char>
    decreases n,
{
    if n < 10 {
        seq![digit_char(n)]
    } else {
        decimal(n / 10).push(digit_char(n % 10))
    }
}

/// Numbers in decimal, separated by a comma and a space.
pub open spec fn joined(s: Seq<u64>) -> Seq<char>
    decreases s.len(),
{
    if s.len() == 0 {
        Seq::empty()
    } else if s.len() == 1 {
        decimal(s[0] as nat)
    } else {
        joined(s.drop_last()) + ", "@ + decimal(s.last() as nat)
    }
}

fn digit_str(d: u64) -> (r: &'static str)
    requires
        d < 10,
    ensures
        r@ == seq![digit_char(d as nat)],
{
    proof {
        reveal_strlit("0");
        reveal_strlit("1");
        reveal_strlit("2");
        reveal_strlit("3");
        reveal_strlit("4");
        reveal_strlit("5");
        reveal_strlit("6");
        reveal_strlit("7");
        reveal_strlit("8");
        reveal_strlit("9");
    }
    match d {
        0 => "0",
        1 => "1",
        2 => "2",
        3 => "3",
        4 => "4",
        5 => "5",
        6 => "6",
        7 => "7",
        8 => "8",
        _ => "9",
    }
}

/// Appends the decimal notation of `n` to `out`.
pub fn push_decimal(out: &mut String, n: u64)
    ensures
        final(out)@ == old(out)@ + decimal(n as nat),
    decreases n,
{
    if n >= 10 {
        push_decimal(out, n / 10);
    }
    out.append(digit_str(n % 10));
    proof {
        if n >= 10 {
            assert(old(out)@ + decimal(n as nat) =~= old(out)@ + decimal((n / 10) as nat) + seq![
                digit_char((n % 10) as nat),
            ]);
        }
    }
}

/// The decimal notation of `n` as a new string.
pub fn decimal_string(n: u64) -> (r: String)
    ensures
        r@ == decimal(n as nat),
{
    let mut out = String::new();
    push_decimal(&mut out, n);
    assert(out@ =~= decimal(n as nat));
    out
}

/// Appends the numbers of `nums`, separated by ", ", to `out`.
pub fn push_joined(out: &mut String, nums: &[u64])
    ensures
        final(out)@ == old(out)@ + joined(nums@),
{
    proof {
        reveal_strlit(", ");
    }
    let ghost start = out@;
    let mut i: usize = 0;
    while i < nums.len()
        invariant
            i <= nums@.len(),
            out@ == start + joined(nums@.take(i as int)),
        decreases nums@.len() - i,
    {
        if i > 0 {
            out.append(", ");
        }
        push_decimal(out, nums[i]);
        proof {
            let t = nums@.take(i as int + 1);
            assert(t.drop_last() =~= nums@.take(i as int));
            assert(t.last() == nums@[i as int]);
            assert(out@ =~= start + joined(t));
        }
        i = i + 1;
    }
    assert(nums@.take(nums@.len() as int) =~= nums@);
}

/// The warning that lists the entries a run could not fetch, such as
/// `Failed to fetch issues 3, 4 and PRs 9`.
pub open spec fn failures_warning_text(failed_issues: Seq<u64>, failed_pulls: Seq<u64>) -> Seq<char> {
    "Failed to fetch "@ + (if failed_issues.len() > 0 {
        "issues "@ + joined(failed_issues)
    } else {
        Seq::empty()
    }) + (if failed_issues.len() > 0 && failed_pulls.len() > 0 {
        " and "@
    } else {
        Seq::empty()
    }) + (if failed_pulls.len() > 0 {
        "PRs "@ + joined(failed_pulls)
    } else {
        Seq::empty()
    })
}

pub fn failures_warning(failed_issues: &[u64], failed_pulls: &[u64]) -> (r: String)
    ensures
        r@ == failures_warning_text(failed_issues@, failed_pulls@),
{
    let mut out = String::from_str("Failed to fetch ");
    if failed_issues.len() > 0 {
        out.append("issues ");
        push_joined(&mut out, failed_issues);
    }
    if failed_issues.len() > 0 && failed_pulls.len() > 0 {
        out.append(" and ");
    }
    if failed_pulls.len() > 0 {
        out.append("PRs ");
        push_joined(&mut out, failed_pulls);
    }
    assert(out@ =~= failures_warning_text(failed_issues@, failed_pulls@));
    out
}

} // verus!
