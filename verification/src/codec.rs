use vstd::prelude::*;
use vstd::string::StrSliceExecFns;
use vstd::string::StringExecFns;

use crate::error::Error;
use crate::machine::contains_u64;
use crate::status::{PollStatus, StatusModel};

verus! {

// ---------------------------------------------------------------------------
// Decimal digits
// ---------------------------------------------------------------------------

/// `c` is a decimal digit.
pub open spec fn is_digit(c: char) -> bool {
    '0' as int <= c as int && c as int <= '9' as int
}

/// The numeric value of a digit character.
pub open spec fn digit_val(c: char) -> int {
    c as int - '0' as int
}

/// The digit character for a value in `0 ..= 9` (and `'0'` off-range, which
/// no caller relies on).
pub open spec fn digit_char(d: int) -> char {
    if d == 1 { '1' }
    else if d == 2 { '2' }
    else if d == 3 { '3' }
    else if d == 4 { '4' }
    else if d == 5 { '5' }
    else if d == 6 { '6' }
    else if d == 7 { '7' }
    else if d == 8 { '8' }
    else if d == 9 { '9' }
    else { '0' }
}

proof fn lemma_digit_char(d: int)
    requires
        0 <= d < 10,
    ensures
        is_digit(digit_char(d)),
        digit_val(digit_char(d)) == d,
        digit_char(d) != ',',
{
}

/// The canonical decimal rendering of a non-negative integer, most
/// significant digit first, without leading zeros (except for zero itself).
pub open spec fn dec_digits(n: int) -> Seq<char>
    decreases n,
{
    if n < 10 {
        seq![digit_char(n)]
    } else {
        dec_digits(n / 10).push(digit_char(n % 10))
    }
}

/// The digit string for one value in `0 ..= 9`.
fn digit_str(d: u64) -> (r: &'static str)
    requires
        d < 10,
    ensures
        r@ =~= seq![digit_char(d as int)],
{
    proof {
        reveal_strlit("0");
        reveal_strlit("1");
        reveal_strlit("2");
        reveal_strlit("3");
        reveal_strlit("4");
        reveal_strlit("5");
        reveal_strlit("6");
        reveal_strlit("7");
        reveal_strlit("8");
        reveal_strlit("9");
    }
    if d == 0 { "0" }
    else if d == 1 { "1" }
    else if d == 2 { "2" }
    else if d == 3 { "3" }
    else if d == 4 { "4" }
    else if d == 5 { "5" }
    else if d == 6 { "6" }
    else if d == 7 { "7" }
    else if d == 8 { "8" }
    else { "9" }
}

/// Renders `n` in decimal.
pub fn u64_to_string(n: u64) -> (r: String)
    ensures
        r@ == dec_digits(n as int),
    decreases n,
{
    if n < 10 {
        digit_str(n).to_owned()
    } else {
        let mut s = u64_to_string(n / 10);
        s.append(digit_str(n % 10));
        proof {
            assert(s@ =~= dec_digits(n as int));
        }
        s
    }
}

// ---------------------------------------------------------------------------
// The vote-list wire format: decimal voter identities joined by commas
// ---------------------------------------------------------------------------

/// One left-to-right pass over a vote list string: `acc` is the value of the
/// digits of the current entry read so far, `seen` whether the current entry
/// has at least one digit, `out` the entries already completed. Returns the
/// state after consuming `s`, or `None` if the scan gets stuck (a stray
/// character, a comma with no digits before it, or an entry overflowing
/// `u64`).
pub open spec fn scan_votes(s: Seq<char>, acc: u64, seen: bool, out: Seq<u64>) -> Option<(u64, bool, Seq<u64>)>
    decreases s.len(),
{
    if s.len() == 0 {
        Some((acc, seen, out))
    } else {
        let c = s.first();
        if is_digit(c) {
            if acc as int * 10 + digit_val(c) > u64::MAX {
                None
            } else {
                scan_votes(s.drop_first(), (acc as int * 10 + digit_val(c)) as u64, true, out)
            }
        } else if c == ',' {
            if seen {
                scan_votes(s.drop_first(), 0, false, out.push(acc))
            } else {
                None
            }
        } else {
            None
        }
    }
}

/// The vote list denoted by `s`: empty for the empty string, otherwise the
/// comma-separated decimal entries, or `None` if `s` is not of that shape
/// (this includes a trailing comma).
pub open spec fn parse_votes_spec(s: Seq<char>) -> Option<Seq<u64>> {
    match scan_votes(s, 0, false, Seq::empty()) {
        Some((acc, seen, out)) => {
            if seen {
                Some(out.push(acc))
            } else if out.len() == 0 {
                Some(out)
            } else {
                None
            }
        },
        None => None,
    }
}

/// Scanning a concatenation scans the first part, then the second from the
/// state the first part reached.
proof fn lemma_scan_append(s: Seq<char>, t: Seq<char>, acc: u64, seen: bool, out: Seq<u64>)
    ensures
        scan_votes(s + t, acc, seen, out) == (match scan_votes(s, acc, seen, out) {
            Some((a2, se2, o2)) => scan_votes(t, a2, se2, o2),
            None => None::<(u64, bool, Seq<u64>)>,
        }),
    decreases s.len(),
{
    if s.len() == 0 {
        assert(s + t =~= t);
    } else {
        let c = s.first();
        assert((s + t).first() == c);
        assert((s + t).drop_first() =~= s.drop_first() + t);
        if is_digit(c) {
            if acc as int * 10 + digit_val(c) <= u64::MAX {
                lemma_scan_append(
                    s.drop_first(), t, (acc as int * 10 + digit_val(c)) as u64, true, out,
                );
            }
        } else if c == ',' && seen {
            lemma_scan_append(s.drop_first(), t, 0, false, out.push(acc));
        }
    }
}

/// Scanning the canonical digits of `n` from a fresh accumulator reads
/// exactly `n`.
proof fn lemma_scan_digits(n: u64, seen: bool, out: Seq<u64>)
    ensures
        scan_votes(dec_digits(n as int), 0, seen, out) == Some((n, true, out)),
    decreases n,
{
    reveal_with_fuel(scan_votes, 3);
    if n < 10 {
        lemma_digit_char(n as int);
        let s = dec_digits(n as int);
        assert(s.first() == digit_char(n as int));
        assert(s.drop_first() =~= Seq::<char>::empty());
    } else {
        let hi = dec_digits(n as int / 10);
        let d = digit_char(n as int % 10);
        lemma_digit_char(n as int % 10);
        assert(dec_digits(n as int) =~= hi + seq![d]);
        lemma_scan_digits(n / 10, seen, out);
        lemma_scan_append(hi, seq![d], 0, seen, out);
        vstd::arithmetic::div_mod::lemma_fundamental_div_mod(n as int, 10);
        assert(seq![d].first() == d);
        assert(seq![d].drop_first() =~= Seq::<char>::empty());
        assert((n / 10) as int * 10 + digit_val(d) == n as int);
    }
}

/// The wire form of the entries of `v` from position `i` on: decimal
/// renderings joined by commas.
pub open spec fn encode_votes_from(v: Seq<u64>, i: int) -> Seq<char>
    decreases v.len() - i,
{
    if i < 0 || i >= v.len() {
        Seq::empty()
    } else if i == v.len() - 1 {
        dec_digits(v[i] as int)
    } else {
        dec_digits(v[i] as int) + seq![','] + encode_votes_from(v, i + 1)
    }
}

/// The wire form of a whole vote list.
pub open spec fn encode_votes_spec(v: Seq<u64>) -> Seq<char> {
    encode_votes_from(v, 0)
}

proof fn lemma_scan_encode(v: Seq<u64>, i: int, out: Seq<u64>)
    requires
        0 <= i < v.len(),
    ensures
        scan_votes(encode_votes_from(v, i), 0, false, out)
            == Some((v.last(), true, out + v.subrange(i, v.len() - 1))),
    decreases v.len() - i,
{
    if i == v.len() - 1 {
        lemma_scan_digits(v[i], false, out);
        assert(out + v.subrange(i, v.len() - 1) =~= out);
    } else {
        let digits = dec_digits(v[i] as int);
        let rest = encode_votes_from(v, i + 1);
        assert(encode_votes_from(v, i) =~= digits + (seq![','] + rest));
        lemma_scan_append(digits, seq![','] + rest, 0, false, out);
        lemma_scan_digits(v[i], false, out);
        assert((seq![','] + rest).first() == ',');
        assert(!is_digit(','));
        assert((seq![','] + rest).drop_first() =~= rest);
        lemma_scan_encode(v, i + 1, out.push(v[i]));
        assert(out.push(v[i]) + v.subrange(i + 1, v.len() - 1) =~= out + v.subrange(i, v.len() - 1));
    }
}

/// Parses a comma-joined vote list.
pub fn parse_votes(s: &str) -> (r: Result<Vec<u64>, Error>)
    ensures
        match r {
            Ok(v) => parse_votes_spec(s@) == Some(v@),
            Err(e) => parse_votes_spec(s@) is None && e == Error::InvalidStatus,
        },
{
    let n = s.unicode_len();
    let mut i: usize = 0;
    let mut acc: u64 = 0;
    let mut seen: bool = false;
    let mut out: Vec<u64> = Vec::new();
    proof {
        assert(s@.subrange(0, n as int) =~= s@);
    }
    while i < n
        invariant
            i <= n,
            n == s@.len(),
            scan_votes(s@, 0, false, Seq::empty())
                == scan_votes(s@.subrange(i as int, n as int), acc, seen, out@),
        decreases n - i,
    {
        let ghost pre = s@.subrange(i as int, n as int);
        proof {
            assert(pre.first() == s@[i as int]);
            assert(pre.drop_first() =~= s@.subrange(i as int + 1, n as int));
        }
        let c = s.get_char(i);
        let cv = c as u32;
        if 48 <= cv && cv <= 57 {
            let d: u64 = (cv - 48) as u64;
            let stepped = match acc.checked_mul(10) {
                Some(t) => t.checked_add(d),
                None => None,
            };
            match stepped {
                Some(next) => {
                    acc = next;
                    seen = true;
                },
                None => {
                    return Err(Error::InvalidStatus);
                },
            }
        } else if c == ',' {
            if seen {
                out.push(acc);
                acc = 0;
                seen = false;
            } else {
                return Err(Error::InvalidStatus);
            }
        } else {
            return Err(Error::InvalidStatus);
        }
        i += 1;
    }
    proof {
        assert(s@.subrange(i as int, n as int) =~= Seq::<char>::empty());
    }
    if seen {
        out.push(acc);
        Ok(out)
    } else if out.len() == 0 {
        Ok(out)
    } else {
        Err(Error::InvalidStatus)
    }
}

/// Renders a vote list in its wire form: decimal entries joined by commas.
pub fn encode_votes(v: &Vec<u64>) -> (r: String)
    ensures
        r@ == encode_votes_spec(v@),
{
    encode_votes_from_exec(v, 0)
}

fn encode_votes_from_exec(v: &Vec<u64>, i: usize) -> (r: String)
    requires
        i <= v.len(),
    ensures
        r@ == encode_votes_from(v@, i as int),
    decreases v.len() - i,
{
    if i >= v.len() {
        String::new()
    } else {
        let mut s = u64_to_string(v[i]);
        if i + 1 < v.len() {
            s.append(",");
            let rest = encode_votes_from_exec(v, i + 1);
            s.append(rest.as_str());
            proof {
                reveal_strlit(",");
                assert(","@ =~= seq![',']);
                assert(s@ =~= dec_digits(v@[i as int] as int) + seq![','] + encode_votes_from(
                    v@, i as int + 1,
                ));
            }
        }
        s
    }
}

/// Decoding inverts encoding: the wire form of any vote list parses back to
/// exactly that list.
pub proof fn lemma_votes_round_trip(v: Seq<u64>)
    ensures
        parse_votes_spec(encode_votes_spec(v)) == Some(v),
{
    if v.len() == 0 {
        assert(v =~= Seq::<u64>::empty());
    } else {
        lemma_scan_encode(v, 0, Seq::empty());
        assert(Seq::<u64>::empty() + v.subrange(0, v.len() - 1) =~= v.subrange(0, v.len() - 1));
        assert(v.subrange(0, v.len() - 1).push(v.last()) =~= v);
    }
}

} // verus!


verus! {

// ---------------------------------------------------------------------------
// Stored poll statuses: a numeric code plus an optional vote list
// ---------------------------------------------------------------------------

/// The first-occurrence deduplication of a sequence.
pub open spec fn dedup_seq(s: Seq<u64>) -> Seq<u64>
    decreases s.len(),
{
    if s.len() == 0 {
        s
    } else {
        let rest = dedup_seq(s.drop_last());
        if rest.contains(s.last()) {
            rest
        } else {
            rest.push(s.last())
        }
    }
}

/// Deduplication yields a duplicate-free list over the same set, and leaves
/// an already duplicate-free list unchanged.
pub proof fn lemma_dedup_props(s: Seq<u64>)
    ensures
        dedup_seq(s).no_duplicates(),
        dedup_seq(s).to_set() == s.to_set(),
        s.no_duplicates() ==> dedup_seq(s) == s,
    decreases s.len(),
{
    broadcast use vstd::prelude::Seq::lemma_push_to_set_commute;

    if s.len() == 0 {
        assert(dedup_seq(s).to_set() =~= s.to_set());
    } else {
        let butlast = s.drop_last();
        let x = s.last();
        lemma_dedup_props(butlast);
        let rest = dedup_seq(butlast);
        assert(s =~= butlast.push(x));
        assert(s.to_set() == butlast.to_set().insert(x));
        if rest.contains(x) {
            assert(rest.to_set().contains(x));
            assert(dedup_seq(s).to_set() =~= s.to_set());
            if s.no_duplicates() {
                // impossible: the last element would repeat an earlier one
                assert(butlast.to_set().contains(x));
                let i = choose|i: int| 0 <= i < butlast.len() && butlast[i] == x;
                assert(s[i] == s[s.len() - 1]);
                assert(false);
            }
        } else {
            assert(dedup_seq(s) == rest.push(x));
            assert(dedup_seq(s).to_set() =~= s.to_set());
            assert(rest.push(x).no_duplicates()) by {
                assert(forall|i: int| 0 <= i < rest.len() ==> rest.push(x)[i] == rest[i]);
                assert(forall|i: int| 0 <= i < rest.len() ==> rest[i] != x) by {
                    assert(forall|i: int| 0 <= i < rest.len() ==> rest.contains(#[trigger] rest[i]));
                }
            }
            if s.no_duplicates() {
                assert(butlast.no_duplicates()) by {
                    assert(forall|i: int| 0 <= i < butlast.len() ==> butlast[i] == s[i]);
                }
                assert(dedup_seq(s) =~= s);
            }
        }
    }
}

/// Removes repeated voters, keeping first occurrences in order.
pub fn dedup_votes(v: Vec<u64>) -> (r: Vec<u64>)
    ensures
        r@ == dedup_seq(v@),
{
    let mut r: Vec<u64> = Vec::new();
    let mut i: usize = 0;
    proof {
        assert(v@.take(0) =~= Seq::<u64>::empty());
    }
    while i < v.len()
        invariant
            i <= v.len(),
            r@ == dedup_seq(v@.take(i as int)),
        decreases v.len() - i,
    {
        proof {
            assert(v@.take(i as int + 1).drop_last() =~= v@.take(i as int));
            assert(v@.take(i as int + 1).last() == v@[i as int]);
        }
        if !contains_u64(&r, v[i]) {
            r.push(v[i]);
        }
        i += 1;
    }
    proof {
        assert(v@.take(v@.len() as int) =~= v@);
    }
    r
}

/// The stored numeric code of each status.
pub open spec fn status_code(m: StatusModel) -> u64 {
    match m {
        StatusModel::Pending { .. } => 0,
        StatusModel::Completed => 1,
        StatusModel::Revoked => 2,
        StatusModel::Vetoed => 3,
    }
}

/// What a stored `(code, vote list)` row decodes to; `None` is a
/// deserialization error: an unknown code, a malformed list, or a vote list
/// paired with a non-pending code.
pub open spec fn status_parse_spec(code: u64, votes: Option<Seq<char>>) -> Option<StatusModel> {
    match votes {
        Some(s) => {
            if code != 0 {
                None
            } else {
                match parse_votes_spec(s) {
                    Some(v) => Some(StatusModel::Pending { votes: v.to_set() }),
                    None => None,
                }
            }
        },
        None => {
            if code == 0 {
                Some(StatusModel::Pending { votes: Set::empty() })
            } else if code == 1 {
                Some(StatusModel::Completed)
            } else if code == 2 {
                Some(StatusModel::Revoked)
            } else if code == 3 {
                Some(StatusModel::Vetoed)
            } else {
                None
            }
        },
    }
}

impl PollStatus {
    /// Decodes a stored status row. Repeated voters in a stored pending
    /// list are tolerated and collapse into the set.
    pub fn parse(status: u64, votes: Option<String>) -> (r: Result<PollStatus, Error>)
        ensures
            ({
                let vv = match votes {
                    Some(s) => Some(s@),
                    None => None::<Seq<char>>,
                };
                match r {
                    Ok(ps) => ps.wf() && status_parse_spec(status, vv) == Some(ps@) && (match ps {
                        PollStatus::Pending { votes: vs } => (match votes {
                            Some(s) => parse_votes_spec(s@) matches Some(raw) && vs@
                                == dedup_seq(raw),
                            None => vs@ == Seq::<u64>::empty(),
                        }),
                        _ => true,
                    }),
                    Err(e) => status_parse_spec(status, vv) is None && e == Error::InvalidStatus,
                }
            }),
    {
        match (status, votes) {
            (0u64, Some(s)) => {
                match parse_votes(s.as_str()) {
                    Ok(v) => {
                        let dv = dedup_votes(v);
                        proof {
                            lemma_dedup_props(v@);
                        }
                        Ok(PollStatus::Pending { votes: dv })
                    },
                    Err(e) => Err(e),
                }
            },
            (0u64, None) => {
                let fresh: Vec<u64> = Vec::new();
                proof {
                    assert(fresh@.to_set() =~= Set::<u64>::empty());
                }
                Ok(PollStatus::Pending { votes: fresh })
            },
            (1u64, None) => Ok(PollStatus::Completed),
            (2u64, None) => Ok(PollStatus::Revoked),
            (3u64, None) => Ok(PollStatus::Vetoed),
            _ => Err(Error::InvalidStatus),
        }
    }

    /// Encodes this status for storage: its code, and the vote list only
    /// for a pending poll.
    pub fn encode(&self) -> (r: (u64, Option<String>))
        ensures
            r.0 == status_code(self@),
            match self {
                PollStatus::Pending { votes } => match r.1 {
                    Some(s) => s@ == encode_votes_spec(votes@),
                    None => false,
                },
                _ => r.1 is None,
            },
    {
        match self {
            PollStatus::Pending { votes } => (0, Some(encode_votes(votes))),
            PollStatus::Completed => (1, None),
            PollStatus::Revoked => (2, None),
            PollStatus::Vetoed => (3, None),
        }
    }
}

/// Storing a pending status and reading it back reproduces the same vote
/// set, whatever order the votes were recorded in; terminal statuses store
/// no vote list and decode from their bare codes; and any vote list paired
/// with a non-pending code is rejected.
pub proof fn lemma_status_round_trip(votes: Seq<u64>)
    requires
        votes.no_duplicates(),
    ensures
        status_parse_spec(0, Some(encode_votes_spec(votes)))
            == Some(StatusModel::Pending { votes: votes.to_set() }),
        status_parse_spec(1, None) == Some(StatusModel::Completed),
        status_parse_spec(2, None) == Some(StatusModel::Revoked),
        status_parse_spec(3, None) == Some(StatusModel::Vetoed),
        forall|code: u64, s: Seq<char>|
            code != 0 ==> #[trigger] status_parse_spec(code, Some(s)) is None,
{
    lemma_votes_round_trip(votes);
}

} // verus!
