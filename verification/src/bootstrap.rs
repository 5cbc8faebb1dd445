//! Bootstrap seeding: parsing the comma-separated initial-admin list and
//! idempotently seeding super-admin rows from it.
//!
//! An entry is accepted when, after trimming ASCII whitespace, it is an
//! optional plus sign followed by decimal digits whose value fits the id
//! type; every other entry is skipped without aborting startup. An empty
//! or absent list seeds nothing.

use vstd::prelude::*;

use crate::registry::opt_string_view;
use crate::rows::Admin;
use crate::store::admins_have_user;
use crate::store::ChatStore;

verus! {

/// ASCII decimal digit.
pub open spec fn is_ascii_digit(b: u8) -> bool {
    48 <= b <= 57
}

/// ASCII whitespace, as trimmed from a list entry.
pub open spec fn is_ascii_space(b: u8) -> bool {
    b == 32 || b == 9 || b == 10 || b == 13 || b == 11 || b == 12
}

/// The numeric value of one digit byte.
pub open spec fn digit_val(b: u8) -> nat {
    if is_ascii_digit(b) {
        (b - 48) as nat
    } else {
        0
    }
}

/// The value of a digit string, most significant digit first.
pub open spec fn digits_val(s: Seq<u8>) -> nat
    decreases s.len(),
{
    if s.len() == 0 {
        0
    } else {
        digits_val(s.drop_last()) * 10 + digit_val(s.last())
    }
}

/// Every byte is a decimal digit.
pub open spec fn all_digits(s: Seq<u8>) -> bool {
    forall|i: int| 0 <= i < s.len() ==> is_ascii_digit(#[trigger] s[i])
}

/// The entry with its leading ASCII whitespace removed.
pub open spec fn trim_front(s: Seq<u8>) -> Seq<u8>
    decreases s.len(),
{
    if s.len() > 0 && is_ascii_space(s.first()) {
        trim_front(s.drop_first())
    } else {
        s
    }
}

/// The entry with its trailing ASCII whitespace removed.
pub open spec fn trim_back(s: Seq<u8>) -> Seq<u8>
    decreases s.len(),
{
    if s.len() > 0 && is_ascii_space(s.last()) {
        trim_back(s.drop_last())
    } else {
        s
    }
}

/// The entry with whitespace removed from both ends.
pub open spec fn spec_trim(s: Seq<u8>) -> Seq<u8> {
    trim_back(trim_front(s))
}

/// What parsing one list entry yields: the id when the trimmed entry is
/// an optional plus sign followed by digits with a value in range, and
/// nothing otherwise.
pub open spec fn spec_parse_u64(s: Seq<u8>) -> Option<u64> {
    let t = spec_trim(s);
    let digits = if t.len() > 0 && t.first() == 43 {
        t.drop_first()
    } else {
        t
    };
    if digits.len() > 0 && all_digits(digits) && digits_val(digits) <= u64::MAX {
        Some(digits_val(digits) as u64)
    } else {
        None
    }
}

/// The index of the first comma, or the length when there is none.
pub open spec fn first_comma(s: Seq<u8>) -> int
    decreases s.len(),
{
    if s.len() == 0 {
        0
    } else if s.first() == 44 {
        0
    } else {
        1 + first_comma(s.drop_first())
    }
}

/// The first comma, if any, lies within the list.
proof fn lemma_first_comma_le(s: Seq<u8>)
    ensures
        0 <= first_comma(s) <= s.len(),
    decreases s.len(),
{
    if s.len() > 0 && s.first() != 44 {
        lemma_first_comma_le(s.drop_first());
    }
}

/// The ids parsed out of a comma-separated list, in order, with invalid
/// entries skipped.
pub open spec fn spec_parse_admin_ids(s: Seq<u8>) -> Seq<u64>
    decreases s.len(),
    via spec_parse_admin_ids_decreases
{
    let c = first_comma(s);
    if c == s.len() {
        match spec_parse_u64(s) {
            Some(v) => seq![v],
            None => Seq::empty(),
        }
    } else {
        let head = s.subrange(0, c);
        let tail = s.subrange(c + 1, s.len() as int);
        (match spec_parse_u64(head) {
            Some(v) => seq![v],
            None => Seq::empty(),
        }) + spec_parse_admin_ids(tail)
    }
}

#[via_fn]
proof fn spec_parse_admin_ids_decreases(s: Seq<u8>) {
    lemma_first_comma_le(s);
}

/// `first_comma` is pinned down by a comma-free prefix ending at a comma
/// or at the end.
proof fn lemma_first_comma_at(t: Seq<u8>, c: int)
    requires
        0 <= c <= t.len(),
        forall|j: int| 0 <= j < c ==> t[j] != 44,
        c < t.len() ==> t[c] == 44,
    ensures
        first_comma(t) == c,
    decreases c,
{
    if c == 0 {
    } else {
        assert(t[0] != 44);
        lemma_first_comma_at(t.drop_first(), c - 1);
    }
}

/// A digit string's value only grows as digits are appended.
proof fn lemma_digits_val_mono(t: Seq<u8>, k: int)
    requires
        0 <= k <= t.len(),
    ensures
        digits_val(t.take(k)) <= digits_val(t),
    decreases t.len() - k,
{
    if k == t.len() {
        assert(t.take(k) =~= t);
    } else {
        lemma_digits_val_mono(t, k + 1);
        assert(t.take(k + 1).drop_last() =~= t.take(k));
        assert(digits_val(t.take(k + 1)) == digits_val(t.take(k)) * 10 + digit_val(t[k]));
    }
}

/// Parses one trimmed entry of the admin list.
#[verifier::loop_isolation(false)]
pub fn parse_user_id(s: &[u8]) -> (r: Option<u64>)
    ensures
        r == spec_parse_u64(s@),
{
    let mut lo: usize = 0;
    let mut hi: usize = s.len();
    proof {
        assert(s@.subrange(0, s@.len() as int) =~= s@);
    }
    while lo < hi && (s[lo] == 32 || s[lo] == 9 || s[lo] == 10 || s[lo] == 13 || s[lo] == 11
        || s[lo] == 12)
        invariant
            0 <= lo <= hi,
            hi == s@.len(),
            trim_front(s@) == trim_front(s@.subrange(lo as int, hi as int)),
        decreases hi - lo,
    {
        proof {
            assert(s@.subrange(lo as int, hi as int).drop_first() =~= s@.subrange(
                lo + 1,
                hi as int,
            ));
        }
        lo += 1;
    }
    proof {
        assert(trim_front(s@) == s@.subrange(lo as int, hi as int));
    }
    while hi > lo && (s[hi - 1] == 32 || s[hi - 1] == 9 || s[hi - 1] == 10 || s[hi - 1] == 13
        || s[hi - 1] == 11 || s[hi - 1] == 12)
        invariant
            0 <= lo <= hi <= s@.len(),
            spec_trim(s@) == trim_back(s@.subrange(lo as int, hi as int)),
        decreases hi,
    {
        proof {
            assert(s@.subrange(lo as int, hi as int).drop_last() =~= s@.subrange(
                lo as int,
                hi - 1,
            ));
        }
        hi -= 1;
    }
    proof {
        assert(spec_trim(s@) == s@.subrange(lo as int, hi as int));
    }
    if lo < hi && s[lo] == 43 {
        lo += 1;
        proof {
            assert(spec_trim(s@).drop_first() =~= s@.subrange(lo as int, hi as int));
        }
    }
    let ghost digits = s@.subrange(lo as int, hi as int);
    if lo == hi {
        return None;
    }
    let mut acc: u64 = 0;
    let mut k = lo;
    while k < hi
        invariant
            lo <= k <= hi <= s@.len(),
            digits == s@.subrange(lo as int, hi as int),
            all_digits(s@.subrange(lo as int, k as int)),
            acc == digits_val(s@.subrange(lo as int, k as int)),
        decreases hi - k,
    {
        let b = s[k];
        proof {
            assert(s@.subrange(lo as int, k + 1).drop_last() =~= s@.subrange(lo as int, k as int));
            assert(s@.subrange(lo as int, k + 1).last() == s@[k as int]);
        }
        if b < 48 || b > 57 {
            proof {
                assert(!is_ascii_digit(digits[k - lo]));
                assert(!all_digits(digits));
            }
            return None;
        }
        let step = match acc.checked_mul(10) {
            Some(x) => x.checked_add((b - 48) as u64),
            None => None,
        };
        match step {
            Some(x) => {
                acc = x;
            },
            None => {
                proof {
                    assert(digits_val(s@.subrange(lo as int, k + 1)) > u64::MAX);
                    if all_digits(digits) {
                        assert(digits.take(k + 1 - lo) =~= s@.subrange(lo as int, k + 1));
                        lemma_digits_val_mono(digits, k + 1 - lo);
                        assert(digits_val(digits) > u64::MAX);
                    }
                }
                return None;
            },
        }
        k += 1;
    }
    proof {
        assert(s@.subrange(lo as int, hi as int) =~= digits);
        assert(all_digits(digits) && digits_val(digits) == acc);
    }
    Some(acc)
}

/// Parses the whole comma-separated initial-admin list; invalid entries
/// are skipped.
#[verifier::loop_isolation(false)]
pub fn parse_admin_ids(s: &[u8]) -> (r: Vec<u64>)
    ensures
        r@ == spec_parse_admin_ids(s@),
{
    let n = s.len();
    let mut r: Vec<u64> = Vec::new();
    let mut seg_start: usize = 0;
    let mut i: usize = 0;
    proof {
        assert(s@.subrange(0, n as int) =~= s@);
        assert(Seq::<u64>::empty() + spec_parse_admin_ids(s@) =~= spec_parse_admin_ids(s@));
    }
    loop
        invariant
            0 <= seg_start <= i <= n,
            n == s@.len(),
            forall|j: int| seg_start <= j < i ==> s@[j] != 44,
            r@ + spec_parse_admin_ids(s@.subrange(seg_start as int, n as int))
                =~= spec_parse_admin_ids(s@),
        decreases n - i,
    {
        if i == n || s[i] == 44 {
            let entry = parse_user_id(&s[seg_start..i]);
            let ghost rest = s@.subrange(seg_start as int, n as int);
            proof {
                assert(rest.len() == n - seg_start);
                assert forall|j: int| 0 <= j < i - seg_start implies rest[j] != 44 by {
                    assert(rest[j] == s@[seg_start + j]);
                }
                if (i as int) < n {
                    assert(rest[i - seg_start] == s@[i as int]);
                }
                lemma_first_comma_at(rest, i - seg_start);
                assert(rest.subrange(0, i - seg_start) =~= s@.subrange(seg_start as int, i as int));
            }
            match entry {
                Some(v) => {
                    r.push(v);
                },
                None => {},
            }
            if i == n {
                proof {
                    assert(spec_parse_admin_ids(rest) == match spec_parse_u64(
                        s@.subrange(seg_start as int, i as int),
                    ) {
                        Some(v) => seq![v],
                        None => Seq::<u64>::empty(),
                    });
                    assert(r@ =~= spec_parse_admin_ids(s@));
                }
                return r;
            }
            proof {
                assert(rest.subrange(i - seg_start + 1, rest.len() as int) =~= s@.subrange(
                    i + 1,
                    n as int,
                ));
                assert(spec_parse_admin_ids(rest) == (match spec_parse_u64(
                    s@.subrange(seg_start as int, i as int),
                ) {
                    Some(v) => seq![v],
                    None => Seq::<u64>::empty(),
                }) + spec_parse_admin_ids(s@.subrange(i + 1, n as int)));
            }
            seg_start = i + 1;
        }
        i += 1;
        proof {
            assert(r@ + spec_parse_admin_ids(s@.subrange(seg_start as int, n as int))
                =~= spec_parse_admin_ids(s@));
        }
    }
}

/// One idempotent super-admin upsert at the model level.
pub open spec fn upsert_super_admin(s: Seq<Admin>, next: i64, u: u64, now: u64) -> (Seq<Admin>, i64) {
    if admins_have_user(s, u) {
        (s, next)
    } else {
        (
            s.push(Admin { id: next, user_id: u, username: None, is_super: true, added_at: now }),
            (next + 1) as i64,
        )
    }
}

/// The admin table after seeding every id of the list, in order.
pub open spec fn seed_super_admins(s: Seq<Admin>, next: i64, ids: Seq<u64>, now: u64) -> (
    Seq<Admin>,
    i64,
)
    decreases ids.len(),
{
    if ids.len() == 0 {
        (s, next)
    } else {
        let p = seed_super_admins(s, next, ids.drop_last(), now);
        upsert_super_admin(p.0, p.1, ids.last(), now)
    }
}

/// Seeding advances the identity counter by at most one per id.
proof fn lemma_seed_next_bound(s: Seq<Admin>, next: i64, ids: Seq<u64>, now: u64)
    requires
        next + ids.len() <= i64::MAX,
    ensures
        next <= seed_super_admins(s, next, ids, now).1 <= next + ids.len(),
    decreases ids.len(),
{
    if ids.len() > 0 {
        lemma_seed_next_bound(s, next, ids.drop_last(), now);
    }
}

/// Seeds every valid id of the comma-separated list as a super-admin,
/// idempotently: ids already in the admin table keep their row (and
/// their tier); the others are appended in list order.
#[verifier::loop_isolation(false)]
pub fn add_initial_admins(store: &mut ChatStore, config: &[u8], now: u64)
    requires
        old(store).wf(),
        now >= old(store).clock,
        old(store).next_admin_id + spec_parse_admin_ids(config@).len() <= i64::MAX,
    ensures
        final(store).wf(),
        ({
            let seeded = seed_super_admins(
                old(store).admins@,
                old(store).next_admin_id,
                spec_parse_admin_ids(config@),
                now,
            );
            &&& final(store).admins@ == seeded.0
            &&& final(store).next_admin_id == seeded.1
        }),
        final(store).sessions@ == old(store).sessions@,
        final(store).messages@ == old(store).messages@,
        final(store).whitelist@ == old(store).whitelist@,
        final(store).next_session_id == old(store).next_session_id,
        final(store).next_message_id == old(store).next_message_id,
        final(store).next_whitelist_id == old(store).next_whitelist_id,
        final(store).clock == if spec_parse_admin_ids(config@).len() == 0 {
            old(store).clock
        } else {
            now
        },
{
    let ids = parse_admin_ids(config);
    let total = ids.len();
    let mut k: usize = 0;
    while k < total
        invariant
            k <= total,
            total == ids@.len(),
            store.wf(),
            now >= store.clock,
            ({
                let seeded = seed_super_admins(
                    old(store).admins@,
                    old(store).next_admin_id,
                    ids@.take(k as int),
                    now,
                );
                &&& store.admins@ == seeded.0
                &&& store.next_admin_id == seeded.1
            }),
            store.sessions@ == old(store).sessions@,
            store.messages@ == old(store).messages@,
            store.whitelist@ == old(store).whitelist@,
            store.next_session_id == old(store).next_session_id,
            store.next_message_id == old(store).next_message_id,
            store.next_whitelist_id == old(store).next_whitelist_id,
            store.clock == if k == 0 {
                old(store).clock
            } else {
                now
            },
        decreases total - k,
    {
        proof {
            lemma_seed_next_bound(
                old(store).admins@,
                old(store).next_admin_id,
                ids@.take(k as int),
                now,
            );
            assert(store.next_admin_id < i64::MAX);
        }
        let u = ids[k];
        let ghost before = *store;
        Admin::add_admin(store, u, None, true, now);
        proof {
            assert(ids@.take(k + 1).drop_last() =~= ids@.take(k as int));
            assert(ids@.take(k + 1).last() == ids@[k as int]);
            let step = upsert_super_admin(before.admins@, before.next_admin_id, u, now);
            if before.spec_is_admin(u) {
                assert(store.admins@ =~= step.0);
            } else {
                assert(opt_string_view(store.admins@.last().username) == Option::<Seq<char>>::None);
                assert(store.admins@.last().username == Option::<String>::None);
                assert(store.admins@.last() == Admin {
                    id: before.next_admin_id,
                    user_id: u,
                    username: None,
                    is_super: true,
                    added_at: now,
                });
                assert(store.admins@ =~= before.admins@.push(store.admins@.last()));
                assert(store.admins@ =~= step.0);
            }
        }
        k += 1;
    }
    proof {
        assert(ids@.take(total as int) =~= ids@);
    }
}

} // verus!
