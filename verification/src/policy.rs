//! Wallet-policy registration bookkeeping.
//!
//! A device is taught a named spending policy once and later refers to it
//! by a short identifier. This module gives the registration store its
//! mathematical model: a sequence of `(name, policy)` pairs, looked up by
//! first match, extended only when a pair is new, with the identifier of a
//! pair derived from the position at which it entered the store. That
//! position never changes, so re-registering the identical pair yields the
//! identical identifier.
//!
//! The descriptor text itself is validated only structurally here (bracket
//! nesting); the policy language's grammar is an external concern.

use vstd::prelude::*;

use vstd::arithmetic::div_mod::lemma_div_denominator;
use vstd::arithmetic::div_mod::lemma_fundamental_div_mod;
use vstd::arithmetic::div_mod::lemma_multiply_divide_lt;

verus! {

/// How many bytes a policy registration identifier has.
pub const POLICY_ID_LEN: usize = 32;

/// Whether the characters of `s` from position `i` on close every bracket
/// opened so far (`depth` many) and never close one that is not open.
pub open spec fn spec_balanced_from(s: Seq<char>, i: int, depth: int) -> bool
    decreases s.len() - i,
{
    if i < 0 || i >= s.len() {
        depth == 0
    } else if s[i] == '(' {
        spec_balanced_from(s, i + 1, depth + 1)
    } else if s[i] == ')' {
        depth > 0 && spec_balanced_from(s, i + 1, depth - 1)
    } else {
        spec_balanced_from(s, i + 1, depth)
    }
}

/// Structural well-formedness of a policy descriptor: non-empty text whose
/// round brackets are balanced.
pub open spec fn spec_policy_well_formed(s: Seq<char>) -> bool {
    s.len() > 0 && spec_balanced_from(s, 0, 0)
}

/// Checks a policy descriptor's structure: non-empty text with balanced
/// round brackets.
pub fn policy_well_formed(s: &str) -> (r: bool)
    ensures
        r == spec_policy_well_formed(s@),
{
    let len = s.unicode_len();
    if len == 0 {
        return false;
    }
    let mut i: usize = 0;
    let mut depth: usize = 0;
    while i < len
        invariant
            len == s@.len(),
            i <= len,
            depth <= i,
            spec_balanced_from(s@, 0, 0) == spec_balanced_from(s@, i as int, depth as int),
        decreases len - i,
    {
        let c = s.get_char(i);
        if c == '(' {
            depth = depth + 1;
        } else if c == ')' {
            if depth == 0 {
                return false;
            }
            depth = depth - 1;
        }
        i = i + 1;
    }
    depth == 0
}

/// The position of the first registration matching `(name, policy)`, or
/// `-1` when no registration matches.
pub open spec fn spec_find_registration(
    regs: Seq<(Seq<char>, Seq<char>)>,
    name: Seq<char>,
    policy: Seq<char>,
) -> int
    decreases regs.len(),
{
    if regs.len() == 0 {
        -1
    } else if regs[0].0 == name && regs[0].1 == policy {
        0
    } else {
        let rest = spec_find_registration(regs.drop_first(), name, policy);
        if rest < 0 {
            -1
        } else {
            rest + 1
        }
    }
}

/// The registration store after teaching `(name, policy)`: unchanged when
/// the pair is already known, extended at the end otherwise.
pub open spec fn spec_regs_after_register(
    regs: Seq<(Seq<char>, Seq<char>)>,
    name: Seq<char>,
    policy: Seq<char>,
) -> Seq<(Seq<char>, Seq<char>)> {
    if spec_find_registration(regs, name, policy) >= 0 {
        regs
    } else {
        regs.push((name, policy))
    }
}

/// The position that identifies `(name, policy)` once it is taught to a
/// store holding `regs`: its existing position when already known, the
/// next free position otherwise.
pub open spec fn spec_registration_index(
    regs: Seq<(Seq<char>, Seq<char>)>,
    name: Seq<char>,
    policy: Seq<char>,
) -> int {
    let found = spec_find_registration(regs, name, policy);
    if found >= 0 {
        found
    } else {
        regs.len() as int
    }
}

/// The first-match search is sound: it stays inside the store, hits the
/// searched pair, and skips no earlier occurrence.
pub proof fn lemma_find_registration_first_match(
    regs: Seq<(Seq<char>, Seq<char>)>,
    name: Seq<char>,
    policy: Seq<char>,
)
    ensures
        -1 <= spec_find_registration(regs, name, policy) < regs.len(),
        spec_find_registration(regs, name, policy) >= 0 ==> regs[spec_find_registration(
            regs,
            name,
            policy,
        )] == (name, policy),
        forall|j: int|
            0 <= j < spec_find_registration(regs, name, policy) ==> #[trigger] regs[j] != (
            name,
            policy,
            ),
        spec_find_registration(regs, name, policy) == -1 ==> forall|j: int|
            0 <= j < regs.len() ==> #[trigger] regs[j] != (name, policy),
    decreases regs.len(),
{
    if regs.len() > 0 {
        lemma_find_registration_first_match(regs.drop_first(), name, policy);
        assert forall|j: int|
            0 <= j < spec_find_registration(regs, name, policy) implies #[trigger] regs[j] != (
        name,
        policy,
        ) by {
            if j > 0 {
                assert(regs.drop_first()[j - 1] == regs[j]);
            }
        }
        if spec_find_registration(regs, name, policy) == -1 {
            assert forall|j: int| 0 <= j < regs.len() implies #[trigger] regs[j] != (
            name,
            policy,
            ) by {
                if j > 0 {
                    assert(regs.drop_first()[j - 1] == regs[j]);
                }
            }
        }
    }
}

/// Searching for a pair just pushed onto a store that did not hold it
/// finds it at the old length.
proof fn lemma_find_registration_push(
    regs: Seq<(Seq<char>, Seq<char>)>,
    name: Seq<char>,
    policy: Seq<char>,
)
    requires
        spec_find_registration(regs, name, policy) == -1,
    ensures
        spec_find_registration(regs.push((name, policy)), name, policy) == regs.len(),
    decreases regs.len(),
{
    if regs.len() == 0 {
        assert(regs.push((name, policy))[0] == (name, policy));
    } else {
        lemma_find_registration_push(regs.drop_first(), name, policy);
        assert(regs.push((name, policy)).drop_first() =~= regs.drop_first().push((name, policy)));
    }
}

/// Idempotence of wallet registration: teaching the identical
/// `(name, policy)` pair twice leaves the registration store as after the
/// first teaching, and identifies the pair by the same position both
/// times — so a backend that returns identifiers returns the same one.
pub proof fn lemma_register_wallet_idempotent(
    regs: Seq<(Seq<char>, Seq<char>)>,
    name: Seq<char>,
    policy: Seq<char>,
)
    ensures
        spec_regs_after_register(spec_regs_after_register(regs, name, policy), name, policy)
            == spec_regs_after_register(regs, name, policy),
        spec_registration_index(spec_regs_after_register(regs, name, policy), name, policy)
            == spec_registration_index(regs, name, policy),
{
    if spec_find_registration(regs, name, policy) < 0 {
        lemma_find_registration_push(regs, name, policy);
    }
}

/// 256 to the power `j`.
pub open spec fn spec_pow256(j: nat) -> nat
    decreases j,
{
    if j == 0 {
        1nat
    } else {
        256 * spec_pow256((j - 1) as nat)
    }
}

/// 256 to any power is positive.
pub proof fn lemma_pow256_pos(j: nat)
    ensures
        spec_pow256(j) >= 1,
    decreases j,
{
    if j > 0 {
        lemma_pow256_pos((j - 1) as nat);
    }
}

/// The identifier of the registration at position `index`: its
/// little-endian bytes, padded with zeros to the identifier length.
pub open spec fn spec_policy_id(index: nat) -> Seq<u8> {
    Seq::new(
        POLICY_ID_LEN as nat,
        |j: int|
            if j < 8 {
                ((index / spec_pow256(j as nat)) % 256) as u8
            } else {
                0u8
            },
    )
}

/// Two naturals below `256^k` with the same base-256 digit at every
/// position below `k` are equal.
proof fn lemma_digits_determine(i: nat, j: nat, k: nat)
    requires
        i < spec_pow256(k),
        j < spec_pow256(k),
        forall|m: nat|
            m < k ==> (i / #[trigger] spec_pow256(m)) % 256 == (j / spec_pow256(m)) % 256,
    ensures
        i == j,
    decreases k,
{
    if k > 0 {
        assert(spec_pow256(0) == 1);
        assert(i % 256 == j % 256);
        let i2 = i / 256;
        let j2 = j / 256;
        lemma_pow256_pos((k - 1) as nat);
        lemma_multiply_divide_lt(i as int, 256, spec_pow256((k - 1) as nat) as int);
        lemma_multiply_divide_lt(j as int, 256, spec_pow256((k - 1) as nat) as int);
        assert forall|m: nat|
            m < (k - 1) as nat implies (i2 / #[trigger] spec_pow256(m)) % 256 == (j2 / spec_pow256(
            m,
        )) % 256 by {
            lemma_pow256_pos(m);
            lemma_div_denominator(i as int, 256, spec_pow256(m) as int);
            lemma_div_denominator(j as int, 256, spec_pow256(m) as int);
            assert(spec_pow256((m + 1) as nat) == 256 * spec_pow256(m));
            assert((i / spec_pow256((m + 1) as nat)) % 256 == (j / spec_pow256((m + 1) as nat))
                % 256);
        }
        lemma_digits_determine(i2, j2, (k - 1) as nat);
        lemma_fundamental_div_mod(i as int, 256);
        lemma_fundamental_div_mod(j as int, 256);
    }
}

/// Identifiers never collide: distinct positions of the registration store
/// get distinct identifiers, over every position a store can reach — so a
/// token handed out for one `(name, policy)` pair never aliases the token
/// of another.
pub proof fn lemma_policy_id_injective(i: nat, j: nat)
    requires
        i < spec_pow256(8),
        j < spec_pow256(8),
        spec_policy_id(i) == spec_policy_id(j),
    ensures
        i == j,
{
    assert forall|m: nat|
        m < 8 implies (i / #[trigger] spec_pow256(m)) % 256 == (j / spec_pow256(m)) % 256 by {
        assert(spec_policy_id(i)[m as int] == spec_policy_id(j)[m as int]);
        assert(spec_policy_id(i)[m as int] == (((i / spec_pow256(m)) % 256) as u8));
        assert(spec_policy_id(j)[m as int] == (((j / spec_pow256(m)) % 256) as u8));
        assert((i / spec_pow256(m)) % 256 < 256);
        assert((j / spec_pow256(m)) % 256 < 256);
    }
    lemma_digits_determine(i, j, 8);
}

} // verus!
