//! Destination addresses and the resolution-selection policy.
//!
//! A name lookup (done outside the library) yields candidate socket
//! addresses in resolver order. This module walks that list once, records
//! the first candidate of each kind, applies the family-selection policy,
//! and defaults a missing port.

use vstd::prelude::*;
use crate::render::{spec_dec, spec_hex, u64_to_dec, u64_to_hex};

verus! {

/// Address family of a candidate, or the user's family preference.
/// `Unspecified` means no preference was expressed; `Other` is kept for a
/// preference that names neither family.
#[derive(Clone, Copy, Debug, PartialEq, Eq, Structural)]
pub enum Family {
    IPv4,
    IPv6,
    Other,
    Unspecified,
}

/// An IP address as a plain value: a 32-bit word for IPv4, a 128-bit word
/// for IPv6, both in network order (most significant byte first).
#[derive(Clone, Copy, Debug, PartialEq, Eq, Structural)]
pub enum IpVal {
    V4(u32),
    V6(u128),
}

/// A resolved socket endpoint: address plus port. The address family is
/// the variant of `ip`.
#[derive(Clone, Copy, Debug, PartialEq, Eq, Structural)]
pub struct Destination {
    pub ip: IpVal,
    pub port: u16,
}

impl Destination {
    /// The family this endpoint belongs to, read off the address variant.
    pub fn family(&self) -> (f: Family)
        ensures
            f == self.spec_family(),
    {
        match self.ip {
            IpVal::V4(_) => Family::IPv4,
            IpVal::V6(_) => Family::IPv6,
        }
    }

    pub open spec fn spec_family(self) -> Family {
        match self.ip {
            IpVal::V4(_) => Family::IPv4,
            IpVal::V6(_) => Family::IPv6,
        }
    }

    pub open spec fn is_v4(self) -> bool {
        self.spec_family() == Family::IPv4
    }

    pub open spec fn is_v6(self) -> bool {
        self.spec_family() == Family::IPv6
    }
}

/// Dotted-quad text of an IPv4 address held as one 32-bit word.
pub open spec fn spec_ipv4_text(ip: int) -> Seq<char> {
    spec_dec(ip / 0x1000000 % 256) + seq!['.'] + spec_dec(ip / 0x10000 % 256) + seq!['.']
        + spec_dec(ip / 0x100 % 256) + seq!['.'] + spec_dec(ip % 256)
}

/// One 16-bit group of an IPv6 address, counting groups from the left.
pub open spec fn spec_v6_group(ip: int, k: int) -> int {
    ip / vstd::arithmetic::power2::pow2((16 * (7 - k)) as nat) as int % 0x10000
}

/// How many consecutive zero groups start at group `k`.
pub open spec fn spec_zero_run_at(ip: int, k: int) -> int
    decreases 8 - k,
{
    if k < 0 || k >= 8 || spec_v6_group(ip, k) != 0 {
        0
    } else {
        1 + spec_zero_run_at(ip, k + 1)
    }
}

/// The leftmost longest zero run at group `k` or later: its start and
/// its length. With no zero group the length is zero.
pub open spec fn spec_best_run_from(ip: int, k: int) -> (int, int)
    decreases 8 - k,
{
    if k >= 8 {
        (8, 0)
    } else {
        let l = spec_zero_run_at(ip, k);
        let r = spec_best_run_from(ip, k + 1);
        if l >= r.1 {
            (k, l)
        } else {
            r
        }
    }
}

/// Groups `from` up to `to` of the address, in lower-case hexadecimal
/// without leading zeros, joined by colons.
pub open spec fn spec_groups_text(ip: int, from: int, to: int) -> Seq<char>
    decreases to - from,
{
    if to - from <= 0 {
        Seq::empty()
    } else if to - from == 1 {
        spec_hex(spec_v6_group(ip, from))
    } else {
        spec_hex(spec_v6_group(ip, from)) + seq![':'] + spec_groups_text(ip, from + 1, to)
    }
}

/// Canonical text of an IPv6 address: eight hexadecimal groups joined
/// by colons, with the leftmost longest run of two or more zero groups
/// shortened to a double colon.
pub open spec fn spec_ipv6_text(ip: int) -> Seq<char> {
    let r = spec_best_run_from(ip, 0);
    if r.1 >= 2 {
        spec_groups_text(ip, 0, r.0) + seq![':', ':'] + spec_groups_text(ip, r.0 + r.1, 8)
    } else {
        spec_groups_text(ip, 0, 8)
    }
}

/// Text of an address: dotted quad for IPv4, canonical compressed
/// hexadecimal groups for IPv6.
pub open spec fn spec_ip_text(ip: IpVal) -> Seq<char> {
    match ip {
        IpVal::V4(w) => spec_ipv4_text(w as int),
        IpVal::V6(w) => spec_ipv6_text(w as int),
    }
}

/// Extract one 16-bit group of an IPv6 word, counting from the left.
fn v6_group(ip: u128, k: u32) -> (g: u64)
    requires
        k < 8,
    ensures
        g as int == spec_v6_group(ip as int, k as int),
        g < 0x10000,
{
    let shift: u32 = 16 * (7 - k);
    let w = ip >> shift;
    proof {
        vstd::bits::lemma_u128_shr_is_div(ip, shift as u128);
        vstd::arithmetic::power2::lemma_pow2_pos((16 * (7 - k)) as nat);
    }
    (w % 0x10000) as u64
}

impl IpVal {
    /// The address as text, as `spec_ip_text` writes it.
    pub fn to_text(&self) -> (r: String)
        ensures
            r@ == spec_ip_text(*self),
    {
        match self {
            IpVal::V4(w) => {
                let w = *w;
                let mut s = u64_to_dec((w / 0x1000000 % 256) as u64);
                s.append(".");
                let p = u64_to_dec((w / 0x10000 % 256) as u64);
                s.append(p.as_str());
                s.append(".");
                let p = u64_to_dec((w / 0x100 % 256) as u64);
                s.append(p.as_str());
                s.append(".");
                let p = u64_to_dec((w % 256) as u64);
                s.append(p.as_str());
                proof {
                    reveal_strlit(".");
                    assert(s@ =~= spec_ipv4_text(w as int));
                }
                s
            },
            IpVal::V6(w) => {
                let w = *w;
                let mut best_start: u32 = 8;
                let mut best_len: u32 = 0;
                let mut run: u32 = 0;
                let mut k: u32 = 8;
                while k > 0
                    invariant
                        0 <= k <= 8,
                        run as int == spec_zero_run_at(w as int, k as int),
                        run <= 8 - k,
                        best_start <= 8,
                        best_start + best_len <= 8,
                        (best_start as int, best_len as int) == spec_best_run_from(
                            w as int,
                            k as int,
                        ),
                    decreases k,
                {
                    k = k - 1;
                    let g = v6_group(w, k);
                    if g == 0 {
                        run = run + 1;
                    } else {
                        run = 0;
                    }
                    if run >= best_len {
                        best_start = k;
                        best_len = run;
                    }
                }
                if best_len >= 2 {
                    let mut s = v6_groups_text(w, 0, best_start);
                    s.append("::");
                    let rest = v6_groups_text(w, best_start + best_len, 8);
                    s.append(rest.as_str());
                    proof {
                        reveal_strlit("::");
                        reveal_strlit(":");
                        assert("::"@ =~= seq![':', ':']);
                        assert(s@ =~= spec_ipv6_text(w as int));
                    }
                    s
                } else {
                    v6_groups_text(w, 0, 8)
                }
            },
        }
    }
}

/// Render groups `from` up to `to` of an IPv6 word, joined by colons.
fn v6_groups_text(w: u128, from: u32, to: u32) -> (r: String)
    requires
        from <= to,
        to <= 8,
    ensures
        r@ == spec_groups_text(w as int, from as int, to as int),
    decreases to - from,
{
    if from >= to {
        String::new()
    } else if to - from == 1 {
        u64_to_hex(v6_group(w, from))
    } else {
        let mut s = u64_to_hex(v6_group(w, from));
        s.append(":");
        let rest = v6_groups_text(w, from + 1, to);
        s.append(rest.as_str());
        proof {
            reveal_strlit(":");
            assert(s@ =~= spec_groups_text(w as int, from as int, to as int));
        }
        s
    }
}

/// Why no destination could be selected from a resolution pass.
#[derive(Clone, Copy, Debug, PartialEq, Eq, Structural)]
pub enum ResolveError {
    /// The name lookup yielded zero candidates.
    ResolutionError,
    /// An explicit family was requested and no candidate of that family
    /// was seen; the payload is the family that was asked for.
    FamilyUnavailable(Family),
}

/// The three slots filled during a single pass over the candidates:
/// the first address of any family, the first IPv4, the first IPv6.
#[derive(Clone, Copy, Debug, PartialEq, Eq, Structural)]
pub struct CandidateSet {
    pub first_any: Option<Destination>,
    pub first_v4: Option<Destination>,
    pub first_v6: Option<Destination>,
}

/// The first IPv4 candidate in resolver order, if any.
pub open spec fn spec_first_v4(s: Seq<Destination>) -> Option<Destination>
    decreases s.len(),
{
    if s.len() == 0 {
        Option::None
    } else if s[0].is_v4() {
        Option::Some(s[0])
    } else {
        spec_first_v4(s.drop_first())
    }
}

/// The first IPv6 candidate in resolver order, if any.
pub open spec fn spec_first_v6(s: Seq<Destination>) -> Option<Destination>
    decreases s.len(),
{
    if s.len() == 0 {
        Option::None
    } else if s[0].is_v6() {
        Option::Some(s[0])
    } else {
        spec_first_v6(s.drop_first())
    }
}

/// The candidate set a single pass over `s` fills.
pub open spec fn spec_candidates(s: Seq<Destination>) -> CandidateSet {
    CandidateSet {
        first_any: if s.len() == 0 {
            Option::None
        } else {
            Option::Some(s[0])
        },
        first_v4: spec_first_v4(s),
        first_v6: spec_first_v6(s),
    }
}

/// Appending a candidate changes the first-IPv4 slot only when the slot
/// was still empty and the newcomer is IPv4.
#[verifier::rlimit(50)]
proof fn lemma_first_v4_push(s: Seq<Destination>, d: Destination)
    ensures
        spec_first_v4(s.push(d)) == if spec_first_v4(s) is Some {
            spec_first_v4(s)
        } else if d.is_v4() {
            Option::Some(d)
        } else {
            Option::<Destination>::None
        },
    decreases s.len(),
{
    let sp = s.push(d);
    if s.len() == 0 {
        reveal_with_fuel(spec_first_v4, 2);
        assert(sp[0] == d);
        assert(sp.drop_first() =~= Seq::<Destination>::empty());
    } else {
        assert(sp[0] == s[0]);
        if s[0].is_v4() {
            assert(spec_first_v4(sp) == Option::Some(s[0]));
            assert(spec_first_v4(s) == Option::Some(s[0]));
        } else {
            assert(sp.drop_first() =~= s.drop_first().push(d));
            lemma_first_v4_push(s.drop_first(), d);
            assert(spec_first_v4(sp) == spec_first_v4(s.drop_first().push(d)));
            assert(spec_first_v4(s) == spec_first_v4(s.drop_first()));
        }
    }
}

/// Appending a candidate changes the first-IPv6 slot only when the slot
/// was still empty and the newcomer is IPv6.
#[verifier::rlimit(50)]
proof fn lemma_first_v6_push(s: Seq<Destination>, d: Destination)
    ensures
        spec_first_v6(s.push(d)) == if spec_first_v6(s) is Some {
            spec_first_v6(s)
        } else if d.is_v6() {
            Option::Some(d)
        } else {
            Option::<Destination>::None
        },
    decreases s.len(),
{
    let sp = s.push(d);
    if s.len() == 0 {
        reveal_with_fuel(spec_first_v6, 2);
        assert(sp[0] == d);
        assert(sp.drop_first() =~= Seq::<Destination>::empty());
    } else {
        assert(sp[0] == s[0]);
        if s[0].is_v6() {
            assert(spec_first_v6(sp) == Option::Some(s[0]));
            assert(spec_first_v6(s) == Option::Some(s[0]));
        } else {
            assert(sp.drop_first() =~= s.drop_first().push(d));
            lemma_first_v6_push(s.drop_first(), d);
            assert(spec_first_v6(sp) == spec_first_v6(s.drop_first().push(d)));
            assert(spec_first_v6(s) == spec_first_v6(s.drop_first()));
        }
    }
}

/// The first-IPv4 slot is empty exactly when no candidate is IPv4, and
/// when filled it holds the IPv4 candidate with the least index.
pub proof fn lemma_first_v4_characterization(s: Seq<Destination>)
    ensures
        spec_first_v4(s) is None <==> (forall|i: int| 0 <= i < s.len() ==> !s[i].is_v4()),
        spec_first_v4(s) matches Some(d) ==> exists|i: int|
            0 <= i < s.len() && s[i] == d && s[i].is_v4() && (forall|j: int|
                0 <= j < i ==> !s[j].is_v4()),
    decreases s.len(),
{
    if s.len() != 0 && !s[0].is_v4() {
        lemma_first_v4_characterization(s.drop_first());
        assert(forall|i: int| 1 <= i < s.len() ==> s[i] == s.drop_first()[i - 1]);
        if let Option::Some(d) = spec_first_v4(s.drop_first()) {
            let i = choose|i: int|
                0 <= i < s.drop_first().len() && s.drop_first()[i] == d
                    && s.drop_first()[i].is_v4() && (forall|j: int|
                    0 <= j < i ==> !s.drop_first()[j].is_v4());
            assert(s[i + 1] == s.drop_first()[i]);
            assert(forall|j: int| 0 <= j < i + 1 ==> !s[j].is_v4()) by {
                assert(forall|j: int| 1 <= j < i + 1 ==> s[j] == s.drop_first()[j - 1]);
            }
        }
    }
}

/// Mirror of `lemma_first_v4_characterization` for IPv6.
pub proof fn lemma_first_v6_characterization(s: Seq<Destination>)
    ensures
        spec_first_v6(s) is None <==> (forall|i: int| 0 <= i < s.len() ==> !s[i].is_v6()),
        spec_first_v6(s) matches Some(d) ==> exists|i: int|
            0 <= i < s.len() && s[i] == d && s[i].is_v6() && (forall|j: int|
                0 <= j < i ==> !s[j].is_v6()),
    decreases s.len(),
{
    if s.len() != 0 && !s[0].is_v6() {
        lemma_first_v6_characterization(s.drop_first());
        assert(forall|i: int| 1 <= i < s.len() ==> s[i] == s.drop_first()[i - 1]);
        if let Option::Some(d) = spec_first_v6(s.drop_first()) {
            let i = choose|i: int|
                0 <= i < s.drop_first().len() && s.drop_first()[i] == d
                    && s.drop_first()[i].is_v6() && (forall|j: int|
                    0 <= j < i ==> !s.drop_first()[j].is_v6());
            assert(s[i + 1] == s.drop_first()[i]);
            assert(forall|j: int| 0 <= j < i + 1 ==> !s[j].is_v6()) by {
                assert(forall|j: int| 1 <= j < i + 1 ==> s[j] == s.drop_first()[j - 1]);
            }
        }
    }
}

/// Walk the resolver-yielded candidates once, in order, and fill the
/// three first-seen slots. The first-any slot takes the very first
/// candidate regardless of family.
pub fn build_candidates(addrs: &Vec<Destination>) -> (c: CandidateSet)
    ensures
        c == spec_candidates(addrs@),
        addrs@.len() > 0 ==> c.first_any == Option::Some(addrs@[0]),
        addrs@.len() == 0 ==> c.first_any is None,
{
    let mut c = CandidateSet { first_any: None, first_v4: None, first_v6: None };
    let mut i: usize = 0;
    proof {
        assert(addrs@.take(0) =~= Seq::<Destination>::empty());
    }
    while i < addrs.len()
        invariant
            0 <= i <= addrs@.len(),
            c == spec_candidates(addrs@.take(i as int)),
        decreases addrs@.len() - i,
    {
        let d = addrs[i];
        proof {
            assert(addrs@.take(i + 1) =~= addrs@.take(i as int).push(addrs@[i as int]));
            lemma_first_v4_push(addrs@.take(i as int), addrs@[i as int]);
            lemma_first_v6_push(addrs@.take(i as int), addrs@[i as int]);
        }
        if c.first_any.is_none() {
            c.first_any = Some(d);
        }
        match d.ip {
            IpVal::V4(_) => {
                if c.first_v4.is_none() {
                    c.first_v4 = Some(d);
                }
            },
            IpVal::V6(_) => {
                if c.first_v6.is_none() {
                    c.first_v6 = Some(d);
                }
            },
        }
        i = i + 1;
    }
    proof {
        assert(addrs@.take(addrs@.len() as int) =~= addrs@);
    }
    c
}

/// What the family-selection policy yields on a candidate set, together
/// with the run's effective family.
pub open spec fn spec_select(c: CandidateSet, pref: Family) -> Result<
    (Destination, Family),
    ResolveError,
> {
    if c.first_any is None {
        Result::Err(ResolveError::ResolutionError)
    } else {
        match pref {
            Family::IPv4 => match c.first_v4 {
                Option::Some(d) => Result::Ok((d, Family::IPv4)),
                Option::None => Result::Err(ResolveError::FamilyUnavailable(Family::IPv4)),
            },
            Family::IPv6 => match c.first_v6 {
                Option::Some(d) => Result::Ok((d, Family::IPv6)),
                Option::None => Result::Err(ResolveError::FamilyUnavailable(Family::IPv6)),
            },
            _ => Result::Ok((c.first_any->0, c.first_any->0.spec_family())),
        }
    }
}

/// Apply the family-selection policy after the full candidate set is
/// built: an explicit family takes that family's first candidate or
/// fails; no preference takes the first-any candidate, whose variant
/// fixes the run's effective family.
pub fn select_destination(c: &CandidateSet, pref: Family) -> (r: Result<
    (Destination, Family),
    ResolveError,
>)
    ensures
        r == spec_select(*c, pref),
{
    if c.first_any.is_none() {
        return Err(ResolveError::ResolutionError);
    }
    match pref {
        Family::IPv4 => {
            match c.first_v4 {
                Some(d) => Ok((d, Family::IPv4)),
                None => Err(ResolveError::FamilyUnavailable(Family::IPv4)),
            }
        },
        Family::IPv6 => {
            match c.first_v6 {
                Some(d) => Ok((d, Family::IPv6)),
                None => Err(ResolveError::FamilyUnavailable(Family::IPv6)),
            }
        },
        _ => {
            let d = c.first_any.unwrap();
            let f = d.family();
            Ok((d, f))
        },
    }
}

/// Port defaulting: a zero port (none supplied, none inferred) becomes
/// 80; an explicit port is never overridden.
pub open spec fn spec_normalize_port(d: Destination) -> Destination {
    if d.port == 0 {
        Destination { ip: d.ip, port: 80 }
    } else {
        d
    }
}

/// Default a missing (zero) port to 80, leaving everything else alone.
pub fn normalize_port(d: Destination) -> (r: Destination)
    ensures
        r == spec_normalize_port(d),
        r.ip == d.ip,
        d.port != 0 ==> r == d,
        d.port == 0 ==> r.port == 80,
{
    if d.port == 0 {
        Destination { ip: d.ip, port: 80 }
    } else {
        d
    }
}

/// The whole resolution policy on a candidate list: build the slots,
/// select by family preference, default the port.
pub open spec fn spec_resolve(s: Seq<Destination>, pref: Family) -> Result<
    (Destination, Family),
    ResolveError,
> {
    match spec_select(spec_candidates(s), pref) {
        Result::Ok((d, f)) => Result::Ok((spec_normalize_port(d), f)),
        Result::Err(e) => Result::Err(e),
    }
}

/// Select the destination for a run from the candidates a name lookup
/// yielded, in resolver order, honouring the family preference and
/// defaulting a missing port to 80.
pub fn resolve_destination(addrs: &Vec<Destination>, pref: Family) -> (r: Result<
    (Destination, Family),
    ResolveError,
>)
    ensures
        r == spec_resolve(addrs@, pref),
        // zero candidates fail, and are the only resolution failure
        (r == Result::<(Destination, Family), ResolveError>::Err(
            ResolveError::ResolutionError,
        )) <==> addrs@.len() == 0,
        // no preference: the first candidate in resolver order wins and
        // fixes the effective family
        addrs@.len() > 0 && (pref == Family::Unspecified || pref == Family::Other) ==> r
            == Result::<(Destination, Family), ResolveError>::Ok(
            (spec_normalize_port(addrs@[0]), addrs@[0].spec_family()),
        ),
        // an explicit family against candidates all of the other family
        // fails with that family reported unavailable, and only then
        addrs@.len() > 0 && pref == Family::IPv4 ==> ((r == Result::<
            (Destination, Family),
            ResolveError,
        >::Err(ResolveError::FamilyUnavailable(Family::IPv4))) <==> (forall|i: int|
            0 <= i < addrs@.len() ==> !addrs@[i].is_v4())),
        addrs@.len() > 0 && pref == Family::IPv6 ==> ((r == Result::<
            (Destination, Family),
            ResolveError,
        >::Err(ResolveError::FamilyUnavailable(Family::IPv6))) <==> (forall|i: int|
            0 <= i < addrs@.len() ==> !addrs@[i].is_v6())),
{
    proof {
        lemma_first_v4_characterization(addrs@);
        lemma_first_v6_characterization(addrs@);
    }
    let c = build_candidates(addrs);
    match select_destination(&c, pref) {
        Ok((d, f)) => Ok((normalize_port(d), f)),
        Err(e) => Err(e),
    }
}

} // verus!
