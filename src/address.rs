//! Keys and the deterministic derivation of entity addresses.
use anchor_lang::prelude::Pubkey;
use vstd::prelude::*;

verus! {

/// A 32-byte public key; also the type of a derived address.
#[derive(Clone, Copy, Debug)]
pub struct Key {
    pub bytes: [u8; 32],
}

impl View for Key {
    type V = Seq<u8>;

    open spec fn view(&self) -> Seq<u8> {
        self.bytes@
    }
}

impl Key {
    pub fn new(bytes: [u8; 32]) -> (r: Key)
        ensures
            r@ == bytes@,
    {
        Key { bytes }
    }

    /// Byte-wise equality of two keys.
    pub fn same(&self, other: &Key) -> (r: bool)
        ensures
            r == (self@ == other@),
    {
        let mut i: usize = 0;
        while i < 32
            invariant
                0 <= i <= 32,
                self@.len() == 32,
                other@.len() == 32,
                forall|j: int| 0 <= j < i ==> self@[j] == other@[j],
            decreases 32 - i,
        {
            if self.bytes[i] != other.bytes[i] {
                assert(self@[i as int] != other@[i as int]);
                return false;
            }
            i = i + 1;
        }
        assert(self@ =~= other@);
        true
    }

    pub fn to_vec(&self) -> (r: Vec<u8>)
        ensures
            r@ == self@,
    {
        let mut v: Vec<u8> = Vec::new();
        let mut i: usize = 0;
        while i < 32
            invariant
                0 <= i <= 32,
                self@.len() == 32,
                v@ == self@.subrange(0, i as int),
            decreases 32 - i,
        {
            v.push(self.bytes[i]);
            i = i + 1;
            assert(v@ =~= self@.subrange(0, i as int));
        }
        assert(self@.subrange(0, 32) =~= self@);
        v
    }
}

/// The address and bump seed that the ledger derives from a seed list under a program.
pub uninterp spec fn program_address(seeds: Seq<Seq<u8>>, program: Seq<u8>) -> Option<(Seq<u8>, u8)>;

pub open spec fn seeds_view(seeds: Seq<Vec<u8>>) -> Seq<Seq<u8>> {
    seeds.map_values(|s: Vec<u8>| s@)
}

pub open spec fn derived_view(r: Option<(Key, u8)>) -> Option<(Seq<u8>, u8)> {
    match r {
        Some((k, b)) => Some((k@, b)),
        None => None,
    }
}

/// Relies on anchor_lang's `Pubkey::try_find_program_address`: the address and bump are a
/// function of the seeds and the program id alone, and `None` comes back when no bump seed
/// gives a valid address or the seeds break its limits (it does not panic).
#[verifier::external_body]
fn find_program_address(seeds: &Vec<Vec<u8>>, program: &Key) -> (r: Option<(Key, u8)>)
    ensures
        derived_view(r) == program_address(seeds_view(seeds@), program@),
{
    let parts: Vec<&[u8]> = seeds.iter().map(|s| s.as_slice()).collect();
    Pubkey::try_find_program_address(&parts, &Pubkey::new_from_array(program.bytes)).map(
        |(a, b)| (Key { bytes: a.to_bytes() }, b),
    )
}

pub open spec fn profile_tag() -> Seq<u8> {
    seq![117u8, 115, 101, 114, 95, 112, 114, 111, 102, 105, 108, 101]
}

pub open spec fn post_tag() -> Seq<u8> {
    seq![112u8, 111, 115, 116]
}

pub open spec fn follow_tag() -> Seq<u8> {
    seq![102u8, 111, 108, 108, 111, 119]
}

/// Little-endian bytes of `n`, `k` of them.
pub open spec fn le_bytes(n: nat, k: nat) -> Seq<u8>
    decreases k,
{
    if k == 0 {
        Seq::empty()
    } else {
        seq![(n % 256) as u8] + le_bytes(n / 256, (k - 1) as nat)
    }
}

pub open spec fn profile_seeds(owner: Seq<u8>) -> Seq<Seq<u8>> {
    seq![profile_tag(), owner]
}

pub open spec fn post_seeds(author: Seq<u8>, post_id: u64) -> Seq<Seq<u8>> {
    seq![post_tag(), author, le_bytes(post_id as nat, 8)]
}

pub open spec fn follow_seeds(follower: Seq<u8>, target: Seq<u8>) -> Seq<Seq<u8>> {
    seq![follow_tag(), follower, target]
}

pub open spec fn pow256(k: nat) -> nat
    decreases k,
{
    if k == 0 {
        1
    } else {
        256 * pow256((k - 1) as nat)
    }
}

/// `k` little-endian bytes tell apart every two numbers below `256^k`.
pub proof fn lemma_le_bytes_injective(n: nat, m: nat, k: nat)
    requires
        n < pow256(k),
        m < pow256(k),
        le_bytes(n, k) == le_bytes(m, k),
    ensures
        n == m,
    decreases k,
{
    if k > 0 {
        let p = pow256((k - 1) as nat);
        let tn = le_bytes(n / 256, (k - 1) as nat);
        let tm = le_bytes(m / 256, (k - 1) as nat);
        lemma_le_bytes_len(n / 256, (k - 1) as nat);
        lemma_le_bytes_len(m / 256, (k - 1) as nat);
        assert(le_bytes(n, k) == seq![(n % 256) as u8] + tn);
        assert(le_bytes(m, k) == seq![(m % 256) as u8] + tm);
        assert((seq![(n % 256) as u8] + tn)[0] == (n % 256) as u8);
        assert((seq![(m % 256) as u8] + tm)[0] == (m % 256) as u8);
        assert(n % 256 == m % 256);
        assert((seq![(n % 256) as u8] + tn).subrange(1, k as int) =~= tn);
        assert((seq![(m % 256) as u8] + tm).subrange(1, k as int) =~= tm);
        assert(tn == tm);
        assert(n / 256 < p) by (nonlinear_arith)
            requires
                n < 256 * p,
        ;
        assert(m / 256 < p) by (nonlinear_arith)
            requires
                m < 256 * p,
        ;
        lemma_le_bytes_injective(n / 256, m / 256, (k - 1) as nat);
        assert(n == 256 * (n / 256) + n % 256) by (nonlinear_arith);
        assert(m == 256 * (m / 256) + m % 256) by (nonlinear_arith);
    }
}

proof fn lemma_le_bytes_len(n: nat, k: nat)
    ensures
        le_bytes(n, k).len() == k,
    decreases k,
{
    if k > 0 {
        lemma_le_bytes_len(n / 256, (k - 1) as nat);
    }
}

proof fn lemma_pow256_8()
    ensures
        pow256(8) == 0x1_0000_0000_0000_0000,
{
    reveal_with_fuel(pow256, 9);
}

/// The seeds of two entities are equal only when they are of the same kind and were
/// derived from the same inputs, so equal addresses can only come from equal seeds.
pub proof fn lemma_seeds_distinct(
    a: Seq<u8>,
    b: Seq<u8>,
    c: Seq<u8>,
    d: Seq<u8>,
    i: u64,
    j: u64,
)
    ensures
        profile_seeds(a) == profile_seeds(b) ==> a == b,
        post_seeds(a, i) == post_seeds(b, j) ==> a == b && i == j,
        follow_seeds(a, c) == follow_seeds(b, d) ==> a == b && c == d,
        profile_seeds(a) != post_seeds(b, i),
        profile_seeds(a) != follow_seeds(b, c),
        post_seeds(a, i) != follow_seeds(b, c),
{
    if profile_seeds(a) == profile_seeds(b) {
        assert(profile_seeds(a)[1] == profile_seeds(b)[1]);
    }
    if post_seeds(a, i) == post_seeds(b, j) {
        assert(post_seeds(a, i)[1] == post_seeds(b, j)[1]);
        assert(post_seeds(a, i)[2] == post_seeds(b, j)[2]);
        lemma_pow256_8();
        lemma_le_bytes_injective(i as nat, j as nat, 8);
    }
    if follow_seeds(a, c) == follow_seeds(b, d) {
        assert(follow_seeds(a, c)[1] == follow_seeds(b, d)[1]);
        assert(follow_seeds(a, c)[2] == follow_seeds(b, d)[2]);
    }
    assert(profile_seeds(a).len() == 2);
    assert(post_seeds(b, i).len() == 3);
    assert(follow_seeds(b, c).len() == 3);
    assert(post_seeds(a, i)[0].len() != follow_seeds(b, c)[0].len());
}

/// The eight little-endian bytes of a `u64`.
pub fn u64_le_bytes(n: u64) -> (r: Vec<u8>)
    ensures
        r@ == le_bytes(n as nat, 8),
{
    let mut v: Vec<u8> = Vec::new();
    let mut m: u64 = n;
    let mut i: usize = 0;
    while i < 8
        invariant
            0 <= i <= 8,
            v@ + le_bytes(m as nat, (8 - i) as nat) == le_bytes(n as nat, 8),
        decreases 8 - i,
    {
        let ghost before = v@;
        v.push((m % 256) as u8);
        let ghost rest = le_bytes((m / 256) as nat, (8 - i - 1) as nat);
        assert(le_bytes(m as nat, (8 - i) as nat) == seq![(m % 256) as u8] + rest);
        assert(v@ + rest =~= before + (seq![(m % 256) as u8] + rest));
        m = m / 256;
        i = i + 1;
    }
    assert(v@ + le_bytes(m as nat, 0) =~= v@);
    v
}

fn tag_vec(tag: &[u8]) -> (r: Vec<u8>)
    ensures
        r@ == tag@,
{
    let mut v: Vec<u8> = Vec::new();
    let mut i: usize = 0;
    while i < tag.len()
        invariant
            0 <= i <= tag@.len(),
            v@ == tag@.subrange(0, i as int),
        decreases tag@.len() - i,
    {
        v.push(tag[i]);
        i = i + 1;
        assert(v@ =~= tag@.subrange(0, i as int));
    }
    assert(tag@.subrange(0, tag@.len() as int) =~= tag@);
    v
}

/// Address of the profile owned by `owner`.
pub fn profile_address(program: &Key, owner: &Key) -> (r: Option<(Key, u8)>)
    ensures
        derived_view(r) == program_address(profile_seeds(owner@), program@),
{
    let tag: [u8; 12] = [117u8, 115, 101, 114, 95, 112, 114, 111, 102, 105, 108, 101];
    let mut seeds: Vec<Vec<u8>> = Vec::new();
    seeds.push(tag_vec(tag.as_slice()));
    seeds.push(owner.to_vec());
    assert(tag@ =~= profile_tag());
    assert(seeds_view(seeds@) =~= profile_seeds(owner@));
    find_program_address(&seeds, program)
}

/// Address of the post numbered `post_id` among `author`'s posts.
pub fn post_address(program: &Key, author: &Key, post_id: u64) -> (r: Option<(Key, u8)>)
    ensures
        derived_view(r) == program_address(post_seeds(author@, post_id), program@),
{
    let tag: [u8; 4] = [112u8, 111, 115, 116];
    let mut seeds: Vec<Vec<u8>> = Vec::new();
    seeds.push(tag_vec(tag.as_slice()));
    seeds.push(author.to_vec());
    seeds.push(u64_le_bytes(post_id));
    assert(tag@ =~= post_tag());
    assert(seeds_view(seeds@) =~= post_seeds(author@, post_id));
    find_program_address(&seeds, program)
}

/// Address of the record of `follower` following `target`.
pub fn follow_address(program: &Key, follower: &Key, target: &Key) -> (r: Option<(Key, u8)>)
    ensures
        derived_view(r) == program_address(follow_seeds(follower@, target@), program@),
{
    let tag: [u8; 6] = [102u8, 111, 108, 108, 111, 119];
    let mut seeds: Vec<Vec<u8>> = Vec::new();
    seeds.push(tag_vec(tag.as_slice()));
    seeds.push(follower.to_vec());
    seeds.push(target.to_vec());
    assert(tag@ =~= follow_tag());
    assert(seeds_view(seeds@) =~= follow_seeds(follower@, target@));
    find_program_address(&seeds, program)
}

} // verus!
