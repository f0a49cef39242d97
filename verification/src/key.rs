//! Account addresses and the byte strings that program-derived addresses are
//! made from.
use vstd::prelude::*;
use vstd::string::StringSliceAdditionalSpecFns;

verus! {

/// Compares two 32-byte arrays byte by byte.
pub fn bytes32_eq(a: &[u8; 32], b: &[u8; 32]) -> (r: bool)
    ensures
        r == (a@ == b@),
{
    let mut i: usize = 0;
    while i < 32
        invariant
            0 <= i <= 32,
            forall|j: int| 0 <= j < i ==> a@[j] == b@[j],
        decreases 32 - i,
    {
        if a[i] != b[i] {
            return false;
        }
        i = i + 1;
    }
    proof {
        assert(a@ =~= b@);
    }
    true
}

/// A 32-byte account address.
#[derive(Clone, Copy, Debug)]
pub struct Pubkey {
    pub bytes: [u8; 32],
}

impl Pubkey {
    /// The address with the given bytes.
    pub fn new_from_array(bytes: [u8; 32]) -> (r: Pubkey)
        ensures
            r.bytes == bytes,
    {
        Pubkey { bytes }
    }

    /// The bytes of the address.
    pub fn to_bytes(&self) -> (r: [u8; 32])
        ensures
            r == self.bytes,
    {
        self.bytes
    }

    /// The address as a seed of a program-derived address.
    pub fn as_seed(&self) -> (r: Vec<u8>)
        ensures
            r@ == self.bytes@,
    {
        vstd::slice::slice_to_vec(self.bytes.as_slice())
    }
}

impl PartialEq for Pubkey {
    fn eq(&self, other: &Self) -> (r: bool) {
        bytes32_eq(&self.bytes, &other.bytes)
    }
}

impl Eq for Pubkey {}

impl vstd::std_specs::cmp::PartialEqSpecImpl for Pubkey {
    open spec fn obeys_eq_spec() -> bool {
        true
    }

    open spec fn eq_spec(&self, other: &Self) -> bool {
        self.bytes@ == other.bytes@
    }
}

impl Default for Pubkey {
    /// The all-zero address.
    fn default() -> (r: Pubkey)
        ensures
            forall|i: int| 0 <= i < 32 ==> r.bytes@[i] == 0u8,
    {
        Pubkey { bytes: [0u8; 32] }
    }
}

/// The UTF-8 bytes of a text, as a seed.
pub fn text_seed(s: &str) -> (r: Vec<u8>)
    ensures
        r@ == s.spec_bytes(),
{
    vstd::slice::slice_to_vec(s.as_bytes())
}

/// A one-byte seed, as a bump seed or a small index is written.
pub fn byte_seed(b: u8) -> (r: Vec<u8>)
    ensures
        r@ == seq![b],
{
    let mut r: Vec<u8> = Vec::new();
    r.push(b);
    proof {
        assert(r@ =~= seq![b]);
    }
    r
}

/// The bytes of each seed in a list of seeds.
pub open spec fn seeds_view(seeds: Seq<Vec<u8>>) -> Seq<Seq<u8>> {
    seeds.map_values(|v: Vec<u8>| v@)
}

/// A list of two seeds.
pub fn seeds2(a: Vec<u8>, b: Vec<u8>) -> (r: Vec<Vec<u8>>)
    ensures
        seeds_view(r@) == seq![a@, b@],
{
    let ghost (va, vb) = (a@, b@);
    let mut r: Vec<Vec<u8>> = Vec::new();
    r.push(a);
    r.push(b);
    proof {
        assert(seeds_view(r@) =~= seq![va, vb]);
    }
    r
}

/// A list of three seeds.
pub fn seeds3(a: Vec<u8>, b: Vec<u8>, c: Vec<u8>) -> (r: Vec<Vec<u8>>)
    ensures
        seeds_view(r@) == seq![a@, b@, c@],
{
    let ghost (va, vb, vc) = (a@, b@, c@);
    let mut r: Vec<Vec<u8>> = Vec::new();
    r.push(a);
    r.push(b);
    r.push(c);
    proof {
        assert(seeds_view(r@) =~= seq![va, vb, vc]);
    }
    r
}

/// The program accounts that exist, each known by the seeds of its address.
pub type AccountSet = Set<Seq<Seq<u8>>>;

/// The accounts after an instruction creates accounts at `created`: refused
/// (`None`) when any of them exists already, as creating an account that
/// exists fails.
pub open spec fn accounts_after_init(existing: AccountSet, created: Seq<Seq<Seq<u8>>>) -> Option<
    AccountSet,
> {
    if exists|i: int| 0 <= i < created.len() && existing.contains(#[trigger] created[i]) {
        None
    } else {
        Some(existing.union(created.to_set()))
    }
}

/// The accounts after an instruction closes the account at `closed`:
/// refused when there is no such account.
pub open spec fn accounts_after_close(existing: AccountSet, closed: Seq<Seq<u8>>) -> Option<
    AccountSet,
> {
    if existing.contains(closed) {
        Some(existing.remove(closed))
    } else {
        None
    }
}

/// Creating accounts keeps every account that existed, and succeeds only
/// when none of the created ones existed; afterwards all of them exist.
pub proof fn lemma_accounts_after_init(existing: AccountSet, created: Seq<Seq<Seq<u8>>>)
    ensures
        accounts_after_init(existing, created) matches Some(next) ==> {
            &&& forall|x: Seq<Seq<u8>>| existing.contains(x) ==> #[trigger] next.contains(x)
            &&& forall|i: int|
                0 <= i < created.len() ==> !existing.contains(#[trigger] created[i])
                    && next.contains(created[i])
        },
{
    if let Some(next) = accounts_after_init(existing, created) {
        assert forall|i: int| 0 <= i < created.len() implies next.contains(#[trigger] created[i]) by {
            assert(created.to_set().contains(created[i]));
        }
    }
}

} // verus!
