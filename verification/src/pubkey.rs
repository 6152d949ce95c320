use vstd::prelude::*;

verus! {

/// A 32-byte account address: the identity of a signer, of a program, or of
/// an account that a program owns.
#[derive(Clone, Copy, Debug, Eq, Hash)]
pub struct Pubkey {
    pub bytes: [u8; 32],
}

impl View for Pubkey {
    type V = Seq<u8>;

    open spec fn view(&self) -> Seq<u8> {
        self.bytes@
    }
}

impl PartialEq for Pubkey {
    fn eq(&self, other: &Pubkey) -> (r: bool) {
        let mut i: usize = 0;
        while i < 32
            invariant
                i <= 32,
                forall|j: int| 0 <= j < i ==> self.bytes[j] == other.bytes[j],
            decreases 32 - i,
        {
            if self.bytes[i] != other.bytes[i] {
                return false;
            }
            i += 1;
        }
        assert(self.bytes =~= other.bytes);
        true
    }
}

impl vstd::std_specs::cmp::PartialEqSpecImpl for Pubkey {
    open spec fn obeys_eq_spec() -> bool {
        true
    }

    open spec fn eq_spec(&self, other: &Pubkey) -> bool {
        *self == *other
    }
}

impl Pubkey {
    /// Two addresses with the same bytes are the same address.
    pub proof fn lemma_view_injective(a: Pubkey, b: Pubkey)
        requires
            a@ == b@,
        ensures
            a == b,
    {
        assert(a.bytes =~= b.bytes);
    }

    /// The address with the given bytes.
    pub fn new_from_array(bytes: [u8; 32]) -> (r: Pubkey)
        ensures
            r.bytes == bytes,
    {
        Pubkey { bytes }
    }

    /// The bytes of the address.
    pub fn to_bytes(&self) -> (r: [u8; 32])
        ensures
            r == self.bytes,
    {
        self.bytes
    }
}

/// The bytes of this program's address.
pub const ID_BYTES: [u8; 32] = [
    250, 19, 45, 219, 37, 143, 174, 174, 25, 219, 106, 59, 194, 9, 221, 119,
    247, 134, 248, 142, 139, 80, 136, 147, 35, 133, 133, 6, 32, 26, 129, 238,
];

/// The address of this program.
pub open spec fn program_id() -> Pubkey {
    Pubkey { bytes: ID_BYTES }
}

/// The address of this program, under which every account is derived.
#[verifier::when_used_as_spec(program_id)]
pub fn id() -> (r: Pubkey)
    ensures
        r == program_id(),
{
    Pubkey { bytes: ID_BYTES }
}

/// The address and the bump seed that `Pubkey::try_find_program_address` of
/// `anchor_lang` finds for `seeds` under `program_id`, or `None` where it
/// finds none. Seeds, program and address are taken as bytes.
pub uninterp spec fn program_address(seeds: Seq<Seq<u8>>, program_id: Seq<u8>) -> Option<(Seq<u8>, u8)>;

/// Whether `Pubkey::is_on_curve` of `anchor_lang` takes the address, as
/// bytes, for a point of the ed25519 curve: a key pair may exist for such an
/// address, and for no other.
pub uninterp spec fn on_curve(address: Seq<u8>) -> bool;

/// The seeds as the byte strings that are hashed.
pub open spec fn seed_bytes(seeds: Seq<Pubkey>) -> Seq<Seq<u8>> {
    seeds.map_values(|k: Pubkey| k@)
}

/// What a derivation found, with the address taken as bytes.
pub open spec fn derived_view(derived: Option<(Pubkey, u8)>) -> Option<(Seq<u8>, u8)> {
    match derived {
        Some((address, bump)) => Some((address@, bump)),
        None => None,
    }
}

/// Calls `anchor_lang::prelude::Pubkey::try_find_program_address` with the
/// seeds' bytes. Trusted: the result is what that function returns, which
/// depends on the seeds and the program alone. It hashes the seeds, a bump
/// seed, the program and a marker, counting the bump seed down from 255 until
/// the hash is no point of the ed25519 curve; it returns `None` where no bump
/// seed gives such a hash, or there are 16 seeds or more. It turns down a
/// seed of more than 32 bytes, which no address is.
#[verifier::external_body]
fn try_find_program_address(seeds: &[Pubkey], program_id: &Pubkey) -> (r: Option<(Pubkey, u8)>)
    ensures
        derived_view(r) == program_address(seed_bytes(seeds@), program_id@),
{
    let parts: Vec<&[u8]> = seeds.iter().map(|k| &k.bytes[..]).collect();
    let program = anchor_lang::prelude::Pubkey::new_from_array(program_id.bytes);
    match anchor_lang::prelude::Pubkey::try_find_program_address(&parts, &program) {
        Some((address, bump)) => Some((Pubkey { bytes: address.to_bytes() }, bump)),
        None => None,
    }
}

/// Calls `anchor_lang::prelude::Pubkey::is_on_curve`. Trusted: the result is
/// what that function returns, which depends on the address alone.
#[verifier::external_body]
fn is_on_curve(address: &Pubkey) -> (r: bool)
    ensures
        r == on_curve(address@),
{
    anchor_lang::prelude::Pubkey::new_from_array(address.bytes).is_on_curve()
}

/// An address is derived from fewer seeds than this: the bump seed is one
/// more, and 16 seeds are hashed at most.
pub const MAX_SEEDS: usize = 16;

/// The address that belongs to `seeds` under this program, with its bump
/// seed: the one that is found for them, provided that the seeds are fewer
/// than `MAX_SEEDS` and the address is off the curve.
pub open spec fn derived_address(seeds: Seq<Pubkey>) -> Option<(Seq<u8>, u8)> {
    if seeds.len() >= MAX_SEEDS {
        None
    } else {
        match program_address(seed_bytes(seeds), program_id()@) {
            Some((address, bump)) => if on_curve(address) {
                None
            } else {
                Some((address, bump))
            },
            None => None,
        }
    }
}

/// Where the whitelist of `authority` lives: one address for each authority.
pub open spec fn whitelist_pda(authority: Pubkey) -> Option<(Seq<u8>, u8)> {
    derived_address(seq![authority])
}

/// Where the record of `wallet` on the whitelist at `whitelist` lives.
pub open spec fn wallet_pda(whitelist: Pubkey, wallet: Pubkey) -> Option<(Seq<u8>, u8)> {
    derived_address(seq![whitelist, wallet])
}

/// Whether a derivation found an address, and `claimed` is that address.
pub open spec fn is_derived(found: Option<(Seq<u8>, u8)>, claimed: Pubkey) -> bool {
    found matches Some((address, _)) && address == claimed@
}

/// Keeps an address that was found unless it is on the curve: whoever holds
/// the key pair of such an address could sign for it, and pass an account of
/// their own off as one of this program.
pub fn off_curve(found: Option<(Pubkey, u8)>, is_point: bool) -> (r: Option<(Pubkey, u8)>)
    ensures
        r == if is_point { None } else { found },
{
    if is_point {
        None
    } else {
        found
    }
}

/// Derives the address that belongs to `seeds` under this program: none for
/// `MAX_SEEDS` seeds or more.
pub fn derive_address(seeds: &[Pubkey]) -> (r: Option<(Pubkey, u8)>)
    ensures
        derived_view(r) == derived_address(seeds@),
        seeds.len() >= MAX_SEEDS ==> r is None,
{
    if seeds.len() >= MAX_SEEDS {
        return None;
    }
    let found = try_find_program_address(seeds, &id());
    match found {
        Some((address, _)) => off_curve(found, is_on_curve(&address)),
        None => None,
    }
}

/// Derives the address of the whitelist that `authority` creates.
pub fn find_whitelist_address(authority: &Pubkey) -> (r: Option<(Pubkey, u8)>)
    ensures
        derived_view(r) == whitelist_pda(*authority),
{
    let seeds = [*authority];
    assert(seeds@ =~= seq![*authority]);
    derive_address(&seeds)
}

/// Derives the address of the record of `wallet` on the whitelist at
/// `whitelist`.
pub fn find_wallet_address(whitelist: &Pubkey, wallet: &Pubkey) -> (r: Option<(Pubkey, u8)>)
    ensures
        derived_view(r) == wallet_pda(*whitelist, *wallet),
{
    let seeds = [*whitelist, *wallet];
    assert(seeds@ =~= seq![*whitelist, *wallet]);
    derive_address(&seeds)
}

/// Compares a claimed address with what a derivation found.
pub fn derived_matches(derived: &Option<(Pubkey, u8)>, claimed: &Pubkey) -> (r: bool)
    ensures
        r == is_derived(derived_view(*derived), *claimed),
{
    match derived {
        Some((address, _)) => {
            proof {
                if address@ == claimed@ {
                    Pubkey::lemma_view_injective(*address, *claimed);
                }
            }
            *address == *claimed
        },
        None => false,
    }
}

} // verus!
