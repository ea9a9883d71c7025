use vstd::prelude::*;

verus! {

/// What `Pubkey::create_program_address` returns for the given seed list and
/// program: the derived address, or `None` where the seeds break the
/// derivation limits or the candidate address falls on the ed25519 curve.
/// The result is a fixed function of the arguments alone.
pub uninterp spec fn created_address(seeds: Seq<Seq<u8>>, program: Seq<u8>) -> Option<Seq<u8>>;

/// What `Pubkey::try_find_program_address` returns for the given seed list
/// and program: the first bump, searched downward from 255, whose extended
/// seed list derives an address, together with that address; `None` where no
/// bump works. The result is a fixed function of the arguments alone.
pub uninterp spec fn found_address(seeds: Seq<Seq<u8>>, program: Seq<u8>) -> Option<(Seq<u8>, u8)>;

/// What `Rent::minimum_balance` returns under the ledger's default rent
/// schedule: the smallest balance that keeps an account with the given data
/// size exempt from storage-cost reclamation. A fixed function of the size.
pub uninterp spec fn min_reserve(data_len: int) -> u64;

/// The namespace tag of the vault record's own address: the bytes of `"state"`.
pub open spec fn state_tag_view() -> Seq<u8> {
    seq![115u8, 116u8, 97u8, 116u8, 101u8]
}

/// The namespace tag of the fund-holding address: the bytes of `"vault"`.
pub open spec fn vault_tag_view() -> Seq<u8> {
    seq![118u8, 97u8, 117u8, 108u8, 116u8]
}

/// The full seed list that derives the vault record's address for a user:
/// the `"state"` tag, the user's address, and the record's bump.
pub open spec fn state_seeds_view(user: Seq<u8>, bump: u8) -> Seq<Seq<u8>> {
    seq![state_tag_view(), user, seq![bump]]
}

/// The full seed list that derives the fund-holding address from the vault
/// record's address: the `"vault"` tag, the record's address, and the bump.
pub open spec fn vault_seeds_view(state_address: Seq<u8>, bump: u8) -> Seq<Seq<u8>> {
    seq![vault_tag_view(), state_address, seq![bump]]
}

/// The `"state"` tag as bytes.
pub fn state_tag() -> (r: Vec<u8>)
    ensures
        r@ == state_tag_view(),
{
    let mut v: Vec<u8> = Vec::new();
    v.push(115u8);
    v.push(116u8);
    v.push(97u8);
    v.push(116u8);
    v.push(101u8);
    proof {
        assert(v@ =~= state_tag_view());
    }
    v
}

/// The `"vault"` tag as bytes.
pub fn vault_tag() -> (r: Vec<u8>)
    ensures
        r@ == vault_tag_view(),
{
    let mut v: Vec<u8> = Vec::new();
    v.push(118u8);
    v.push(97u8);
    v.push(117u8);
    v.push(108u8);
    v.push(116u8);
    proof {
        assert(v@ =~= vault_tag_view());
    }
    v
}

/// Byte-for-byte copy of an address or seed.
pub fn copy_bytes(src: &Vec<u8>) -> (r: Vec<u8>)
    ensures
        r@ == src@,
{
    let mut out: Vec<u8> = Vec::new();
    let mut i: usize = 0;
    while i < src.len()
        invariant
            i <= src@.len(),
            out@ == src@.subrange(0, i as int),
        decreases src@.len() - i,
    {
        out.push(src[i]);
        proof {
            assert(out@ =~= src@.subrange(0, i as int + 1));
        }
        i += 1;
    }
    proof {
        assert(out@ =~= src@);
    }
    out
}

/// Byte-for-byte equality of two addresses.
pub fn bytes_equal(a: &Vec<u8>, b: &Vec<u8>) -> (r: bool)
    ensures
        r == (a@ == b@),
{
    if a.len() != b.len() {
        return false;
    }
    let mut i: usize = 0;
    while i < a.len()
        invariant
            i <= a@.len(),
            a@.len() == b@.len(),
            forall|j: int| 0 <= j < i ==> a@[j] == b@[j],
        decreases a@.len() - i,
    {
        if a[i] != b[i] {
            return false;
        }
        i += 1;
    }
    proof {
        assert(a@ =~= b@);
    }
    true
}

/// Relies on `Pubkey::try_find_program_address` of anchor_lang's prelude: the
/// search over bumps is deterministic in the seeds and the program, and a
/// found pair re-derives through `Pubkey::create_program_address` with the
/// bump appended as one final single-byte seed.
#[verifier::external_body]
fn try_find_program_address_bytes(seeds: &Vec<Vec<u8>>, program: &Vec<u8>) -> (r: Option<(Vec<u8>, u8)>)
    requires
        program@.len() == 32,
    ensures
        (match r {
            Some(found) => {
                &&& found_address(seeds.deep_view(), program@) == Some((found.0@, found.1))
                &&& created_address(seeds.deep_view().push(seq![found.1]), program@) == Some(
                    found.0@,
                )
                &&& found.0@.len() == 32
            },
            None => found_address(seeds.deep_view(), program@) is None,
        }),
{
    let arr: [u8; 32] = program.as_slice().try_into().unwrap();
    let program_key = anchor_lang::prelude::Pubkey::new_from_array(arr);
    let seed_refs: Vec<&[u8]> = seeds.iter().map(|s| s.as_slice()).collect();
    anchor_lang::prelude::Pubkey::try_find_program_address(&seed_refs, &program_key)
        .map(|(address, bump)| (address.to_bytes().to_vec(), bump))
}

/// Relies on `Pubkey::create_program_address` of anchor_lang's prelude: the
/// derivation is deterministic in the seeds and the program, and every error
/// it reports means no address is derived from these seeds.
#[verifier::external_body]
fn create_program_address_bytes(seeds: &Vec<Vec<u8>>, program: &Vec<u8>) -> (r: Option<Vec<u8>>)
    requires
        program@.len() == 32,
    ensures
        (match r {
            Some(address) => created_address(seeds.deep_view(), program@) == Some(address@)
                && address@.len() == 32,
            None => created_address(seeds.deep_view(), program@) is None,
        }),
{
    let arr: [u8; 32] = program.as_slice().try_into().unwrap();
    let program_key = anchor_lang::prelude::Pubkey::new_from_array(arr);
    let seed_refs: Vec<&[u8]> = seeds.iter().map(|s| s.as_slice()).collect();
    anchor_lang::prelude::Pubkey::create_program_address(&seed_refs, &program_key)
        .ok()
        .map(|address| address.to_bytes().to_vec())
}

/// Relies on `Rent::default().minimum_balance` of anchor_lang's prelude: the
/// default rent schedule is a set of compiled-in constants, so the reserve is
/// a fixed function of the data size alone.
#[verifier::external_body]
pub(crate) fn rent_minimum_balance(data_len: usize) -> (r: u64)
    ensures
        r == min_reserve(data_len as int),
{
    anchor_lang::prelude::Rent::default().minimum_balance(data_len)
}

/// Derive the address for a tag, a parent component and a known bump, as a
/// validation call re-deriving a persisted bump does.
pub fn derive_address(tag: Vec<u8>, parent: &Vec<u8>, bump: u8, program: &Vec<u8>) -> (r: Option<
    Vec<u8>,
>)
    requires
        program@.len() == 32,
    ensures
        (match r {
            Some(address) => created_address(seq![tag@, parent@, seq![bump]], program@) == Some(
                address@,
            ) && address@.len() == 32,
            None => created_address(seq![tag@, parent@, seq![bump]], program@) is None,
        }),
{
    let ghost tag_view = tag@;
    let mut seeds: Vec<Vec<u8>> = Vec::new();
    seeds.push(tag);
    seeds.push(copy_bytes(parent));
    let mut bump_seed: Vec<u8> = Vec::new();
    bump_seed.push(bump);
    seeds.push(bump_seed);
    proof {
        assert(bump_seed@ =~= seq![bump]);
        assert(seeds.deep_view() =~~= seq![tag_view, parent@, seq![bump]]);
    }
    create_program_address_bytes(&seeds, program)
}

/// Search for the bump that derives an address for a tag and a parent
/// component, as opening the vault does before persisting the bumps.
pub fn find_address(tag: Vec<u8>, parent: &Vec<u8>, program: &Vec<u8>) -> (r: Option<
    (Vec<u8>, u8),
>)
    requires
        program@.len() == 32,
    ensures
        (match r {
            Some(found) => {
                &&& found_address(seq![tag@, parent@], program@) == Some((found.0@, found.1))
                &&& created_address(seq![tag@, parent@, seq![found.1]], program@) == Some(found.0@)
                &&& found.0@.len() == 32
            },
            None => found_address(seq![tag@, parent@], program@) is None,
        }),
{
    let ghost tag_view = tag@;
    let mut seeds: Vec<Vec<u8>> = Vec::new();
    seeds.push(tag);
    seeds.push(copy_bytes(parent));
    proof {
        assert(seeds.deep_view() =~~= seq![tag_view, parent@]);
    }
    let r = try_find_program_address_bytes(&seeds, program);
    if let Some(found) = &r {
        proof {
            assert(seeds.deep_view().push(seq![found.1]) =~~= seq![
                tag_view,
                parent@,
                seq![found.1],
            ]);
        }
    }
    r
}

} // verus!
