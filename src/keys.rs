use vstd::prelude::*;

verus! {

/// An account address: 32 bytes.
#[derive(Clone, Copy, Debug, PartialEq, Eq)]
pub struct Pubkey {
    pub bytes: [u8; 32],
}

impl View for Pubkey {
    type V = Seq<u8>;

    open spec fn view(&self) -> Seq<u8> {
        self.bytes@
    }
}

/// The address of this program, which owns every derived address below.
pub const PROGRAM_ID: [u8; 32] = [
    80, 136, 177, 189, 112, 43, 71, 252, 80, 246, 57, 229, 23, 38, 169, 40,
    246, 143, 47, 189, 31, 6, 99, 64, 59, 6, 183, 252, 73, 0, 250, 26,
];

/// The address and bump that the host derives from `seeds` for the program
/// `program_id`; none when no bump gives a valid address.
pub uninterp spec fn program_address_of(seeds: Seq<Seq<u8>>, program_id: Seq<u8>) -> Option<(Seq<u8>, u8)>;

/// Relies on solana_program's `Pubkey::try_find_program_address` (re-exported
/// by anchor_lang): its result is a function of the seeds and the program id
/// alone, and it returns `None` instead of panicking.
#[verifier::external_body]
fn try_find_program_address(seeds: &Vec<Vec<u8>>, program_id: [u8; 32]) -> (r: Option<([u8; 32], u8)>)
    ensures
        r is None ==> program_address_of(seeds@.map_values(|s: Vec<u8>| s@), program_id@) is None,
        r is Some ==> program_address_of(seeds@.map_values(|s: Vec<u8>| s@), program_id@) == Some(
            (r->Some_0.0@, r->Some_0.1),
        ),
{
    let slices: Vec<&[u8]> = seeds.iter().map(|s| s.as_slice()).collect();
    let id = anchor_lang::prelude::Pubkey::new_from_array(program_id);
    anchor_lang::prelude::Pubkey::try_find_program_address(&slices, &id).map(
        |(key, bump)| (key.to_bytes(), bump),
    )
}

/// The address this program derives from `seeds`, if any.
pub open spec fn derived_key(seeds: Seq<Seq<u8>>) -> Option<Seq<u8>> {
    match program_address_of(seeds, PROGRAM_ID@) {
        Some((key, _)) => Some(key),
        None => None,
    }
}

/// The label `awe_metadata`.
pub open spec fn metadata_label() -> Seq<u8> {
    seq![97u8, 119, 101, 95, 109, 101, 116, 97, 100, 97, 116, 97]
}

/// The label `agent_creator`.
pub open spec fn creator_label() -> Seq<u8> {
    seq![97u8, 103, 101, 110, 116, 95, 99, 114, 101, 97, 116, 111, 114]
}

/// The label `delegate`.
pub open spec fn delegate_label() -> Seq<u8> {
    seq![100u8, 101, 108, 101, 103, 97, 116, 101]
}

/// Address of the metadata record created by `authority`.
pub open spec fn spec_awe_metadata_address(authority: Seq<u8>) -> Option<Seq<u8>> {
    derived_key(seq![metadata_label(), authority])
}

/// Address of the counter of `user` under the metadata record at `metadata`.
pub open spec fn spec_agent_creator_address(metadata: Seq<u8>, user: Seq<u8>) -> Option<Seq<u8>> {
    derived_key(seq![creator_label(), metadata, user])
}

/// Address of the delegate authority that signs every outbound transfer.
pub open spec fn spec_delegate_address() -> Option<Seq<u8>> {
    derived_key(seq![delegate_label()])
}

fn derive(seeds: &Vec<Vec<u8>>) -> (r: Option<Pubkey>)
    ensures
        r is None ==> derived_key(seeds@.map_values(|s: Vec<u8>| s@)) is None,
        r is Some ==> derived_key(seeds@.map_values(|s: Vec<u8>| s@)) == Some(r->Some_0@),
{
    match try_find_program_address(seeds, PROGRAM_ID) {
        Some((bytes, _)) => Some(Pubkey { bytes }),
        None => None,
    }
}

fn key_bytes(key: &Pubkey) -> (r: Vec<u8>)
    ensures
        r@ == key@,
{
    let mut r: Vec<u8> = Vec::new();
    let mut i: usize = 0;
    while i < 32
        invariant
            i <= 32,
            r@ == key@.subrange(0, i as int),
        decreases 32 - i,
    {
        r.push(key.bytes[i]);
        i = i + 1;
    }
    assert(r@ =~= key@);
    r
}

/// Whether two addresses are the same.
pub fn same_key(a: &Pubkey, b: &Pubkey) -> (r: bool)
    ensures
        r == (a == b),
        r == (a@ == b@),
{
    let mut i: usize = 0;
    while i < 32
        invariant
            i <= 32,
            forall|j: int| 0 <= j < i ==> a.bytes[j] == b.bytes[j],
        decreases 32 - i,
    {
        if a.bytes[i] != b.bytes[i] {
            assert(a@[i as int] != b@[i as int]);
            return false;
        }
        i = i + 1;
    }
    assert(a.bytes =~= b.bytes);
    assert(a@ =~= b@);
    true
}

pub fn awe_metadata_address(authority: &Pubkey) -> (r: Option<Pubkey>)
    ensures
        r is None ==> spec_awe_metadata_address(authority@) is None,
        r is Some ==> spec_awe_metadata_address(authority@) == Some(r->Some_0@),
{
    let seeds: Vec<Vec<u8>> = vec![
        vec![97u8, 119, 101, 95, 109, 101, 116, 97, 100, 97, 116, 97],
        key_bytes(authority),
    ];
    assert(seeds@.map_values(|s: Vec<u8>| s@) =~= seq![metadata_label(), authority@]);
    derive(&seeds)
}

pub fn agent_creator_address(metadata: &Pubkey, user: &Pubkey) -> (r: Option<Pubkey>)
    ensures
        r is None ==> spec_agent_creator_address(metadata@, user@) is None,
        r is Some ==> spec_agent_creator_address(metadata@, user@) == Some(r->Some_0@),
{
    let seeds: Vec<Vec<u8>> = vec![
        vec![97u8, 103, 101, 110, 116, 95, 99, 114, 101, 97, 116, 111, 114],
        key_bytes(metadata),
        key_bytes(user),
    ];
    assert(seeds@.map_values(|s: Vec<u8>| s@) =~= seq![creator_label(), metadata@, user@]);
    derive(&seeds)
}

pub fn delegate_address() -> (r: Option<Pubkey>)
    ensures
        r is None ==> spec_delegate_address() is None,
        r is Some ==> spec_delegate_address() == Some(r->Some_0@),
{
    let seeds: Vec<Vec<u8>> = vec![vec![100u8, 101, 108, 101, 103, 97, 116, 101]];
    assert(seeds@.map_values(|s: Vec<u8>| s@) =~= seq![delegate_label()]);
    derive(&seeds)
}

} // verus!
