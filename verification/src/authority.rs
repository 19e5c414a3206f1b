use vstd::prelude::*;
use crate::Addr;

verus! {

/// What `Pubkey::create_program_address` returns for the seeds
/// `[label, record, [nonce]]` under `program`: `Some` of the derived
/// address, or `None` when the derivation is refused. The value is a
/// digest of the inputs alone, the same in every process.
pub uninterp spec fn derived_authority(
    label: Seq<u8>,
    record: Seq<u8>,
    nonce: u8,
    program: Seq<u8>,
) -> Option<Seq<u8>>;

/// The fixed seed label, the bytes of "escrow".
pub open spec fn seed_label() -> Seq<u8> {
    seq![101u8, 115u8, 99u8, 114u8, 111u8, 119u8]
}

/// This program's own 32-byte identity, under which every custodial
/// authority is derived.
pub open spec fn program_id() -> Seq<u8> {
    seq![
        105u8, 187u8, 9u8, 198u8, 152u8, 226u8, 38u8, 128u8, 110u8, 127u8, 30u8, 208u8, 181u8,
        227u8, 29u8, 66u8, 103u8, 167u8, 106u8, 3u8, 191u8, 207u8, 149u8, 40u8, 23u8, 171u8,
        22u8, 220u8, 207u8, 107u8, 103u8, 34u8,
    ]
}

/// The seed label as bytes.
pub fn seed_label_bytes() -> (r: [u8; 6])
    ensures
        r@ == seed_label(),
{
    let r: [u8; 6] = [101u8, 115u8, 99u8, 114u8, 111u8, 119u8];
    proof {
        assert(r@ =~= seed_label());
    }
    r
}

/// This program's identity as bytes.
pub fn program_id_bytes() -> (r: Addr)
    ensures
        r@ == program_id(),
{
    let r: Addr = [
        105u8, 187u8, 9u8, 198u8, 152u8, 226u8, 38u8, 128u8, 110u8, 127u8, 30u8, 208u8, 181u8,
        227u8, 29u8, 66u8, 103u8, 167u8, 106u8, 3u8, 191u8, 207u8, 149u8, 40u8, 23u8, 171u8,
        22u8, 220u8, 207u8, 107u8, 103u8, 34u8,
    ];
    proof {
        assert(r@ =~= program_id());
    }
    r
}

/// Relies on `Pubkey::create_program_address` of anchor_lang's prelude: for
/// the seeds `[label, record, [nonce]]` and `program` it either returns the
/// sha-256 based derived address, which has no private key, or refuses the
/// seeds; the outcome depends on the arguments alone.
#[verifier::external_body]
fn create_authority_address(label: &[u8], record: &Addr, nonce: u8, program: &Addr) -> (r: Option<
    Addr,
>)
    ensures
        match r {
            Some(a) => derived_authority(label@, record@, nonce, program@) == Some(a@),
            None => derived_authority(label@, record@, nonce, program@) is None,
        },
{
    let program_key = anchor_lang::prelude::Pubkey::new_from_array(*program);
    let nonce_bytes: [u8; 1] = [nonce];
    let seeds: [&[u8]; 3] = [label, record.as_slice(), nonce_bytes.as_slice()];
    match anchor_lang::prelude::Pubkey::create_program_address(&seeds, &program_key) {
        Ok(a) => Some(a.to_bytes()),
        Err(_) => None,
    }
}

/// Re-derive the custodial authority for `record` under the stored `nonce`.
pub fn derive_authority(record: &Addr, nonce: u8) -> (r: Option<Addr>)
    ensures
        match r {
            Some(a) => derived_authority(seed_label(), record@, nonce, program_id()) == Some(a@),
            None => derived_authority(seed_label(), record@, nonce, program_id()) is None,
        },
{
    let label = seed_label_bytes();
    let program = program_id_bytes();
    create_authority_address(label.as_slice(), record, nonce, &program)
}

/// Discover the custodial authority for a new record: the highest nonce
/// whose derivation succeeds, exactly as the creation path searches for it.
pub fn find_authority(record: &Addr) -> (r: Option<(Addr, u8)>)
    ensures
        match r {
            Some(an) => derived_authority(seed_label(), record@, an.1, program_id())
                == Some(an.0@) && forall|m: u8|
                m > an.1 ==> derived_authority(seed_label(), record@, m, program_id()) is None,
            None => forall|m: u8|
                derived_authority(seed_label(), record@, m, program_id()) is None,
        },
{
    let label = seed_label_bytes();
    let program = program_id_bytes();
    let mut nonce: u8 = 255;
    loop
        invariant
            label@ == seed_label(),
            program@ == program_id(),
            forall|m: u8|
                m > nonce ==> derived_authority(seed_label(), record@, m, program_id()) is None,
        decreases nonce,
    {
        match create_authority_address(label.as_slice(), record, nonce, &program) {
            Some(a) => {
                proof {
                    assert(derived_authority(seed_label(), record@, nonce, program_id()) == Some(
                        a@,
                    ));
                }
                return Some((a, nonce));
            },
            None => {
                proof {
                    assert(derived_authority(seed_label(), record@, nonce, program_id()) is None);
                }
                if nonce == 0 {
                    return None;
                }
                nonce = nonce - 1;
            },
        }
    }
}

/// Whether `owner` is the custodial authority derived for `record` under
/// `nonce`: the single condition under which the holding account may be
/// debited.
pub open spec fn authority_check(record: Addr, nonce: u8, owner: Addr) -> bool {
    derived_authority(seed_label(), record@, nonce, program_id()) == Some(owner@)
}

} // verus!
