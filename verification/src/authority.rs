//! The vault's derived authority: the identity under which the vault signs
//! its calls, made from a fixed word, the vault's name and a proof value.

use vstd::prelude::*;
use vstd::slice::{slice_subrange, slice_to_vec};
use crate::state::Vault;
use crate::strip::{lemma_stripped_is_trimmed, strip_bounds, strip_end, strip_start};

verus! {

/// The word that sets the vault's authority apart from the other accounts
/// derived from its name: `vault-authority`.
pub const VAULT_AUTHORITY_SEED: [u8; 15] = [
    118,
    97,
    117,
    108,
    116,
    45,
    97,
    117,
    116,
    104,
    111,
    114,
    105,
    116,
    121,
];

/// What a call is signed with on the vault's behalf: the part of a stored
/// name that names the vault, and the proof value that goes with it.
#[derive(Clone, Copy, Debug, PartialEq, Eq)]
pub struct AuthoritySeeds {
    /// The name as the vault's record holds it.
    pub vault_name: [u8; 20],
    /// Where the naming part begins in `vault_name`.
    pub from: usize,
    /// Where the naming part ends in `vault_name`, itself left out.
    pub to: usize,
    /// The proof value.
    pub bump: u8,
}

impl AuthoritySeeds {
    /// The bounds lie in order inside the name.
    pub open spec fn wf(self) -> bool {
        self.from <= self.to <= 20
    }

    /// The bytes that name the vault.
    pub open spec fn name(self) -> Seq<u8> {
        self.vault_name@.subrange(self.from as int, self.to as int)
    }

    /// The three seeds, in the order in which they are signed with: the
    /// fixed word, the name, the proof value.
    pub open spec fn seeds(self) -> Seq<Seq<u8>> {
        seq![VAULT_AUTHORITY_SEED@, self.name(), seq![self.bump]]
    }

    /// The authority of the vault that `vault` records: named by the stored
    /// name without the whitespace at its ends.
    pub open spec fn spec_of_vault(vault: Vault) -> Self {
        AuthoritySeeds {
            vault_name: vault.vault_name,
            from: strip_start(vault.vault_name@) as usize,
            to: strip_end(vault.vault_name@) as usize,
            bump: vault.bumps.vault_authority,
        }
    }

    /// The authority of the vault that `vault` records.
    pub fn of_vault(vault: &Vault) -> (r: Self)
        ensures
            r == Self::spec_of_vault(*vault),
            r.wf(),
    {
        let (from, to) = strip_bounds(vault.vault_name.as_slice());
        AuthoritySeeds { vault_name: vault.vault_name, from, to, bump: vault.bumps.vault_authority }
    }

    /// The bytes that name the vault.
    pub fn name_seed(&self) -> (r: &[u8])
        requires
            self.wf(),
        ensures
            r@ == self.name(),
    {
        slice_subrange(self.vault_name.as_slice(), self.from, self.to)
    }

    /// The three seeds, in the order in which they are signed with.
    pub fn signer_seeds(&self) -> (r: Vec<Vec<u8>>)
        requires
            self.wf(),
        ensures
            r@.len() == 3,
            r@[0]@ == VAULT_AUTHORITY_SEED@,
            r@[1]@ == self.name(),
            r@[2]@ == seq![self.bump],
            r.deep_view() == self.seeds(),
    {
        let word: Vec<u8> = slice_to_vec(VAULT_AUTHORITY_SEED.as_slice());
        let name: Vec<u8> = slice_to_vec(self.name_seed());
        let mut bump: Vec<u8> = Vec::new();
        bump.push(self.bump);
        let mut seeds: Vec<Vec<u8>> = Vec::new();
        seeds.push(word);
        seeds.push(name);
        seeds.push(bump);
        proof {
            assert(seeds@[2]@ =~= seq![self.bump]);
            assert(seeds.deep_view() =~~= self.seeds());
        }
        seeds
    }
}

/// The seeds of a vault's authority are those that the vault's record gives:
/// the fixed word, the stored name trimmed, and the stored proof value.
pub proof fn lemma_authority_of_vault(vault: Vault)
    ensures
        AuthoritySeeds::spec_of_vault(vault).wf(),
        AuthoritySeeds::spec_of_vault(vault).seeds() == seq![
            VAULT_AUTHORITY_SEED@,
            crate::strip::stripped(vault.vault_name@),
            seq![vault.bumps.vault_authority],
        ],
{
    lemma_stripped_is_trimmed(vault.vault_name@);
}

} // verus!
