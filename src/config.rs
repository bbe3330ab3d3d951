use vstd::prelude::*;

use crate::dlp::{i64_max, lemma_range_boundary, search, DlpSearch};

verus! {

/// The three groups a ciphertext can live in.
#[derive(Clone, Copy, Debug, PartialEq, Eq, Structural)]
pub enum Group {
    G1,
    G2,
    GT,
}

/// Decryption settings, set once before ciphertexts are decrypted: the size
/// of each group's baby-step table and the number of giant steps tried.
#[derive(Clone, Copy, Debug, PartialEq, Eq, Structural)]
pub struct DlpConfig {
    pub g1_hash_size: u64,
    pub g2_hash_size: u64,
    pub gt_hash_size: u64,
    pub try_num: u64,
}

impl DlpConfig {
    pub open spec fn spec_hash_size(&self, group: Group) -> u64 {
        match group {
            Group::G1 => self.g1_hash_size,
            Group::G2 => self.g2_hash_size,
            Group::GT => self.gt_hash_size,
        }
    }

    /// The integers of the group that decrypt: those of magnitude below
    /// `hash_size * try_num`.
    pub open spec fn in_range(&self, group: Group, m: int) -> bool {
        (if m < 0 { -m } else { m }) < self.spec_hash_size(group) * self.try_num
    }

    /// The same table size for every group.
    pub fn new(hash_size: u64, try_num: u64) -> (r: DlpConfig)
        ensures
            r == (DlpConfig {
                g1_hash_size: hash_size,
                g2_hash_size: hash_size,
                gt_hash_size: hash_size,
                try_num,
            }),
    {
        DlpConfig { g1_hash_size: hash_size, g2_hash_size: hash_size, gt_hash_size: hash_size, try_num }
    }

    /// Sets the number of giant steps; the tables stay as they are.
    pub fn set_try_num(&mut self, try_num: u64)
        ensures
            *final(self) == (DlpConfig { try_num, ..*old(self) }),
    {
        self.try_num = try_num;
    }

    /// Sets the table size of every group.
    pub fn set_range_for_dlp(&mut self, hash_size: u64)
        ensures
            *final(self) == (DlpConfig {
                g1_hash_size: hash_size,
                g2_hash_size: hash_size,
                gt_hash_size: hash_size,
                ..*old(self)
            }),
    {
        self.g1_hash_size = hash_size;
        self.g2_hash_size = hash_size;
        self.gt_hash_size = hash_size;
    }

    /// Sets the table size of G1 only.
    pub fn set_range_for_g1_dlp(&mut self, hash_size: u64)
        ensures
            *final(self) == (DlpConfig { g1_hash_size: hash_size, ..*old(self) }),
    {
        self.g1_hash_size = hash_size;
    }

    /// Sets the table size of G2 only.
    pub fn set_range_for_g2_dlp(&mut self, hash_size: u64)
        ensures
            *final(self) == (DlpConfig { g2_hash_size: hash_size, ..*old(self) }),
    {
        self.g2_hash_size = hash_size;
    }

    /// Sets the table size of GT only.
    pub fn set_range_for_gt_dlp(&mut self, hash_size: u64)
        ensures
            *final(self) == (DlpConfig { gt_hash_size: hash_size, ..*old(self) }),
    {
        self.gt_hash_size = hash_size;
    }

    /// The table size of `group`.
    pub fn hash_size(&self, group: Group) -> (r: u64)
        ensures
            r == self.spec_hash_size(group),
    {
        match group {
            Group::G1 => self.g1_hash_size,
            Group::G2 => self.g2_hash_size,
            Group::GT => self.gt_hash_size,
        }
    }

    /// Whether `m` lies in the decodable range of `group`.
    pub fn in_range_of(&self, group: Group, m: i64) -> (r: bool)
        ensures
            r <==> self.in_range(group, m as int),
    {
        let h = self.hash_size(group) as u128;
        let t = self.try_num as u128;
        proof {
            assert(h * t <= 0xffff_ffff_ffff_ffffu128 * 0xffff_ffff_ffff_ffffu128) by (nonlinear_arith)
                requires
                    h <= 0xffff_ffff_ffff_ffffu128,
                    t <= 0xffff_ffff_ffff_ffffu128,
            ;
        }
        let bound: u128 = h * t;
        let a: u128 = if m < 0 {
            (-(m as i128)) as u128
        } else {
            m as u128
        };
        a < bound
    }

    /// A fresh search for a ciphertext of `group`; `None` when the group's
    /// decodable range does not fit in `i64`.
    pub fn search(&self, group: Group) -> (r: Option<DlpSearch>)
        ensures
            r is None <==> self.spec_hash_size(group) * self.try_num > i64_max(),
            r matches Some(s) ==> s.wf() && s.spec_hash_size() == self.spec_hash_size(group)
                && s.spec_try_num() == self.try_num && s.spec_next() == 0,
    {
        DlpSearch::new(self.hash_size(group), self.try_num)
    }
}

/// Decryption succeeds exactly on the configured range: for a group whose
/// range fits in `i64`, a truthfully answered search recovers `m` when `m` is
/// in range, and reports `CantDecrypt` when it is not.
pub proof fn lemma_decodes_exactly_in_range(config: DlpConfig, group: Group, m: int)
    requires
        config.spec_hash_size(group) * config.try_num <= i64_max(),
    ensures
        config.in_range(group, m) ==> search(
            config.spec_hash_size(group) as int,
            config.try_num as int,
            m,
        ) == Some(m),
        !config.in_range(group, m) ==> search(
            config.spec_hash_size(group) as int,
            config.try_num as int,
            m,
        ) is None,
{
    lemma_range_boundary(config.spec_hash_size(group) as nat, config.try_num as nat, m);
}

} // verus!
