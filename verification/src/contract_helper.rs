//! Account endpoints' request shapes and the small computations they do
//! before handing off to storage: identifier normalization for account
//! creation, and paging parameters for the activity listing. The SQL
//! queries themselves are plain I/O and live outside the library.

use vstd::prelude::*;

use crate::text::{
    append_bytes, concat_with_dot, dotted, ends_with_bytes, eq_bytes, has_suffix, lower_ascii,
    lower_bytes, trim_bytes, trim_spec,
};

verus! {

/// Body of an account-creation request: the requested account identifier
/// and public key, as raw text.
pub struct AccountInfo {
    pub account_id: Vec<u8>,
    pub public_key: Vec<u8>,
}

/// A trimmed account identifier, kept as given when it already ends with
/// `.` followed by the signer's identifier, otherwise put under the
/// signer's domain.
pub open spec fn normalized_info_account_id(raw: Seq<u8>, base: Seq<u8>) -> Seq<u8> {
    if has_suffix(trim_spec(raw), seq![46u8] + base) {
        trim_spec(raw)
    } else {
        dotted(trim_spec(raw), base)
    }
}

impl AccountInfo {
    /// Normalizes the request body: trims surrounding whitespace from
    /// both fields and, when the account identifier does not already end
    /// with `.` followed by the base signer's identifier, appends it.
    pub fn normalize(self, base_signer_account_id: &Vec<u8>) -> (r: AccountInfo)
        ensures
            r.account_id@ == normalized_info_account_id(
                self.account_id@,
                base_signer_account_id@,
            ),
            r.public_key@ == trim_spec(self.public_key@),
    {
        let account_id = trim_bytes(&self.account_id);
        let mut suffix: Vec<u8> = Vec::new();
        suffix.push(46);
        append_bytes(&mut suffix, base_signer_account_id);
        proof {
            assert(suffix@ =~= seq![46u8] + base_signer_account_id@);
        }
        let account_id = if ends_with_bytes(&account_id, &suffix) {
            account_id
        } else {
            concat_with_dot(&account_id, base_signer_account_id)
        };
        AccountInfo { account_id, public_key: trim_bytes(&self.public_key) }
    }
}

/// Query parameters of the likely-tokens listing.
pub struct AccountLikelyTokensQuery {
    pub from_block_timestamp: u64,
}

/// Query parameters of the likely-NFTs listing.
pub struct AccountLikelyNftsQuery {
    pub from_block_timestamp: i64,
}

/// Query parameters of the account-activity listing, all optional.
pub struct AccountActivityQuery {
    pub order: Option<Vec<u8>>,
    pub page: Option<i64>,
    pub per_page: Option<i64>,
}

/// Sort direction of the activity listing.
#[derive(PartialEq, Eq, Structural, Clone, Copy, Debug)]
pub enum SortOrder {
    Ascending,
    Descending,
}

/// The requested order: ascending exactly when the parameter,
/// case-folded, reads `asc`; everything else, including an absent
/// parameter, is descending.
pub open spec fn spec_effective_order(order: Option<Seq<u8>>) -> SortOrder {
    match order {
        Some(s) => if lower_bytes(s) == seq![97u8, 115u8, 99u8] {
            SortOrder::Ascending
        } else {
            SortOrder::Descending
        },
        None => SortOrder::Descending,
    }
}

/// The page requested, first page when absent.
pub open spec fn spec_effective_page(page: Option<i64>) -> int {
    match page {
        Some(p) => p as int,
        None => 1,
    }
}

/// The page size requested, ten when absent.
pub open spec fn spec_effective_per_page(per_page: Option<i64>) -> int {
    match per_page {
        Some(p) => p as int,
        None => 10,
    }
}

/// How many rows the listing skips before the requested page.
pub open spec fn spec_page_offset(page: Option<i64>, per_page: Option<i64>) -> int {
    (spec_effective_page(page) - 1) * spec_effective_per_page(per_page)
}

/// Resolves the order parameter of the activity listing.
pub fn effective_order(order: &Option<Vec<u8>>) -> (r: SortOrder)
    ensures
        r == spec_effective_order(
            match *order {
                Some(ref s) => Some(s@),
                None => None,
            },
        ),
{
    match order {
        Some(s) => {
            let lowered = lower_ascii(s);
            let mut asc: Vec<u8> = Vec::new();
            asc.push(97);
            asc.push(115);
            asc.push(99);
            proof {
                assert(asc@ =~= seq![97u8, 115u8, 99u8]);
            }
            if eq_bytes(&lowered, &asc) {
                SortOrder::Ascending
            } else {
                SortOrder::Descending
            }
        },
        None => SortOrder::Descending,
    }
}

/// Resolves page and page size and computes the row offset of the
/// requested page: pages are numbered from one, `offset` rows come
/// before the requested one.
pub fn page_window(page: Option<i64>, per_page: Option<i64>) -> (r: (i64, i64, i64))
    requires
        spec_effective_page(page) > i64::MIN,
        i64::MIN <= spec_page_offset(page, per_page) <= i64::MAX,
    ensures
        r.0 == spec_effective_page(page),
        r.1 == spec_effective_per_page(per_page),
        r.2 == spec_page_offset(page, per_page),
{
    let p: i64 = match page {
        Some(p) => p,
        None => 1,
    };
    let pp: i64 = match per_page {
        Some(pp) => pp,
        None => 10,
    };
    let offset = (p - 1) * pp;
    (p, pp, offset)
}

} // verus!
