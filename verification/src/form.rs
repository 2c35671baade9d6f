//! The index-page form: the caller's requested account identifier and
//! public key, as raw text to be normalized before validation.

use vstd::prelude::*;

use crate::text::{
    concat_with_dot, dotted, ends_with_bytes, has_suffix, trim_bytes, trim_spec,
};

verus! {

/// The default network domain, `.statelessnet`: an account identifier
/// that already ends with it is kept as given.
pub open spec fn network_suffix() -> Seq<u8> {
    seq![46u8, 115u8, 116u8, 97u8, 116u8, 101u8, 108u8, 101u8, 115u8, 115u8, 110u8, 101u8, 116u8]
}

/// The bytes of the default network domain, `.statelessnet`.
pub fn network_suffix_bytes() -> (r: Vec<u8>)
    ensures
        r@ == network_suffix(),
{
    let mut r: Vec<u8> = Vec::new();
    r.push(46);
    r.push(115);
    r.push(116);
    r.push(97);
    r.push(116);
    r.push(101);
    r.push(108);
    r.push(101);
    r.push(115);
    r.push(115);
    r.push(110);
    r.push(101);
    r.push(116);
    proof {
        assert(r@ =~= network_suffix());
    }
    r
}

/// A trimmed account identifier, given the signer's own identifier as
/// the domain: kept as given when it already names the network domain,
/// otherwise put under the signer's domain.
pub open spec fn normalized_form_account_id(raw: Seq<u8>, base: Seq<u8>) -> Seq<u8> {
    if has_suffix(trim_spec(raw), network_suffix()) {
        trim_spec(raw)
    } else {
        dotted(trim_spec(raw), base)
    }
}

/// Form data from the index page. The strings come straight from the
/// user and are only validated later, when the workflow parses them.
pub struct FormData {
    pub account_id: Vec<u8>,
    pub public_key: Vec<u8>,
}

impl FormData {
    /// Normalizes the form data: trims surrounding whitespace from both
    /// fields and, when the account identifier does not already end with
    /// the network domain, appends the base signer's identifier.
    pub fn normalize(self, base_signer_account_id: &Vec<u8>) -> (r: FormData)
        ensures
            r.account_id@ == normalized_form_account_id(
                self.account_id@,
                base_signer_account_id@,
            ),
            r.public_key@ == trim_spec(self.public_key@),
    {
        let account_id = trim_bytes(&self.account_id);
        let suffix = network_suffix_bytes();
        let account_id = if ends_with_bytes(&account_id, &suffix) {
            account_id
        } else {
            concat_with_dot(&account_id, base_signer_account_id)
        };
        FormData { account_id, public_key: trim_bytes(&self.public_key) }
    }
}

} // verus!
