use vstd::prelude::*;
use vstd::string::StrSliceExecFns;
use vstd::string::StringSliceAdditionalSpecFns;

use crate::errors::Error;

verus! {

/// The decimal digits of `n`, most significant first, as ASCII bytes.
pub open spec fn decimal_digits(n: nat) -> Seq<u8>
    decreases n,
{
    if n < 10 {
        seq![(48 + n) as u8]
    } else {
        decimal_digits(n / 10).push((48 + n % 10) as u8)
    }
}

/// The textual encoding of an account nonce, as the chain-state collaborator
/// hands it across the boundary: its decimal digits as bytes.
///
/// The remote call that obtains the nonce is a single unverified
/// request/response round trip outside the mesh core; this turns its result
/// into the bytes the caller receives.
pub fn nonce_to_bytes(nonce: u32) -> (r: Vec<u8>)
    ensures
        r@ == decimal_digits(nonce as nat),
{
    let mut out: Vec<u8> = Vec::new();
    out.push((nonce % 10) as u8 + 48);
    let mut m: u32 = nonce / 10;
    proof {
        if nonce >= 10 {
            assert(decimal_digits(nonce as nat)
                =~= decimal_digits(m as nat) + out@);
        } else {
            assert(decimal_digits(nonce as nat) =~= Seq::<u8>::empty() + out@);
        }
    }
    while m > 0
        invariant
            decimal_digits(nonce as nat) == (if m > 0 {
                decimal_digits(m as nat)
            } else {
                Seq::<u8>::empty()
            }) + out@,
        decreases m,
    {
        let ghost prior = out@;
        let ghost m0 = m as nat;
        let d: u8 = (m % 10) as u8 + 48;
        out.insert(0, d);
        m = m / 10;
        proof {
            assert(out@ =~= seq![d] + prior);
            if m0 >= 10 {
                assert(decimal_digits(m0) == decimal_digits(m0 / 10).push(d));
                assert(decimal_digits(m0) + prior
                    =~= decimal_digits(m as nat) + out@);
            } else {
                assert(decimal_digits(m0) =~= seq![d]);
                assert(decimal_digits(m0) + prior =~= Seq::<u8>::empty() + out@);
            }
        }
    }
    proof {
        assert(out@ =~= decimal_digits(nonce as nat));
    }
    out
}

/// The fixed account record returned while no chain connection is made.
pub open spec fn dummy_account_record() -> Seq<u8> {
    "AccountDataGen { free: 1152921504606846976, reserved: 0, misc_frozen: 0, fee_frozen: 0 } }".spec_bytes()
}

/// A stand-in for the chain-state fetch: whatever the URL, it returns the
/// bytes of one fixed account record and always succeeds.
pub fn fetch_storage_dummy(url: String) -> (r: Result<Vec<u8>, Error>)
    ensures
        r matches Ok(data) && data@ == dummy_account_record(),
{
    let account_info: &str =
        "AccountDataGen { free: 1152921504606846976, reserved: 0, misc_frozen: 0, fee_frozen: 0 } }";
    let account_info_bytes = account_info.as_bytes_vec();
    Ok(account_info_bytes)
}

} // verus!
