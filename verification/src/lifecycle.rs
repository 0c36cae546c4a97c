use vstd::prelude::*;

use crate::certificate::CarbonCertificate;
use crate::certificate::CertificateModel;
use crate::certificate::deactivated;
use crate::errors::CarbonCreditError;
use crate::identity::Identity;
use crate::registry::ProgramState;
use crate::registry::consistent_totals;
use crate::store::CertificateStore;
use crate::store::certificate_with_number;
use crate::store::contains_number;
use crate::store::deactivate_model;
use crate::store::index_of_number;
use crate::store::lemma_sum_tokens_update_same;
use crate::store::unique_numbers;

verus! {

/// Clear the active flag of the named certificate. Only the registry's
/// admin may do so; anyone else is refused with `Unauthorized` and the
/// records are untouched. There is deliberately no guard against a
/// certificate that is already inactive: a second deactivation succeeds
/// and leaves the flag cleared. Nothing else about the record, the other
/// records or the registry changes, so the totals stay in agreement with
/// the records.
pub fn deactivate_certificate(
    state: &ProgramState,
    store: &mut CertificateStore,
    certificate_number: &Vec<u8>,
    caller: Identity,
) -> (r: Result<(), CarbonCreditError>)
    requires
        old(store).wf(),
    ensures
        final(store).wf(),
        caller != state.admin ==> r == Err::<(), CarbonCreditError>(CarbonCreditError::Unauthorized)
            && final(store)@ == old(store)@,
        caller == state.admin && !contains_number(old(store)@, certificate_number@) ==> r == Err::<
            (),
            CarbonCreditError,
        >(CarbonCreditError::CertificateNotFound) && final(store)@ == old(store)@,
        caller == state.admin && contains_number(old(store)@, certificate_number@) ==> r == Ok::<
            (),
            CarbonCreditError,
        >(()) && final(store)@ == deactivate_model(old(store)@, certificate_number@),
        consistent_totals(*state, old(store)@) ==> consistent_totals(*state, final(store)@),
{
    let ghost old_view = store@;
    if caller != state.admin {
        return Err(CarbonCreditError::Unauthorized);
    }
    let found = store.set_inactive(certificate_number);
    proof {
        if found {
            let k = index_of_number(old_view, certificate_number@);
            assert(0 <= k < old_view.len() && old_view[k].certificate_number
                == certificate_number@);
            lemma_sum_tokens_update_same(old_view, k, deactivated(old_view[k]));
        }
    }
    if found {
        Ok(())
    } else {
        Err(CarbonCreditError::CertificateNotFound)
    }
}

/// Read the stored record for the given certificate number, or report
/// `CertificateNotFound`.
pub fn get_certificate_info<'a>(
    store: &'a CertificateStore,
    certificate_number: &Vec<u8>,
) -> (r: Result<&'a CarbonCertificate, CarbonCreditError>)
    requires
        store.wf(),
    ensures
        match r {
            Ok(c) => contains_number(store@, certificate_number@) && c@ == certificate_with_number(
                store@,
                certificate_number@,
            ),
            Err(e) => !contains_number(store@, certificate_number@) && e
                == CarbonCreditError::CertificateNotFound,
        },
{
    match store.get(certificate_number) {
        Some(c) => Ok(c),
        None => Err(CarbonCreditError::CertificateNotFound),
    }
}

/// Deactivation is one-way and observable: once the admin deactivates a
/// certificate, it is still stored under its number with every field but
/// the active flag unchanged, a read finds it inactive, and deactivating
/// it again changes nothing.
pub proof fn lemma_deactivation_sticks(s: Seq<CertificateModel>, n: Seq<u8>)
    requires
        unique_numbers(s),
        contains_number(s, n),
    ensures
        contains_number(deactivate_model(s, n), n),
        certificate_with_number(deactivate_model(s, n), n) == deactivated(
            certificate_with_number(s, n),
        ),
        certificate_with_number(deactivate_model(s, n), n).is_active == false,
        deactivate_model(deactivate_model(s, n), n) == deactivate_model(s, n),
{
    let k = index_of_number(s, n);
    assert(0 <= k < s.len() && s[k].certificate_number == n);
    let s2 = deactivate_model(s, n);
    assert(s2[k].certificate_number == n);
    assert(contains_number(s2, n)) by {
        assert(0 <= k < s2.len() && s2[k].certificate_number == n);
    }
    let k2 = index_of_number(s2, n);
    assert(0 <= k2 < s2.len() && s2[k2].certificate_number == n);
    if k2 != k {
        assert(s[k2].certificate_number == n);
        assert(false);
    }
    assert(deactivate_model(s2, n) =~= s2);
}

} // verus!
