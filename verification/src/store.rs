use vstd::prelude::*;

use crate::certificate::CarbonCertificate;
use crate::certificate::CertificateModel;
use crate::certificate::deactivated;

verus! {

/// No two records share a certificate number.
pub open spec fn unique_numbers(s: Seq<CertificateModel>) -> bool {
    forall|i: int, j: int|
        0 <= i < j < s.len() ==> (#[trigger] s[i]).certificate_number != (
        #[trigger] s[j]).certificate_number
}

/// Some record carries the given certificate number.
pub open spec fn contains_number(s: Seq<CertificateModel>, n: Seq<u8>) -> bool {
    exists|i: int| 0 <= i < s.len() && (#[trigger] s[i]).certificate_number == n
}

/// The position of the record with the given certificate number. With
/// unique numbers it is the only such position.
pub open spec fn index_of_number(s: Seq<CertificateModel>, n: Seq<u8>) -> int {
    choose|i: int| 0 <= i < s.len() && (#[trigger] s[i]).certificate_number == n
}

/// The record stored under the given certificate number.
pub open spec fn certificate_with_number(s: Seq<CertificateModel>, n: Seq<u8>) -> CertificateModel {
    s[index_of_number(s, n)]
}

/// The store after deactivating the record with the given number: that
/// record's active flag is cleared, everything else is untouched.
pub open spec fn deactivate_model(s: Seq<CertificateModel>, n: Seq<u8>) -> Seq<CertificateModel> {
    s.update(index_of_number(s, n), deactivated(certificate_with_number(s, n)))
}

/// The tokens minted by all records together.
pub open spec fn sum_tokens(s: Seq<CertificateModel>) -> int
    decreases s.len(),
{
    if s.len() == 0 {
        0
    } else {
        sum_tokens(s.drop_last()) + s.last().tokens_minted
    }
}

/// Appending a record adds exactly its tokens to the total.
pub proof fn lemma_sum_tokens_push(s: Seq<CertificateModel>, c: CertificateModel)
    ensures
        sum_tokens(s.push(c)) == sum_tokens(s) + c.tokens_minted,
{
    assert(s.push(c).drop_last() =~= s);
}

/// Replacing a record with one minting the same tokens keeps the total.
pub proof fn lemma_sum_tokens_update_same(s: Seq<CertificateModel>, i: int, c: CertificateModel)
    requires
        0 <= i < s.len(),
        c.tokens_minted == s[i].tokens_minted,
    ensures
        sum_tokens(s.update(i, c)) == sum_tokens(s),
    decreases s.len(),
{
    if i == s.len() - 1 {
        assert(s.update(i, c).drop_last() =~= s.drop_last());
    } else {
        assert(s.update(i, c).drop_last() =~= s.drop_last().update(i, c));
        lemma_sum_tokens_update_same(s.drop_last(), i, c);
    }
}

/// The uniqueness-enforced collection of certificate records, keyed by
/// certificate number. It stands for the content-addressed storage the
/// execution environment provides: insertion is compare-and-insert
/// (it fails on an occupied key), records are never removed, and the
/// only in-place mutation is deactivation.
pub struct CertificateStore {
    certs: Vec<CarbonCertificate>,
}

impl View for CertificateStore {
    type V = Seq<CertificateModel>;

    closed spec fn view(&self) -> Seq<CertificateModel> {
        self.certs@.map_values(|c: CarbonCertificate| c@)
    }
}

impl CertificateStore {
    /// Certificate numbers are unique and every record is well formed.
    pub open spec fn wf(&self) -> bool {
        &&& unique_numbers(self@)
        &&& forall|i: int| 0 <= i < self@.len() ==> (#[trigger] self@[i]).wf()
    }

    /// An empty store.
    pub fn new() -> (s: Self)
        ensures
            s@ == Seq::<CertificateModel>::empty(),
            s.wf(),
    {
        let s = CertificateStore { certs: Vec::new() };
        proof {
            assert(s@ =~= Seq::<CertificateModel>::empty());
        }
        s
    }

    /// How many certificates have ever been stored.
    pub fn len(&self) -> (n: usize)
        ensures
            n == self@.len(),
    {
        self.certs.len()
    }

    /// The position of the record with the given number, if any.
    fn find(&self, number: &Vec<u8>) -> (r: Option<usize>)
        ensures
            match r {
                Some(i) => i < self@.len() && self@[i as int].certificate_number == number@,
                None => !contains_number(self@, number@),
            },
    {
        let n = self.certs.len();
        let mut i: usize = 0;
        while i < n
            invariant
                i <= n,
                n == self@.len(),
                n == self.certs@.len(),
                forall|j: int| 0 <= j < i ==> (#[trigger] self@[j]).certificate_number != number@,
            decreases n - i,
        {
            if self.certs[i].certificate_number == *number {
                proof {
                    assert(self.certs@[i as int].certificate_number@ =~= number@);
                }
                return Some(i);
            }
            proof {
                assert(self@[i as int].certificate_number != number@);
            }
            i += 1;
        }
        None
    }

    /// Whether a record with the given number is already stored.
    pub fn has_certificate(&self, number: &Vec<u8>) -> (b: bool)
        ensures
            b == contains_number(self@, number@),
    {
        match self.find(number) {
            Some(i) => {
                proof {
                    assert(contains_number(self@, number@)) by {
                        assert(0 <= i < self@.len() && self@[i as int].certificate_number
                            == number@);
                    }
                }
                true
            },
            None => false,
        }
    }

    /// A borrow of the record with the given number.
    pub fn get(&self, number: &Vec<u8>) -> (r: Option<&CarbonCertificate>)
        requires
            self.wf(),
        ensures
            match r {
                Some(c) => contains_number(self@, number@) && c@ == certificate_with_number(
                    self@,
                    number@,
                ),
                None => !contains_number(self@, number@),
            },
    {
        match self.find(number) {
            Some(i) => {
                let c = &self.certs[i];
                proof {
                    assert(0 <= i < self@.len() && self@[i as int].certificate_number == number@);
                    let k = index_of_number(self@, number@);
                    assert(0 <= k < self@.len() && self@[k].certificate_number == number@);
                    assert(k == i as int);
                    assert(c@ == self@[i as int]);
                }
                Some(c)
            },
            None => None,
        }
    }

    /// Compare-and-insert: append the record, which the caller has shown
    /// not to collide with any stored number.
    pub(crate) fn insert(&mut self, cert: CarbonCertificate)
        requires
            old(self).wf(),
            cert@.wf(),
            !contains_number(old(self)@, cert@.certificate_number),
        ensures
            final(self)@ == old(self)@.push(cert@),
            final(self).wf(),
    {
        let ghost old_view = self@;
        let ghost cm = cert@;
        self.certs.push(cert);
        proof {
            assert(self@ =~= old_view.push(cm));
            assert forall|i: int| 0 <= i < old_view.len() implies (#[trigger] old_view[i]).certificate_number
                != cm.certificate_number by {
                if old_view[i].certificate_number == cm.certificate_number {
                    assert(contains_number(old_view, cm.certificate_number));
                }
            }
        }
    }

    /// Clear the active flag of the record with the given number; report
    /// whether such a record existed.
    pub(crate) fn set_inactive(&mut self, number: &Vec<u8>) -> (r: bool)
        requires
            old(self).wf(),
        ensures
            final(self).wf(),
            r == contains_number(old(self)@, number@),
            r ==> final(self)@ == deactivate_model(old(self)@, number@),
            !r ==> final(self)@ == old(self)@,
    {
        let ghost old_view = self@;
        match self.find(number) {
            Some(i) => {
                proof {
                    assert(0 <= i < old_view.len() && old_view[i as int].certificate_number
                        == number@);
                }
                let c = &mut self.certs[i];
                c.is_active = false;
                proof {
                    assert(contains_number(old_view, number@)) by {
                        assert(0 <= i < old_view.len() && old_view[i as int].certificate_number
                            == number@);
                    }
                    let k = index_of_number(old_view, number@);
                    assert(0 <= k < old_view.len() && old_view[k].certificate_number == number@);
                    assert(k == i as int);
                    assert(self@ =~= old_view.update(i as int, deactivated(old_view[i as int])));
                    assert(self@ =~= deactivate_model(old_view, number@));
                    assert forall|p: int, q: int| 0 <= p < q < self@.len() implies (
                    #[trigger] self@[p]).certificate_number != (#[trigger] self@[q]).certificate_number by {
                        assert(old_view[p].certificate_number != old_view[q].certificate_number);
                    }
                }
                true
            },
            None => false,
        }
    }
}

} // verus!
