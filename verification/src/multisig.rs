//! The admin multisig both contracts share: validation of an admin set and
//! threshold, and verification that a list of signers carries enough admin
//! authority for a call.
use vstd::prelude::*;
use crate::address::{contains_address, zero_strkey, Address};

verus! {

/// `signers` carry the authority of `required` admins: there are at least
/// `required` of them, every one is an admin, and none appears twice.
pub open spec fn signers_authorized(admins: Seq<Address>, signers: Seq<Address>, required: int) -> bool {
    &&& signers.len() >= required
    &&& forall|i: int| 0 <= i < signers.len() ==> admins.contains(#[trigger] signers[i])
    &&& signers.no_duplicates()
}

/// Decides [`signers_authorized`].
pub fn check_signers(admins: &Vec<Address>, signers: &Vec<Address>, required: u64) -> (r: bool)
    ensures
        r == signers_authorized(admins@, signers@, required as int),
{
    if (signers.len() as u64) < required {
        return false;
    }
    let mut i: usize = 0;
    while i < signers.len()
        invariant
            i <= signers@.len(),
            forall|k: int| 0 <= k < i ==> admins@.contains(#[trigger] signers@[k]),
            forall|k: int, l: int| 0 <= k < i && k < l < signers@.len() ==> signers@[k] != signers@[l],
        decreases signers@.len() - i,
    {
        if !contains_address(admins, &signers[i]) {
            return false;
        }
        let mut j: usize = i + 1;
        while j < signers.len()
            invariant
                i < signers@.len(),
                i + 1 <= j <= signers@.len(),
                forall|l: int| i < l < j ==> signers@[i as int] != signers@[l],
            decreases signers@.len() - j,
        {
            if signers[i].same_as(&signers[j]) {
                assert(!signers@.no_duplicates()) by {
                    assert(signers@[i as int] == signers@[j as int]);
                }
                return false;
            }
            j = j + 1;
        }
        i = i + 1;
    }
    assert(signers@.no_duplicates()) by {
        assert forall|k: int, l: int| 0 <= k < signers@.len() && 0 <= l < signers@.len() && k != l
            implies signers@[k] != signers@[l] by {
            if k < l {
            } else {
            }
        }
    }
    true
}

/// The first defect of an admin set, scanning from the front: a zero
/// address, or an address that appears again later.
#[derive(Clone, Copy, Debug, PartialEq, Eq, Structural)]
pub enum AdminSetFault {
    ZeroAddress,
    Duplicate,
}

/// `a[i]` appears again after position `i`.
pub open spec fn has_later_duplicate(a: Seq<Address>, i: int) -> bool {
    exists|j: int| i < j < a.len() && a[j] == a[i]
}

/// The first defect of `a` at or after position `i`.
pub open spec fn admin_scan(a: Seq<Address>, i: int) -> Option<AdminSetFault>
    decreases a.len() - i,
{
    if i < 0 || i >= a.len() {
        None
    } else if a[i].strkey@ == zero_strkey() {
        Some(AdminSetFault::ZeroAddress)
    } else if has_later_duplicate(a, i) {
        Some(AdminSetFault::Duplicate)
    } else {
        admin_scan(a, i + 1)
    }
}

/// An admin set without zero addresses and without duplicates.
pub open spec fn admin_set_sound(a: Seq<Address>) -> bool {
    &&& forall|i: int| 0 <= i < a.len() ==> (#[trigger] a[i]).strkey@ != zero_strkey()
    &&& a.no_duplicates()
}

proof fn lemma_admin_scan_none(a: Seq<Address>, i: int)
    requires
        0 <= i <= a.len(),
    ensures
        admin_scan(a, i) is None <==> forall|k: int| i <= k < a.len() ==>
            (#[trigger] a[k]).strkey@ != zero_strkey() && !has_later_duplicate(a, k),
    decreases a.len() - i,
{
    if i < a.len() {
        lemma_admin_scan_none(a, i + 1);
    }
}

/// The scan of a whole admin set finds no defect exactly when the set is sound.
pub proof fn lemma_admin_scan_sound(a: Seq<Address>)
    ensures
        admin_scan(a, 0) is None <==> admin_set_sound(a),
{
    lemma_admin_scan_none(a, 0);
    if admin_scan(a, 0) is None {
        assert forall|k: int, l: int| 0 <= k < a.len() && 0 <= l < a.len() && k != l implies a[k] != a[l] by {
            if k < l {
                assert(!has_later_duplicate(a, k));
            } else {
                assert(!has_later_duplicate(a, l));
            }
        }
    }
    if admin_set_sound(a) {
        assert forall|k: int| 0 <= k < a.len() implies
            (#[trigger] a[k]).strkey@ != zero_strkey() && !has_later_duplicate(a, k) by {
            if has_later_duplicate(a, k) {
                let j = choose|j: int| k < j < a.len() && a[j] == a[k];
                assert(a[j] == a[k]);
            }
        }
    }
}

/// Finds the first defect of an admin set.
pub fn scan_admin_set(admins: &Vec<Address>) -> (r: Option<AdminSetFault>)
    ensures
        r == admin_scan(admins@, 0),
{
    let mut i: usize = 0;
    while i < admins.len()
        invariant
            i <= admins@.len(),
            admin_scan(admins@, 0) == admin_scan(admins@, i as int),
        decreases admins@.len() - i,
    {
        let zero = admins[i].is_zero();
        if zero {
            return Some(AdminSetFault::ZeroAddress);
        }
        let mut j: usize = i + 1;
        while j < admins.len()
            invariant
                i < admins@.len(),
                i + 1 <= j <= admins@.len(),
                forall|l: int| i < l < j ==> admins@[l] != admins@[i as int],
                admins@[i as int].strkey@ != zero_strkey(),
                admin_scan(admins@, 0) == admin_scan(admins@, i as int),
            decreases admins@.len() - j,
        {
            if admins[i].same_as(&admins[j]) {
                assert(has_later_duplicate(admins@, i as int)) by {
                    assert(admins@[j as int] == admins@[i as int]);
                }
                assert(admins@[i as int].strkey@ != zero_strkey());
                assert(admin_scan(admins@, i as int) == Some(AdminSetFault::Duplicate));
                return Some(AdminSetFault::Duplicate);
            }
            j = j + 1;
        }
        assert(!has_later_duplicate(admins@, i as int));
        i = i + 1;
    }
    None
}

/// The first address of an admin set, the one events name as "the admin".
pub fn primary_admin(admins: &Vec<Address>) -> (r: Option<Address>)
    ensures
        admins@.len() == 0 ==> r is None,
        admins@.len() > 0 ==> r == Some(admins@[0]),
{
    if admins.len() == 0 {
        None
    } else {
        Some(admins[0])
    }
}

} // verus!
