//! The promotion/store relation: the many-to-many join between promotions
//! and stores, with its own identity and an optional denormalized list of
//! associated tenor identifiers. Its `(promo_id, store_id)` pair is unique.

use vstd::prelude::*;
use crate::store_model::clone_opt_string;

verus! {

pub struct PromoStore {
    pub id: u128,
    pub promo_id: u128,
    pub store_id: u128,
    pub tenor_ids: Option<Vec<u128>>,
    pub created_at: Option<String>,
    pub updated_at: Option<String>,
}

/// The mathematical value of a relation snapshot.
pub struct PromoStoreView {
    pub id: u128,
    pub promo_id: u128,
    pub store_id: u128,
    pub tenor_ids: Option<Seq<u128>>,
    pub created_at: Option<Seq<char>>,
    pub updated_at: Option<Seq<char>>,
}

impl View for PromoStore {
    type V = PromoStoreView;

    open spec fn view(&self) -> PromoStoreView {
        PromoStoreView {
            id: self.id,
            promo_id: self.promo_id,
            store_id: self.store_id,
            tenor_ids: self.tenor_ids.deep_view(),
            created_at: self.created_at.deep_view(),
            updated_at: self.updated_at.deep_view(),
        }
    }
}

impl DeepView for PromoStore {
    type V = PromoStoreView;

    open spec fn deep_view(&self) -> PromoStoreView {
        self.view()
    }
}

impl Clone for PromoStore {
    fn clone(&self) -> (r: Self)
        ensures
            r@ == self@,
    {
        PromoStore {
            id: self.id,
            promo_id: self.promo_id,
            store_id: self.store_id,
            tenor_ids: clone_opt_ids(&self.tenor_ids),
            created_at: clone_opt_string(&self.created_at),
            updated_at: clone_opt_string(&self.updated_at),
        }
    }
}

pub struct CreatePromoStorePayload {
    pub promo_id: u128,
    pub store_id: u128,
    pub tenor_ids: Option<Vec<u128>>,
}

pub struct UpdatePromoStorePayload {
    pub tenor_ids: Option<Vec<u128>>,
}

/// A value-preserving copy of an optional identifier list.
pub fn clone_opt_ids(o: &Option<Vec<u128>>) -> (r: Option<Vec<u128>>)
    ensures
        r.deep_view() == o.deep_view(),
{
    match o {
        Some(v) => {
            let mut out: Vec<u128> = Vec::new();
            let mut i: usize = 0;
            while i < v.len()
                invariant
                    0 <= i <= v@.len(),
                    out@ == v@.subrange(0, i as int),
                decreases v@.len() - i,
            {
                out.push(v[i]);
                proof {
                    assert(out@ =~= v@.subrange(0, i + 1));
                }
                i += 1;
            }
            proof {
                assert(out@ =~= v@);
            }
            Some(out)
        },
        None => None,
    }
}


/// A view-preserving copy of a cached collection, handed to readers as
/// their snapshot.
pub fn clone_promo_stores(v: &Vec<PromoStore>) -> (r: Vec<PromoStore>)
    ensures
        r.deep_view() == v.deep_view(),
{
    let mut out: Vec<PromoStore> = Vec::new();
    let mut i: usize = 0;
    proof {
        assert(out.deep_view() =~= v.deep_view().subrange(0, 0));
    }
    while i < v.len()
        invariant
            0 <= i <= v@.len(),
            v.deep_view().len() == v@.len(),
            out.deep_view() == v.deep_view().subrange(0, i as int),
        decreases v@.len() - i,
    {
        let e = (&v[i]).clone();
        proof {
            assert(v.deep_view()[i as int] == v@[i as int].deep_view());
            assert(e.deep_view() == v.deep_view()[i as int]);
        }
        let ghost pre_dv = out.deep_view();
        out.push(e);
        i += 1;
        proof {
            assert(out.deep_view() =~= pre_dv.push(e.deep_view())) by {
                assert forall|k: int| 0 <= k < pre_dv.len() implies #[trigger] out.deep_view()[k]
                    == pre_dv[k] by {
                    assert(out.deep_view()[k] == out@[k].deep_view());
                }
                assert(out.deep_view()[pre_dv.len() as int] == e.deep_view());
            }
            assert(out.deep_view() =~= v.deep_view().subrange(0, i as int));
        }
    }
    proof {
        assert(v.deep_view().subrange(0, v.deep_view().len() as int) =~= v.deep_view());
    }
    out
}

} // verus!
