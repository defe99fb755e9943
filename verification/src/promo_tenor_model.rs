//! The promotion-tenor entity: one term option of a promotion, keyed to its
//! promotion by `promo_id`. Subsidy and fee decimals are carried as text;
//! the layer never computes on them.

use vstd::prelude::*;
use crate::store_model::clone_opt_string;

verus! {

pub struct PromoTenor {
    pub id: u128,
    pub promo_id: u128,
    pub tenor: i32,
    pub min_transaction: i32,
    pub subsidi: String,
    pub admin: String,
    pub discount: i64,
    pub max_discount: i64,
    pub voucher_code: Option<String>,
    pub free_installment: i32,
    pub is_available: bool,
    pub created_at: Option<String>,
    pub updated_at: Option<String>,
}

/// The mathematical value of a promotion-tenor snapshot.
pub struct PromoTenorView {
    pub id: u128,
    pub promo_id: u128,
    pub tenor: i32,
    pub min_transaction: i32,
    pub subsidi: Seq<char>,
    pub admin: Seq<char>,
    pub discount: i64,
    pub max_discount: i64,
    pub voucher_code: Option<Seq<char>>,
    pub free_installment: i32,
    pub is_available: bool,
    pub created_at: Option<Seq<char>>,
    pub updated_at: Option<Seq<char>>,
}

impl View for PromoTenor {
    type V = PromoTenorView;

    open spec fn view(&self) -> PromoTenorView {
        PromoTenorView {
            id: self.id,
            promo_id: self.promo_id,
            tenor: self.tenor,
            min_transaction: self.min_transaction,
            subsidi: self.subsidi@,
            admin: self.admin@,
            discount: self.discount,
            max_discount: self.max_discount,
            voucher_code: self.voucher_code.deep_view(),
            free_installment: self.free_installment,
            is_available: self.is_available,
            created_at: self.created_at.deep_view(),
            updated_at: self.updated_at.deep_view(),
        }
    }
}

impl DeepView for PromoTenor {
    type V = PromoTenorView;

    open spec fn deep_view(&self) -> PromoTenorView {
        self.view()
    }
}

impl Clone for PromoTenor {
    fn clone(&self) -> (r: Self)
        ensures
            r@ == self@,
    {
        PromoTenor {
            id: self.id,
            promo_id: self.promo_id,
            tenor: self.tenor,
            min_transaction: self.min_transaction,
            subsidi: self.subsidi.clone(),
            admin: self.admin.clone(),
            discount: self.discount,
            max_discount: self.max_discount,
            voucher_code: clone_opt_string(&self.voucher_code),
            free_installment: self.free_installment,
            is_available: self.is_available,
            created_at: clone_opt_string(&self.created_at),
            updated_at: clone_opt_string(&self.updated_at),
        }
    }
}

pub struct CreatePromoTenorPayload {
    pub promo_id: u128,
    pub tenor: i32,
    pub min_transaction: i32,
    pub subsidi: String,
    pub admin: String,
    pub discount: i64,
    pub max_discount: i64,
    pub voucher_code: Option<String>,
    pub free_installment: i32,
    pub is_available: bool,
}

pub struct UpdatePromoTenorPayload {
    pub promo_id: Option<u128>,
    pub tenor: Option<i32>,
    pub min_transaction: Option<i32>,
    pub subsidi: Option<String>,
    pub admin: Option<String>,
    pub discount: Option<i64>,
    pub max_discount: Option<i64>,
    pub voucher_code: Option<String>,
    pub free_installment: Option<i32>,
    pub is_available: Option<bool>,
}

pub type PromoTenorResponse = PromoTenor;


/// A view-preserving copy of a cached collection, handed to readers as
/// their snapshot.
pub fn clone_promo_tenors(v: &Vec<PromoTenor>) -> (r: Vec<PromoTenor>)
    ensures
        r.deep_view() == v.deep_view(),
{
    let mut out: Vec<PromoTenor> = Vec::new();
    let mut i: usize = 0;
    proof {
        assert(out.deep_view() =~= v.deep_view().subrange(0, 0));
    }
    while i < v.len()
        invariant
            0 <= i <= v@.len(),
            v.deep_view().len() == v@.len(),
            out.deep_view() == v.deep_view().subrange(0, i as int),
        decreases v@.len() - i,
    {
        let e = (&v[i]).clone();
        proof {
            assert(v.deep_view()[i as int] == v@[i as int].deep_view());
            assert(e.deep_view() == v.deep_view()[i as int]);
        }
        let ghost pre_dv = out.deep_view();
        out.push(e);
        i += 1;
        proof {
            assert(out.deep_view() =~= pre_dv.push(e.deep_view())) by {
                assert forall|k: int| 0 <= k < pre_dv.len() implies #[trigger] out.deep_view()[k]
                    == pre_dv[k] by {
                    assert(out.deep_view()[k] == out@[k].deep_view());
                }
                assert(out.deep_view()[pre_dv.len() as int] == e.deep_view());
            }
            assert(out.deep_view() =~= v.deep_view().subrange(0, i as int));
        }
    }
    proof {
        assert(v.deep_view().subrange(0, v.deep_view().len() as int) =~= v.deep_view());
    }
    out
}

} // verus!
