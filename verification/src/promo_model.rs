//! The promotion entity and its mutation payloads. Rates and fee values are
//! decimal numbers the remote service stores; this layer never computes on
//! them, so it carries each one as its decimal text, unchanged.

use vstd::prelude::*;
use crate::store_model::clone_opt_string;

verus! {

#[derive(Clone, Copy, Debug, PartialEq, Eq, Structural)]
pub enum AdminPromoType {
    FIX,
    PERCENT,
}

#[derive(Clone, Copy, Debug, PartialEq, Eq, Structural)]
pub enum DiscountPromoType {
    FIX,
    PERCENT,
}

pub struct Promo {
    pub id_promo: u128,
    pub title_promo: String,
    pub admin_promo_type: AdminPromoType,
    pub interest_rate: String,
    pub discount_type: DiscountPromoType,
    pub is_active: bool,
    pub start_date_promo: Option<String>,
    pub end_date_promo: Option<String>,
    pub created_at: Option<String>,
    pub updated_at: Option<String>,
}

/// The mathematical value of a promotion snapshot.
pub struct PromoView {
    pub id_promo: u128,
    pub title_promo: Seq<char>,
    pub admin_promo_type: AdminPromoType,
    pub interest_rate: Seq<char>,
    pub discount_type: DiscountPromoType,
    pub is_active: bool,
    pub start_date_promo: Option<Seq<char>>,
    pub end_date_promo: Option<Seq<char>>,
    pub created_at: Option<Seq<char>>,
    pub updated_at: Option<Seq<char>>,
}

impl View for Promo {
    type V = PromoView;

    open spec fn view(&self) -> PromoView {
        PromoView {
            id_promo: self.id_promo,
            title_promo: self.title_promo@,
            admin_promo_type: self.admin_promo_type,
            interest_rate: self.interest_rate@,
            discount_type: self.discount_type,
            is_active: self.is_active,
            start_date_promo: self.start_date_promo.deep_view(),
            end_date_promo: self.end_date_promo.deep_view(),
            created_at: self.created_at.deep_view(),
            updated_at: self.updated_at.deep_view(),
        }
    }
}

impl DeepView for Promo {
    type V = PromoView;

    open spec fn deep_view(&self) -> PromoView {
        self.view()
    }
}

impl Clone for Promo {
    fn clone(&self) -> (r: Self)
        ensures
            r@ == self@,
    {
        Promo {
            id_promo: self.id_promo,
            title_promo: self.title_promo.clone(),
            admin_promo_type: self.admin_promo_type,
            interest_rate: self.interest_rate.clone(),
            discount_type: self.discount_type,
            is_active: self.is_active,
            start_date_promo: clone_opt_string(&self.start_date_promo),
            end_date_promo: clone_opt_string(&self.end_date_promo),
            created_at: clone_opt_string(&self.created_at),
            updated_at: clone_opt_string(&self.updated_at),
        }
    }
}

pub struct CreatePromoPayload {
    pub title_promo: String,
    pub admin_promo_type: AdminPromoType,
    pub interest_rate: String,
    pub discount_type: DiscountPromoType,
    pub is_active: bool,
    pub start_date_promo: Option<String>,
    pub end_date_promo: Option<String>,
}

pub struct UpdatePromoPayload {
    pub title_promo: Option<String>,
    pub admin_promo_type: Option<AdminPromoType>,
    pub interest_rate: Option<String>,
    pub discount_type: Option<DiscountPromoType>,
    pub is_active: Option<bool>,
    pub start_date_promo: Option<String>,
    pub end_date_promo: Option<String>,
}

pub type PromoResponse = Promo;


/// A view-preserving copy of a cached collection, handed to readers as
/// their snapshot.
pub fn clone_promos(v: &Vec<Promo>) -> (r: Vec<Promo>)
    ensures
        r.deep_view() == v.deep_view(),
{
    let mut out: Vec<Promo> = Vec::new();
    let mut i: usize = 0;
    proof {
        assert(out.deep_view() =~= v.deep_view().subrange(0, 0));
    }
    while i < v.len()
        invariant
            0 <= i <= v@.len(),
            v.deep_view().len() == v@.len(),
            out.deep_view() == v.deep_view().subrange(0, i as int),
        decreases v@.len() - i,
    {
        let e = (&v[i]).clone();
        proof {
            assert(v.deep_view()[i as int] == v@[i as int].deep_view());
            assert(e.deep_view() == v.deep_view()[i as int]);
        }
        let ghost pre_dv = out.deep_view();
        out.push(e);
        i += 1;
        proof {
            assert(out.deep_view() =~= pre_dv.push(e.deep_view())) by {
                assert forall|k: int| 0 <= k < pre_dv.len() implies #[trigger] out.deep_view()[k]
                    == pre_dv[k] by {
                    assert(out.deep_view()[k] == out@[k].deep_view());
                }
                assert(out.deep_view()[pre_dv.len() as int] == e.deep_view());
            }
            assert(out.deep_view() =~= v.deep_view().subrange(0, i as int));
        }
    }
    proof {
        assert(v.deep_view().subrange(0, v.deep_view().len() as int) =~= v.deep_view());
    }
    out
}

} // verus!
