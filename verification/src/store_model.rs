//! The store entity and its mutation payloads. A store is an immutable
//! value snapshot once read into cache; its `route` is a unique
//! human-readable slug used as an alternate lookup key.

use vstd::prelude::*;

verus! {

#[derive(Clone, Copy, Debug, PartialEq, Eq, Structural)]
pub enum StoreType {
    KA,
    NKA,
}

pub struct Store {
    pub id: u128,
    pub name: String,
    pub company: String,
    pub address: Option<String>,
    pub route: Option<String>,
    pub store_type: Option<StoreType>,
    pub created_at: Option<String>,
    pub updated_at: Option<String>,
}

/// The mathematical value of a store snapshot.
pub struct StoreView {
    pub id: u128,
    pub name: Seq<char>,
    pub company: Seq<char>,
    pub address: Option<Seq<char>>,
    pub route: Option<Seq<char>>,
    pub store_type: Option<StoreType>,
    pub created_at: Option<Seq<char>>,
    pub updated_at: Option<Seq<char>>,
}

impl View for Store {
    type V = StoreView;

    open spec fn view(&self) -> StoreView {
        StoreView {
            id: self.id,
            name: self.name@,
            company: self.company@,
            address: self.address.deep_view(),
            route: self.route.deep_view(),
            store_type: self.store_type,
            created_at: self.created_at.deep_view(),
            updated_at: self.updated_at.deep_view(),
        }
    }
}

impl DeepView for Store {
    type V = StoreView;

    open spec fn deep_view(&self) -> StoreView {
        self.view()
    }
}

impl Clone for Store {
    fn clone(&self) -> (r: Self)
        ensures
            r@ == self@,
    {
        Store {
            id: self.id,
            name: self.name.clone(),
            company: self.company.clone(),
            address: clone_opt_string(&self.address),
            route: clone_opt_string(&self.route),
            store_type: self.store_type,
            created_at: clone_opt_string(&self.created_at),
            updated_at: clone_opt_string(&self.updated_at),
        }
    }
}

pub struct CreateStorePayload {
    pub name: String,
    pub company: String,
    pub address: Option<String>,
    pub route: String,
    pub store_type: StoreType,
}

pub struct UpdateStorePayload {
    pub name: Option<String>,
    pub company: Option<String>,
    pub address: Option<String>,
    pub route: Option<String>,
    pub store_type: Option<StoreType>,
}

/// A field-preserving copy of an optional text field.
pub fn clone_opt_string(o: &Option<String>) -> (r: Option<String>)
    ensures
        r == *o,
{
    match o {
        Some(s) => Some(s.clone()),
        None => None,
    }
}


/// A view-preserving copy of a cached collection, handed to readers as
/// their snapshot.
pub fn clone_stores(v: &Vec<Store>) -> (r: Vec<Store>)
    ensures
        r.deep_view() == v.deep_view(),
{
    let mut out: Vec<Store> = Vec::new();
    let mut i: usize = 0;
    proof {
        assert(out.deep_view() =~= v.deep_view().subrange(0, 0));
    }
    while i < v.len()
        invariant
            0 <= i <= v@.len(),
            v.deep_view().len() == v@.len(),
            out.deep_view() == v.deep_view().subrange(0, i as int),
        decreases v@.len() - i,
    {
        let e = (&v[i]).clone();
        proof {
            assert(v.deep_view()[i as int] == v@[i as int].deep_view());
            assert(e.deep_view() == v.deep_view()[i as int]);
        }
        let ghost pre_dv = out.deep_view();
        out.push(e);
        i += 1;
        proof {
            assert(out.deep_view() =~= pre_dv.push(e.deep_view())) by {
                assert forall|k: int| 0 <= k < pre_dv.len() implies #[trigger] out.deep_view()[k]
                    == pre_dv[k] by {
                    assert(out.deep_view()[k] == out@[k].deep_view());
                }
                assert(out.deep_view()[pre_dv.len() as int] == e.deep_view());
            }
            assert(out.deep_view() =~= v.deep_view().subrange(0, i as int));
        }
    }
    proof {
        assert(v.deep_view().subrange(0, v.deep_view().len() as int) =~= v.deep_view());
    }
    out
}

} // verus!
