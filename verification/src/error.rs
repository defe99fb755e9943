//! The domain error taxonomy. Each entity has its own error enum; the
//! application error wraps them and maps every variant onto one HTTP status
//! code, never leaking transport detail past this boundary.

use vstd::prelude::*;
use vstd::string::StringExecFns;

verus! {

#[derive(Debug)]
pub enum StoreError {
    NotFound(String),
    AlreadyExists(String),
    InvalidRoute(String),
    InvalidPayload(String),
    DatabaseError(String),
}

#[derive(Debug)]
pub enum PromoError {
    NotFound(String),
    AlreadyExists(String),
    InvalidId(String),
    InvalidPayload(String),
    DatabaseError(String),
}

#[derive(Debug)]
pub enum PromoTenorError {
    NotFound(String),
    AlreadyExists(String),
    InvalidId(String),
    InvalidTenor(String),
    InvalidVoucher(String),
    InvalidPayload(String),
    DatabaseError(String),
}

#[derive(Debug)]
pub enum PromoStoreError {
    NotFound(String),
    AlreadyExists(String),
    InvalidKey(String),
    InvalidPayload(String),
    DatabaseError(String),
}

#[derive(Debug)]
pub enum AppError {
    Store(StoreError),
    Promo(PromoError),
    PromoTenor(PromoTenorError),
    PromoStore(PromoStoreError),
    Unauthorized,
    InvalidToken(String),
    BadRequest(String),
    Internal(String),
}

impl Clone for StoreError {
    fn clone(&self) -> (r: Self)
        ensures
            r == *self,
    {
        match self {
            StoreError::NotFound(m) => StoreError::NotFound(m.clone()),
            StoreError::AlreadyExists(m) => StoreError::AlreadyExists(m.clone()),
            StoreError::InvalidRoute(m) => StoreError::InvalidRoute(m.clone()),
            StoreError::InvalidPayload(m) => StoreError::InvalidPayload(m.clone()),
            StoreError::DatabaseError(m) => StoreError::DatabaseError(m.clone()),
        }
    }
}

impl Clone for PromoError {
    fn clone(&self) -> (r: Self)
        ensures
            r == *self,
    {
        match self {
            PromoError::NotFound(m) => PromoError::NotFound(m.clone()),
            PromoError::AlreadyExists(m) => PromoError::AlreadyExists(m.clone()),
            PromoError::InvalidId(m) => PromoError::InvalidId(m.clone()),
            PromoError::InvalidPayload(m) => PromoError::InvalidPayload(m.clone()),
            PromoError::DatabaseError(m) => PromoError::DatabaseError(m.clone()),
        }
    }
}

impl Clone for PromoTenorError {
    fn clone(&self) -> (r: Self)
        ensures
            r == *self,
    {
        match self {
            PromoTenorError::NotFound(m) => PromoTenorError::NotFound(m.clone()),
            PromoTenorError::AlreadyExists(m) => PromoTenorError::AlreadyExists(m.clone()),
            PromoTenorError::InvalidId(m) => PromoTenorError::InvalidId(m.clone()),
            PromoTenorError::InvalidTenor(m) => PromoTenorError::InvalidTenor(m.clone()),
            PromoTenorError::InvalidVoucher(m) => PromoTenorError::InvalidVoucher(m.clone()),
            PromoTenorError::InvalidPayload(m) => PromoTenorError::InvalidPayload(m.clone()),
            PromoTenorError::DatabaseError(m) => PromoTenorError::DatabaseError(m.clone()),
        }
    }
}

impl Clone for PromoStoreError {
    fn clone(&self) -> (r: Self)
        ensures
            r == *self,
    {
        match self {
            PromoStoreError::NotFound(m) => PromoStoreError::NotFound(m.clone()),
            PromoStoreError::AlreadyExists(m) => PromoStoreError::AlreadyExists(m.clone()),
            PromoStoreError::InvalidKey(m) => PromoStoreError::InvalidKey(m.clone()),
            PromoStoreError::InvalidPayload(m) => PromoStoreError::InvalidPayload(m.clone()),
            PromoStoreError::DatabaseError(m) => PromoStoreError::DatabaseError(m.clone()),
        }
    }
}

impl Clone for AppError {
    fn clone(&self) -> (r: Self)
        ensures
            r == *self,
    {
        match self {
            AppError::Store(e) => AppError::Store(e.clone()),
            AppError::Promo(e) => AppError::Promo(e.clone()),
            AppError::PromoTenor(e) => AppError::PromoTenor(e.clone()),
            AppError::PromoStore(e) => AppError::PromoStore(e.clone()),
            AppError::Unauthorized => AppError::Unauthorized,
            AppError::InvalidToken(m) => AppError::InvalidToken(m.clone()),
            AppError::BadRequest(m) => AppError::BadRequest(m.clone()),
            AppError::Internal(m) => AppError::Internal(m.clone()),
        }
    }
}

impl core::convert::From<StoreError> for AppError {
    fn from(err: StoreError) -> (r: AppError) {
        AppError::Store(err)
    }
}

impl vstd::std_specs::convert::FromSpecImpl<StoreError> for AppError {
    open spec fn obeys_from_spec() -> bool {
        true
    }

    open spec fn from_spec(err: StoreError) -> AppError {
        AppError::Store(err)
    }
}

impl core::convert::From<PromoError> for AppError {
    fn from(err: PromoError) -> (r: AppError) {
        AppError::Promo(err)
    }
}

impl vstd::std_specs::convert::FromSpecImpl<PromoError> for AppError {
    open spec fn obeys_from_spec() -> bool {
        true
    }

    open spec fn from_spec(err: PromoError) -> AppError {
        AppError::Promo(err)
    }
}

impl core::convert::From<PromoTenorError> for AppError {
    fn from(err: PromoTenorError) -> (r: AppError) {
        AppError::PromoTenor(err)
    }
}

impl vstd::std_specs::convert::FromSpecImpl<PromoTenorError> for AppError {
    open spec fn obeys_from_spec() -> bool {
        true
    }

    open spec fn from_spec(err: PromoTenorError) -> AppError {
        AppError::PromoTenor(err)
    }
}

impl core::convert::From<PromoStoreError> for AppError {
    fn from(err: PromoStoreError) -> (r: AppError) {
        AppError::PromoStore(err)
    }
}

impl vstd::std_specs::convert::FromSpecImpl<PromoStoreError> for AppError {
    open spec fn obeys_from_spec() -> bool {
        true
    }

    open spec fn from_spec(err: PromoStoreError) -> AppError {
        AppError::PromoStore(err)
    }
}

/// The text a store error reads as.
pub open spec fn spec_store_error_message(e: StoreError) -> Seq<char> {
    match e {
        StoreError::NotFound(m) => "Store not found: "@ + m@,
        StoreError::AlreadyExists(m) => "Store already exists: "@ + m@,
        StoreError::InvalidRoute(m) => "Invalid store route: "@ + m@,
        StoreError::InvalidPayload(m) => "Invalid store payload: "@ + m@,
        StoreError::DatabaseError(m) => "Store database error: "@ + m@,
    }
}

pub open spec fn spec_promo_error_message(e: PromoError) -> Seq<char> {
    match e {
        PromoError::NotFound(m) => "Promo not found: "@ + m@,
        PromoError::AlreadyExists(m) => "Promo already exists: "@ + m@,
        PromoError::InvalidId(m) => "Invalid promo ID: "@ + m@,
        PromoError::InvalidPayload(m) => "Invalid promo payload: "@ + m@,
        PromoError::DatabaseError(m) => "Promo database error: "@ + m@,
    }
}

pub open spec fn spec_promo_tenor_error_message(e: PromoTenorError) -> Seq<char> {
    match e {
        PromoTenorError::NotFound(m) => "Promo tenor not found: "@ + m@,
        PromoTenorError::AlreadyExists(m) => "Promo tenor already exists: "@ + m@,
        PromoTenorError::InvalidId(m) => "Invalid promo tenor ID: "@ + m@,
        PromoTenorError::InvalidTenor(m) => "Invalid tenor value: "@ + m@,
        PromoTenorError::InvalidVoucher(m) => "Invalid voucher code: "@ + m@,
        PromoTenorError::InvalidPayload(m) => "Invalid promo tenor payload: "@ + m@,
        PromoTenorError::DatabaseError(m) => "Promo tenor database error: "@ + m@,
    }
}

pub open spec fn spec_promo_store_error_message(e: PromoStoreError) -> Seq<char> {
    match e {
        PromoStoreError::NotFound(m) => "Promo store relation not found: "@ + m@,
        PromoStoreError::AlreadyExists(m) => "Promo store relation already exists: "@ + m@,
        PromoStoreError::InvalidKey(m) => "Invalid promo store key: "@ + m@,
        PromoStoreError::InvalidPayload(m) => "Invalid promo store payload: "@ + m@,
        PromoStoreError::DatabaseError(m) => "Promo store database error: "@ + m@,
    }
}

pub open spec fn spec_app_error_message(e: AppError) -> Seq<char> {
    match e {
        AppError::Store(se) => spec_store_error_message(se),
        AppError::Promo(pe) => spec_promo_error_message(pe),
        AppError::PromoTenor(te) => spec_promo_tenor_error_message(te),
        AppError::PromoStore(pse) => spec_promo_store_error_message(pse),
        AppError::Unauthorized => "Unauthorized"@,
        AppError::InvalidToken(m) => "Invalid token: "@ + m@,
        AppError::BadRequest(m) => "Bad request: "@ + m@,
        AppError::Internal(m) => "Internal error: "@ + m@,
    }
}

fn prefixed(prefix: &str, m: &String) -> (r: String)
    ensures
        r@ == prefix@ + m@,
{
    let mut s = prefix.to_owned();
    s.append(m.as_str());
    s
}

impl StoreError {
    pub fn message(&self) -> (r: String)
        ensures
            r@ == spec_store_error_message(*self),
    {
        match self {
            StoreError::NotFound(m) => prefixed("Store not found: ", m),
            StoreError::AlreadyExists(m) => prefixed("Store already exists: ", m),
            StoreError::InvalidRoute(m) => prefixed("Invalid store route: ", m),
            StoreError::InvalidPayload(m) => prefixed("Invalid store payload: ", m),
            StoreError::DatabaseError(m) => prefixed("Store database error: ", m),
        }
    }
}

impl PromoError {
    pub fn message(&self) -> (r: String)
        ensures
            r@ == spec_promo_error_message(*self),
    {
        match self {
            PromoError::NotFound(m) => prefixed("Promo not found: ", m),
            PromoError::AlreadyExists(m) => prefixed("Promo already exists: ", m),
            PromoError::InvalidId(m) => prefixed("Invalid promo ID: ", m),
            PromoError::InvalidPayload(m) => prefixed("Invalid promo payload: ", m),
            PromoError::DatabaseError(m) => prefixed("Promo database error: ", m),
        }
    }
}

impl PromoTenorError {
    pub fn message(&self) -> (r: String)
        ensures
            r@ == spec_promo_tenor_error_message(*self),
    {
        match self {
            PromoTenorError::NotFound(m) => prefixed("Promo tenor not found: ", m),
            PromoTenorError::AlreadyExists(m) => prefixed("Promo tenor already exists: ", m),
            PromoTenorError::InvalidId(m) => prefixed("Invalid promo tenor ID: ", m),
            PromoTenorError::InvalidTenor(m) => prefixed("Invalid tenor value: ", m),
            PromoTenorError::InvalidVoucher(m) => prefixed("Invalid voucher code: ", m),
            PromoTenorError::InvalidPayload(m) => prefixed("Invalid promo tenor payload: ", m),
            PromoTenorError::DatabaseError(m) => prefixed("Promo tenor database error: ", m),
        }
    }
}

impl PromoStoreError {
    pub fn message(&self) -> (r: String)
        ensures
            r@ == spec_promo_store_error_message(*self),
    {
        match self {
            PromoStoreError::NotFound(m) => prefixed("Promo store relation not found: ", m),
            PromoStoreError::AlreadyExists(m) => prefixed("Promo store relation already exists: ", m),
            PromoStoreError::InvalidKey(m) => prefixed("Invalid promo store key: ", m),
            PromoStoreError::InvalidPayload(m) => prefixed("Invalid promo store payload: ", m),
            PromoStoreError::DatabaseError(m) => prefixed("Promo store database error: ", m),
        }
    }
}

/// The HTTP status an application error maps onto: not-found 404, conflict
/// 409, invalid input 400, internal or database failure 500, and every
/// authentication failure 401 whatever its cause.
pub open spec fn spec_status_code(e: AppError) -> u16 {
    match e {
        AppError::Store(StoreError::NotFound(_)) => 404u16,
        AppError::Store(StoreError::AlreadyExists(_)) => 409u16,
        AppError::Store(StoreError::InvalidRoute(_)) => 400u16,
        AppError::Store(StoreError::InvalidPayload(_)) => 400u16,
        AppError::Store(StoreError::DatabaseError(_)) => 500u16,
        AppError::Promo(PromoError::NotFound(_)) => 404u16,
        AppError::Promo(PromoError::AlreadyExists(_)) => 409u16,
        AppError::Promo(PromoError::InvalidId(_)) => 400u16,
        AppError::Promo(PromoError::InvalidPayload(_)) => 400u16,
        AppError::Promo(PromoError::DatabaseError(_)) => 500u16,
        AppError::PromoTenor(PromoTenorError::NotFound(_)) => 404u16,
        AppError::PromoTenor(PromoTenorError::AlreadyExists(_)) => 409u16,
        AppError::PromoTenor(PromoTenorError::InvalidId(_)) => 400u16,
        AppError::PromoTenor(PromoTenorError::InvalidTenor(_)) => 400u16,
        AppError::PromoTenor(PromoTenorError::InvalidVoucher(_)) => 400u16,
        AppError::PromoTenor(PromoTenorError::InvalidPayload(_)) => 400u16,
        AppError::PromoTenor(PromoTenorError::DatabaseError(_)) => 500u16,
        AppError::PromoStore(PromoStoreError::NotFound(_)) => 404u16,
        AppError::PromoStore(PromoStoreError::AlreadyExists(_)) => 409u16,
        AppError::PromoStore(PromoStoreError::InvalidKey(_)) => 400u16,
        AppError::PromoStore(PromoStoreError::InvalidPayload(_)) => 400u16,
        AppError::PromoStore(PromoStoreError::DatabaseError(_)) => 500u16,
        AppError::Unauthorized => 401u16,
        AppError::InvalidToken(_) => 401u16,
        AppError::BadRequest(_) => 400u16,
        AppError::Internal(_) => 500u16,
    }
}

/// The body text the HTTP response carries: the bare payload of the
/// variant, with fixed words only where a variant has no payload.
pub open spec fn spec_response_body(e: AppError) -> Seq<char> {
    match e {
        AppError::Store(StoreError::NotFound(m)) => m@,
        AppError::Store(StoreError::AlreadyExists(m)) => m@,
        AppError::Store(StoreError::InvalidRoute(m)) => m@,
        AppError::Store(StoreError::InvalidPayload(m)) => m@,
        AppError::Store(StoreError::DatabaseError(m)) => m@,
        AppError::Promo(PromoError::NotFound(m)) => m@,
        AppError::Promo(PromoError::AlreadyExists(m)) => m@,
        AppError::Promo(PromoError::InvalidId(m)) => m@,
        AppError::Promo(PromoError::InvalidPayload(m)) => m@,
        AppError::Promo(PromoError::DatabaseError(m)) => m@,
        AppError::PromoTenor(PromoTenorError::NotFound(m)) => m@,
        AppError::PromoTenor(PromoTenorError::AlreadyExists(m)) => m@,
        AppError::PromoTenor(PromoTenorError::InvalidId(m)) => m@,
        AppError::PromoTenor(PromoTenorError::InvalidTenor(m)) => m@,
        AppError::PromoTenor(PromoTenorError::InvalidVoucher(m)) => m@,
        AppError::PromoTenor(PromoTenorError::InvalidPayload(m)) => m@,
        AppError::PromoTenor(PromoTenorError::DatabaseError(m)) => m@,
        AppError::PromoStore(PromoStoreError::NotFound(m)) => m@,
        AppError::PromoStore(PromoStoreError::AlreadyExists(m)) => m@,
        AppError::PromoStore(PromoStoreError::InvalidKey(m)) => m@,
        AppError::PromoStore(PromoStoreError::InvalidPayload(m)) => m@,
        AppError::PromoStore(PromoStoreError::DatabaseError(m)) => m@,
        AppError::Unauthorized => "Unauthorized"@,
        AppError::InvalidToken(m) => m@,
        AppError::BadRequest(m) => m@,
        AppError::Internal(m) => m@,
    }
}

impl AppError {
    pub fn message(&self) -> (r: String)
        ensures
            r@ == spec_app_error_message(*self),
    {
        match self {
            AppError::Store(e) => e.message(),
            AppError::Promo(e) => e.message(),
            AppError::PromoTenor(e) => e.message(),
            AppError::PromoStore(e) => e.message(),
            AppError::Unauthorized => "Unauthorized".to_owned(),
            AppError::InvalidToken(m) => prefixed("Invalid token: ", m),
            AppError::BadRequest(m) => prefixed("Bad request: ", m),
            AppError::Internal(m) => prefixed("Internal error: ", m),
        }
    }

    /// The status code and body the surrounding HTTP layer writes for this
    /// error.
    pub fn response_parts(&self) -> (r: (u16, String))
        ensures
            r.0 == spec_status_code(*self),
            r.1@ == spec_response_body(*self),
    {
        let status = self.status_code();
        let body = match self {
            AppError::Store(StoreError::NotFound(m)) => m.clone(),
            AppError::Store(StoreError::AlreadyExists(m)) => m.clone(),
            AppError::Store(StoreError::InvalidRoute(m)) => m.clone(),
            AppError::Store(StoreError::InvalidPayload(m)) => m.clone(),
            AppError::Store(StoreError::DatabaseError(m)) => m.clone(),
            AppError::Promo(PromoError::NotFound(m)) => m.clone(),
            AppError::Promo(PromoError::AlreadyExists(m)) => m.clone(),
            AppError::Promo(PromoError::InvalidId(m)) => m.clone(),
            AppError::Promo(PromoError::InvalidPayload(m)) => m.clone(),
            AppError::Promo(PromoError::DatabaseError(m)) => m.clone(),
            AppError::PromoTenor(PromoTenorError::NotFound(m)) => m.clone(),
            AppError::PromoTenor(PromoTenorError::AlreadyExists(m)) => m.clone(),
            AppError::PromoTenor(PromoTenorError::InvalidId(m)) => m.clone(),
            AppError::PromoTenor(PromoTenorError::InvalidTenor(m)) => m.clone(),
            AppError::PromoTenor(PromoTenorError::InvalidVoucher(m)) => m.clone(),
            AppError::PromoTenor(PromoTenorError::InvalidPayload(m)) => m.clone(),
            AppError::PromoTenor(PromoTenorError::DatabaseError(m)) => m.clone(),
            AppError::PromoStore(PromoStoreError::NotFound(m)) => m.clone(),
            AppError::PromoStore(PromoStoreError::AlreadyExists(m)) => m.clone(),
            AppError::PromoStore(PromoStoreError::InvalidKey(m)) => m.clone(),
            AppError::PromoStore(PromoStoreError::InvalidPayload(m)) => m.clone(),
            AppError::PromoStore(PromoStoreError::DatabaseError(m)) => m.clone(),
            AppError::Unauthorized => "Unauthorized".to_owned(),
            AppError::InvalidToken(m) => m.clone(),
            AppError::BadRequest(m) => m.clone(),
            AppError::Internal(m) => m.clone(),
        };
        (status, body)
    }

    pub fn status_code(&self) -> (r: u16)
        ensures
            r == spec_status_code(*self),
    {
        match self {
            AppError::Store(StoreError::NotFound(_)) => 404,
            AppError::Store(StoreError::AlreadyExists(_)) => 409,
            AppError::Store(StoreError::InvalidRoute(_)) => 400,
            AppError::Store(StoreError::InvalidPayload(_)) => 400,
            AppError::Store(StoreError::DatabaseError(_)) => 500,
            AppError::Promo(PromoError::NotFound(_)) => 404,
            AppError::Promo(PromoError::AlreadyExists(_)) => 409,
            AppError::Promo(PromoError::InvalidId(_)) => 400,
            AppError::Promo(PromoError::InvalidPayload(_)) => 400,
            AppError::Promo(PromoError::DatabaseError(_)) => 500,
            AppError::PromoTenor(PromoTenorError::NotFound(_)) => 404,
            AppError::PromoTenor(PromoTenorError::AlreadyExists(_)) => 409,
            AppError::PromoTenor(PromoTenorError::InvalidId(_)) => 400,
            AppError::PromoTenor(PromoTenorError::InvalidTenor(_)) => 400,
            AppError::PromoTenor(PromoTenorError::InvalidVoucher(_)) => 400,
            AppError::PromoTenor(PromoTenorError::InvalidPayload(_)) => 400,
            AppError::PromoTenor(PromoTenorError::DatabaseError(_)) => 500,
            AppError::PromoStore(PromoStoreError::NotFound(_)) => 404,
            AppError::PromoStore(PromoStoreError::AlreadyExists(_)) => 409,
            AppError::PromoStore(PromoStoreError::InvalidKey(_)) => 400,
            AppError::PromoStore(PromoStoreError::InvalidPayload(_)) => 400,
            AppError::PromoStore(PromoStoreError::DatabaseError(_)) => 500,
            AppError::Unauthorized => 401,
            AppError::InvalidToken(_) => 401,
            AppError::BadRequest(_) => 400,
            AppError::Internal(_) => 500,
        }
    }
}

} // verus!
