//! The error taxonomy of the service layer, and its mapping to HTTP
//! status codes at the request boundary.

use vstd::prelude::*;

use crate::models::ProductType;

verus! {

/// Every failure the core can surface. `NotFound` carries the entity kind
/// that was looked up and missed.
#[derive(Clone, Copy, Debug, PartialEq, Eq, Structural)]
pub enum ApiError {
    NotFound(ProductType),
    AlreadyExists,
    InvalidCredentials,
    Unauthorized,
    Forbidden,
    InsufficientStock,
    MissingStockInfo,
    InvalidRequest,
    DataAccessError,
}

/// The HTTP status that the request boundary reports for an error.
pub open spec fn status_of(e: ApiError) -> u16 {
    match e {
        ApiError::NotFound(_) => 404,
        ApiError::AlreadyExists => 400,
        ApiError::InvalidRequest => 400,
        ApiError::InvalidCredentials => 401,
        ApiError::Unauthorized => 401,
        ApiError::Forbidden => 403,
        ApiError::InsufficientStock => 500,
        ApiError::MissingStockInfo => 500,
        ApiError::DataAccessError => 500,
    }
}

impl ApiError {
    /// HTTP status code for this error.
    pub fn status_code(&self) -> (r: u16)
        ensures
            r == status_of(*self),
    {
        match self {
            ApiError::NotFound(_) => 404,
            ApiError::AlreadyExists => 400,
            ApiError::InvalidRequest => 400,
            ApiError::InvalidCredentials => 401,
            ApiError::Unauthorized => 401,
            ApiError::Forbidden => 403,
            ApiError::InsufficientStock => 500,
            ApiError::MissingStockInfo => 500,
            ApiError::DataAccessError => 500,
        }
    }

    /// A fixed description for the error body at the request boundary.
    pub fn message(&self) -> (r: &'static str)
        ensures
            r@ == message_of(*self),
    {
        match self {
            ApiError::NotFound(ProductType::Product) => "Product not found",
            ApiError::NotFound(ProductType::Handmade) => "Handmade product not found",
            ApiError::NotFound(ProductType::Build) => "Build not found",
            ApiError::AlreadyExists => "User already exists",
            ApiError::InvalidCredentials => "Invalid credentials",
            ApiError::Unauthorized => "Unauthorized",
            ApiError::Forbidden => "Forbidden",
            ApiError::InsufficientStock => "Insufficient stock",
            ApiError::MissingStockInfo => "Product has no stock information",
            ApiError::InvalidRequest => "Invalid request",
            ApiError::DataAccessError => "Data access error",
        }
    }
}

/// The description each error variant maps to.
pub open spec fn message_of(e: ApiError) -> Seq<char> {
    match e {
        ApiError::NotFound(ProductType::Product) => "Product not found"@,
        ApiError::NotFound(ProductType::Handmade) => "Handmade product not found"@,
        ApiError::NotFound(ProductType::Build) => "Build not found"@,
        ApiError::AlreadyExists => "User already exists"@,
        ApiError::InvalidCredentials => "Invalid credentials"@,
        ApiError::Unauthorized => "Unauthorized"@,
        ApiError::Forbidden => "Forbidden"@,
        ApiError::InsufficientStock => "Insufficient stock"@,
        ApiError::MissingStockInfo => "Product has no stock information"@,
        ApiError::InvalidRequest => "Invalid request"@,
        ApiError::DataAccessError => "Data access error"@,
    }
}

} // verus!
