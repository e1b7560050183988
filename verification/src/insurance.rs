//! Insurance domain vocabulary: lines, currencies, lifecycle states,
//! products, rate factors and premium calculations.

use vstd::prelude::*;
use crate::ids::{CustomerId, PolicyId, ProductId, QuoteId, UserId, AgentId};

verus! {

/// Government-issued national identity document type.
#[derive(Debug, Clone, Copy, PartialEq, Eq, Structural)]
pub enum NationalIdType {
    Ssn,
    Itin,
    Aadhar,
    Pan,
    Other,
}

/// Broad line of insurance business.
#[derive(Debug, Clone, Copy, PartialEq, Eq, Structural)]
pub enum InsuranceType {
    Auto,
    Life,
    Health,
    Property,
    Marine,
}

/// ISO 4217 currencies in use on the platform.
#[derive(Debug, Clone, Copy, PartialEq, Eq, Structural)]
pub enum Currency {
    Usd,
    Inr,
    Aed,
}

#[derive(Debug, Clone, Copy, PartialEq, Eq, Structural)]
pub enum QuoteState {
    QuickQuote,
    Quoted,
    Bound,
    Issued,
    Expired,
    Cancelled,
}

#[derive(Debug, Clone, Copy, PartialEq, Eq, Structural)]
pub enum PolicyState {
    Active,
    Expired,
    Cancelled,
}

/// An insurance product offered on the platform.
#[derive(Debug)]
pub struct Product {
    pub id: ProductId,
    pub name: String,
    pub insurance_type: InsuranceType,
    pub country: String,
    pub currency: Currency,
    pub description: Option<String>,
}

/// Policyholder. Instants are microseconds since the Unix epoch.
#[derive(Debug)]
pub struct Customer {
    pub id: CustomerId,
    pub user_id: UserId,
    pub name: String,
    pub email: String,
    pub phone: String,
    pub country: String,
    pub currency: Currency,
    pub national_id: Option<String>,
    pub national_id_type: Option<NationalIdType>,
    pub address: Option<String>,
    pub created_at: i64,
}

/// A licensed agent; the commission rate is in basis points.
#[derive(Debug)]
pub struct Agent {
    pub id: AgentId,
    pub name: String,
    pub email: String,
    pub commission_rate_bp: i64,
    pub country: String,
    pub created_at: i64,
}

/// A single multiplicative adjustment of a premium.
#[derive(Debug)]
pub struct RateFactor {
    pub name: String,
    /// The multiplier, in parts per million (1.0 is 1_000_000).
    pub value_ppm: i64,
    pub description: Option<String>,
}

/// Mathematical model of a [`RateFactor`].
pub struct RateFactorSpec {
    pub name: Seq<char>,
    pub value_ppm: int,
    pub description: Option<Seq<char>>,
}

/// The text of an optional string.
pub open spec fn opt_text(o: Option<String>) -> Option<Seq<char>> {
    match o {
        Some(s) => Some(s@),
        None => None,
    }
}

impl View for RateFactor {
    type V = RateFactorSpec;

    open spec fn view(&self) -> RateFactorSpec {
        RateFactorSpec {
            name: self.name@,
            value_ppm: self.value_ppm as int,
            description: opt_text(self.description),
        }
    }
}

/// The models of a sequence of rate factors.
pub open spec fn factors_view(v: Seq<RateFactor>) -> Seq<RateFactorSpec> {
    v.map_values(|f: RateFactor| f@)
}

pub fn clone_opt_string(o: &Option<String>) -> (r: Option<String>)
    ensures
        r == *o,
{
    match o {
        Some(s) => Some(s.clone()),
        None => None,
    }
}

impl Clone for RateFactor {
    fn clone(&self) -> (r: Self)
        ensures
            r == *self,
    {
        RateFactor {
            name: self.name.clone(),
            value_ppm: self.value_ppm,
            description: clone_opt_string(&self.description),
        }
    }
}

/// Full breakdown of a premium computation: the base rate in millionths
/// of a currency unit, the factors, and the final premium in cents.
#[derive(Debug)]
pub struct PremiumCalculation {
    pub base_rate_micros: i128,
    pub factors: Vec<RateFactor>,
    pub final_premium_cents: i128,
    pub currency: Currency,
}

/// Mathematical model of a [`PremiumCalculation`].
pub struct PremiumCalculationSpec {
    pub base_rate_micros: int,
    pub factors: Seq<RateFactorSpec>,
    pub final_premium_cents: int,
    pub currency: Currency,
}

impl View for PremiumCalculation {
    type V = PremiumCalculationSpec;

    open spec fn view(&self) -> PremiumCalculationSpec {
        PremiumCalculationSpec {
            base_rate_micros: self.base_rate_micros as int,
            factors: factors_view(self.factors@),
            final_premium_cents: self.final_premium_cents as int,
            currency: self.currency,
        }
    }
}

/// A pricing quote issued to a customer before binding (premium in cents,
/// instants in microseconds since the Unix epoch).
#[derive(Debug)]
pub struct Quote {
    pub id: QuoteId,
    pub customer_id: CustomerId,
    pub product_id: ProductId,
    pub state: QuoteState,
    pub premium_cents: i64,
    pub currency: Currency,
    /// Coverage details, as JSON object text.
    pub coverage_json: String,
    pub created_at: i64,
    pub updated_at: i64,
}

/// A bound policy's identifiers and terms (instants in microseconds).
#[derive(Debug)]
pub struct Policy {
    pub id: PolicyId,
    pub quote_id: QuoteId,
    pub policy_number: String,
    pub customer_id: CustomerId,
    pub product_id: ProductId,
    pub state: PolicyState,
    pub premium_cents: i64,
    pub currency: Currency,
    pub start_date: i64,
    pub end_date: i64,
    pub pdf_url: Option<String>,
    /// Coverage details matching the quote, as JSON object text.
    pub coverage_json: String,
    pub created_at: i64,
}

} // verus!
