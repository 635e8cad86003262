//! Fulfillment places and whether they take orders.
use vstd::prelude::*;

verus! {

/// The kind of a fulfillment place.
#[derive(Debug, Clone, Copy, PartialEq, Eq, Structural)]
pub enum PlaceFulfillmentType {
    SelfEmployed,
    Subdivision,
    Distribution,
    Customer,
    Indirect,
}

/// The operating state of a fulfillment place.
#[derive(Debug, Clone, Copy, PartialEq, Eq, Structural)]
pub enum PlaceFulfillmentStatus {
    Active,
    Closed,
    Suspended,
    LawEnforcementSanction,
    Breakdown,
    InventoryQuantityMismatch,
    ExceededQuantityLimit,
    ExtremeWeatherProblem,
    Delayed,
    DelayedOverOneHour,
}

/// The code under which a status is stored.
pub open spec fn status_code_of(s: PlaceFulfillmentStatus) -> int {
    match s {
        PlaceFulfillmentStatus::Active => 0,
        PlaceFulfillmentStatus::Closed => -1,
        PlaceFulfillmentStatus::Suspended => -2,
        PlaceFulfillmentStatus::LawEnforcementSanction => -3,
        PlaceFulfillmentStatus::Breakdown => -4,
        PlaceFulfillmentStatus::InventoryQuantityMismatch => -5,
        PlaceFulfillmentStatus::ExceededQuantityLimit => 1,
        PlaceFulfillmentStatus::ExtremeWeatherProblem => 2,
        PlaceFulfillmentStatus::Delayed => 3,
        PlaceFulfillmentStatus::DelayedOverOneHour => 4,
    }
}

impl PlaceFulfillmentStatus {
    pub fn code(&self) -> (r: i32)
        ensures
            r == status_code_of(*self),
    {
        match self {
            PlaceFulfillmentStatus::Active => 0,
            PlaceFulfillmentStatus::Closed => -1,
            PlaceFulfillmentStatus::Suspended => -2,
            PlaceFulfillmentStatus::LawEnforcementSanction => -3,
            PlaceFulfillmentStatus::Breakdown => -4,
            PlaceFulfillmentStatus::InventoryQuantityMismatch => -5,
            PlaceFulfillmentStatus::ExceededQuantityLimit => 1,
            PlaceFulfillmentStatus::ExtremeWeatherProblem => 2,
            PlaceFulfillmentStatus::Delayed => 3,
            PlaceFulfillmentStatus::DelayedOverOneHour => 4,
        }
    }
}

/// A fulfillment place. Its currency rate is kept by the caller.
#[derive(Debug, Clone, PartialEq, Eq)]
pub struct PlaceDomain {
    pub id: i32,
    pub place_name: String,
    pub fulfillment_type: PlaceFulfillmentType,
    pub fulfillment_status: PlaceFulfillmentStatus,
    pub open_time: Vec<u32>,
    pub close_time: Vec<u32>,
    pub is_public: bool,
    pub fc_able_split_shipping: bool,
    pub min_shipping_amount_krw: Option<u32>,
    pub base_currency_code: Option<String>,
    pub post_code: String,
    pub address: String,
    pub address_detail: String,
    pub sub: Option<String>,
}

/// Whether a place in this state, of this kind and visibility, takes orders:
/// it must be operating (possibly late or hindered by weather), public, and
/// not a customer's own place.
pub open spec fn takes_orders(
    status: PlaceFulfillmentStatus,
    is_public: bool,
    kind: PlaceFulfillmentType,
) -> bool {
    (status == PlaceFulfillmentStatus::Active || status == PlaceFulfillmentStatus::Delayed || status
        == PlaceFulfillmentStatus::DelayedOverOneHour || status
        == PlaceFulfillmentStatus::ExtremeWeatherProblem) && is_public && kind
        != PlaceFulfillmentType::Customer
}

impl PlaceDomain {
    pub fn can_order(&self) -> (r: bool)
        ensures
            r == takes_orders(self.fulfillment_status, self.is_public, self.fulfillment_type),
    {
        (self.fulfillment_status == PlaceFulfillmentStatus::Active || self.fulfillment_status
            == PlaceFulfillmentStatus::Delayed || self.fulfillment_status
            == PlaceFulfillmentStatus::DelayedOverOneHour || self.fulfillment_status
            == PlaceFulfillmentStatus::ExtremeWeatherProblem) && self.is_public && self.fulfillment_type
            != PlaceFulfillmentType::Customer
    }
}

} // verus!
