//! A typed client for an activity-suggestion service: query criteria, the
//! query they make, and a decoder of the service's JSON answers.

pub mod criteria;
pub mod decode;
pub mod model;
pub mod outside;
pub mod selection;
pub mod text;

pub use criteria::{ActivityCriterion, Bound, CriterionValue, Decimal};
pub use decode::deserialize;
pub use model::{Activity, ActivityType, Error};
pub use selection::{criteria_for, random_criteria, CriteriaSelection, SERVICE_URL};
