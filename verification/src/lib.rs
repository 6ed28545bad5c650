//! Verified core of a CVE search engine: CPE 2.3 identifiers, version-range
//! match predicates, AND/OR configuration trees, record projection, and the
//! query pipeline with its LRU result cache.

pub mod apperror;
pub mod cache;
pub mod component;
pub mod cpe;
pub mod engine;
pub mod feed;
pub mod cpe_type;
pub mod laws;
pub mod models;
pub mod node;
pub mod record;
pub mod settings;
pub mod strutil;
pub mod versioncmp;

pub use cache::{CacheEntry, ResultCache};
pub use component::Component;
pub use engine::{MatchedCVE, Query, CVSS, CVSSVData};
pub use cpe::CPE23;
pub use cpe_type::CpeType;
pub use node::{Match, Node, Operator, Product};
pub use record::{
    CveRecord, CVSSV2, CVSSV3, Configurations, Description, DescriptionData, Impact,
    ImpactMetricV2, ImpactMetricV3, Info, Meta, ProblemType, ProblemTypeDataItem,
    ProblemTypeDescription, Reference, References,
};
pub use apperror::{bad_request_body, internal_server_error, ApplicationError};
pub use engine::{Candidate, CveMeta, EngineError, QueryOutcome};
pub use feed::{CVEContainer, List};
pub use models::{NewCVE, NewObject, Object};
pub use settings::{ApiSettings, DatabaseSettings};
pub use versioncmp::CmpOp;
