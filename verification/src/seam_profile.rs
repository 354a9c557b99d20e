//! Seam-recognition profiles and their parameter tables.

pub mod backup;
pub mod codec;
pub mod dump;
pub mod flat_id;
pub mod manager;
pub mod param_value;
pub mod params_v0;
pub mod part_id;
pub mod persist;
pub mod profile;

pub use backup::{BackupAction, BackupOutcome, BackupProgress};
pub use dump::{SeamProfileMetaOnly, SeamProfilesInfo, SeamProfilesMetaOnly};
pub use flat_id::SeamParamFlatId;
pub use manager::{SeamProfileFFI, SeamProfileManager};
pub use param_value::SeamParamValue;
pub use params_v0::{SeamParamsPartsV0, SeamParamsV0};
pub use profile::{
    SeamProfile, SeamProfileMeta, SEAM_PROFILES_META_ONLY_SCHEMA, SEAM_PROFILES_SCHEMA,
    SEAM_PROFILE_SCHEMA,
};
pub use part_id::{
    SeamParamKpId, SeamParamOcId, SeamParamOpId, SeamParamSfId, SeamParamVpId, SeamParamXpId,
};
