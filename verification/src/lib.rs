//! Parameter store of a seam-recognition controller: the register table, the
//! profiles that carry it, the manager that owns them, and the rules by which
//! they are persisted and backed up.

pub mod error;
pub mod json;
pub mod seam_profile;
pub mod text;
pub mod utils;
pub mod video;

pub use error::{JsonError, SeamProfileError};
pub use seam_profile::{
    BackupAction, BackupOutcome, BackupProgress, SeamParamFlatId, SeamParamKpId, SeamParamOcId,
    SeamParamOpId, SeamParamSfId, SeamParamValue, SeamParamVpId, SeamParamXpId,
    SeamParamsPartsV0, SeamParamsV0, SeamProfile, SeamProfileFFI, SeamProfileManager,
    SeamProfileMeta, SeamProfileMetaOnly, SeamProfilesInfo, SeamProfilesMetaOnly,
    SEAM_PROFILES_META_ONLY_SCHEMA, SEAM_PROFILES_SCHEMA, SEAM_PROFILE_SCHEMA,
};
pub use utils::{
    circular_plan, CircularPlan, CircularWrite, FileDigest, FpsCounter, FpsSample, Timestamp,
};
pub use video::{Buffer, BufferMap, VideoFrame, VideoInfo};
