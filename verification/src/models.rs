//! The shapes of job results that the service reports.

pub mod sampler_v2_job_result;
