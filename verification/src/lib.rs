//! Bootstrap resampling for univariate samples.
//!
//! Given two samples of observations and a statistic over a pair of samples,
//! the library computes the empirical sampling distribution of the statistic
//! by bootstrap resampling: it draws many resamples (with replacement) from
//! each input sample and evaluates the statistic on each pair of resamples.

pub mod error;
pub mod rng;
pub mod sample;
pub mod resamples;
pub mod tuple;
mod sys;
pub mod univariate;
