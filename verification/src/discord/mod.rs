//! The match card: performance grade, Data Dragon asset tables, the card
//! view-model and its HTML.
pub mod alerts;
pub mod ddragon;
pub mod demo;
pub mod grade;
pub mod image_gen;
pub mod replies;
pub mod scorecard;
