pub mod digits;
pub mod html;
pub mod text;
pub mod rarity;
pub mod labels;
pub mod record;
pub mod partition;
pub mod convergence;
pub mod sync;
pub mod navigator;
pub mod ptcg;
pub mod error;
pub mod pipeline;
pub mod listing;
