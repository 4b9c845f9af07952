//! What the frontend shows of the DAOs, projects and shares of a user.

pub mod my_daos;
pub mod my_projects;
pub mod my_shares;
pub mod shares_distribution;
pub mod income_vs_spending;
