pub mod syntax;
pub mod walker;
pub mod filter;
pub mod discovery;
pub mod crawl;
