//! Logic of a documentation server for data transformation projects.
pub mod analytics;
pub mod assets;
pub mod base_laws;
pub mod catalogs;
pub mod column_lineage;
pub mod delayed_table;
pub mod detail_laws;
pub mod dist_info;
pub mod encoding;
pub mod exposures;
pub mod facet_laws;
pub mod file_laws;
pub mod files;
pub mod filter_laws;
pub mod find;
pub mod groups;
pub mod health;
pub mod highlight;
pub mod identity;
pub mod hit_laws;
pub mod json;
pub mod layer_laws;
pub mod lineage;
pub mod lineage_laws;
pub mod list_laws;
pub mod listing;
pub mod macros;
pub mod meaning;
pub mod metrics;
pub mod model_laws;
pub mod models;
pub mod node_base;
pub mod node_laws;
pub mod nodes;
pub mod order;
pub mod pagination;
pub mod probe;
pub mod project;
pub mod rank_laws;
pub mod ranking;
pub mod reply_laws;
pub mod result_laws;
pub mod saved_queries;
pub mod search;
pub mod search_laws;
pub mod search_sql;
pub mod seed_io;
pub mod seed_laws;
pub mod seeds;
pub mod sort_laws;
pub mod sql;
pub mod table;
pub mod text;
pub mod text_laws;
