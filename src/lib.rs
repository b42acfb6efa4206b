//! Resolver core of a GraphQL gateway in front of a video/tag/playlist REST
//! backend: endpoint routing, envelope decoding, polymorphic tag and
//! notification resolution, lazy field hydration and request contexts.
#![allow(non_snake_case)]

pub mod oid;
pub mod envelope;
pub mod context;
pub mod endpoint;
pub mod models;
pub mod users;
pub mod author_db;
pub mod edit_tags;
pub mod notification;
pub mod rating;
pub mod comment;
pub mod get_video;
pub mod playlist;
pub mod list_video;
pub mod tags;
pub mod stats;
pub mod leaderboard;
pub mod pv_subscription;
pub mod post_video;
pub mod edit_video;
pub mod tag_history;
pub mod common;
pub mod gql;
