//! Core logic of a reader for articles saved on a wallabag server.

pub mod text;
pub mod article;
pub mod article_filter;
pub mod article_sorter;
pub mod articles_view;
pub mod key;
pub mod account;
pub mod secret;
pub mod articles;
pub mod web;
pub mod login;
pub mod preview_image;
pub mod article_page;
pub mod client;
pub mod window;
pub mod window_state;
pub mod application;
pub mod article_object;
