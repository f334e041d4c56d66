//! Decision logic of the CADBase web front end: the state of each page and
//! fragment, the transition that a user action or a server reply causes, and
//! the requests and route changes that a transition asks for.

pub mod about_us;
pub mod api_keys;
pub mod auth;
pub mod catalog;
pub mod common;
pub mod company;
pub mod company_create;
pub mod company_register;
pub mod company_settings;
pub mod company_show;
pub mod company_supplier;
pub mod component_create;
pub mod component_settings;
pub mod component_show;
pub mod home;
pub mod profile;
pub mod query;
pub mod route;
pub mod service_create;
pub mod service_settings;
pub mod service_show;
pub mod standard_create;
pub mod standard_settings;
pub mod standard_show;
pub mod tender;
pub mod three_showcase;
pub mod type_access;
pub mod token_manager;
pub mod upload_favicon;
pub mod user_certificate;
pub mod user_list;
pub mod user_settings;
