//! Verified core of the DSH command line tool: the labels, value formatting,
//! issue detection and argument handling of the DSH resource management subjects.
pub mod aclgroup;
pub mod api;
pub mod appcatalog;
pub mod bucket;
pub mod bundle;
pub mod certificate;
pub mod certificate_delete;
pub mod certificate_label;
pub mod env;
pub mod image;
pub mod issues;
pub mod lifecycle;
pub mod manifest;
pub mod metric;
pub mod nodepool;
pub mod platform;
pub mod proxy;
pub mod proxy_flow;
pub mod robot;
pub mod secret;
pub mod secret_label;
pub mod service;
pub mod subjects;
pub mod text;
pub mod value;
